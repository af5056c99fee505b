//! Summary of a Wi-Fi access-point scan.

use vstd::prelude::*;

verus! {

/// How many access points a scan saw, and the strongest signal among those
/// it returned.
#[derive(Debug, Clone, Copy, Default)]
pub struct WifiScanSummary {
    pub scanned_count: u16,
    pub strongest_rssi: Option<i8>,
}

/// The largest value of `s`, if it has any.
pub open spec fn max_rssi(s: Seq<i8>) -> Option<i8>
    decreases s.len(),
{
    if s.len() == 0 {
        None
    } else {
        let last = s.last();
        match max_rssi(s.drop_last()) {
            None => Some(last),
            Some(m) => Some(if last > m { last } else { m }),
        }
    }
}

/// The summary of a scan that reported `count` access points and returned
/// records with the signal strengths `rssi` (the count is kept modulo 2^16,
/// as a 16-bit field holds it).
pub fn summary_from_scan(count: usize, rssi: &Vec<i8>) -> (r: WifiScanSummary)
    ensures
        r.scanned_count == count as u16,
        r.strongest_rssi == max_rssi(rssi@),
        r.strongest_rssi is Some <==> rssi@.len() > 0,
        r.strongest_rssi matches Some(m) ==> (forall|i: int| 0 <= i < rssi@.len() ==> rssi@[i] <= m),
        r.strongest_rssi matches Some(m) ==> rssi@.contains(m),
{
    let mut best: Option<i8> = None;
    let mut i: usize = 0;
    while i < rssi.len()
        invariant
            i <= rssi@.len(),
            best == max_rssi(rssi@.subrange(0, i as int)),
            best is Some <==> i > 0,
            best matches Some(m) ==> (forall|k: int| 0 <= k < i ==> rssi@[k] <= m),
            best matches Some(m) ==> (exists|k: int| 0 <= k < i && rssi@[k] == m),
        decreases rssi@.len() - i,
    {
        let v = rssi[i];
        proof {
            assert(rssi@.subrange(0, i as int + 1).drop_last() =~= rssi@.subrange(0, i as int));
        }
        best = match best {
            None => Some(v),
            Some(m) => Some(if v > m { v } else { m }),
        };
        i = i + 1;
    }
    proof {
        assert(rssi@.subrange(0, rssi@.len() as int) =~= rssi@);
    }
    WifiScanSummary { scanned_count: count as u16, strongest_rssi: best }
}

} // verus!
