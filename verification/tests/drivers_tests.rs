use assistant_rs::drivers::backlight::{backlight_state_for, vendor_backlight_raw_duty};
use assistant_rs::drivers::cst816::Cst816;
use assistant_rs::drivers::pcf85063::{bcd_to_dec, Pcf85063};
use assistant_rs::drivers::sdmmc::{card_info_for_bytes, DummyTimeSource};
use assistant_rs::drivers::st77916::{window_bytes, Error as DisplayError, St77916, St77916Transport};
use assistant_rs::drivers::tca9554::Tca9554;
use assistant_rs::drivers::wifi::summary_from_scan;

#[test]
fn bcd_and_clock_registers() {
    assert_eq!(bcd_to_dec(0x59), 59);
    let dt = Pcf85063::new().datetime_from_registers([0xD9, 0x30, 0x23, 0x31, 0x12, 0x04, 0x26]);
    assert_eq!((dt.second, dt.minute, dt.hour), (59, 30, 23));
    assert_eq!(dt.day, 31);
    assert_eq!(dt.year, 26);
}

#[test]
fn touch_registers() {
    let p = Cst816::new().touch_from_registers([0x03, 1, 0xF1, 0x2C, 0x00, 0xB4]);
    assert_eq!(p.gesture, 3);
    assert_eq!(p.fingers, 1);
    assert_eq!(p.x, 0x12C);
    assert_eq!(p.y, 180);
}

#[test]
fn expander_pins() {
    let mut e = Tca9554::new();
    assert_eq!(e.output_state(), 0xFF);
    let f = e.write_pin::<()>(2, false).unwrap();
    assert_eq!(f, [0x01, 0xFB]);
    assert!(e.write_pin::<()>(8, true).is_err());
    assert_eq!(e.output_state(), 0xFB);
    assert_eq!(e.config_frame(0x00), [0x03, 0x00]);
}

#[test]
fn backlight_duty() {
    assert_eq!(vendor_backlight_raw_duty(0), 0);
    assert_eq!(vendor_backlight_raw_duty(100), 8191);
    assert_eq!(vendor_backlight_raw_duty(1), 172);
    assert_eq!(vendor_backlight_raw_duty(200), 8191);
    let s = backlight_state_for(150);
    assert_eq!(s.percent, 100);
}

#[test]
fn sd_card_size_and_stamp() {
    let c = card_info_for_bytes(32 * 1024 * 1024 * 1024);
    assert_eq!(c.capacity_mib, 32768);
    assert_eq!(c.sector_size, 512);
    let t = DummyTimeSource.get_timestamp();
    assert_eq!(t.year_since_1970, 56);
    assert_eq!(t.hours, 0);
}

#[test]
fn panel_words() {
    assert_eq!(window_bytes(0x0100, 0x0167), [0x01, 0x00, 0x01, 0x67]);
    assert_eq!(St77916::pack_qspi_param_word(0x2A), 0x0200_2A00);
    assert_eq!(St77916::pack_qspi_color_word(0x2C), 0x3200_2C00);
}

#[test]
fn scan_summary() {
    let s = summary_from_scan(70_000, &vec![-80, -40, -60]);
    assert_eq!(s.scanned_count, 70_000u32 as u16);
    assert_eq!(s.strongest_rssi, Some(-40));
    assert_eq!(summary_from_scan(0, &vec![]).strongest_rssi, None);
}

struct RecordingLink {
    writes: Vec<(Option<u8>, Vec<u8>)>,
    fail_at: Option<usize>,
}

impl St77916Transport for RecordingLink {
    fn write_param(&mut self, cmd: u8, data: &[u8]) -> Result<(), ()> {
        self.writes.push((Some(cmd), data.to_vec()));
        if self.fail_at == Some(self.writes.len() - 1) { Err(()) } else { Ok(()) }
    }

    fn write_color(&mut self, data: &[u8]) -> Result<(), ()> {
        self.writes.push((None, data.to_vec()));
        if self.fail_at == Some(self.writes.len() - 1) { Err(()) } else { Ok(()) }
    }
}

#[test]
fn flush_sets_the_window_then_sends_pixels() {
    let mut link = RecordingLink { writes: Vec::new(), fail_at: None };
    let r = St77916::new().flush_rgb565(&mut link, 0x0102, 3, 0x0304, 359, &[0xAB, 0xCD]);
    assert!(r.is_ok());
    assert_eq!(
        link.writes,
        vec![
            (Some(0x2A), vec![0x01, 0x02, 0x03, 0x04]),
            (Some(0x2B), vec![0x00, 0x03, 0x01, 0x67]),
            (None, vec![0xAB, 0xCD]),
        ]
    );
}

#[test]
fn window_stops_at_the_first_refused_write() {
    let mut link = RecordingLink { writes: Vec::new(), fail_at: Some(0) };
    let r = St77916::new().flush_rgb565(&mut link, 0, 0, 1, 1, &[1]);
    assert!(matches!(r, Err(DisplayError::Transport)));
    assert_eq!(link.writes.len(), 1);
    let mut link = RecordingLink { writes: Vec::new(), fail_at: Some(1) };
    let r = St77916::new().set_window(&mut link, 0, 0, 1, 1);
    assert!(matches!(r, Err(DisplayError::Transport)));
    assert_eq!(link.writes.len(), 2);
}
