//! CST816 capacitive touch controller: register decoding.

use vstd::prelude::*;

verus! {

/// One touch report.
#[derive(Debug, Clone, Copy, Default)]
pub struct TouchPoint {
    pub gesture: u8,
    pub fingers: u8,
    pub x: u16,
    pub y: u16,
}

/// Identification registers of the controller.
#[derive(Debug, Clone, Copy, Default)]
pub struct TouchConfig {
    pub version: u8,
    pub chip_id: u8,
    pub project_id: u8,
    pub fw_version: u8,
}

/// A bus error of the controller.
#[derive(Debug)]
pub enum Error<E> {
    Bus(E),
}

/// The CST816 driver.
pub struct Cst816;

impl Cst816 {
    pub const REG_GESTURE_ID: u8 = 0x01;
    pub const REG_VERSION: u8 = 0x15;
    pub const REG_CHIP_ID: u8 = 0xA7;
    pub const REG_PROJECT_ID: u8 = 0xA8;
    pub const REG_FW_VERSION: u8 = 0xA9;
    pub const REG_DISABLE_AUTO_SLEEP: u8 = 0xFE;

    pub fn new() -> (r: Self) {
        Cst816
    }

    /// The touch report in the six registers read from `REG_GESTURE_ID` on:
    /// gesture, finger count, then 12-bit x and y (high nibble first).
    pub fn touch_from_registers(&self, buf: [u8; 6]) -> (r: TouchPoint)
        ensures
            r.gesture == buf[0],
            r.fingers == buf[1],
            r.x == (buf[2] % 16) as int * 256 + buf[3],
            r.y == (buf[4] % 16) as int * 256 + buf[5],
    {
        let b2 = buf[2];
        let b3 = buf[3];
        let b4 = buf[4];
        let b5 = buf[5];
        let x: u16 = (((b2 & 0x0F) as u16) << 8) | (b3 as u16);
        let y: u16 = (((b4 & 0x0F) as u16) << 8) | (b5 as u16);
        assert(x == (b2 % 16) as u16 * 256 + b3 as u16) by (bit_vector)
            requires
                x == (((b2 & 0x0F) as u16) << 8) | (b3 as u16),
        ;
        assert(y == (b4 % 16) as u16 * 256 + b5 as u16) by (bit_vector)
            requires
                y == (((b4 & 0x0F) as u16) << 8) | (b5 as u16),
        ;
        TouchPoint { gesture: buf[0], fingers: buf[1], x, y }
    }

    /// The identification read back from the four single-byte registers.
    pub fn config_from_registers(&self, version: u8, chip_id: u8, project_id: u8, fw_version: u8) -> (r:
        TouchConfig)
        ensures
            r.version == version,
            r.chip_id == chip_id,
            r.project_id == project_id,
            r.fw_version == fw_version,
    {
        TouchConfig { version, chip_id, project_id, fw_version }
    }

    /// The write that disables the controller's auto sleep.
    pub fn disable_auto_sleep_frame(&self) -> (r: [u8; 2])
        ensures
            r[0] == Cst816::REG_DISABLE_AUTO_SLEEP,
            r[1] == 10,
    {
        [Cst816::REG_DISABLE_AUTO_SLEEP, 10]
    }
}

} // verus!
