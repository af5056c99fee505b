//! Board profile of the Waveshare ESP32-S3-Touch-LCD-1.85C.

use vstd::prelude::*;

verus! {

pub const BOARD_NAME: &'static str = "Waveshare ESP32-S3-Touch-LCD-1.85C / 1.85C-BOX";

pub const I2C_SCL_GPIO: u8 = 10;
pub const I2C_SDA_GPIO: u8 = 11;
pub const TOUCH_INT_GPIO: u8 = 4;
pub const BACKLIGHT_GPIO: u8 = 5;
pub const BATTERY_ADC_GPIO: u8 = 8;

pub const TCA9554_ADDR: u8 = 0x20;
pub const CST816_ADDR: u8 = 0x15;
pub const PCF85063_ADDR: u8 = 0x51;

/// Expander output bits.
pub const EXIO_TOUCH_RST: u8 = 0;
pub const EXIO_LCD_RST: u8 = 1;
pub const EXIO_SD_CS: u8 = 2;

pub const LCD_WIDTH: u16 = 360;
pub const LCD_HEIGHT: u16 = 360;

pub const BOARD_FLASH_MIB: u32 = 16;
pub const BOARD_PSRAM_MIB: u32 = 8;

/// Where the battery reading came from.
pub const BATTERY_SOURCE_UNAVAILABLE: &'static str = "NONE";
pub const BATTERY_SOURCE_RUST_DIAG: &'static str = "RUST ADC";
pub const BATTERY_SOURCE_C_SHIM_VENDOR: &'static str = "C SHIM ADC";

/// Battery ADC status texts.
pub const BATTERY_ADC_CONFIRMED_TEXT: &'static str = "ADC OK";
pub const BATTERY_ADC_MISSING_TEXT: &'static str = "ADC MISSING";
pub const BATTERY_ADC_PATH_TEXT: &'static str = "GPIO8 ADC1";

} // verus!
