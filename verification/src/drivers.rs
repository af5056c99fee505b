//! Register-level logic of the board's peripheral drivers.

pub mod backlight;
pub mod cst816;
pub mod pcf85063;
pub mod sdmmc;
pub mod st77916;
pub mod tca9554;
pub mod wifi;
