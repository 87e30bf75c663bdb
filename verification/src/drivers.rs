pub mod adc;
pub mod gpio;
pub mod i2c;
pub mod lcd_hd44780;
pub mod spi;
pub mod uart;
