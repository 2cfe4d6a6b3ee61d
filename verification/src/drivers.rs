//! Pure parts of the board-level device drivers: record formats, register
//! encodings, unit conversions and the driver state machines whose bus
//! transfers the application performs.
pub mod config_record;
pub mod ds18b20;
pub mod ina237;
pub mod pca9554;
pub mod sw3538;
pub mod tca9548a;
pub mod tmp102;
