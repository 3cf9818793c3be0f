//! The decisions of a touch keyboard board: which transfers its devices need, what each of its
//! tasks does next, and what its lights show.
pub mod buffers;
pub mod bus;
pub mod devices;
pub mod i2c_laws;
pub mod i2c_task;
pub mod led;
pub mod midi;
pub mod neopixel;
pub mod shared;
pub mod status;
pub mod ui_task;
