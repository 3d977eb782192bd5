//! Model, update rules and screen content of a small weather clock: a device
//! that polls a forecast service, keeps the latest readings in an application
//! state and draws a clock, the temperatures, a weather icon and an hourly
//! precipitation graph on a 128x64 monochrome screen.

pub mod clock;
pub mod geometry;
pub mod screen;
pub mod state;
pub mod text;
pub mod weather;
