//! Typed models of the peripheral register blocks the drivers program
//! directly. Each model records exactly what the logic writes and reads; a
//! thin platform layer mirrors the models onto the real registers.

pub mod i2c;
pub mod rmt;
