//! Quad-SPI device adapter logic for the ESP32-S3.
//!
//! A display bus hands over a transaction (instruction, address, dummy cycles
//! and data lines) together with a payload to send or a buffer to fill. This
//! crate decides what the SPI peripheral is asked to do, which memory the DMA
//! engine works on, and who holds the peripheral and its buffers at every
//! moment. It starts no transfer itself: the caller runs the transfer between
//! a `begin_*` and a `finish_*` call of [`device::EspHalQspiDevice`].
//!
//! * [`transaction`]: transactions and the transfer requests they become.
//! * [`memory`]: which payloads the DMA engine can send from where they are.
//! * [`device`]: the device with its handles, and the steps of a transfer.
//! * [`laws`]: what holds of the steps taken together.
pub mod device;
pub mod laws;
pub mod memory;
pub mod transaction;
