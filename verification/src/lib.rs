//! Protocol engine for an SD/SDHC memory card behind an SDIO bus controller.
//!
//! The crate decides everything the driver has to decide: which command words
//! go on the bus, in which order, how raw status and response registers are
//! decoded, how the initialization sequence advances, and when a block
//! transfer is complete.  Hardware access itself (register reads and writes,
//! DMA arming, busy-waiting) is left to a thin loop around the crate: each
//! decision step hands out an [`protocol::Action`] to perform and consumes an
//! [`protocol::Event`] with what the hardware answered.

pub mod init;
pub mod protocol;
pub mod sdcard;
pub mod transfer;
