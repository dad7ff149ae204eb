//! Typed, bit-exact access to the register file of an SPI-attached
//! multi-channel delta-sigma ADC.
//!
//! The crate packs and unpacks named sub-byte fields into fixed-width byte
//! buffers (most-significant bit first), pairs each register layout with its
//! bus address and direction capability, and frames each register access as a
//! single bus transaction with a command byte. The bus exchange itself is left
//! to the caller; everything that decides which bytes go on the wire and what
//! the bytes coming back mean lives here, with proofs.

pub mod calibration;
pub mod catalog;
pub mod channel_config;
pub mod codec;
pub mod enums;
pub mod error;
pub mod filter;
pub mod frame;
pub mod register;

pub use error::DecodeError;
