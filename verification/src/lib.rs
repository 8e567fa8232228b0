//! Block function of the ChaCha family of stream ciphers.
//!
//! The engine turns a 256-bit key, a 64-bit nonce, a 64-bit block counter and a
//! round count into one 64-byte keystream block, and either hands the block out
//! or combines it with a caller's buffer by exclusive-or. Every executable
//! function carries a contract over the mathematical model in [`model`], and
//! the relations between the operations are proved in [`laws`].

use vstd::prelude::*;

pub mod block;
pub mod laws;
pub mod model;

verus! {

/// Size of one keystream block in bytes.
pub const BLOCK_SIZE: usize = 64;

/// Size of the secret key in bytes.
pub const KEY_SIZE: usize = 32;

/// Size of the nonce in bytes.
pub const IV_SIZE: usize = 8;

/// Number of 32-bit words in the cipher state.
pub const STATE_WORDS: usize = 16;

/// The words of the ASCII string "expand 32-byte k", read as little-endian.
pub const CONSTANTS: [u32; 4] = [0x6170_7865, 0x3320_646e, 0x7962_2d32, 0x6b20_6574];

} // verus!
