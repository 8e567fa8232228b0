//! The mathematical model of the block function: words, states and byte
//! strings as sequences, and the permutation as pure functions on them.

use vstd::prelude::*;
use crate::CONSTANTS;

verus! {

/// `x` rotated left by `n` bit positions, for `0 < n < 32`.
pub open spec fn rotl(x: u32, n: u32) -> u32 {
    (x << n) | (x >> ((32 - n) as u32))
}

/// One add-xor-rotate step on a state: `s[x] += s[y]; s[z] ^= s[x]; s[z] <<<= n`,
/// with the addition taken modulo 2^32. The three assignments happen in this
/// order, so the definition also covers indices that coincide.
pub open spec fn arx_step(s: Seq<u32>, x: int, y: int, z: int, n: u32) -> Seq<u32> {
    let s1 = s.update(x, s[x].wrapping_add(s[y]));
    let s2 = s1.update(z, s1[z] ^ s1[x]);
    s2.update(z, rotl(s2[z], n))
}

/// The quarter round on the words at indices `a`, `b`, `c`, `d`.
pub open spec fn quarter_round_words(s: Seq<u32>, a: int, b: int, c: int, d: int) -> Seq<u32> {
    let s1 = arx_step(s, a, b, d, 16);
    let s2 = arx_step(s1, c, d, b, 12);
    let s3 = arx_step(s2, a, b, d, 8);
    arx_step(s3, c, d, b, 7)
}

/// Quarter rounds down the four columns of the state, read as a 4x4 matrix.
pub open spec fn column_round(s: Seq<u32>) -> Seq<u32> {
    let s1 = quarter_round_words(s, 0, 4, 8, 12);
    let s2 = quarter_round_words(s1, 1, 5, 9, 13);
    let s3 = quarter_round_words(s2, 2, 6, 10, 14);
    quarter_round_words(s3, 3, 7, 11, 15)
}

/// Quarter rounds down the four diagonals of the state.
pub open spec fn diagonal_round(s: Seq<u32>) -> Seq<u32> {
    let s1 = quarter_round_words(s, 0, 5, 10, 15);
    let s2 = quarter_round_words(s1, 1, 6, 11, 12);
    let s3 = quarter_round_words(s2, 2, 7, 8, 13);
    quarter_round_words(s3, 3, 4, 9, 14)
}

/// One double round: the column round, then the diagonal round.
pub open spec fn double_round(s: Seq<u32>) -> Seq<u32> {
    diagonal_round(column_round(s))
}

/// `n` double rounds, one after the other.
pub open spec fn permute(s: Seq<u32>, n: nat) -> Seq<u32>
    decreases n,
{
    if n == 0 {
        s
    } else {
        double_round(permute(s, (n - 1) as nat))
    }
}

/// Word-wise sum modulo 2^32 of the permuted state and the state it started from.
pub open spec fn feed_forward(working: Seq<u32>, initial: Seq<u32>) -> Seq<u32> {
    Seq::new(16, |i: int| working[i].wrapping_add(initial[i]))
}

/// The 16 output words for a prepared state: `double_rounds` double rounds,
/// then the feed-forward.
pub open spec fn block_words(state: Seq<u32>, double_rounds: nat) -> Seq<u32> {
    feed_forward(permute(state, double_rounds), state)
}

/// The low 32 bits of a block counter.
pub open spec fn counter_low(counter: u64) -> u32 {
    (counter & 0xffff_ffff) as u32
}

/// The high 32 bits of a block counter.
pub open spec fn counter_high(counter: u64) -> u32 {
    ((counter >> 32) & 0xffff_ffff) as u32
}

/// The state with the counter written into words 12 (low half) and 13 (high half).
pub open spec fn with_counter(state: Seq<u32>, counter: u64) -> Seq<u32> {
    state.update(12, counter_low(counter)).update(13, counter_high(counter))
}

/// The four bytes of a word, least significant first.
pub open spec fn word_to_le_bytes(w: u32) -> Seq<u8> {
    seq![
        (w & 0xff) as u8,
        ((w >> 8) & 0xff) as u8,
        ((w >> 16) & 0xff) as u8,
        ((w >> 24) & 0xff) as u8,
    ]
}

/// The word whose bytes, least significant first, are `bytes[at..at + 4]`.
pub open spec fn word_from_le_bytes(bytes: Seq<u8>, at: int) -> u32 {
    (bytes[at] as u32) | (bytes[at + 1] as u32) << 8 | (bytes[at + 2] as u32) << 16 | (bytes[at
        + 3] as u32) << 24
}

/// The 64 bytes of 16 words: word after word, each least significant byte first.
pub open spec fn serialize(words: Seq<u32>) -> Seq<u8> {
    Seq::new(64, |i: int| word_to_le_bytes(words[i / 4])[i % 4])
}

/// Byte-wise exclusive-or of `data` with `pad`; as long as `data`.
pub open spec fn xor_bytes(data: Seq<u8>, pad: Seq<u8>) -> Seq<u8> {
    Seq::new(data.len(), |i: int| data[i] ^ pad[i])
}

/// The eight state words of a 32-byte key.
pub open spec fn key_words(key: Seq<u8>) -> Seq<u32> {
    Seq::new(8, |i: int| word_from_le_bytes(key, 4 * i))
}

/// The two state words of an 8-byte nonce.
pub open spec fn nonce_words(iv: Seq<u8>) -> Seq<u32> {
    Seq::new(2, |i: int| word_from_le_bytes(iv, 4 * i))
}

/// The state of a fresh engine: constants, key words, a zero counter, nonce words.
pub open spec fn initial_state(key: Seq<u8>, iv: Seq<u8>) -> Seq<u32> {
    CONSTANTS@ + key_words(key) + seq![0u32, 0u32] + nonce_words(iv)
}

/// Whether `rounds` is one of the round counts of the cipher family.
pub open spec fn valid_rounds(rounds: nat) -> bool {
    rounds == 8 || rounds == 12 || rounds == 20
}

/// What an engine is, mathematically: its 16 state words and its round count.
#[verifier::ext_equal]
pub struct BlockView {
    pub words: Seq<u32>,
    pub rounds: nat,
}

impl BlockView {
    /// The invariant of an engine: 16 words, the first four of them the
    /// constants, and a round count of the family.
    pub open spec fn wf(self) -> bool {
        &&& self.words.len() == 16
        &&& forall|i: int| 0 <= i < 4 ==> self.words[i] == CONSTANTS[i]
        &&& valid_rounds(self.rounds)
    }

    /// The engine made from a key, a nonce and a round count.
    pub open spec fn initial(key: Seq<u8>, iv: Seq<u8>, rounds: nat) -> BlockView {
        BlockView { words: initial_state(key, iv), rounds }
    }

    /// The engine after `counter` has been written into its state.
    pub open spec fn with_counter(self, counter: u64) -> BlockView {
        BlockView { words: with_counter(self.words, counter), rounds: self.rounds }
    }

    /// The keystream block of this engine for `counter`.
    pub open spec fn keystream(self, counter: u64) -> Seq<u8> {
        serialize(block_words(with_counter(self.words, counter), self.rounds / 2))
    }

    /// `data` combined with the keystream block for `counter`.
    pub open spec fn apply(self, counter: u64, data: Seq<u8>) -> Seq<u8> {
        xor_bytes(data, self.keystream(counter))
    }
}

} // verus!
