//! The block engine: a 16-word state, the permutation that scrambles it, and
//! the two ways of handing out a keystream block.

use vstd::prelude::*;
use crate::model::{
    feed_forward, permute, quarter_round_words, rotl, serialize, valid_rounds,
    word_from_le_bytes, word_to_le_bytes, xor_bytes, BlockView,
};
use crate::{BLOCK_SIZE, CONSTANTS, IV_SIZE, KEY_SIZE, STATE_WORDS};

verus! {

/// Size of the buffers that `generate` and `apply_keystream` take.
pub const BUFFER_SIZE: usize = BLOCK_SIZE;

/// The ChaCha block function, in portable code.
///
/// An engine is made once from a key, a nonce and a round count, and then
/// computes the block of any counter; it never advances the counter itself.
pub struct Block {
    /// The state that every block starts from: constants, key words, counter
    /// words and nonce words. Words 12 and 13 hold the counter last written.
    state: [u32; STATE_WORDS],
    /// Number of rounds to perform: 8, 12 or 20.
    rounds: usize,
}

impl View for Block {
    type V = BlockView;

    closed spec fn view(&self) -> BlockView {
        BlockView { words: self.state@, rounds: self.rounds as nat }
    }
}

impl Clone for Block {
    /// A second engine with the same state and round count.
    fn clone(&self) -> (copy: Self)
        ensures
            copy == *self,
    {
        proof {
            use_type_invariant(self);
        }
        Block { state: self.state, rounds: self.rounds }
    }
}

/// Rotates `x` left by `n` bit positions.
#[inline]
fn rotate_left(x: u32, n: u32) -> (r: u32)
    requires
        0 < n < 32,
    ensures
        r == rotl(x, n),
{
    (x << n) | (x >> (32 - n))
}

/// Reads the word stored at `bytes[at..at + 4]`, least significant byte first.
#[inline]
fn load_le(bytes: &[u8], at: usize) -> (w: u32)
    requires
        at + 4 <= bytes@.len(),
    ensures
        w == word_from_le_bytes(bytes@, at as int),
{
    (bytes[at] as u32) | (bytes[at + 1] as u32) << 8 | (bytes[at + 2] as u32) << 16 | (bytes[at
        + 3] as u32) << 24
}

/// The four bytes of `w`, least significant first.
#[inline]
fn store_le(w: u32) -> (bytes: [u8; 4])
    ensures
        bytes@ == word_to_le_bytes(w),
{
    assert(w & 0xff <= 0xff && (w >> 8) & 0xff <= 0xff && (w >> 16) & 0xff <= 0xff && (w >> 24)
        & 0xff <= 0xff) by (bit_vector);
    let bytes: [u8; 4] = [
        (w & 0xff) as u8,
        ((w >> 8) & 0xff) as u8,
        ((w >> 16) & 0xff) as u8,
        ((w >> 24) & 0xff) as u8,
    ];
    assert(bytes@ =~= word_to_le_bytes(w));
    bytes
}

impl Block {
    /// Every engine is well-formed, so no method asks for it. A caller learns
    /// it of an engine `e` it holds from `use_type_invariant(&e)`.
    #[verifier::type_invariant]
    pub open spec fn inv(self) -> bool {
        self@.wf()
    }

    /// Makes the engine for a key, a nonce and a round count, with the counter
    /// at zero.
    pub fn new(key: &[u8; KEY_SIZE], iv: [u8; IV_SIZE], rounds: usize) -> (engine: Self)
        requires
            valid_rounds(rounds as nat),
        ensures
            engine@ == BlockView::initial(key@, iv@, rounds as nat),
            engine@.wf(),
    {
        let state: [u32; STATE_WORDS] = [
            CONSTANTS[0],
            CONSTANTS[1],
            CONSTANTS[2],
            CONSTANTS[3],
            load_le(key, 0),
            load_le(key, 4),
            load_le(key, 8),
            load_le(key, 12),
            load_le(key, 16),
            load_le(key, 20),
            load_le(key, 24),
            load_le(key, 28),
            0,
            0,
            load_le(&iv, 0),
            load_le(&iv, 4),
        ];
        Self { state, rounds }
    }

    /// Whether `rounds` is a round count that `new` accepts. Code that Verus
    /// does not check asks this before it calls `new`.
    pub fn supports_rounds(rounds: usize) -> (ok: bool)
        ensures
            ok == valid_rounds(rounds as nat),
    {
        rounds == 8 || rounds == 12 || rounds == 20
    }

    /// The 16 words of the state, as the next block's rounds would start
    /// from them once the counter is written.
    pub fn state(&self) -> (words: [u32; STATE_WORDS])
        ensures
            words@ == self@.words,
    {
        self.state
    }

    /// Writes `counter` into words 12 and 13 of the state, low half first, and
    /// leaves every other word as it is.
    #[inline]
    pub fn counter_setup(&mut self, counter: u64)
        ensures
            final(self)@ == old(self)@.with_counter(counter),
            final(self)@.wf(),
    {
        proof {
            use_type_invariant(&*self);
        }
        assert(counter & 0xffff_ffff <= 0xffff_ffff) by (bit_vector);
        assert((counter >> 32) & 0xffff_ffff <= 0xffff_ffff) by (bit_vector);
        self.state[12] = (counter & 0xffff_ffff) as u32;
        self.state[13] = ((counter >> 32) & 0xffff_ffff) as u32;
    }

    /// Computes the keystream block for `counter` and writes it over `output`.
    ///
    /// The counter stays in the engine's state afterwards.
    pub fn generate(&mut self, counter: u64, output: &mut [u8])
        requires
            old(output)@.len() == BUFFER_SIZE,
        ensures
            final(self)@ == old(self)@.with_counter(counter),
            final(self)@.wf(),
            final(output)@ == old(self)@.keystream(counter),
    {
        self.counter_setup(counter);

        // The engine's state stays as the snapshot; the rounds work on a copy.
        let mut working = self.state;
        self.rounds(&mut working);

        for i in 0..STATE_WORDS
            invariant
                output@.len() == BUFFER_SIZE,
                forall|j: int| 0 <= j < 4 * i ==> output@[j] == serialize(working@)[j],
        {
            let bytes = store_le(working[i]);
            output[4 * i] = bytes[0];
            output[4 * i + 1] = bytes[1];
            output[4 * i + 2] = bytes[2];
            output[4 * i + 3] = bytes[3];
        }
        assert(output@ =~= serialize(working@));
    }

    /// Computes the keystream block for `counter` and combines it with
    /// `output` by exclusive-or, byte by byte and in place.
    ///
    /// The counter stays in the engine's state afterwards.
    pub fn apply_keystream(&mut self, counter: u64, output: &mut [u8])
        requires
            old(output)@.len() == BUFFER_SIZE,
        ensures
            final(self)@ == old(self)@.with_counter(counter),
            final(self)@.wf(),
            final(output)@ == old(self)@.apply(counter, old(output)@),
    {
        self.counter_setup(counter);

        // The engine's state stays as the snapshot; the rounds work on a copy.
        let mut working = self.state;
        self.rounds(&mut working);

        for i in 0..STATE_WORDS
            invariant
                output@.len() == BUFFER_SIZE,
                forall|j: int|
                    0 <= j < 4 * i ==> output@[j] == old(output)@[j] ^ serialize(working@)[j],
                forall|j: int| 4 * i <= j < BUFFER_SIZE ==> output@[j] == old(output)@[j],
        {
            let bytes = store_le(working[i]);
            output[4 * i] ^= bytes[0];
            output[4 * i + 1] ^= bytes[1];
            output[4 * i + 2] ^= bytes[2];
            output[4 * i + 3] ^= bytes[3];
        }
        assert(output@ =~= xor_bytes(old(output)@, serialize(working@)));
    }

    /// Runs the engine's double rounds, half its round count of them, on the
    /// working state `state`, then adds the engine's own state to the result,
    /// word by word and modulo 2^32. The engine itself is left as it was.
    #[inline]
    pub fn rounds(&mut self, state: &mut [u32; STATE_WORDS])
        ensures
            *final(self) == *old(self),
            final(state)@ == feed_forward(
                permute(old(state)@, old(self)@.rounds / 2),
                old(self)@.words,
            ),
    {
        let double_rounds: usize = self.rounds / 2;
        for done in 0..double_rounds
            invariant
                state@ == permute(old(state)@, done as nat),
        {
            // column rounds
            quarter_round(0, 4, 8, 12, state);
            quarter_round(1, 5, 9, 13, state);
            quarter_round(2, 6, 10, 14, state);
            quarter_round(3, 7, 11, 15, state);

            // diagonal rounds
            quarter_round(0, 5, 10, 15, state);
            quarter_round(1, 6, 11, 12, state);
            quarter_round(2, 7, 8, 13, state);
            quarter_round(3, 4, 9, 14, state);
        }

        for i in 0..STATE_WORDS
            invariant
                forall|j: int|
                    0 <= j < i ==> state@[j] == permute(
                        old(state)@,
                        double_rounds as nat,
                    )[j].wrapping_add(#[trigger] self.state@[j]),
                forall|j: int|
                    i <= j < 16 ==> #[trigger] state@[j] == permute(
                        old(state)@,
                        double_rounds as nat,
                    )[j],
        {
            state[i] = state[i].wrapping_add(self.state[i]);
        }
    }
}

/// The ChaCha quarter round on the words of `state` at indices `a`, `b`, `c`, `d`.
///
/// All additions wrap modulo 2^32, and the same instructions run whatever the
/// words hold.
#[inline]
pub fn quarter_round(a: usize, b: usize, c: usize, d: usize, state: &mut [u32; STATE_WORDS])
    requires
        a < STATE_WORDS,
        b < STATE_WORDS,
        c < STATE_WORDS,
        d < STATE_WORDS,
    ensures
        final(state)@ == quarter_round_words(old(state)@, a as int, b as int, c as int, d as int),
        forall|i: int|
            0 <= i < STATE_WORDS && i != a && i != b && i != c && i != d ==> final(state)@[i]
                == old(state)@[i],
{
    state[a] = state[a].wrapping_add(state[b]);
    state[d] ^= state[a];
    state[d] = rotate_left(state[d], 16);

    state[c] = state[c].wrapping_add(state[d]);
    state[b] ^= state[c];
    state[b] = rotate_left(state[b], 12);

    state[a] = state[a].wrapping_add(state[b]);
    state[d] ^= state[a];
    state[d] = rotate_left(state[d], 8);

    state[c] = state[c].wrapping_add(state[d]);
    state[b] ^= state[c];
    state[b] = rotate_left(state[b], 7);
}

} // verus!
