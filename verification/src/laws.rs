//! Laws that relate the operations of the engine to one another, proved over
//! the model that the contracts of the engine speak of.

use vstd::prelude::*;
use crate::model::{
    counter_high, counter_low, valid_rounds, word_from_le_bytes, word_to_le_bytes, BlockView,
};
use crate::{BLOCK_SIZE, CONSTANTS};

verus! {

/// Reading back the four bytes of a word gives the word: the two byte orders
/// of the engine, into the state and out of it, agree.
pub proof fn lemma_le_bytes_round_trip(w: u32)
    ensures
        word_to_le_bytes(w).len() == 4,
        word_from_le_bytes(word_to_le_bytes(w), 0) == w,
{
    assert(w & 0xff <= 0xff && (w >> 8) & 0xff <= 0xff && (w >> 16) & 0xff <= 0xff && (w >> 24)
        & 0xff <= 0xff) by (bit_vector);
    assert(w == (w & 0xff) | ((w >> 8) & 0xff) << 8 | ((w >> 16) & 0xff) << 16 | ((w >> 24)
        & 0xff) << 24) by (bit_vector);
}

/// The layout of a fresh engine: the constants in words 0 to 3, the key in
/// words 4 to 11, a zero counter in words 12 and 13, the nonce in words 14
/// and 15. With a round count of the family it is well-formed.
pub proof fn lemma_fresh_engine_layout(key: Seq<u8>, iv: Seq<u8>, rounds: nat)
    ensures
        BlockView::initial(key, iv, rounds).rounds == rounds,
        BlockView::initial(key, iv, rounds).words.len() == 16,
        forall|i: int| 0 <= i < 4 ==> BlockView::initial(key, iv, rounds).words[i] == CONSTANTS[i],
        forall|i: int|
            4 <= i < 12 ==> BlockView::initial(key, iv, rounds).words[i] == word_from_le_bytes(
                key,
                4 * (i - 4),
            ),
        BlockView::initial(key, iv, rounds).words[12] == 0,
        BlockView::initial(key, iv, rounds).words[13] == 0,
        forall|i: int|
            14 <= i < 16 ==> BlockView::initial(key, iv, rounds).words[i] == word_from_le_bytes(
                iv,
                4 * (i - 14),
            ),
        valid_rounds(rounds) ==> BlockView::initial(key, iv, rounds).wf(),
{
}

/// The two halves of a counter determine it: distinct counters differ in
/// their low or in their high half.
pub proof fn lemma_counter_halves_determine_counter(c1: u64, c2: u64)
    ensures
        counter_low(c1) == counter_low(c2) && counter_high(c1) == counter_high(c2) ==> c1 == c2,
{
    assert(((c1 & 0xffff_ffff) as u32 == (c2 & 0xffff_ffff) as u32 && ((c1 >> 32)
        & 0xffff_ffff) as u32 == ((c2 >> 32) & 0xffff_ffff) as u32) ==> c1 == c2) by (bit_vector);
}

/// Writing a counter touches words 12 and 13 and nothing else: a well-formed
/// engine stays well-formed and keeps its round count, two engines that
/// differ only in the counter written agree on every other word, and they do
/// differ in word 12 or 13 when the counters differ.
pub proof fn lemma_counter_isolation(engine: BlockView, c1: u64, c2: u64)
    requires
        engine.wf(),
    ensures
        engine.with_counter(c1).wf(),
        engine.with_counter(c1).rounds == engine.rounds,
        engine.with_counter(c1).words[12] == counter_low(c1),
        engine.with_counter(c1).words[13] == counter_high(c1),
        forall|i: int|
            0 <= i < 16 && i != 12 && i != 13 ==> engine.with_counter(c1).words[i]
                == engine.words[i],
        forall|i: int|
            0 <= i < 16 && i != 12 && i != 13 ==> engine.with_counter(c1).words[i]
                == engine.with_counter(c2).words[i],
        c1 != c2 ==> engine.with_counter(c1).words[12] != engine.with_counter(c2).words[12]
            || engine.with_counter(c1).words[13] != engine.with_counter(c2).words[13],
{
    lemma_counter_halves_determine_counter(c1, c2);
}

/// The keystream block for a counter does not depend on the counter that the
/// engine was left with by an earlier call.
pub proof fn lemma_keystream_ignores_stored_counter(engine: BlockView, stored: u64, counter: u64)
    requires
        engine.wf(),
    ensures
        engine.with_counter(stored).with_counter(counter) == engine.with_counter(counter),
        engine.with_counter(stored).keystream(counter) == engine.keystream(counter),
        forall|data: Seq<u8>|
            engine.with_counter(stored).apply(counter, data) == engine.apply(counter, data),
{
    assert(engine.with_counter(stored).with_counter(counter).words =~= engine.with_counter(
        counter,
    ).words);
}

/// Applying the keystream for one counter twice gives the buffer back: the
/// second call, made on the engine as the first call left it, undoes the
/// first.
pub proof fn lemma_apply_keystream_involution(engine: BlockView, counter: u64, data: Seq<u8>)
    requires
        engine.wf(),
        data.len() == BLOCK_SIZE,
    ensures
        engine.with_counter(counter).apply(counter, engine.apply(counter, data)) == data,
{
    lemma_keystream_ignores_stored_counter(engine, counter, counter);
    let pad = engine.keystream(counter);
    let once = engine.apply(counter, data);
    let twice = engine.apply(counter, once);
    assert forall|i: int| 0 <= i < data.len() implies twice[i] == data[i] by {
        let d = data[i];
        let k = pad[i];
        assert((d ^ k) ^ k == d) by (bit_vector);
    }
    assert(twice =~= data);
}

/// Applying the keystream to a buffer of zero bytes gives the keystream
/// block itself, the one that `generate` writes.
pub proof fn lemma_apply_to_zeros_is_keystream(engine: BlockView, counter: u64)
    ensures
        engine.apply(counter, Seq::new(BLOCK_SIZE as nat, |i: int| 0u8)) == engine.keystream(
            counter,
        ),
{
    let zeros = Seq::new(BLOCK_SIZE as nat, |i: int| 0u8);
    let pad = engine.keystream(counter);
    assert forall|i: int| 0 <= i < 64 implies engine.apply(counter, zeros)[i] == pad[i] by {
        let k = pad[i];
        assert(0u8 ^ k == k) by (bit_vector);
    }
    assert(engine.apply(counter, zeros) =~= pad);
}

} // verus!
