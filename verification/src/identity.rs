//! How the attributes of an entity enter its fingerprint.

use vstd::prelude::*;
use crate::hash::absorb;
use crate::hash::Hasher;
use crate::hash::lemma_absorb_state_injective;
use crate::hash::lemma_mix_chunk_injective;
use crate::hash::lemma_mix_state_injective;
use crate::hash::mix;
use crate::table::text_view;
use crate::text::bytes_of;

verus! {

/// The state after a number has entered: it is one chunk, in two's
/// complement where it is negative.
pub open spec fn absorb_number(state: u64, number: int) -> u64 {
    mix(state, number as u64)
}

/// The state after a text has entered, as its UTF-8 bytes.
pub open spec fn absorb_text(state: u64, text: Seq<char>) -> u64 {
    absorb(state, bytes_of(text))
}

/// The state after an optional text has entered: an absent one leaves the
/// state as it is.
pub open spec fn absorb_optional(state: u64, text: Option<Seq<char>>) -> u64 {
    match text {
        Some(t) => absorb_text(state, t),
        None => state,
    }
}

/// The identifier that a final state stands for.
pub open spec fn identifier(state: u64) -> i64 {
    state as i64
}

/// An absent text leaves no trace: the state is the one before.
pub proof fn lemma_absent_contributes_nothing(state: u64)
    ensures
        absorb_optional(state, None) == state,
{
}

/// A text that is present but empty is one zero chunk.
pub proof fn lemma_empty_text_is_zero_chunk(state: u64)
    ensures
        absorb_optional(state, Some(Seq::<char>::empty())) == mix(state, 0),
{
    assert(bytes_of(Seq::<char>::empty()).len() == 0) by {
        reveal_with_fuel(vstd::utf8::encode_utf8, 1);
    }
}

/// With the same state before, different numbers lead to different states.
pub proof fn lemma_number_injective(state: u64, first: i64, second: i64)
    requires
        absorb_number(state, first as int) == absorb_number(state, second as int),
    ensures
        first == second,
{
    lemma_mix_chunk_injective(state, first as u64, second as u64);
    assert(first == second) by (bit_vector)
        requires
            first as u64 == second as u64,
    ;
}

/// With the same number, different states lead to different states.
pub proof fn lemma_number_state_injective(first: u64, second: u64, number: int)
    requires
        absorb_number(first, number) == absorb_number(second, number),
    ensures
        first == second,
{
    lemma_mix_state_injective(first, second, number as u64);
}

/// With the same text, different states lead to different states.
pub proof fn lemma_text_state_injective(first: u64, second: u64, text: Seq<char>)
    requires
        absorb_text(first, text) == absorb_text(second, text),
    ensures
        first == second,
{
    lemma_absorb_state_injective(first, second, bytes_of(text));
}

/// With the same optional text, different states lead to different states.
pub proof fn lemma_optional_state_injective(first: u64, second: u64, text: Option<Seq<char>>)
    requires
        absorb_optional(first, text) == absorb_optional(second, text),
    ensures
        first == second,
{
    if let Some(t) = text {
        lemma_text_state_injective(first, second, t);
    }
}

/// Different final states stand for different identifiers.
pub proof fn lemma_identifier_injective(first: u64, second: u64)
    requires
        identifier(first) == identifier(second),
    ensures
        first == second,
{
    assert(first == second) by (bit_vector)
        requires
            first as i64 == second as i64,
    ;
}

/// Feeds a number to the hasher.
pub fn write_number(hasher: &mut Hasher, number: i64)
    ensures
        final(hasher)@ == absorb_number(old(hasher)@, number as int),
{
    hasher.write(#[verifier::truncate] (number as u64));
}

/// Feeds a text to the hasher.
pub fn write_text(hasher: &mut Hasher, text: &str)
    ensures
        final(hasher)@ == absorb_text(old(hasher)@, text@),
{
    hasher.write_bytes(text.as_bytes());
}

/// Feeds a text to the hasher if there is one.
pub fn write_optional(hasher: &mut Hasher, text: &Option<String>)
    ensures
        final(hasher)@ == absorb_optional(old(hasher)@, text_view(*text)),
{
    match text {
        Some(t) => write_text(hasher, t.as_str()),
        None => {},
    }
}

/// Ends the computation and hands out the identifier.
pub fn finish(hasher: Hasher) -> (id: i64)
    ensures
        id == identifier(hasher@),
{
    #[verifier::truncate]
    (hasher.finalize() as i64)
}

} // verus!
