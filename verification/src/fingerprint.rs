//! The fingerprint that the SQL-injection detector leaves behind the input:
//! a short token, ended by a zero byte, in a slot of fixed size.

use crate::host::push_char;
use vstd::prelude::*;

verus! {

/// Number of bytes reserved behind the input for the detector's fingerprint:
/// eight characters and the zero byte that ends them.
pub const FINGERPRINT_SLOT: u32 = 9;

/// The first index at or after `from` at which `slot` holds a zero byte, or
/// the length of `slot` where it holds none there.
pub open spec fn zero_from(slot: Seq<u8>, from: int) -> int
    decreases slot.len() - from,
{
    if from < 0 || from >= slot.len() || slot[from] == 0 {
        from
    } else {
        zero_from(slot, from + 1)
    }
}

/// The number of bytes of `slot` that stand before its first zero byte.
pub open spec fn terminator(slot: Seq<u8>) -> int {
    zero_from(slot, 0)
}

/// The token that `slot` holds: its bytes up to the first zero byte, or all
/// of them where none is zero, each read as the character with that code.
pub open spec fn fingerprint(slot: Seq<u8>) -> Seq<char> {
    Seq::new(terminator(slot) as nat, |i: int| slot[i] as char)
}

/// `terminator` is where the zero byte is: it lies inside the slot or at its
/// end, no byte before it is zero, and the byte at it, if there is one, is.
pub proof fn lemma_terminator(slot: Seq<u8>)
    ensures
        0 <= terminator(slot) <= slot.len(),
        forall|i: int| 0 <= i < terminator(slot) ==> slot[i] != 0,
        terminator(slot) < slot.len() ==> slot[terminator(slot)] == 0,
{
    lemma_zero_from(slot, 0);
}

proof fn lemma_zero_from(slot: Seq<u8>, from: int)
    requires
        0 <= from <= slot.len(),
    ensures
        from <= zero_from(slot, from) <= slot.len(),
        forall|i: int| from <= i < zero_from(slot, from) ==> slot[i] != 0,
        zero_from(slot, from) < slot.len() ==> slot[zero_from(slot, from)] == 0,
    decreases slot.len() - from,
{
    if from < slot.len() && slot[from] != 0 {
        lemma_zero_from(slot, from + 1);
    }
}

/// A fingerprint is never longer than its slot and holds no NUL character.
pub proof fn lemma_fingerprint_bounded(slot: Seq<u8>)
    ensures
        fingerprint(slot).len() <= slot.len(),
        forall|i: int| 0 <= i < fingerprint(slot).len() ==> fingerprint(slot)[i] != '\0',
{
    lemma_terminator(slot);
    assert forall|i: int| 0 <= i < fingerprint(slot).len() implies fingerprint(slot)[i]
        != '\0' by {
        assert(slot[i] != 0);
        assert(slot[i] as char != '\0');
    }
}

/// Decodes the token in `slot`.
pub fn decode_fingerprint(slot: &[u8]) -> (token: String)
    ensures
        token@ == fingerprint(slot@),
{
    let mut token = String::new();
    let mut i: usize = 0;
    while i < slot.len() && slot[i] != 0
        invariant
            0 <= i <= slot.len(),
            zero_from(slot@, 0) == zero_from(slot@, i as int),
            token@.len() == i,
            forall|k: int| 0 <= k < i ==> token@[k] == slot@[k] as char,
        decreases slot.len() - i,
    {
        push_char(&mut token, slot[i] as char);
        i += 1;
    }
    assert(token@ =~= fingerprint(slot@));
    token
}

/// The size of the scratch region for an SQL-injection query on `len` input
/// bytes: the input and the fingerprint slot behind it, where that fits the
/// sandbox's 32-bit addresses.
pub fn sqli_scratch_size(len: usize) -> (size: Option<u32>)
    ensures
        size is Some <==> len + FINGERPRINT_SLOT <= u32::MAX,
        size is Some ==> size->Some_0 == len + FINGERPRINT_SLOT,
{
    if len <= (u32::MAX - FINGERPRINT_SLOT) as usize {
        Some(len as u32 + FINGERPRINT_SLOT)
    } else {
        None
    }
}

} // verus!
