//! Random identities and their textual form.

use std::collections::HashMap;
use vstd::prelude::*;
use vstd::set_lib::lemma_len_subset;
use vstd::std_specs::hash::*;

verus! {

broadcast use vstd::std_specs::hash::group_hash_axioms;

/// The character of a hexadecimal digit, in lower case.
pub open spec fn hex_digit(nibble: int) -> char {
    if nibble == 0 {
        '0'
    } else if nibble == 1 {
        '1'
    } else if nibble == 2 {
        '2'
    } else if nibble == 3 {
        '3'
    } else if nibble == 4 {
        '4'
    } else if nibble == 5 {
        '5'
    } else if nibble == 6 {
        '6'
    } else if nibble == 7 {
        '7'
    } else if nibble == 8 {
        '8'
    } else if nibble == 9 {
        '9'
    } else if nibble == 10 {
        'a'
    } else if nibble == 11 {
        'b'
    } else if nibble == 12 {
        'c'
    } else if nibble == 13 {
        'd'
    } else if nibble == 14 {
        'e'
    } else {
        'f'
    }
}

/// Sixteen to the power of `exponent`.
pub open spec fn sixteen_to(exponent: nat) -> int
    decreases exponent,
{
    if exponent == 0 {
        1
    } else {
        16 * sixteen_to((exponent - 1) as nat)
    }
}

/// The hexadecimal digit of `id` at `place`, the most significant of the 32
/// being at place 0.
pub open spec fn nibble(id: u128, place: int) -> int {
    ((id as int) / sixteen_to((31 - place) as nat)) % 16
}

/// The text of the UUID whose 128 bits are `id`, as `uuid::Uuid` displays it:
/// 36 characters, the 32 hexadecimal digits in lower case from the most
/// significant on, in groups of 8, 4, 4, 4 and 12 with a hyphen between them.
pub open spec fn uuid_text(id: u128) -> Seq<char> {
    Seq::new(
        36,
        |i: int|
            if i == 8 || i == 13 || i == 18 || i == 23 {
                '-'
            } else if i < 8 {
                hex_digit(nibble(id, i))
            } else if i < 13 {
                hex_digit(nibble(id, i - 1))
            } else if i < 18 {
                hex_digit(nibble(id, i - 2))
            } else if i < 23 {
                hex_digit(nibble(id, i - 3))
            } else {
                hex_digit(nibble(id, i - 4))
            },
    )
}

/// A random identity, from `uuid::Uuid::new_v4` and `Uuid::as_u128`.
///
/// The value is random but for the bits that mark it as a version 4 UUID of
/// the RFC variant, which uuid sets in every result. uuid panics when the
/// system's source of randomness fails.
#[verifier::external_body]
pub(crate) fn fresh_id() -> (id: u128)
    ensures
        (id >> 76u128) & 0xfu128 == 4u128,
        (id >> 62u128) & 0x3u128 == 2u128,
{
    uuid::Uuid::new_v4().as_u128()
}

/// The text of an identity, from `uuid::Uuid::from_u128` and the `Display`
/// impl of `Uuid`.
#[verifier::external_body]
pub(crate) fn id_text(id: u128) -> (s: String)
    ensures
        s@ == uuid_text(id),
{
    uuid::Uuid::from_u128(id).to_string()
}

/// How far `identity` lies after `first`, counting upwards and from the
/// largest identity on to zero.
pub open spec fn steps_from(first: u128, identity: u128) -> int {
    if identity >= first {
        identity - first
    } else {
        identity + 0x1_0000_0000_0000_0000_0000_0000_0000_0000 - first
    }
}

/// An identity under which nothing is filed: `first` where that is free, else
/// the next free one after it, counting upwards and from the largest identity
/// on to zero. There is always one, as fewer things are filed than there are
/// identities.
pub fn unused_identity<V>(filed: &HashMap<u128, V>, first: u128) -> (identity: u128)
    ensures
        !filed@.contains_key(identity),
        !filed@.contains_key(first) ==> identity == first,
        forall|other: u128|
            steps_from(first, other) < steps_from(first, identity) ==> filed@.contains_key(other),
{
    let mut identity: u128 = first;
    let ghost mut tried: Set<u128> = Set::empty();
    let ghost mut steps: int = 0;
    proof {
        assert(filed@.dom().finite());
        assert(filed@.dom().len() == filed.len());
    }
    while filed.contains_key(&identity)
        invariant
            filed@.dom().finite(),
            filed@.dom().len() <= usize::MAX,
            tried.finite(),
            tried.len() == steps,
            tried.subset_of(filed@.dom()),
            0 <= steps <= filed@.dom().len(),
            steps_from(first, identity) == steps,
            forall|other: u128| tried.contains(other) <==> steps_from(first, other) < steps,
        decreases filed@.dom().len() - steps,
    {
        proof {
            assert(!tried.contains(identity));
            tried = tried.insert(identity);
            steps = steps + 1;
            lemma_len_subset(tried, filed@.dom());
        }
        identity = if identity == u128::MAX {
            0
        } else {
            identity + 1
        };
    }
    identity
}

} // verus!
