//! Object keys.
//!
//! Keys are byte strings whose spelling the engine's users rely on: a
//! population object is named `key` followed by its number, a checkpoint
//! object by its generation, an underscore and its slot, both in decimal
//! without padding.

use vstd::prelude::*;

verus! {

/// ASCII code of the digit `0`.
pub const ASCII_ZERO: u8 = 48;

/// ASCII code of the underscore.
pub const ASCII_UNDERSCORE: u8 = 95;

/// The decimal spelling of `n` in ASCII, most significant digit first.
pub open spec fn decimal(n: nat) -> Seq<u8>
    decreases n,
{
    if n < 10 {
        seq![(ASCII_ZERO + n) as u8]
    } else {
        decimal(n / 10).push((ASCII_ZERO + n % 10) as u8)
    }
}

/// The number a string of ASCII digits spells.
pub open spec fn decimal_value(digits: Seq<u8>) -> nat
    decreases digits.len(),
{
    if digits.len() == 0 {
        0
    } else {
        (decimal_value(digits.drop_last()) * 10 + (digits.last() - ASCII_ZERO)) as nat
    }
}

/// The bytes of `key`.
pub open spec fn key_prefix() -> Seq<u8> {
    seq![107u8, 101u8, 121u8]
}

/// Key of the population object numbered `counter`.
pub open spec fn counter_key_spec(counter: nat) -> Seq<u8> {
    key_prefix() + decimal(counter)
}

/// Key of the object in slot `object` of checkpoint `generation`.
pub open spec fn checkpoint_key_spec(generation: nat, object: nat) -> Seq<u8> {
    decimal(generation).push(ASCII_UNDERSCORE) + decimal(object)
}

/// The bytes of `important_research`, the one object of the evaluation
/// workload.
pub open spec fn research_key_spec() -> Seq<u8> {
    seq![
        105u8, 109u8, 112u8, 111u8, 114u8, 116u8, 97u8, 110u8, 116u8, 95u8, 114u8, 101u8, 115u8,
        101u8, 97u8, 114u8, 99u8, 104u8,
    ]
}

/// A decimal spelling is never empty and holds digits only.
pub proof fn lemma_decimal_digits(n: nat)
    ensures
        decimal(n).len() >= 1,
        forall|i: int|
            0 <= i < decimal(n).len() ==> ASCII_ZERO <= #[trigger] decimal(n)[i] <= ASCII_ZERO + 9,
    decreases n,
{
    if n >= 10 {
        lemma_decimal_digits(n / 10);
    }
}

/// Reading a decimal spelling back gives the number it was made from.
pub proof fn lemma_decimal_roundtrip(n: nat)
    ensures
        decimal_value(decimal(n)) == n,
    decreases n,
{
    if n < 10 {
        assert(decimal(n).drop_last() =~= Seq::<u8>::empty());
        assert(decimal_value(decimal(n).drop_last()) == 0);
    } else {
        lemma_decimal_roundtrip(n / 10);
        assert(decimal(n).drop_last() =~= decimal(n / 10));
    }
}

/// Different numbers have different decimal spellings.
pub proof fn lemma_decimal_injective(a: nat, b: nat)
    requires
        decimal(a) == decimal(b),
    ensures
        a == b,
{
    lemma_decimal_roundtrip(a);
    lemma_decimal_roundtrip(b);
}

/// Different counters give different population keys.
pub proof fn lemma_counter_keys_distinct(a: nat, b: nat)
    requires
        a != b,
    ensures
        counter_key_spec(a) != counter_key_spec(b),
{
    if counter_key_spec(a) == counter_key_spec(b) {
        assert(counter_key_spec(a).skip(3) =~= decimal(a));
        assert(counter_key_spec(b).skip(3) =~= decimal(b));
        lemma_decimal_injective(a, b);
    }
}

/// Different (generation, slot) pairs give different checkpoint keys.
pub proof fn lemma_checkpoint_keys_distinct(g1: nat, o1: nat, g2: nat, o2: nat)
    requires
        g1 != g2 || o1 != o2,
    ensures
        checkpoint_key_spec(g1, o1) != checkpoint_key_spec(g2, o2),
{
    let k1 = checkpoint_key_spec(g1, o1);
    let k2 = checkpoint_key_spec(g2, o2);
    if k1 == k2 {
        let n1 = decimal(g1).len() as int;
        let n2 = decimal(g2).len() as int;
        lemma_decimal_digits(g1);
        lemma_decimal_digits(g2);
        // The first underscore ends the generation in both keys.
        assert(k1[n1] == ASCII_UNDERSCORE);
        assert(k2[n2] == ASCII_UNDERSCORE);
        if n1 < n2 {
            assert(k2[n1] == decimal(g2)[n1]);
        } else if n2 < n1 {
            assert(k1[n2] == decimal(g1)[n2]);
        }
        assert(n1 == n2);
        assert(k1.take(n1) =~= decimal(g1));
        assert(k2.take(n2) =~= decimal(g2));
        lemma_decimal_injective(g1, g2);
        assert(k1.skip(n1 + 1) =~= decimal(o1));
        assert(k2.skip(n2 + 1) =~= decimal(o2));
        lemma_decimal_injective(o1, o2);
    }
}

/// Appends the decimal spelling of `n` to `out`.
pub fn push_decimal(out: &mut Vec<u8>, n: u64)
    ensures
        final(out)@ == old(out)@ + decimal(n as nat),
    decreases n,
{
    if n >= 10 {
        push_decimal(out, n / 10);
    }
    out.push(ASCII_ZERO + (n % 10) as u8);
}

/// The key `key<counter>` of a population object.
pub fn counter_key(counter: u64) -> (key: Vec<u8>)
    ensures
        key@ == counter_key_spec(counter as nat),
{
    let mut key: Vec<u8> = Vec::new();
    key.push(107u8);
    key.push(101u8);
    key.push(121u8);
    push_decimal(&mut key, counter);
    key
}

/// The key `<generation>_<object>` of a checkpoint object.
pub fn checkpoint_key(generation: u64, object: u64) -> (key: Vec<u8>)
    ensures
        key@ == checkpoint_key_spec(generation as nat, object as nat),
{
    let mut key: Vec<u8> = Vec::new();
    push_decimal(&mut key, generation);
    key.push(ASCII_UNDERSCORE);
    push_decimal(&mut key, object);
    key
}

/// The key `important_research`.
pub fn research_key() -> (key: Vec<u8>)
    ensures
        key@ == research_key_spec(),
{
    let key: Vec<u8> = vec![
        105u8, 109u8, 112u8, 111u8, 114u8, 116u8, 97u8, 110u8, 116u8, 95u8, 114u8, 101u8, 115u8,
        101u8, 97u8, 114u8, 99u8, 104u8,
    ];
    key
}

} // verus!
