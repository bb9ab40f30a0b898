//! Little-endian integers, the byte order of every multi-byte field that this
//! crate puts on the wire or reads out of device memory.

use vstd::arithmetic::div_mod::lemma_div_basics;
use vstd::arithmetic::div_mod::lemma_div_denominator;
use vstd::arithmetic::power::lemma_pow0;
use vstd::arithmetic::power::lemma_pow1;
use vstd::arithmetic::power::lemma_pow_adds;
use vstd::arithmetic::power::lemma_pow_positive;
use vstd::arithmetic::power::pow;
use vstd::prelude::*;

verus! {

/// The `width` low bytes of `n`, least significant first.
pub open spec fn le_bytes(n: nat, width: nat) -> Seq<u8>
    decreases width,
{
    if width == 0 {
        seq![]
    } else {
        seq![(n % 256) as u8] + le_bytes(n / 256, (width - 1) as nat)
    }
}

/// The number whose bytes are `bytes`, least significant first.
pub open spec fn le_value(bytes: Seq<u8>) -> nat
    decreases bytes.len(),
{
    if bytes.len() == 0 {
        0
    } else {
        bytes[0] as nat + 256 * le_value(bytes.drop_first())
    }
}

/// `le_bytes` gives as many bytes as it is asked for.
pub proof fn lemma_le_bytes_len(n: nat, width: nat)
    ensures
        le_bytes(n, width).len() == width,
    decreases width,
{
    if width > 0 {
        lemma_le_bytes_len(n / 256, (width - 1) as nat);
    }
}

/// `k` bytes hold a number below 256 to the power of `k`.
pub proof fn lemma_le_value_bound(bytes: Seq<u8>)
    ensures
        le_value(bytes) < pow(256, bytes.len()),
    decreases bytes.len(),
{
    if bytes.len() == 0 {
        lemma_pow0(256);
    } else {
        let rest = bytes.drop_first();
        lemma_le_value_bound(rest);
        lemma_pow1(256);
        lemma_pow_adds(256, 1, rest.len());
        assert(pow(256, bytes.len()) == 256 * pow(256, rest.len()));
    }
}

/// Powers of 256 for the field widths in use.
pub proof fn lemma_pow256()
    ensures
        pow(256, 2) == 0x1_0000,
        pow(256, 4) == 0x1_0000_0000,
        pow(256, 8) == 0x1_0000_0000_0000_0000,
{
    lemma_pow1(256);
    lemma_pow_adds(256, 1, 1);
    lemma_pow_adds(256, 2, 2);
    lemma_pow_adds(256, 4, 4);
    assert(pow(256, 2) == 0x1_0000);
    let two = pow(256, 2);
    assert(two * two == 0x1_0000_0000) by (nonlinear_arith)
        requires
            two == 0x1_0000,
    ;
    let four = pow(256, 4);
    assert(four * four == 0x1_0000_0000_0000_0000) by (nonlinear_arith)
        requires
            four == 0x1_0000_0000,
    ;
}

/// Writing a number and reading it back gives the number, if the field is wide
/// enough for it.
pub proof fn law_le_value_of_le_bytes(n: nat, width: nat)
    requires
        n < pow(256, width),
    ensures
        le_value(le_bytes(n, width)) == n,
    decreases width,
{
    if width == 0 {
        lemma_pow0(256);
    } else {
        let rest = (width - 1) as nat;
        lemma_pow1(256);
        lemma_pow_adds(256, 1, rest);
        assert(pow(256, width) == 256 * pow(256, rest));
        law_le_value_of_le_bytes(n / 256, rest);
        assert(le_bytes(n, width).drop_first() =~= le_bytes(n / 256, rest));
    }
}

/// Reading bytes and writing the number back gives the same bytes.
pub proof fn law_le_bytes_of_le_value(bytes: Seq<u8>)
    ensures
        le_bytes(le_value(bytes), bytes.len()) == bytes,
    decreases bytes.len(),
{
    if bytes.len() > 0 {
        let rest = bytes.drop_first();
        law_le_bytes_of_le_value(rest);
        assert(le_value(bytes) / 256 == le_value(rest));
        assert(le_value(bytes) % 256 == bytes[0] as nat);
        assert(seq![bytes[0]] + rest =~= bytes);
    } else {
        assert(le_bytes(le_value(bytes), 0) =~= bytes);
    }
}

/// One more byte of a number goes behind the others.
proof fn lemma_le_bytes_snoc(n: nat, width: nat)
    ensures
        le_bytes(n, width + 1) == le_bytes(n, width).push(
            ((n as int / pow(256, width)) % 256) as u8,
        ),
    decreases width,
{
    lemma_pow_positive(256, width);
    if width == 0 {
        lemma_pow0(256);
        assert(le_bytes(n / 256, 0) =~= seq![]);
        assert(le_bytes(n, 1) =~= le_bytes(n, 0).push((n % 256) as u8));
    } else {
        let rest = (width - 1) as nat;
        lemma_le_bytes_snoc(n / 256, rest);
        lemma_pow1(256);
        lemma_pow_adds(256, 1, rest);
        lemma_pow_positive(256, rest);
        assert((n as int / 256) / pow(256, rest) == n as int / pow(256, width)) by {
            lemma_div_denominator(n as int, 256, pow(256, rest));
        }
        assert(le_bytes(n, width + 1) =~= le_bytes(n, width).push(
            ((n as int / pow(256, width)) % 256) as u8,
        ));
    }
}

/// The `width` low bytes of `value`, least significant first.
pub fn to_le_bytes(value: u64, width: usize) -> (bytes: Vec<u8>)
    ensures
        bytes@ == le_bytes(value as nat, width as nat),
        bytes@.len() == width,
{
    let mut bytes: Vec<u8> = Vec::with_capacity(width);
    let mut rest: u64 = value;
    let mut i: usize = 0;
    proof {
        lemma_pow0(256);
        assert(le_bytes(value as nat, 0) =~= bytes@);
        lemma_div_basics(value as int);
    }
    while i < width
        invariant
            i <= width,
            bytes@.len() == i,
            bytes@ == le_bytes(value as nat, i as nat),
            rest == value as int / pow(256, i as nat),
        decreases width - i,
    {
        proof {
            lemma_le_bytes_snoc(value as nat, i as nat);
            lemma_pow1(256);
            lemma_pow_adds(256, i as nat, 1);
            lemma_pow_positive(256, i as nat);
            lemma_div_denominator(value as int, pow(256, i as nat), 256);
        }
        bytes.push((rest % 256) as u8);
        rest = rest / 256;
        i = i + 1;
    }
    bytes
}

/// The number whose bytes are `bytes`, least significant first.
pub fn from_le_bytes(bytes: &[u8]) -> (value: u64)
    requires
        bytes@.len() <= 8,
    ensures
        value == le_value(bytes@),
{
    let mut value: u64 = 0;
    let mut i: usize = bytes.len();
    proof {
        lemma_pow256();
    }
    while i > 0
        invariant
            i <= bytes@.len() <= 8,
            value == le_value(bytes@.skip(i as int)),
            pow(256, 8) == 0x1_0000_0000_0000_0000,
        decreases i,
    {
        proof {
            let tail = bytes@.skip(i as int - 1);
            assert(tail.drop_first() =~= bytes@.skip(i as int));
            lemma_le_value_bound(tail);
            if tail.len() < 8 {
                lemma_pow_adds(256, tail.len(), (8 - tail.len()) as nat);
                lemma_pow_positive(256, tail.len());
                lemma_pow_positive(256, (8 - tail.len()) as nat);
                assert(pow(256, tail.len()) <= pow(256, tail.len()) * pow(
                    256,
                    (8 - tail.len()) as nat,
                )) by (nonlinear_arith)
                    requires
                        pow(256, tail.len()) > 0,
                        pow(256, (8 - tail.len()) as nat) > 0,
                ;
            }
        }
        i = i - 1;
        value = bytes[i] as u64 + 256 * value;
    }
    assert(bytes@.skip(0) =~= bytes@);
    value
}

} // verus!
