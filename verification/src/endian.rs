//! Numbers as byte strings.
//!
//! The model is positional: a byte string stands for the number whose
//! base-256 digits it lists, least significant first. The big-endian reading
//! of a string is the little-endian reading of its reverse.

use vstd::prelude::*;

verus! {

/// `bytes`, cut or followed by zero bytes so that it has length `n`.
pub open spec fn zero_extended(bytes: Seq<u8>, n: nat) -> Seq<u8> {
    Seq::new(
        n,
        |i: int|
            if i < bytes.len() {
                bytes[i]
            } else {
                0u8
            },
    )
}

/// 256 to the power `n`.
pub open spec fn pow256(n: nat) -> nat
    decreases n,
{
    if n == 0 {
        1
    } else {
        256 * pow256((n - 1) as nat)
    }
}

/// The number that `s` spells, least significant byte first.
pub open spec fn le_value(s: Seq<u8>) -> nat
    decreases s.len(),
{
    if s.len() == 0 {
        0
    } else {
        s[0] as nat + 256 * le_value(s.drop_first())
    }
}

/// The `n` low base-256 digits of `v`, least significant first.
pub open spec fn le_bytes(v: nat, n: nat) -> Seq<u8>
    decreases n,
{
    if n == 0 {
        Seq::empty()
    } else {
        seq![(v % 256) as u8] + le_bytes(v / 256, (n - 1) as nat)
    }
}

/// `le_bytes(v, n)` has `n` bytes.
pub proof fn lemma_le_bytes_len(v: nat, n: nat)
    ensures
        le_bytes(v, n).len() == n,
    decreases n,
{
    if n > 0 {
        lemma_le_bytes_len(v / 256, (n - 1) as nat);
    }
}

/// A string of `n` bytes spells a number below `256^n`.
pub proof fn lemma_le_value_bound(s: Seq<u8>)
    ensures
        le_value(s) < pow256(s.len()),
    decreases s.len(),
{
    if s.len() > 0 {
        lemma_le_value_bound(s.drop_first());
    }
}

/// `256^n` for the widths of machine integers.
pub proof fn lemma_pow256_small(n: nat)
    ensures
        n == 0 ==> pow256(n) == 1,
        n == 1 ==> pow256(n) == 0x100,
        n == 2 ==> pow256(n) == 0x1_0000,
        n == 3 ==> pow256(n) == 0x100_0000,
        n == 4 ==> pow256(n) == 0x1_0000_0000,
        n == 5 ==> pow256(n) == 0x100_0000_0000,
        n == 6 ==> pow256(n) == 0x1_0000_0000_0000,
        n == 7 ==> pow256(n) == 0x100_0000_0000_0000,
        n == 8 ==> pow256(n) == 0x1_0000_0000_0000_0000,
{
    reveal_with_fuel(pow256, 9);
}

/// Writing out the number that `s` spells, in as many bytes, gives `s` back.
pub proof fn lemma_le_bytes_of_value(s: Seq<u8>)
    ensures
        le_bytes(le_value(s), s.len()) == s,
    decreases s.len(),
{
    if s.len() > 0 {
        let rest = s.drop_first();
        let v = le_value(s);
        lemma_le_bytes_of_value(rest);
        assert(v % 256 == s[0] as nat);
        assert(v / 256 == le_value(rest));
        assert(le_bytes(v, s.len()) =~= s);
    } else {
        assert(le_bytes(le_value(s), s.len()) =~= s);
    }
}

/// The digits of a number are its first `i` digits followed by the digits
/// of what is left once those are divided away.
proof fn lemma_le_bytes_push(v: nat, i: nat, rest: nat, more: nat)
    requires
        more > 0,
        le_bytes(v, i + more) == le_bytes(v, i) + le_bytes(rest, more),
    ensures
        le_bytes(v, i + more) == le_bytes(v, i + 1) + le_bytes(rest / 256, (more - 1) as nat),
        le_bytes(v, i + 1) == le_bytes(v, i).push((rest % 256) as u8),
{
    lemma_le_bytes_len(v, i);
    lemma_le_bytes_len(v, i + 1);
    lemma_le_bytes_len(v, i + more);
    lemma_le_bytes_prefix(v, i + 1, i + more);
    lemma_le_bytes_prefix(v, i, i + 1);
    let whole = le_bytes(v, i + more);
    let head = le_bytes(v, i + 1);
    assert(head =~= whole.take((i + 1) as int));
    assert(le_bytes(v, i) =~= head.take(i as int));
    assert(whole[i as int] == le_bytes(rest, more)[0]);
    assert(head =~= le_bytes(v, i).push((rest % 256) as u8));
    assert(whole =~= head + le_bytes(rest / 256, (more - 1) as nat));
}

/// The first `n` digits of a number do not depend on how many are written.
proof fn lemma_le_bytes_prefix(v: nat, n: nat, m: nat)
    requires
        n <= m,
    ensures
        le_bytes(v, m).len() == m,
        le_bytes(v, n) == le_bytes(v, m).take(n as int),
    decreases n,
{
    lemma_le_bytes_len(v, m);
    if n > 0 {
        lemma_le_bytes_prefix(v / 256, (n - 1) as nat, (m - 1) as nat);
        lemma_le_bytes_len(v / 256, (m - 1) as nat);
        assert(le_bytes(v, n) =~= le_bytes(v, m).take(n as int));
    } else {
        assert(le_bytes(v, n) =~= le_bytes(v, m).take(n as int));
    }
}

/// Reading back the `n` bytes written for a number below `256^n` gives the
/// number.
pub proof fn lemma_le_value_of_bytes(v: nat, n: nat)
    requires
        v < pow256(n),
    ensures
        le_value(le_bytes(v, n)) == v,
    decreases n,
{
    if n > 0 {
        let rest = le_bytes(v / 256, (n - 1) as nat);
        let s = le_bytes(v, n);
        lemma_le_value_of_bytes(v / 256, (n - 1) as nat);
        assert(s.drop_first() =~= rest);
    }
}

/// Reads the `width` bytes of `bytes` that start at `at` as one number,
/// least significant byte first. Where `bytes` has ended, zero is read.
pub(crate) fn read_le(bytes: &[u8], at: usize, width: usize) -> (v: u64)
    requires
        width <= 8,
        at + width <= usize::MAX,
    ensures
        v as nat == le_value(
            zero_extended(bytes@, (at + width) as nat).subrange(at as int, at + width),
        ),
{
    let ghost field = zero_extended(bytes@, (at + width) as nat).subrange(at as int, at + width);
    let len: usize = bytes.len();
    let mut v: u64 = 0;
    let mut i: usize = width;
    while i > 0
        invariant
            i <= width <= 8,
            at + width <= usize::MAX,
            bytes@.len() == len,
            field == zero_extended(bytes@, (at + width) as nat).subrange(at as int, at + width),
            v as nat == le_value(field.skip(i as int)),
        decreases i,
    {
        i = i - 1;
        let byte: u8 = if at + i < len {
            bytes[at + i]
        } else {
            0
        };
        proof {
            let tail = field.skip(i as int);
            assert(tail.drop_first() =~= field.skip(i + 1));
            assert(tail[0] == byte);
            lemma_le_value_bound(tail.drop_first());
            lemma_pow256_small((width - i - 1) as nat);
        }
        v = v * 256 + byte as u64;
    }
    assert(field.skip(0) =~= field);
    v
}

/// Writes `v` into the `width` bytes of `image` that start at `at`, least
/// significant byte first. The other bytes stay as they are.
pub(crate) fn write_le<const N: usize>(image: &mut [u8; N], at: usize, width: usize, v: u64)
    requires
        at + width <= N,
    ensures
        final(image)@ == old(image)@.take(at as int) + le_bytes(v as nat, width as nat) + old(
            image,
        )@.skip(at + width),
{
    let mut rest: u64 = v;
    let mut i: usize = 0;
    proof {
        assert(le_bytes(v as nat, 0) =~= Seq::<u8>::empty());
        assert(le_bytes(v as nat, width as nat) =~= le_bytes(v as nat, 0) + le_bytes(
            v as nat,
            width as nat,
        ));
        assert(image@ =~= image@.take(at as int) + le_bytes(v as nat, 0) + image@.skip(at as int));
    }
    while i < width
        invariant
            i <= width,
            at + width <= N,
            image@.len() == N,
            le_bytes(v as nat, width as nat) == le_bytes(v as nat, i as nat) + le_bytes(
                rest as nat,
                (width - i) as nat,
            ),
            image@ == old(image)@.take(at as int) + le_bytes(v as nat, i as nat) + old(image)@.skip(
                at + i,
            ),
        decreases width - i,
    {
        proof {
            lemma_le_bytes_len(v as nat, i as nat);
            lemma_le_bytes_push(v as nat, i as nat, rest as nat, (width - i) as nat);
        }
        image[at + i] = (rest % 256) as u8;
        rest = rest / 256;
        i = i + 1;
        proof {
            lemma_le_bytes_len(v as nat, i as nat);
            assert(image@ =~= old(image)@.take(at as int) + le_bytes(v as nat, i as nat) + old(
                image,
            )@.skip(at + i));
        }
    }
    proof {
        assert(le_bytes(rest as nat, 0) =~= Seq::<u8>::empty());
        assert(le_bytes(v as nat, width as nat) =~= le_bytes(v as nat, i as nat));
    }
}

} // verus!
