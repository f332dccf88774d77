//! Byte strings: their big-endian value, their lexicographic order and their
//! hexadecimal form.

use vstd::prelude::*;

verus! {

/// The number that `s` writes in base 256, most significant byte first.
pub open spec fn be_value(s: Seq<u8>) -> nat
    decreases s.len(),
{
    if s.len() == 0 {
        0
    } else {
        be_value(s.drop_last()) * 256 + s.last() as nat
    }
}

/// `a` comes no later than `b` in the lexicographic order of byte strings.
pub open spec fn lex_le(a: Seq<u8>, b: Seq<u8>) -> bool
    decreases a.len(),
{
    if a.len() == 0 {
        true
    } else if b.len() == 0 {
        false
    } else if a[0] != b[0] {
        a[0] < b[0]
    } else {
        lex_le(a.drop_first(), b.drop_first())
    }
}

/// Of two byte strings at least one comes no later than the other, and both do
/// only where they are equal.
pub proof fn lemma_lex_le_total(a: Seq<u8>, b: Seq<u8>)
    ensures
        lex_le(a, b) || lex_le(b, a),
        lex_le(a, b) && lex_le(b, a) ==> a == b,
    decreases a.len(),
{
    if a.len() == 0 {
        assert(b.len() == 0 ==> a =~= b);
    } else if b.len() > 0 && a[0] == b[0] {
        lemma_lex_le_total(a.drop_first(), b.drop_first());
        if a.drop_first() == b.drop_first() {
            assert(a =~= seq![a[0]] + a.drop_first());
            assert(b =~= seq![b[0]] + b.drop_first());
        }
    }
}

/// The lower-case hexadecimal digit of a value below sixteen.
pub open spec fn hex_digit(n: int) -> char {
    if n == 0 {
        '0'
    } else if n == 1 {
        '1'
    } else if n == 2 {
        '2'
    } else if n == 3 {
        '3'
    } else if n == 4 {
        '4'
    } else if n == 5 {
        '5'
    } else if n == 6 {
        '6'
    } else if n == 7 {
        '7'
    } else if n == 8 {
        '8'
    } else if n == 9 {
        '9'
    } else if n == 10 {
        'a'
    } else if n == 11 {
        'b'
    } else if n == 12 {
        'c'
    } else if n == 13 {
        'd'
    } else if n == 14 {
        'e'
    } else {
        'f'
    }
}

/// Two lower-case hexadecimal digits for each byte, the high half first.
pub open spec fn hex_text(s: Seq<u8>) -> Seq<char>
    decreases s.len(),
{
    if s.len() == 0 {
        seq![]
    } else {
        hex_text(s.drop_last()) + seq![
            hex_digit(s.last() as int / 16),
            hex_digit(s.last() as int % 16),
        ]
    }
}

/// The first four bytes and the last four bytes, with two dots between them.
pub open spec fn short_hex_text(s: Seq<u8>) -> Seq<char> {
    hex_text(s.subrange(0, 4)) + ".."@ + hex_text(s.subrange(s.len() - 4, s.len() as int))
}

fn hex_digit_str(n: u8) -> (r: &'static str)
    requires
        n < 16,
    ensures
        r@ == seq![hex_digit(n as int)],
{
    proof {
        reveal_strlit("0");
        reveal_strlit("1");
        reveal_strlit("2");
        reveal_strlit("3");
        reveal_strlit("4");
        reveal_strlit("5");
        reveal_strlit("6");
        reveal_strlit("7");
        reveal_strlit("8");
        reveal_strlit("9");
        reveal_strlit("a");
        reveal_strlit("b");
        reveal_strlit("c");
        reveal_strlit("d");
        reveal_strlit("e");
        reveal_strlit("f");
    }
    let r: &'static str = match n {
        0 => "0",
        1 => "1",
        2 => "2",
        3 => "3",
        4 => "4",
        5 => "5",
        6 => "6",
        7 => "7",
        8 => "8",
        9 => "9",
        10 => "a",
        11 => "b",
        12 => "c",
        13 => "d",
        14 => "e",
        _ => "f",
    };
    assert(r@ =~= seq![hex_digit(n as int)]);
    r
}

/// Appends the hexadecimal form of `bytes[from..to]` to `out`.
fn push_hex(out: &mut String, bytes: &[u8], from: usize, to: usize)
    requires
        from <= to <= bytes@.len(),
    ensures
        final(out)@ == old(out)@ + hex_text(bytes@.subrange(from as int, to as int)),
{
    let mut i: usize = from;
    assert(bytes@.subrange(from as int, from as int) =~= Seq::<u8>::empty());
    assert(out@ =~= old(out)@ + hex_text(bytes@.subrange(from as int, from as int)));
    while i < to
        invariant
            from <= i <= to <= bytes@.len(),
            out@ == old(out)@ + hex_text(bytes@.subrange(from as int, i as int)),
        decreases to - i,
    {
        let b: u8 = bytes[i];
        out.append(hex_digit_str(b / 16));
        out.append(hex_digit_str(b % 16));
        proof {
            let s = bytes@.subrange(from as int, i + 1);
            assert(s.drop_last() =~= bytes@.subrange(from as int, i as int));
            assert(s.last() == b);
            assert(out@ =~= old(out)@ + hex_text(s));
        }
        i += 1;
    }
}

/// Appends all of `bytes` in hexadecimal to `out`.
pub fn append_hex(out: &mut String, bytes: &[u8])
    ensures
        final(out)@ == old(out)@ + hex_text(bytes@),
{
    push_hex(out, bytes, 0, bytes.len());
    assert(bytes@.subrange(0, bytes@.len() as int) =~= bytes@);
}

/// Appends the abbreviated hexadecimal form of `bytes` to `out`.
pub fn append_short_hex(out: &mut String, bytes: &[u8; 32])
    ensures
        final(out)@ == old(out)@ + short_hex_text(bytes@),
{
    push_hex(out, bytes.as_slice(), 0, 4);
    out.append("..");
    push_hex(out, bytes.as_slice(), 28, 32);
    assert(out@ =~= old(out)@ + short_hex_text(bytes@));
}

/// The last `digits` hexadecimal digits of a number.
pub open spec fn hex_number(n: nat, digits: nat) -> Seq<char>
    decreases digits,
{
    if digits == 0 {
        seq![]
    } else {
        hex_number(n / 16, (digits - 1) as nat) + seq![hex_digit((n % 16) as int)]
    }
}

/// A number in hexadecimal, with its prefix, and with zeros before it where it has fewer
/// than fourteen digits.
pub open spec fn padded_hex_text(n: u64) -> Seq<char> {
    "0x"@ + hex_number(
        n as nat,
        if n < 0x100_0000_0000_0000 {
            14
        } else if n < 0x1000_0000_0000_0000 {
            15
        } else {
            16
        },
    )
}

fn push_hex_number(out: &mut String, n: u64, digits: u8)
    ensures
        final(out)@ == old(out)@ + hex_number(n as nat, digits as nat),
    decreases digits,
{
    if digits > 0 {
        push_hex_number(out, n / 16, digits - 1);
        out.append(hex_digit_str((n % 16) as u8));
    }
    assert(out@ =~= old(out)@ + hex_number(n as nat, digits as nat));
}

/// Appends a number, with its prefix and padded to fourteen digits, to `out`.
pub fn append_padded_hex(out: &mut String, n: u64)
    ensures
        final(out)@ == old(out)@ + padded_hex_text(n),
{
    out.append("0x");
    let digits: u8 = if n < 0x100_0000_0000_0000 {
        14
    } else if n < 0x1000_0000_0000_0000 {
        15
    } else {
        16
    };
    push_hex_number(out, n, digits);
    assert(out@ =~= old(out)@ + padded_hex_text(n));
}

/// Reads the last eight bytes as a big-endian number.
pub fn last_u64(bytes: &[u8; 32]) -> (r: u64)
    ensures
        r == be_value(bytes@.subrange(24, 32)),
{
    let mut value: u64 = 0;
    let mut i: usize = 24;
    let ghost mut bound: int = 1;
    proof {
        assert(bytes@.subrange(24, 24) =~= Seq::<u8>::empty());
        vstd::arithmetic::power::lemma_pow0(256);
    }
    while i < 32
        invariant
            24 <= i <= 32,
            value == be_value(bytes@.subrange(24, i as int)),
            0 <= value < bound,
            bound == vstd::arithmetic::power::pow(256, (i - 24) as nat),
        decreases 32 - i,
    {
        proof {
            let s = bytes@.subrange(24, i + 1);
            assert(s.drop_last() =~= bytes@.subrange(24, i as int));
            assert(s.last() == bytes@[i as int]);
            vstd::arithmetic::power::lemma_pow_increases(256, (i - 24) as nat, 7);
            assert(vstd::arithmetic::power::pow(256, 7) == 0x100_0000_0000_0000) by {
                reveal_with_fuel(vstd::arithmetic::power::pow, 9);
            }
            reveal_with_fuel(vstd::arithmetic::power::pow, 2);
            bound = bound * 256;
        }
        value = value * 256 + bytes[i] as u64;
        i += 1;
    }
    value
}

/// Whether two byte arrays hold the same bytes.
pub fn same_bytes(a: &[u8; 32], b: &[u8; 32]) -> (r: bool)
    ensures
        r == (a@ == b@),
{
    let mut i: usize = 0;
    while i < 32
        invariant
            i <= 32,
            forall|j: int| 0 <= j < i ==> a@[j] == b@[j],
        decreases 32 - i,
    {
        if a[i] != b[i] {
            return false;
        }
        i += 1;
    }
    assert(a@ =~= b@);
    true
}

/// The bytes of `first` followed by those of `second`.
pub fn joined(first: &[u8; 33], second: &[u8; 33]) -> (r: Vec<u8>)
    ensures
        r@ == first@ + second@,
{
    let mut r: Vec<u8> = Vec::new();
    r.extend_from_slice(first.as_slice());
    r.extend_from_slice(second.as_slice());
    assert(r@ =~= first@ + second@);
    r
}

} // verus!
