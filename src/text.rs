//! Rendering numbers as text: decimal counts in messages, hexadecimal GUIDs.
use vstd::prelude::*;
use vstd::slice::slice_subrange;
use vstd::string::*;

verus! {

/// The character of a digit below sixteen, lower case past nine.
pub open spec fn digit_char(d: nat) -> char {
    if d == 0 { '0' }
    else if d == 1 { '1' }
    else if d == 2 { '2' }
    else if d == 3 { '3' }
    else if d == 4 { '4' }
    else if d == 5 { '5' }
    else if d == 6 { '6' }
    else if d == 7 { '7' }
    else if d == 8 { '8' }
    else if d == 9 { '9' }
    else if d == 10 { 'a' }
    else if d == 11 { 'b' }
    else if d == 12 { 'c' }
    else if d == 13 { 'd' }
    else if d == 14 { 'e' }
    else { 'f' }
}

/// The decimal digits of `n`, most significant first, without leading zeros.
pub open spec fn decimal(n: nat) -> Seq<char>
    decreases n,
{
    if n < 10 {
        seq![digit_char(n)]
    } else {
        decimal(n / 10) + seq![digit_char(n % 10)]
    }
}

/// Two lower-case hexadecimal digits of a byte.
pub open spec fn hex_byte(b: u8) -> Seq<char> {
    seq![digit_char(b as nat / 16), digit_char(b as nat % 16)]
}

/// Two hexadecimal digits for each byte, in order.
pub open spec fn hex_bytes(b: Seq<u8>) -> Seq<char>
    decreases b.len(),
{
    if b.len() == 0 {
        Seq::empty()
    } else {
        hex_bytes(b.drop_last()) + hex_byte(b.last())
    }
}

/// A 16-byte identifier in the 8-4-4-4-12 grouping of hexadecimal digits.
pub open spec fn guid_text(b: Seq<u8>) -> Seq<char> {
    hex_bytes(b.subrange(0, 4)) + seq!['-'] + hex_bytes(b.subrange(4, 6)) + seq!['-']
        + hex_bytes(b.subrange(6, 8)) + seq!['-'] + hex_bytes(b.subrange(8, 10)) + seq!['-']
        + hex_bytes(b.subrange(10, 16))
}

/// The one-character text of a digit below sixteen.
fn digit_str(d: u64) -> (r: &'static str)
    requires
        d < 16,
    ensures
        r@ == seq![digit_char(d as nat)],
{
    proof {
        reveal_strlit("0");
        reveal_strlit("1");
        reveal_strlit("2");
        reveal_strlit("3");
        reveal_strlit("4");
        reveal_strlit("5");
        reveal_strlit("6");
        reveal_strlit("7");
        reveal_strlit("8");
        reveal_strlit("9");
        reveal_strlit("a");
        reveal_strlit("b");
        reveal_strlit("c");
        reveal_strlit("d");
        reveal_strlit("e");
        reveal_strlit("f");
    }
    let r = if d == 0 { "0" }
    else if d == 1 { "1" }
    else if d == 2 { "2" }
    else if d == 3 { "3" }
    else if d == 4 { "4" }
    else if d == 5 { "5" }
    else if d == 6 { "6" }
    else if d == 7 { "7" }
    else if d == 8 { "8" }
    else if d == 9 { "9" }
    else if d == 10 { "a" }
    else if d == 11 { "b" }
    else if d == 12 { "c" }
    else if d == 13 { "d" }
    else if d == 14 { "e" }
    else { "f" };
    assert(r@ =~= seq![digit_char(d as nat)]);
    r
}

/// Appends the decimal digits of `n` to `s`.
pub fn push_decimal(s: &mut String, n: u64)
    ensures
        final(s)@ == old(s)@ + decimal(n as nat),
    decreases n,
{
    if n >= 10 {
        push_decimal(s, n / 10);
    }
    s.append(digit_str(n % 10));
    proof {
        assert(old(s)@ + decimal(n as nat) =~= s@) by {
            if n >= 10 {
                let last = seq![digit_char((n % 10) as nat)];
                assert(decimal(n as nat) == decimal((n / 10) as nat) + last);
            }
        }
    }
}

/// Appends two hexadecimal digits of each byte of `b` to `s`.
fn push_hex(s: &mut String, b: &[u8])
    ensures
        final(s)@ == old(s)@ + hex_bytes(b@),
{
    let mut i: usize = 0;
    while i < b.len()
        invariant
            i <= b@.len(),
            s@ == old(s)@ + hex_bytes(b@.take(i as int)),
        decreases b@.len() - i,
    {
        let x = b[i];
        s.append(digit_str((x / 16) as u64));
        s.append(digit_str((x % 16) as u64));
        proof {
            let t = b@.take(i as int + 1);
            assert(t.drop_last() =~= b@.take(i as int));
            assert(t.last() == x);
        }
        i = i + 1;
        assert(s@ =~= old(s)@ + hex_bytes(b@.take(i as int)));
    }
    assert(b@.take(b@.len() as int) =~= b@);
}

/// The text form of a 16-byte GUID, as its bytes stand in order:
/// `xxxxxxxx-xxxx-xxxx-xxxx-xxxxxxxxxxxx` in lower-case hexadecimal.
pub fn parse_guid(bytes: [u8; 16]) -> (r: String)
    ensures
        r@ == guid_text(bytes@),
{
    proof {
        reveal_strlit("-");
    }
    let mut s = String::new();
    let b = bytes.as_slice();
    push_hex(&mut s, slice_subrange(b, 0, 4));
    s.append("-");
    push_hex(&mut s, slice_subrange(b, 4, 6));
    s.append("-");
    push_hex(&mut s, slice_subrange(b, 6, 8));
    s.append("-");
    push_hex(&mut s, slice_subrange(b, 8, 10));
    s.append("-");
    push_hex(&mut s, slice_subrange(b, 10, 16));
    assert(s@ =~= guid_text(bytes@));
    s
}

} // verus!
