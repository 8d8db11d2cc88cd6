//! Numbers written out in positional notation, and pieces of text joined by a
//! separator.

use vstd::prelude::*;
use vstd::string::*;

verus! {

/// The digits of every base up to sixteen, in order of their value.
pub open spec fn digit_alphabet() -> Seq<char> {
    "0123456789abcdef"@
}

/// The character that stands for the digit `d`.
pub open spec fn digit_char(d: nat) -> char
    recommends
        d < 16,
{
    digit_alphabet()[d as int]
}

/// `n` in decimal notation, with no leading zero.
pub open spec fn decimal_text(n: nat) -> Seq<char>
    decreases n,
{
    if n < 10 {
        seq![digit_char(n)]
    } else {
        decimal_text(n / 10).push(digit_char(n % 10))
    }
}

/// `n` in hexadecimal notation, in lower case and with no leading zero.
pub open spec fn hex_text(n: nat) -> Seq<char>
    decreases n,
{
    if n < 16 {
        seq![digit_char(n)]
    } else {
        hex_text(n / 16).push(digit_char(n % 16))
    }
}

/// The pieces of `parts` in order, with `separator` between each two
/// neighbours.
pub open spec fn join(parts: Seq<Seq<char>>, separator: Seq<char>) -> Seq<char>
    decreases parts.len(),
{
    if parts.len() == 0 {
        Seq::empty()
    } else if parts.len() == 1 {
        parts[0]
    } else {
        join(parts.drop_last(), separator) + separator + parts.last()
    }
}

/// The sixteen digits are the characters `0` to `9` and `a` to `f`.
pub proof fn lemma_digit_alphabet()
    ensures
        digit_alphabet() == seq![
            '0', '1', '2', '3', '4', '5', '6', '7', '8', '9', 'a', 'b', 'c', 'd', 'e', 'f',
        ],
{
    reveal_strlit("0123456789abcdef");
    assert(digit_alphabet() =~= seq![
        '0', '1', '2', '3', '4', '5', '6', '7', '8', '9', 'a', 'b', 'c', 'd', 'e', 'f',
    ]);
}

/// The text of one digit.
fn digit_str(d: u8) -> (text: &'static str)
    requires
        d < 16,
    ensures
        text@ == seq![digit_char(d as nat)],
{
    let alphabet = "0123456789abcdef";
    proof {
        lemma_digit_alphabet();
    }
    let text = alphabet.substring_ascii(d as usize, d as usize + 1);
    assert(text@ =~= seq![digit_char(d as nat)]);
    text
}

/// Writes `n` in decimal notation at the end of `out`.
pub fn append_decimal(out: &mut String, n: u32)
    ensures
        final(out)@ == old(out)@ + decimal_text(n as nat),
    decreases n,
{
    if n >= 10 {
        append_decimal(out, n / 10);
    }
    out.append(digit_str((n % 10) as u8));
    assert(out@ =~= old(out)@ + decimal_text(n as nat));
}

/// Writes `n` in hexadecimal notation at the end of `out`.
pub fn append_hex(out: &mut String, n: u16)
    ensures
        final(out)@ == old(out)@ + hex_text(n as nat),
    decreases n,
{
    if n >= 16 {
        append_hex(out, n / 16);
    }
    out.append(digit_str((n % 16) as u8));
    assert(out@ =~= old(out)@ + hex_text(n as nat));
}

} // verus!
