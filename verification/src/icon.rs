use vstd::prelude::*;
use vstd::std_specs::iter::IteratorSpec;

verus! {

broadcast use vstd::string::group_string_axioms;

/// The lower-case hexadecimal digit for a value below sixteen.
pub open spec fn hex_digit(d: nat) -> char {
    if d == 0 { '0' } else if d == 1 { '1' } else if d == 2 { '2' } else if d == 3 { '3' }
    else if d == 4 { '4' } else if d == 5 { '5' } else if d == 6 { '6' } else if d == 7 { '7' }
    else if d == 8 { '8' } else if d == 9 { '9' } else if d == 10 { 'a' } else if d == 11 { 'b' }
    else if d == 12 { 'c' } else if d == 13 { 'd' } else if d == 14 { 'e' } else { 'f' }
}

/// The value of a lower-case hexadecimal digit.
pub open spec fn hex_value(c: char) -> nat {
    if c == '1' { 1 } else if c == '2' { 2 } else if c == '3' { 3 } else if c == '4' { 4 }
    else if c == '5' { 5 } else if c == '6' { 6 } else if c == '7' { 7 } else if c == '8' { 8 }
    else if c == '9' { 9 } else if c == 'a' { 10 } else if c == 'b' { 11 } else if c == 'c' { 12 }
    else if c == 'd' { 13 } else if c == 'e' { 14 } else if c == 'f' { 15 } else { 0 }
}

/// `n` in lower-case hexadecimal, without leading zeros ("0" for zero).
pub open spec fn hex_digits(n: nat) -> Seq<char>
    decreases n,
{
    if n < 16 {
        seq![hex_digit(n)]
    } else {
        hex_digits(n / 16) + seq![hex_digit(n % 16)]
    }
}

/// The number that a string of lower-case hexadecimal digits stands for.
pub open spec fn hex_number(s: Seq<char>) -> nat
    decreases s.len(),
{
    if s.len() == 0 {
        0
    } else {
        hex_number(s.drop_last()) * 16 + hex_value(s.last())
    }
}

/// `s` with zeros in front up to `width` characters.
pub open spec fn zero_padded(s: Seq<char>, width: nat) -> Seq<char> {
    if s.len() < width {
        Seq::new((width - s.len()) as nat, |_i: int| '0') + s
    } else {
        s
    }
}

/// `n` as `format!("{:04x}", n)` writes it: lower-case hexadecimal, at
/// least four digits.
pub open spec fn hex4(n: nat) -> Seq<char> {
    zero_padded(hex_digits(n), 4)
}

/// The character that stands for an icon: its first one, or U+274C when
/// the icon is empty.
pub open spec fn icon_char(icon: Seq<char>) -> char {
    if icon.len() > 0 {
        icon[0]
    } else {
        '\u{274c}'
    }
}

/// Where the Noto emoji picture of an icon is published.
pub open spec fn icon_url_text(icon: Seq<char>) -> Seq<char> {
    "https://raw.githubusercontent.com/googlefonts/noto-emoji/main/svg/emoji_u"@
        + hex4(icon_char(icon) as nat) + ".svg"@
}

fn hex_digit_char(d: u32) -> (c: char)
    requires
        d < 16,
    ensures
        c == hex_digit(d as nat),
{
    match d {
        0 => '0', 1 => '1', 2 => '2', 3 => '3', 4 => '4', 5 => '5', 6 => '6', 7 => '7',
        8 => '8', 9 => '9', 10 => 'a', 11 => 'b', 12 => 'c', 13 => 'd', 14 => 'e', _ => 'f',
    }
}

proof fn lemma_hex_digits_len(n: nat)
    ensures
        1 <= hex_digits(n).len(),
        n < 0x1_0000_0000 ==> hex_digits(n).len() <= 8,
    decreases n,
{
    if n >= 16 {
        lemma_hex_digits_len(n / 16);
    }
    if n < 0x1_0000_0000 {
        assert(pow16(8) == 0x1_0000_0000) by {
            reveal_with_fuel(pow16, 9);
        }
        lemma_hex_digits_len_bound(n, 8);
    }
}

proof fn lemma_hex_digits_len_bound(n: nat, k: nat)
    requires
        1 <= k <= 8,
        n < pow16(k),
    ensures
        hex_digits(n).len() <= k,
    decreases n,
{
    if n >= 16 {
        assert(k >= 2) by {
            if k == 1 {
                assert(pow16(1) == 16) by { reveal_with_fuel(pow16, 2); }
            }
        }
        assert(pow16(k) == 16 * pow16((k - 1) as nat));
        assert(n / 16 < pow16((k - 1) as nat));
        lemma_hex_digits_len_bound(n / 16, (k - 1) as nat);
    }
}

/// Sixteen to the power `k`.
pub open spec fn pow16(k: nat) -> nat
    decreases k,
{
    if k == 0 { 1 } else { 16 * pow16((k - 1) as nat) }
}

/// Appends `n` in lower-case hexadecimal without leading zeros.
fn push_hex(out: &mut String, n: u32)
    ensures
        final(out)@ == old(out)@ + hex_digits(n as nat),
    decreases n,
{
    if n >= 16 {
        push_hex(out, n / 16);
    }
    out.push(hex_digit_char(n % 16));
    assert(n < 16 ==> hex_digits(n as nat) =~= seq![hex_digit((n % 16) as nat)]);
}

/// Number of hexadecimal digits of `n`.
fn hex_len(n: u32) -> (r: usize)
    ensures
        r == hex_digits(n as nat).len(),
        1 <= r <= 8,
    decreases n,
{
    proof { lemma_hex_digits_len(n as nat); }
    if n < 16 {
        1
    } else {
        let k = hex_len(n / 16);
        proof { lemma_hex_digits_len(n as nat); }
        k + 1
    }
}

/// Appends `n` as `format!("{:04x}", n)` writes it.
pub fn push_hex4(out: &mut String, n: u32)
    ensures
        final(out)@ == old(out)@ + hex4(n as nat),
{
    let len = hex_len(n);
    let ghost start = out@;
    let mut pad: usize = len;
    while pad < 4
        invariant
            len <= pad <= 4 || (len > 4 && pad == len),
            len == hex_digits(n as nat).len(),
            out@ == start + Seq::new((pad - len) as nat, |_i: int| '0'),
        decreases 4 - pad,
    {
        out.push('0');
        pad = pad + 1;
        assert(out@ =~= start + Seq::new((pad - len) as nat, |_i: int| '0'));
    }
    let ghost padded = out@;
    push_hex(out, n);
    assert(out@ =~= start + hex4(n as nat));
}

/// The address of the Noto emoji picture for the first character of `icon`
/// (U+274C for an empty icon).
pub fn icon_url(icon: &str) -> (r: String)
    ensures
        r@ == icon_url_text(icon@),
{
    let mut it = icon.chars();
    let first = it.next();
    let c = match first {
        Some(c) => c,
        None => '\u{274c}',
    };
    assert(c == icon_char(icon@));
    let mut url = String::from_str("https://raw.githubusercontent.com/googlefonts/noto-emoji/main/svg/emoji_u");
    push_hex4(&mut url, c as u32);
    url.append(".svg");
    url
}

proof fn lemma_digit_value(d: nat)
    requires
        d < 16,
    ensures
        hex_value(hex_digit(d)) == d,
{
    assert(d == 0 || d == 1 || d == 2 || d == 3 || d == 4 || d == 5 || d == 6 || d == 7 || d == 8
        || d == 9 || d == 10 || d == 11 || d == 12 || d == 13 || d == 14 || d == 15);
}

proof fn lemma_hex_digits_value(n: nat)
    ensures
        hex_number(hex_digits(n)) == n,
    decreases n,
{
    lemma_digit_value(n % 16);
    if n >= 16 {
        lemma_hex_digits_value(n / 16);
        let s = hex_digits(n);
        assert(s.drop_last() =~= hex_digits(n / 16));
        assert(s.last() == hex_digit(n % 16));
        assert(hex_number(s) == hex_number(s.drop_last()) * 16 + hex_value(s.last()));
        assert(n == (n / 16) * 16 + n % 16);
    } else {
        let s = hex_digits(n);
        assert(s.drop_last() =~= Seq::<char>::empty());
        assert(hex_number(s) == hex_number(s.drop_last()) * 16 + hex_value(s.last()));
        assert(n % 16 == n);
    }
}

proof fn lemma_zeros_value(k: nat)
    ensures
        hex_number(Seq::new(k, |_i: int| '0')) == 0,
    decreases k,
{
    if k > 0 {
        assert(Seq::new(k, |_i: int| '0').drop_last() =~= Seq::new((k - 1) as nat, |_i: int| '0'));
        lemma_zeros_value((k - 1) as nat);
    }
}

proof fn lemma_leading_zeros_value(k: nat, s: Seq<char>)
    ensures
        hex_number(Seq::new(k, |_i: int| '0') + s) == hex_number(s),
    decreases s.len(),
{
    let z = Seq::new(k, |_i: int| '0');
    if s.len() == 0 {
        assert(z + s =~= z);
        lemma_zeros_value(k);
    } else {
        assert((z + s).drop_last() =~= z + s.drop_last());
        assert((z + s).last() == s.last());
        lemma_leading_zeros_value(k, s.drop_last());
    }
}

/// Reading the four-digit hexadecimal form of a code point back gives the
/// code point: the icon address names exactly the icon's first character.
pub proof fn lemma_hex4_round_trip(n: nat)
    ensures
        hex_number(hex4(n)) == n,
        hex4(n).len() >= 4,
{
    lemma_hex_digits_value(n);
    lemma_hex_digits_len(n);
    let d = hex_digits(n);
    if d.len() < 4 {
        lemma_leading_zeros_value((4 - d.len()) as nat, d);
    }
}

} // verus!
