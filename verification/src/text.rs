use vstd::prelude::*;
use vstd::std_specs::iter::IteratorSpec;

verus! {

broadcast use vstd::string::group_string_axioms;

/// `String::push` appends one character to the end of the string.
pub assume_specification[ String::push ](s: &mut String, ch: char)
    ensures
        final(s)@ == old(s)@.push(ch),
;

/// The characters of `s`, in order.
pub fn chars_of(s: &str) -> (r: Vec<char>)
    ensures
        r@ == s@,
{
    let mut it = s.chars();
    let mut r: Vec<char> = Vec::new();
    loop
        invariant
            r@.len() <= s@.len(),
            r@ == s@.subrange(0, r@.len() as int),
            it.remaining() == s@.skip(r@.len() as int),
            it.obeys_prophetic_iter_laws(),
        ensures
            r@ == s@,
        decreases s@.len() - r@.len(),
    {
        match it.next() {
            Some(c) => {
                assert(s@.skip(r@.len() as int)[0] == s@[r@.len() as int]);
                assert(s@.skip(r@.len() as int).drop_first() =~= s@.skip(r@.len() as int + 1));
                r.push(c);
                assert(r@ =~= s@.subrange(0, r@.len() as int));
            },
            None => {
                assert(r@ =~= s@);
                break;
            },
        }
    }
    r
}

/// The string whose characters are `v`, in order.
pub fn string_of(v: &Vec<char>) -> (r: String)
    ensures
        r@ == v@,
{
    let mut r = String::new();
    let mut i: usize = 0;
    while i < v.len()
        invariant
            i <= v@.len(),
            r@ == v@.subrange(0, i as int),
        decreases v@.len() - i,
    {
        r.push(v[i]);
        i = i + 1;
        assert(r@ =~= v@.subrange(0, i as int));
    }
    assert(v@.subrange(0, v@.len() as int) =~= v@);
    r
}

/// `s` with every occurrence of `pat` replaced by `rep`, the occurrences
/// taken from left to right without overlapping (as `str::replace` does for
/// a non-empty pattern).
pub open spec fn replace_all(s: Seq<char>, pat: Seq<char>, rep: Seq<char>) -> Seq<char>
    decreases s.len(),
{
    if s.len() == 0 {
        seq![]
    } else if 0 < pat.len() <= s.len() && s.subrange(0, pat.len() as int) == pat {
        rep + replace_all(s.skip(pat.len() as int), pat, rep)
    } else {
        seq![s[0]] + replace_all(s.drop_first(), pat, rep)
    }
}

/// Whether `pat` occurs in `s` at position `at`.
fn occurs_at(s: &Vec<char>, at: usize, pat: &Vec<char>) -> (r: bool)
    requires
        at <= s@.len(),
    ensures
        r == (pat@.len() <= s@.len() - at && s@.subrange(at as int, at + pat@.len()) == pat@),
{
    if pat.len() > s.len() - at {
        return false;
    }
    let mut k: usize = 0;
    while k < pat.len()
        invariant
            k <= pat@.len(),
            at + pat@.len() <= s.len(),
            forall|j: int| 0 <= j < k ==> s@[at + j] == pat@[j],
        decreases pat@.len() - k,
    {
        if s[at + k] != pat[k] {
            assert(s@.subrange(at as int, at + pat@.len())[k as int] != pat@[k as int]);
            return false;
        }
        k = k + 1;
    }
    assert(s@.subrange(at as int, at + pat@.len()) =~= pat@);
    true
}

/// Replaces every occurrence of the non-empty `pat` in `s` by `rep`.
pub fn replace(s: &str, pat: &str, rep: &str) -> (r: String)
    requires
        pat@.len() > 0,
    ensures
        r@ == replace_all(s@, pat@, rep@),
{
    let chars = chars_of(s);
    let pat_chars = chars_of(pat);
    let rep_chars = chars_of(rep);
    let mut out: Vec<char> = Vec::new();
    let mut i: usize = 0;
    assert(chars@.skip(0) =~= chars@);
    while i < chars.len()
        invariant
            i <= chars@.len(),
            chars@ == s@,
            pat_chars@ == pat@,
            rep_chars@ == rep@,
            pat@.len() > 0,
            out@ + replace_all(chars@.skip(i as int), pat@, rep@) == replace_all(s@, pat@, rep@),
        decreases chars@.len() - i,
    {
        let ghost rest = chars@.skip(i as int);
        if occurs_at(&chars, i, &pat_chars) {
            assert(rest.subrange(0, pat@.len() as int) =~= chars@.subrange(i as int, i + pat@.len()));
            assert(rest.skip(pat@.len() as int) =~= chars@.skip(i + pat@.len()));
            let mut k: usize = 0;
            let ghost start = out@;
            while k < rep_chars.len()
                invariant
                    k <= rep_chars@.len(),
                    out@ == start + rep_chars@.subrange(0, k as int),
                decreases rep_chars@.len() - k,
            {
                out.push(rep_chars[k]);
                k = k + 1;
                assert(out@ =~= start + rep_chars@.subrange(0, k as int));
            }
            assert(rep_chars@.subrange(0, rep_chars@.len() as int) =~= rep@);
            assert(out@ + replace_all(chars@.skip(i + pat@.len()), pat@, rep@)
                =~= start + (rep@ + replace_all(rest.skip(pat@.len() as int), pat@, rep@)));
            i = i + pat_chars.len();
        } else {
            assert(pat@.len() <= rest.len() ==> rest.subrange(0, pat@.len() as int) =~= chars@.subrange(i as int, i + pat@.len()));
            assert(rest.drop_first() =~= chars@.skip(i + 1));
            assert(rest[0] == chars@[i as int]);
            let ghost start = out@;
            out.push(chars[i]);
            assert(out@ + replace_all(chars@.skip(i + 1), pat@, rep@)
                =~= start + (seq![rest[0]] + replace_all(rest.drop_first(), pat@, rep@)));
            i = i + 1;
        }
    }
    assert(chars@.skip(i as int) =~= Seq::<char>::empty());
    assert(out@ =~= replace_all(s@, pat@, rep@));
    string_of(&out)
}

/// `n` in decimal, without leading zeros ("0" for zero).
pub open spec fn decimal_digits(n: nat) -> Seq<char>
    decreases n,
{
    let last = (('0' as nat) + n % 10) as char;
    if n < 10 {
        seq![last]
    } else {
        decimal_digits(n / 10) + seq![last]
    }
}

/// `v` in decimal as `Display` writes an integer: a '-' before a negative one.
pub open spec fn signed_text(v: int) -> Seq<char> {
    if v < 0 {
        seq!['-'] + decimal_digits((-v) as nat)
    } else {
        decimal_digits(v as nat)
    }
}

fn decimal_digit(d: u64) -> (c: char)
    requires
        d < 10,
    ensures
        c == (('0' as nat) + d) as char,
{
    match d {
        0 => '0', 1 => '1', 2 => '2', 3 => '3', 4 => '4',
        5 => '5', 6 => '6', 7 => '7', 8 => '8', _ => '9',
    }
}

/// Appends `n` in decimal.
pub fn push_decimal(out: &mut String, n: u64)
    ensures
        final(out)@ == old(out)@ + decimal_digits(n as nat),
    decreases n,
{
    if n >= 10 {
        push_decimal(out, n / 10);
    }
    out.push(decimal_digit(n % 10));
    assert(n < 10 ==> decimal_digits(n as nat) =~= seq![(('0' as nat) + n % 10) as char]);
}

/// Appends `v` in decimal, with a '-' when it is negative.
pub fn push_signed(out: &mut String, v: i32)
    ensures
        final(out)@ == old(out)@ + signed_text(v as int),
{
    if v < 0 {
        let ghost start = out@;
        out.push('-');
        let magnitude: i64 = -(v as i64);
        push_decimal(out, magnitude as u64);
        assert(out@ =~= start + signed_text(v as int));
    } else {
        push_decimal(out, v as u64);
    }
}

/// The text held by an optional string.
pub open spec fn text_of(o: Option<String>) -> Option<Seq<char>> {
    match o {
        Some(s) => Some(s@),
        None => None,
    }
}

} // verus!
