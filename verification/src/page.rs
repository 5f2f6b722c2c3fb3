use vstd::prelude::*;

use crate::icon::zero_padded;
use crate::text::{decimal_digits, push_decimal, replace, replace_all};

verus! {

/// The name under which a rendered template is written: the template's
/// name without "_template", with every '/' and '\' turned into '_'.
pub open spec fn output_name(template_name: Seq<char>) -> Seq<char> {
    replace_all(
        replace_all(replace_all(template_name, "_template"@, ""@), "/"@, "_"@),
        "\\"@,
        "_"@,
    )
}

/// The file name of a rendered template (see `output_name`).
pub fn output_file_name(template_name: &str) -> (r: String)
    ensures
        r@ == output_name(template_name@),
{
    proof {
        reveal_strlit("_template");
        reveal_strlit("/");
        reveal_strlit("\\");
    }
    let stripped = replace(template_name, "_template", "");
    let flat = replace(stripped.as_str(), "/", "_");
    replace(flat.as_str(), "\\", "_")
}

/// A character of a replacement's result comes from the input or from the
/// replacement text.
proof fn lemma_replace_all_chars(s: Seq<char>, pat: Seq<char>, rep: Seq<char>, x: char)
    requires
        replace_all(s, pat, rep).contains(x),
    ensures
        s.contains(x) || rep.contains(x),
    decreases s.len(),
{
    let r = replace_all(s, pat, rep);
    let i = choose|i: int| 0 <= i < r.len() && r[i] == x;
    if s.len() == 0 {
    } else if 0 < pat.len() <= s.len() && s.subrange(0, pat.len() as int) == pat {
        let tail = replace_all(s.skip(pat.len() as int), pat, rep);
        if i < rep.len() {
            assert(rep[i] == x);
        } else {
            assert(tail[i - rep.len()] == x);
            lemma_replace_all_chars(s.skip(pat.len() as int), pat, rep, x);
            if s.skip(pat.len() as int).contains(x) {
                let j = choose|j: int| 0 <= j < s.skip(pat.len() as int).len() && s.skip(pat.len() as int)[j] == x;
                assert(s[j + pat.len()] == x);
            }
        }
    } else {
        let tail = replace_all(s.drop_first(), pat, rep);
        if i == 0 {
            assert(s[0] == x);
        } else {
            assert(tail[i - 1] == x);
            lemma_replace_all_chars(s.drop_first(), pat, rep, x);
            if s.drop_first().contains(x) {
                let j = choose|j: int| 0 <= j < s.drop_first().len() && s.drop_first()[j] == x;
                assert(s[j + 1] == x);
            }
        }
    }
}

/// Replacing a one-character pattern by text without that character leaves
/// no occurrence of it.
proof fn lemma_replace_all_removes(s: Seq<char>, c: char, rep: Seq<char>)
    requires
        !rep.contains(c),
    ensures
        !replace_all(s, seq![c], rep).contains(c),
    decreases s.len(),
{
    let pat = seq![c];
    let r = replace_all(s, pat, rep);
    if s.len() == 0 {
    } else if 0 < pat.len() <= s.len() && s.subrange(0, pat.len() as int) == pat {
        lemma_replace_all_removes(s.skip(1), c, rep);
        let tail = replace_all(s.skip(1), pat, rep);
        assert(r == rep + tail);
        if r.contains(c) {
            let i = choose|i: int| 0 <= i < r.len() && r[i] == c;
            if i < rep.len() {
                assert(rep[i] == c);
            } else {
                assert(tail[i - rep.len()] == c);
            }
        }
    } else {
        lemma_replace_all_removes(s.drop_first(), c, rep);
        let tail = replace_all(s.drop_first(), pat, rep);
        assert(s[0] != c) by {
            if s[0] == c {
                assert(s.subrange(0, 1) =~= pat);
            }
        }
        if r.contains(c) {
            let i = choose|i: int| 0 <= i < r.len() && r[i] == c;
            if i > 0 {
                assert(tail[i - 1] == c);
            }
        }
    }
}

/// An output name never holds a path separator, so the rendered file lands
/// directly in the output directory.
pub proof fn lemma_output_name_is_flat(template_name: Seq<char>)
    ensures
        !output_name(template_name).contains('/'),
        !output_name(template_name).contains('\\'),
{
    reveal_strlit("/");
    reveal_strlit("\\");
    reveal_strlit("_");
    let a = replace_all(template_name, "_template"@, ""@);
    let b = replace_all(a, "/"@, "_"@);
    assert("/"@ =~= seq!['/']);
    assert("\\"@ =~= seq!['\\']);
    assert("_"@ =~= seq!['_']);
    lemma_replace_all_removes(a, '/', "_"@);
    lemma_replace_all_removes(b, '\\', "_"@);
    if output_name(template_name).contains('/') {
        lemma_replace_all_chars(b, "\\"@, "_"@, '/');
    }
}

/// The file of the screenshot of the `index`-th card (from 0), as
/// `format!("card_{:02}.png", index)` names it.
pub open spec fn card_file_text(index: nat) -> Seq<char> {
    "card_"@ + zero_padded(decimal_digits(index), 2) + ".png"@
}

pub fn card_file_name(index: usize) -> (r: String)
    ensures
        r@ == card_file_text(index as nat),
{
    let mut name = String::from_str("card_");
    let ghost start = name@;
    if index < 10 {
        name.push('0');
    }
    push_decimal(&mut name, index as u64);
    proof {
        if index < 10 {
            assert(decimal_digits(index as nat).len() == 1);
            assert(start + seq!['0'] + decimal_digits(index as nat)
                =~= start + zero_padded(decimal_digits(index as nat), 2));
        } else {
            assert(decimal_digits(index as nat).len() >= 2) by {
                reveal_with_fuel(decimal_digits, 2);
            }
            assert(zero_padded(decimal_digits(index as nat), 2) == decimal_digits(index as nat));
        }
    }
    name.append(".png");
    name
}

} // verus!
