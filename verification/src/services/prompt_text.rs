//! Building blocks of the classification prompts: lists of lines and dates.

use vstd::prelude::*;
use crate::text::{decimal, push_str, u64_to_decimal};

verus! {

/// The pieces of `s` written one after another.
pub open spec fn concat(s: Seq<Seq<char>>) -> Seq<char>
    decreases s.len(),
{
    if s.len() == 0 {
        Seq::empty()
    } else {
        concat(s.drop_last()) + s.last()
    }
}

/// Views of a sequence of strings.
pub open spec fn views(v: Seq<String>) -> Seq<Seq<char>> {
    v.map_values(|s: String| s@)
}

/// Concatenating one more piece.
pub proof fn lemma_concat_step(s: Seq<Seq<char>>, i: int)
    requires
        0 <= i < s.len(),
    ensures
        concat(s.take(i + 1)) == concat(s.take(i)) + s[i],
{
    assert(s.take(i + 1).drop_last() == s.take(i));
}

/// Concatenating a whole sequence.
pub proof fn lemma_concat_all(s: Seq<Seq<char>>)
    ensures
        concat(s.take(s.len() as int)) == concat(s),
{
    assert(s.take(s.len() as int) == s);
}

/// A list line: `- x` and a newline.
pub open spec fn bullet(x: Seq<char>) -> Seq<char> {
    "- "@ + x + "\n"@
}

/// One list line per item.
pub open spec fn bullet_lines(items: Seq<Seq<char>>) -> Seq<char> {
    concat(items.map_values(|x: Seq<char>| bullet(x)))
}

/// Appends `- item` and a newline for each item.
pub fn push_bullets(out: &mut String, items: &Vec<String>)
    ensures
        final(out)@ == old(out)@ + bullet_lines(views(items@)),
{
    let ghost before = out@;
    let ghost lines = views(items@).map_values(|x: Seq<char>| bullet(x));
    let mut i: usize = 0;
    while i < items.len()
        invariant
            i <= items@.len(),
            lines == views(items@).map_values(|x: Seq<char>| bullet(x)),
            out@ == before + concat(lines.take(i as int)),
        decreases items@.len() - i,
    {
        proof {
            lemma_concat_step(lines, i as int);
        }
        push_str(out, "- ");
        push_str(out, items[i].as_str());
        push_str(out, "\n");
        assert(out@ == before + concat(lines.take(i as int)) + lines[i as int]);
        i = i + 1;
    }
    proof {
        lemma_concat_all(lines);
    }
}

/// The same list lines, joined by newlines with no newline at the end.
pub open spec fn joined_bullets(items: Seq<Seq<char>>) -> Seq<char>
    decreases items.len(),
{
    if items.len() == 0 {
        Seq::empty()
    } else if items.len() == 1 {
        "- "@ + items[0]
    } else {
        joined_bullets(items.drop_last()) + "\n"@ + "- "@ + items.last()
    }
}

/// Two-digit decimal notation of `n < 100`, with a leading zero below ten.
pub open spec fn pad2(n: nat) -> Seq<char> {
    if n < 10 {
        "0"@ + decimal(n)
    } else {
        decimal(n)
    }
}

/// Four-digit zero-padded decimal notation of `n`.
pub open spec fn pad4(n: nat) -> Seq<char> {
    if n < 10 {
        "000"@ + decimal(n)
    } else if n < 100 {
        "00"@ + decimal(n)
    } else if n < 1000 {
        "0"@ + decimal(n)
    } else {
        decimal(n)
    }
}

/// A year as `%Y` prints it: four zero-padded digits, with a sign outside 0..=9999.
pub open spec fn year_text(y: int) -> Seq<char> {
    if y < 0 {
        "-"@ + pad4((-y) as nat)
    } else if y > 9999 {
        "+"@ + decimal(y as nat)
    } else {
        pad4(y as nat)
    }
}

/// `YYYY-MM-DD`, as `%Y-%m-%d` prints a date.
pub open spec fn iso_date(y: int, m: nat, d: nat) -> Seq<char> {
    year_text(y) + "-"@ + pad2(m) + "-"@ + pad2(d)
}

/// Appends the two-digit notation of `n`.
pub fn push_pad2(out: &mut String, n: u32)
    requires
        n < 100,
    ensures
        final(out)@ == old(out)@ + pad2(n as nat),
{
    if n < 10 {
        push_str(out, "0");
    }
    let d = u64_to_decimal(n as u64);
    push_str(out, d.as_str());
}

/// Appends the four-digit zero-padded notation of `n`.
pub fn push_pad4(out: &mut String, n: u64)
    ensures
        final(out)@ == old(out)@ + pad4(n as nat),
{
    if n < 10 {
        push_str(out, "000");
    } else if n < 100 {
        push_str(out, "00");
    } else if n < 1000 {
        push_str(out, "0");
    }
    let d = u64_to_decimal(n);
    push_str(out, d.as_str());
}

/// Appends a year as `%Y` prints it.
pub fn push_year(out: &mut String, y: i32)
    ensures
        final(out)@ == old(out)@ + year_text(y as int),
{
    if y < 0 {
        push_str(out, "-");
        let a: i64 = -(y as i64);
        push_pad4(out, a as u64);
    } else if y > 9999 {
        push_str(out, "+");
        let d = u64_to_decimal(y as u64);
        push_str(out, d.as_str());
    } else {
        push_pad4(out, y as u64);
    }
}

/// Appends `YYYY-MM-DD`.
pub fn push_iso_date(out: &mut String, y: i32, m: u32, d: u32)
    requires
        m < 100,
        d < 100,
    ensures
        final(out)@ == old(out)@ + iso_date(y as int, m as nat, d as nat),
{
    push_year(out, y);
    push_str(out, "-");
    push_pad2(out, m);
    push_str(out, "-");
    push_pad2(out, d);
}

} // verus!
