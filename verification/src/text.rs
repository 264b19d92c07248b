//! Small verified text-building helpers used by the implementation
//! generator: decimal rendering of indexes and separator-joined lists.

use vstd::prelude::*;
use vstd::string::*;

verus! {

/// The one-character text of a decimal digit.
pub open spec fn digit_seq(d: nat) -> Seq<char> {
    if d == 0 {
        "0"@
    } else if d == 1 {
        "1"@
    } else if d == 2 {
        "2"@
    } else if d == 3 {
        "3"@
    } else if d == 4 {
        "4"@
    } else if d == 5 {
        "5"@
    } else if d == 6 {
        "6"@
    } else if d == 7 {
        "7"@
    } else if d == 8 {
        "8"@
    } else {
        "9"@
    }
}

/// The decimal text of a number, most significant digit first, with no
/// leading zeros (except for the number 0 itself).
pub open spec fn dec_digits(n: nat) -> Seq<char>
    decreases n,
{
    if n < 10 {
        digit_seq(n)
    } else {
        dec_digits(n / 10) + digit_seq(n % 10)
    }
}

fn append_digit(out: &mut String, d: usize)
    requires
        d < 10,
    ensures
        final(out)@ == old(out)@ + digit_seq(d as nat),
{
    let s: &str = if d == 0 {
        "0"
    } else if d == 1 {
        "1"
    } else if d == 2 {
        "2"
    } else if d == 3 {
        "3"
    } else if d == 4 {
        "4"
    } else if d == 5 {
        "5"
    } else if d == 6 {
        "6"
    } else if d == 7 {
        "7"
    } else if d == 8 {
        "8"
    } else {
        "9"
    };
    out.append(s);
}

fn append_dec(out: &mut String, n: usize)
    ensures
        final(out)@ == old(out)@ + dec_digits(n as nat),
    decreases n,
{
    if n >= 10 {
        append_dec(out, n / 10);
    }
    append_digit(out, n % 10);
    proof {
        if n >= 10 {
            assert(final(out)@ =~= old(out)@ + dec_digits(n as nat));
        }
    }
}

/// The decimal text of `n` as a `String`.
pub fn dec_string(n: usize) -> (r: String)
    ensures
        r@ == dec_digits(n as nat),
{
    let mut out = String::new();
    append_dec(&mut out, n);
    proof {
        assert(out@ =~= dec_digits(n as nat));
    }
    out
}

/// The views of a sequence of strings.
pub open spec fn str_views(items: Seq<String>) -> Seq<Seq<char>> {
    items.map_values(|s: String| s@)
}

/// Each item's view wrapped between a fixed prefix and a fixed suffix.
pub open spec fn wrapped_views(items: Seq<String>, before: Seq<char>, after: Seq<char>) -> Seq<
    Seq<char>,
> {
    items.map_values(|s: String| before + s@ + after)
}

/// The parts joined by the separator, with nothing before the first part or
/// after the last.
pub open spec fn joined(parts: Seq<Seq<char>>, sep: Seq<char>) -> Seq<char>
    decreases parts.len(),
{
    if parts.len() == 0 {
        Seq::empty()
    } else if parts.len() == 1 {
        parts[0]
    } else {
        joined(parts.drop_last(), sep) + sep + parts.last()
    }
}

pub proof fn lemma_joined_push(parts: Seq<Seq<char>>, sep: Seq<char>, x: Seq<char>)
    ensures
        parts.len() == 0 ==> joined(parts.push(x), sep) == x,
        parts.len() > 0 ==> joined(parts.push(x), sep) == joined(parts, sep) + sep + x,
{
    assert(parts.push(x).drop_last() =~= parts);
    assert(parts.push(x).last() == x);
}

/// Append to `out` every item of `items`, each wrapped between `before` and
/// `after`, with `sep` between consecutive items.
pub fn append_wrapped_list(
    out: &mut String,
    items: &Vec<String>,
    sep: &str,
    before: &str,
    after: &str,
)
    ensures
        final(out)@ == old(out)@ + joined(wrapped_views(items@, before@, after@), sep@),
{
    let ghost parts: Seq<Seq<char>> = wrapped_views(items@, before@, after@);
    let mut i: usize = 0;
    while i < items.len()
        invariant
            i <= items@.len(),
            parts == wrapped_views(items@, before@, after@),
            out@ == old(out)@ + joined(parts.take(i as int), sep@),
        decreases items@.len() - i,
    {
        if i > 0 {
            out.append(sep);
        }
        out.append(before);
        out.append(items[i].as_str());
        out.append(after);
        proof {
            assert(parts.take(i as int).push(parts[i as int]) =~= parts.take(i + 1));
            lemma_joined_push(parts.take(i as int), sep@, parts[i as int]);
            assert(parts[i as int] == before@ + items@[i as int]@ + after@);
            assert(out@ =~= old(out)@ + joined(parts.take(i + 1), sep@));
        }
        i = i + 1;
    }
    proof {
        assert(parts.take(items@.len() as int) =~= parts);
    }
}

} // verus!
