//! Typst string literals: escaping text so that it can stand between double
//! quotes in generated Typst source.
use vstd::prelude::*;

use crate::text::{push_char, string_of};

verus! {

/// What one character becomes inside a Typst string literal.
pub open spec fn escape_char(c: char) -> Seq<char> {
    if c == '\\' {
        seq!['\\', '\\']
    } else if c == '"' {
        seq!['\\', '"']
    } else {
        seq![c]
    }
}

/// The escaped form of `s`: every backslash doubled, every double quote
/// preceded by a backslash, every other character kept.
pub open spec fn escaped(s: Seq<char>) -> Seq<char>
    decreases s.len(),
{
    if s.len() == 0 {
        seq![]
    } else {
        escape_char(s[0]) + escaped(s.drop_first())
    }
}

/// The Typst value for an optional string: `none`, or the quoted escaped text.
pub open spec fn typst_option(o: Option<Seq<char>>) -> Seq<char> {
    match o {
        Some(s) => seq!['"'] + escaped(s) + seq!['"'],
        None => seq!['n', 'o', 'n', 'e'],
    }
}

/// Reads the body of a Typst string literal (the text between the quotes)
/// back into the string it denotes, for the escapes `\\` and `\"`. `None`
/// when the body holds a bare `"` (which would end the literal), a lone
/// trailing backslash, or any other escape.
pub open spec fn unescaped(t: Seq<char>) -> Option<Seq<char>>
    decreases t.len(),
{
    if t.len() == 0 {
        Some(seq![])
    } else if t[0] == '\\' {
        if t.len() >= 2 && (t[1] == '\\' || t[1] == '"') {
            match unescaped(t.skip(2)) {
                Some(rest) => Some(seq![t[1]] + rest),
                None => None,
            }
        } else {
            None
        }
    } else if t[0] == '"' {
        None
    } else {
        match unescaped(t.drop_first()) {
            Some(rest) => Some(seq![t[0]] + rest),
            None => None,
        }
    }
}

proof fn lemma_escaped_push(s: Seq<char>, c: char)
    ensures
        escaped(s.push(c)) == escaped(s) + escape_char(c),
    decreases s.len(),
{
    if s.len() == 0 {
        assert(s.push(c).drop_first() =~= Seq::<char>::empty());
        assert(escaped(Seq::<char>::empty()) == Seq::<char>::empty());
        assert(s.push(c)[0] == c);
        assert(escaped(s.push(c)) =~= escape_char(c));
    } else {
        assert(s.push(c).drop_first() =~= s.drop_first().push(c));
        lemma_escaped_push(s.drop_first(), c);
        assert(escaped(s.push(c)) =~= escaped(s) + escape_char(c));
    }
}

/// Escaping is undone by reading the literal back: the text placed between
/// the quotes denotes exactly the given string, so no input can end the
/// literal early or change what it says.
pub proof fn law_escape_roundtrip(s: Seq<char>)
    ensures
        unescaped(escaped(s)) == Some(s),
    decreases s.len(),
{
    if s.len() > 0 {
        law_escape_roundtrip(s.drop_first());
        let c = s[0];
        let t = escaped(s);
        assert(t == escape_char(c) + escaped(s.drop_first()));
        if c == '\\' || c == '"' {
            assert(t.skip(2) =~= escaped(s.drop_first()));
        } else {
            assert(t.drop_first() =~= escaped(s.drop_first()));
        }
        assert(seq![c] + s.drop_first() =~= s);
    }
}

/// Two strings with the same escaped form are equal.
pub proof fn law_escape_injective(s1: Seq<char>, s2: Seq<char>)
    requires
        escaped(s1) == escaped(s2),
    ensures
        s1 == s2,
{
    law_escape_roundtrip(s1);
    law_escape_roundtrip(s2);
}

/// Appends the escaped form of `s` to `out`.
pub fn push_escaped(out: &mut String, s: &str)
    ensures
        final(out)@ == old(out)@ + escaped(s@),
{
    let n = s.unicode_len();
    let ghost start = out@;
    let mut i: usize = 0;
    while i < n
        invariant
            n == s@.len(),
            i <= n,
            out@ == start + escaped(s@.take(i as int)),
        decreases n - i,
    {
        let c = s.get_char(i);
        if c == '\\' {
            out.append("\\\\");
        } else if c == '"' {
            out.append("\\\"");
        } else {
            push_char(out, c);
        }
        proof {
            reveal_strlit("\\\\");
            reveal_strlit("\\\"");
            assert(s@.take(i + 1) =~= s@.take(i as int).push(c));
            lemma_escaped_push(s@.take(i as int), c);
        }
        i = i + 1;
        assert(out@ =~= start + escaped(s@.take(i as int)));
    }
    assert(s@.take(n as int) =~= s@);
}

/// Escape special characters for Typst string literals.
pub fn escape_string(s: &str) -> (r: String)
    ensures
        r@ == escaped(s@),
{
    let mut r = String::new();
    push_escaped(&mut r, s);
    assert(r@ =~= escaped(s@));
    r
}

/// Appends the Typst value of an optional string (`none` or a quoted literal).
pub fn push_option(out: &mut String, opt: &Option<String>)
    ensures
        final(out)@ == old(out)@ + typst_option(
            match opt {
                Some(s) => Some(s@),
                None => None,
            },
        ),
{
    match opt {
        Some(s) => {
            out.append("\"");
            push_escaped(out, s.as_str());
            out.append("\"");
            proof {
                reveal_strlit("\"");
            }
            assert(out@ =~= old(out)@ + typst_option(Some(s@)));
        },
        None => {
            out.append("none");
            proof {
                reveal_strlit("none");
            }
            assert(out@ =~= old(out)@ + typst_option(None));
        },
    }
}

/// Convert an `Option<String>` to a Typst value (quoted string or `none`).
pub fn option_string(opt: &Option<String>) -> (r: String)
    ensures
        r@ == typst_option(
            match opt {
                Some(s) => Some(s@),
                None => None,
            },
        ),
{
    let mut r = string_of("");
    proof {
        reveal_strlit("");
    }
    push_option(&mut r, opt);
    assert(r@ =~= typst_option(
        match opt {
            Some(s) => Some(s@),
            None => None,
        },
    ));
    r
}

} // verus!
