//! Filling the holes of a text pattern.
//!
//! A pattern is plain text in which `{}` marks a hole, `{{` stands for an
//! opening brace and `}}` for a closing one. Holes are filled from left to
//! right with the values given.

use crate::text::{append_chars, chars_of, string_of};
use vstd::prelude::*;

verus! {

/// What `pattern` reads as when its holes are filled with `values`, the
/// first hole with the value at index `next`. A hole for which no value is
/// left stays empty; a brace that belongs to no pair stands for itself.
pub open spec fn filled(pattern: Seq<char>, values: Seq<Seq<char>>, next: int) -> Seq<char>
    decreases pattern.len(),
{
    if pattern.len() == 0 {
        Seq::empty()
    } else if pattern.len() >= 2 && pattern[0] == '{' && pattern[1] == '{' {
        seq!['{'] + filled(pattern.skip(2), values, next)
    } else if pattern.len() >= 2 && pattern[0] == '}' && pattern[1] == '}' {
        seq!['}'] + filled(pattern.skip(2), values, next)
    } else if pattern.len() >= 2 && pattern[0] == '{' && pattern[1] == '}' {
        (if 0 <= next < values.len() {
            values[next]
        } else {
            Seq::empty()
        }) + filled(pattern.skip(2), values, next + 1)
    } else {
        seq![pattern[0]] + filled(pattern.skip(1), values, next)
    }
}

/// What `pattern` reads as with its holes filled with `values`.
pub open spec fn rendered(pattern: Seq<char>, values: Seq<Seq<char>>) -> Seq<char> {
    filled(pattern, values, 0)
}

/// The contents of a list of values.
pub open spec fn value_views(values: Seq<Vec<char>>) -> Seq<Seq<char>> {
    Seq::new(values.len(), |i: int| values[i]@)
}

/// Fills the holes of `pattern` with `values`.
pub fn render_chars(pattern: &Vec<char>, values: &Vec<Vec<char>>) -> (r: Vec<char>)
    ensures
        r@ == rendered(pattern@, value_views(values@)),
{
    let mut out: Vec<char> = Vec::new();
    let mut i: usize = 0;
    let mut next: usize = 0;
    let ghost vs = value_views(values@);
    proof {
        assert(pattern@.skip(0) =~= pattern@);
    }
    while i < pattern.len()
        invariant
            0 <= i <= pattern.len(),
            next <= i,
            vs == value_views(values@),
            rendered(pattern@, vs) == out@ + filled(pattern@.skip(i as int), vs, next as int),
        decreases pattern.len() - i,
    {
        let ghost rest = pattern@.skip(i as int);
        let ghost before = out@;
        let c = pattern[i];
        proof {
            assert(rest[0] == c);
            assert(rest.skip(1) =~= pattern@.skip(i + 1));
            if i + 1 < pattern.len() {
                assert(rest[1] == pattern@[i + 1]);
                assert(rest.skip(2) =~= pattern@.skip(i + 2));
            }
        }
        if i + 1 < pattern.len() && c == '{' && pattern[i + 1] == '{' {
            out.push('{');
            proof {
                assert(out@ + filled(rest.skip(2), vs, next as int) =~= before + (seq!['{']
                    + filled(rest.skip(2), vs, next as int)));
            }
            i += 2;
        } else if i + 1 < pattern.len() && c == '}' && pattern[i + 1] == '}' {
            out.push('}');
            proof {
                assert(out@ + filled(rest.skip(2), vs, next as int) =~= before + (seq!['}']
                    + filled(rest.skip(2), vs, next as int)));
            }
            i += 2;
        } else if i + 1 < pattern.len() && c == '{' && pattern[i + 1] == '}' {
            if next < values.len() {
                append_chars(&mut out, &values[next]);
                proof {
                    assert(vs[next as int] == values@[next as int]@);
                    assert(out@ + filled(rest.skip(2), vs, next + 1) =~= before + (vs[next as int]
                        + filled(rest.skip(2), vs, next + 1)));
                }
            } else {
                proof {
                    assert(out@ + filled(rest.skip(2), vs, next + 1) =~= before + (Seq::<
                        char,
                    >::empty() + filled(rest.skip(2), vs, next + 1)));
                }
            }
            next += 1;
            i += 2;
        } else {
            out.push(c);
            proof {
                assert(out@ + filled(rest.skip(1), vs, next as int) =~= before + (seq![c]
                    + filled(rest.skip(1), vs, next as int)));
            }
            i += 1;
        }
    }
    proof {
        assert(out@ + Seq::<char>::empty() =~= out@);
    }
    out
}

/// The contents of a list of texts.
pub open spec fn text_views(values: Seq<&str>) -> Seq<Seq<char>> {
    Seq::new(values.len(), |i: int| values[i]@)
}

/// Fills the holes of `pattern` with `values`.
pub fn render(pattern: &str, values: &Vec<&str>) -> (r: String)
    ensures
        r@ == rendered(pattern@, text_views(values@)),
{
    let p = chars_of(pattern);
    let mut vs: Vec<Vec<char>> = Vec::new();
    let mut k: usize = 0;
    while k < values.len()
        invariant
            0 <= k <= values.len(),
            vs.len() == k,
            forall|j: int| 0 <= j < k ==> (#[trigger] vs@[j])@ == values@[j]@,
        decreases values.len() - k,
    {
        vs.push(chars_of(values[k]));
        k += 1;
    }
    proof {
        assert(value_views(vs@) =~= text_views(values@));
    }
    let out = render_chars(&p, &vs);
    string_of(&out)
}

} // verus!
