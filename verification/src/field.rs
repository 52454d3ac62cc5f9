//! Reading and rewriting one declared value in a line-oriented text.
//!
//! A declaration site is a line that, after its leading white space, begins
//! with a key followed by ` = `. Its value stands between the first and the
//! last double quote of the line.

use crate::lines::{after_line, before_line, join, join_lines, line_views, lines, split_lines};
use crate::text::{
    append_chars, chars_of, count_leading_spaces, has_prefix_at, index_of_first_from, index_of_last,
    lemma_index_of_first_is, lemma_index_of_first_none, lemma_leading_spaces, slice_of, string_of,
    trim_start,
};
use vstd::prelude::*;

verus! {

/// Why a declared value could not be read or rewritten.
#[derive(Clone, Copy, Debug, PartialEq, Eq, Structural)]
pub enum FieldError {
    /// No line declares the key.
    NotFound,
    /// A line declares the key but holds fewer than two double quotes.
    Parse,
}

/// What a declaration of `key` begins with.
pub open spec fn key_prefix(key: Seq<char>) -> Seq<char> {
    key + seq![' ', '=', ' ']
}

/// `line` is a declaration site: after its leading white space it begins
/// with `prefix`.
pub open spec fn is_site(line: Seq<char>, prefix: Seq<char>) -> bool {
    prefix.is_prefix_of(trim_start(line))
}

/// `line` holds two double quotes or more.
pub open spec fn well_quoted(line: Seq<char>) -> bool {
    match (line.index_of_first('"'), line.index_of_last('"')) {
        (Some(a), Some(b)) => a < b,
        _ => false,
    }
}

/// What stands strictly between the first and the last double quote.
pub open spec fn quoted_value(line: Seq<char>) -> Seq<char>
    recommends
        well_quoted(line),
{
    line.subrange(line.index_of_first('"').unwrap() + 1, line.index_of_last('"').unwrap())
}

/// `line` with `value` between its first and its last double quote.
pub open spec fn with_value(line: Seq<char>, value: Seq<char>) -> Seq<char>
    recommends
        well_quoted(line),
{
    line.subrange(0, line.index_of_first('"').unwrap() + 1) + value + line.subrange(
        line.index_of_last('"').unwrap(),
        line.len() as int,
    )
}

/// The index of the first declaration site among `ls`.
pub open spec fn first_site(ls: Seq<Seq<char>>, prefix: Seq<char>) -> Option<int> {
    ls.map_values(|l: Seq<char>| is_site(l, prefix)).index_of_first(true)
}

/// The value that `content` declares: that of its first declaration site.
/// A text without a site declares nothing, and neither does a site whose
/// value is empty; a first site with fewer than two double quotes is an
/// error.
pub open spec fn extracted(content: Seq<char>, prefix: Seq<char>) -> Result<
    Option<Seq<char>>,
    FieldError,
> {
    let ls = lines(content);
    match first_site(ls, prefix) {
        None => Ok(None),
        Some(i) => if !well_quoted(ls[i]) {
            Err(FieldError::Parse)
        } else if quoted_value(ls[i]).len() == 0 {
            Ok(None)
        } else {
            Ok(Some(quoted_value(ls[i])))
        },
    }
}

/// `content` with the value of its first declaration site replaced, every
/// other character kept.
pub open spec fn replaced_first(content: Seq<char>, prefix: Seq<char>, value: Seq<char>) -> Result<
    Seq<char>,
    FieldError,
> {
    let ls = lines(content);
    match first_site(ls, prefix) {
        None => Err(FieldError::NotFound),
        Some(i) => if !well_quoted(ls[i]) {
            Err(FieldError::Parse)
        } else {
            Ok(join(ls.update(i, with_value(ls[i], value))))
        },
    }
}

/// `line` is a declaration site whose value can be replaced.
pub open spec fn rewritable(line: Seq<char>, prefix: Seq<char>) -> bool {
    is_site(line, prefix) && well_quoted(line)
}

/// `line` with its value replaced where it is a rewritable site.
pub open spec fn rewrite_line(line: Seq<char>, prefix: Seq<char>, value: Seq<char>) -> Seq<char> {
    if rewritable(line, prefix) {
        with_value(line, value)
    } else {
        line
    }
}

/// How many of `ls` are rewritable sites.
pub open spec fn count_rewritable(ls: Seq<Seq<char>>, prefix: Seq<char>) -> nat
    decreases ls.len(),
{
    if ls.len() == 0 {
        0
    } else {
        count_rewritable(ls.drop_last(), prefix) + if rewritable(ls.last(), prefix) {
            1nat
        } else {
            0nat
        }
    }
}

/// `content` with the value of every rewritable site replaced, and the
/// number of lines so changed. Other lines, sites with fewer than two double
/// quotes among them, are kept as they are. With no rewritable site the
/// error tells whether a site was there at all.
pub open spec fn replaced_all(content: Seq<char>, prefix: Seq<char>, value: Seq<char>) -> Result<
    (Seq<char>, nat),
    FieldError,
> {
    let ls = lines(content);
    if count_rewritable(ls, prefix) > 0 {
        Ok(
            (
                join(ls.map_values(|l: Seq<char>| rewrite_line(l, prefix, value))),
                count_rewritable(ls, prefix),
            ),
        )
    } else if first_site(ls, prefix) is Some {
        Err(FieldError::Parse)
    } else {
        Err(FieldError::NotFound)
    }
}

/// What a result of characters reads as.
pub open spec fn chars_read(r: Result<Option<Vec<char>>, FieldError>) -> Result<
    Option<Seq<char>>,
    FieldError,
> {
    match r {
        Ok(Some(v)) => Ok(Some(v@)),
        Ok(None) => Ok(None),
        Err(e) => Err(e),
    }
}

/// Every line of `ls` below index `k` rewritten, the others as they are.
pub open spec fn rewritten_below(
    ls: Seq<Seq<char>>,
    k: int,
    prefix: Seq<char>,
    value: Seq<char>,
) -> Seq<Seq<char>> {
    Seq::new(
        ls.len(),
        |j: int|
            if j < k {
                rewrite_line(ls[j], prefix, value)
            } else {
                ls[j]
            },
    )
}

/// All of `content` up to and with the double quote that opens the value of
/// its first site.
pub open spec fn site_head(content: Seq<char>, prefix: Seq<char>) -> Seq<char>
    recommends
        replaced_first(content, prefix, Seq::empty()) is Ok,
{
    let ls = lines(content);
    let i = first_site(ls, prefix).unwrap();
    before_line(ls, i) + ls[i].subrange(0, ls[i].index_of_first('"').unwrap() + 1)
}

/// All of `content` from the double quote that closes the value of its
/// first site.
pub open spec fn site_tail(content: Seq<char>, prefix: Seq<char>) -> Seq<char>
    recommends
        replaced_first(content, prefix, Seq::empty()) is Ok,
{
    let ls = lines(content);
    let i = first_site(ls, prefix).unwrap();
    ls[i].subrange(ls[i].index_of_last('"').unwrap(), ls[i].len() as int) + after_line(ls, i)
}

/// The value of the first site of `content`.
pub open spec fn site_value(content: Seq<char>, prefix: Seq<char>) -> Seq<char>
    recommends
        replaced_first(content, prefix, Seq::empty()) is Ok,
{
    quoted_value(lines(content)[first_site(lines(content), prefix).unwrap()])
}

/// `line` declares a value: it is a rewritable site, and what stands
/// between its quotes is not empty.
pub open spec fn declares(line: Seq<char>, prefix: Seq<char>) -> bool {
    rewritable(line, prefix) && quoted_value(line).len() > 0
}

/// How many of `ls` declare a value.
pub open spec fn count_declaring(ls: Seq<Seq<char>>, prefix: Seq<char>) -> nat
    decreases ls.len(),
{
    if ls.len() == 0 {
        0
    } else {
        count_declaring(ls.drop_last(), prefix) + if declares(ls.last(), prefix) {
            1nat
        } else {
            0nat
        }
    }
}

/// How many lines of `content` declare a value.
pub open spec fn declarations(content: Seq<char>, prefix: Seq<char>) -> nat {
    count_declaring(lines(content), prefix)
}

/// What a result of text reads as.
pub open spec fn text_read(r: Result<Option<String>, FieldError>) -> Result<
    Option<Seq<char>>,
    FieldError,
> {
    match r {
        Ok(Some(v)) => Ok(Some(v@)),
        Ok(None) => Ok(None),
        Err(e) => Err(e),
    }
}

/// What a rewritten text reads as.
pub open spec fn text_written(r: Result<String, FieldError>) -> Result<Seq<char>, FieldError> {
    match r {
        Ok(v) => Ok(v@),
        Err(e) => Err(e),
    }
}

/// What a rewritten text and its count of changed lines read as.
pub open spec fn text_counted(r: Result<(String, usize), FieldError>) -> Result<
    (Seq<char>, nat),
    FieldError,
> {
    match r {
        Ok((v, n)) => Ok((v@, n as nat)),
        Err(e) => Err(e),
    }
}

/// Tells whether `line` is a declaration site.
pub fn line_is_site(line: &Vec<char>, prefix: &Vec<char>) -> (r: bool)
    ensures
        r == is_site(line@, prefix@),
{
    let n = count_leading_spaces(line);
    proof {
        lemma_leading_spaces(line@);
    }
    has_prefix_at(line, n, prefix)
}

/// The indices of the first and the last double quote of `line`, where it
/// holds two or more.
pub fn quote_span(line: &Vec<char>) -> (r: Option<(usize, usize)>)
    ensures
        r is Some == well_quoted(line@),
        match r {
            Some((a, b)) => {
                &&& a < b < line.len()
                &&& line@.index_of_first('"') == Some(a as int)
                &&& line@.index_of_last('"') == Some(b as int)
            },
            None => true,
        },
{
    proof {
        assert(line@.skip(0) =~= line@);
    }
    match index_of_first_from(line, '"', 0) {
        None => {
            proof {
                line@.index_of_first_ensures('"');
                line@.index_of_last_ensures('"');
            }
            None
        },
        Some(a) => match index_of_last(line, '"') {
            None => {
                proof {
                    line@.index_of_first_ensures('"');
                    line@.index_of_last_ensures('"');
                }
                None
            },
            Some(b) => {
                proof {
                    line@.index_of_first_ensures('"');
                    line@.index_of_last_ensures('"');
                }
                if a < b {
                    Some((a, b))
                } else {
                    None
                }
            },
        },
    }
}

/// Builds `line` with `value` between the double quotes at `a` and `b`.
fn splice(line: &Vec<char>, a: usize, b: usize, value: &Vec<char>) -> (r: Vec<char>)
    requires
        a < b < line.len(),
    ensures
        r@ == line@.subrange(0, a + 1) + value@ + line@.subrange(b as int, line@.len() as int),
{
    let mut out = slice_of(line, 0, a + 1);
    append_chars(&mut out, value);
    let tail = slice_of(line, b, line.len());
    append_chars(&mut out, &tail);
    out
}

/// Finds the first declaration site among `ls`.
pub fn find_first_site(ls: &Vec<Vec<char>>, prefix: &Vec<char>) -> (r: Option<usize>)
    ensures
        match r {
            Some(i) => i < ls.len() && first_site(line_views(ls@), prefix@) == Some(i as int),
            None => first_site(line_views(ls@), prefix@) is None,
        },
{
    let ghost flags = line_views(ls@).map_values(|l: Seq<char>| is_site(l, prefix@));
    let mut k: usize = 0;
    while k < ls.len()
        invariant
            0 <= k <= ls.len(),
            flags == line_views(ls@).map_values(|l: Seq<char>| is_site(l, prefix@)),
            forall|j: int| 0 <= j < k ==> flags[j] != true,
        decreases ls.len() - k,
    {
        if line_is_site(&ls[k], prefix) {
            proof {
                assert(flags[k as int] == is_site(line_views(ls@)[k as int], prefix@));
                lemma_index_of_first_is(flags, true, k as int);
            }
            return Some(k);
        }
        proof {
            assert(flags[k as int] == is_site(line_views(ls@)[k as int], prefix@));
        }
        k += 1;
    }
    proof {
        lemma_index_of_first_none(flags, true);
    }
    None
}

/// Reads the value that `content` declares under `prefix`.
pub fn extract_chars(content: &Vec<char>, prefix: &Vec<char>) -> (r: Result<
    Option<Vec<char>>,
    FieldError,
>)
    ensures
        chars_read(r) == extracted(content@, prefix@),
{
    let ls = split_lines(content);
    match find_first_site(&ls, prefix) {
        None => Ok(None),
        Some(i) => {
            let line = &ls[i];
            assert(line@ == lines(content@)[i as int]);
            match quote_span(line) {
                None => Err(FieldError::Parse),
                Some((a, b)) => {
                    if a + 1 == b {
                        Ok(None)
                    } else {
                        Ok(Some(slice_of(line, a + 1, b)))
                    }
                },
            }
        },
    }
}

/// Replaces the value of the first declaration site of `content`.
pub fn replace_first_chars(content: &Vec<char>, prefix: &Vec<char>, value: &Vec<char>) -> (r:
    Result<Vec<char>, FieldError>)
    ensures
        match r {
            Ok(text) => replaced_first(content@, prefix@, value@) == Ok::<Seq<char>, FieldError>(
                text@,
            ),
            Err(e) => replaced_first(content@, prefix@, value@) == Err::<Seq<char>, FieldError>(e),
        },
{
    let mut ls = split_lines(content);
    match find_first_site(&ls, prefix) {
        None => Err(FieldError::NotFound),
        Some(i) => {
            let ghost before = line_views(ls@);
            assert(ls[i as int]@ == lines(content@)[i as int]);
            match quote_span(&ls[i]) {
                None => Err(FieldError::Parse),
                Some((a, b)) => {
                    let line = splice(&ls[i], a, b, value);
                    ls.set(i, line);
                    proof {
                        assert(line_views(ls@) =~= before.update(
                            i as int,
                            with_value(before[i as int], value@),
                        ));
                    }
                    Ok(join_lines(&ls))
                },
            }
        },
    }
}

/// Replaces the value of every rewritable site of `content` and counts the
/// lines so changed.
pub fn replace_all_chars(content: &Vec<char>, prefix: &Vec<char>, value: &Vec<char>) -> (r: Result<
    (Vec<char>, usize),
    FieldError,
>)
    ensures
        match r {
            Ok((text, n)) => replaced_all(content@, prefix@, value@) == Ok::<
                (Seq<char>, nat),
                FieldError,
            >((text@, n as nat)),
            Err(e) => replaced_all(content@, prefix@, value@) == Err::<
                (Seq<char>, nat),
                FieldError,
            >(e),
        },
{
    let mut ls = split_lines(content);
    let ghost before = line_views(ls@);
    let mut sites: bool = false;
    let mut count: usize = 0;
    let mut k: usize = 0;
    proof {
        assert(line_views(ls@) =~= rewritten_below(before, 0, prefix@, value@));
        assert(before.take(0) =~= Seq::<Seq<char>>::empty());
    }
    while k < ls.len()
        invariant
            0 <= k <= ls.len(),
            before == lines(content@),
            ls.len() == before.len(),
            line_views(ls@) == rewritten_below(before, k as int, prefix@, value@),
            count == count_rewritable(before.take(k as int), prefix@),
            count <= k,
            sites <==> exists|j: int| 0 <= j < k && is_site(before[j], prefix@),
        decreases ls.len() - k,
    {
        let ghost now = line_views(ls@);
        assert(ls[k as int]@ == now[k as int]);
        assert(now[k as int] == before[k as int]);
        proof {
            assert(before.take(k + 1).drop_last() =~= before.take(k as int));
            assert(before.take(k + 1).last() == before[k as int]);
        }
        if line_is_site(&ls[k], prefix) {
            sites = true;
            match quote_span(&ls[k]) {
                Some((a, b)) => {
                    let line = splice(&ls[k], a, b, value);
                    assert(line@ == with_value(before[k as int], value@));
                    ls.set(k, line);
                    count += 1;
                    assert(rewritable(before[k as int], prefix@));
                },
                None => {
                    assert(!rewritable(before[k as int], prefix@));
                },
            }
        } else {
            assert(!rewritable(before[k as int], prefix@));
        }
        proof {
            let goal = rewritten_below(before, k + 1, prefix@, value@);
            assert forall|j: int| 0 <= j < goal.len() implies line_views(ls@)[j] == goal[j] by {
                if j != k {
                    assert(line_views(ls@)[j] == now[j]);
                }
            }
            assert(line_views(ls@) =~= goal);
        }
        k += 1;
    }
    proof {
        assert(before.take(k as int) =~= before);
        assert(line_views(ls@) =~= before.map_values(
            |l: Seq<char>| rewrite_line(l, prefix@, value@),
        ));
        let flags = before.map_values(|l: Seq<char>| is_site(l, prefix@));
        flags.index_of_first_ensures(true);
        if sites {
            let j = choose|j: int| 0 <= j < k && is_site(before[j], prefix@);
            assert(flags[j] == true);
            assert(flags.contains(true));
        } else {
            if flags.contains(true) {
                let j = choose|j: int| 0 <= j < flags.len() && flags[j] == true;
                assert(is_site(before[j], prefix@));
            }
        }
    }
    if count > 0 {
        Ok((join_lines(&ls), count))
    } else if sites {
        Err(FieldError::Parse)
    } else {
        Err(FieldError::NotFound)
    }
}

/// The characters that a declaration of `key` begins with.
pub fn prefix_of(key: &str) -> (r: Vec<char>)
    ensures
        r@ == key_prefix(key@),
{
    let mut out = chars_of(key);
    out.push(' ');
    out.push('=');
    out.push(' ');
    proof {
        assert(out@ =~= key_prefix(key@));
    }
    out
}

/// Reads the value that `content` declares for `key`: what stands between
/// the first and the last double quote of the first line that declares it.
/// `Ok(None)` tells that no line declares the key, or that the declared
/// value is empty.
pub fn extract_field(content: &str, key: &str) -> (r: Result<Option<String>, FieldError>)
    ensures
        text_read(r) == extracted(content@, key_prefix(key@)),
{
    let text = chars_of(content);
    let prefix = prefix_of(key);
    match extract_chars(&text, &prefix) {
        Ok(Some(v)) => Ok(Some(string_of(&v))),
        Ok(None) => Ok(None),
        Err(e) => Err(e),
    }
}

/// Replaces the value that the first declaration of `key` in `content`
/// holds, and keeps every other character.
pub fn replace_field(content: &str, key: &str, value: &str) -> (r: Result<String, FieldError>)
    ensures
        text_written(r) == replaced_first(content@, key_prefix(key@), value@),
{
    let text = chars_of(content);
    let prefix = prefix_of(key);
    let new_value = chars_of(value);
    match replace_first_chars(&text, &prefix, &new_value) {
        Ok(v) => Ok(string_of(&v)),
        Err(e) => Err(e),
    }
}

/// Replaces the value of every declaration of `key` in `content` that holds
/// two double quotes, keeps every other character, and counts the lines it
/// changed.
pub fn replace_all_fields(content: &str, key: &str, value: &str) -> (r: Result<
    (String, usize),
    FieldError,
>)
    ensures
        text_counted(r) == replaced_all(content@, key_prefix(key@), value@),
{
    let text = chars_of(content);
    let prefix = prefix_of(key);
    let new_value = chars_of(value);
    match replace_all_chars(&text, &prefix, &new_value) {
        Ok((v, n)) => Ok((string_of(&v), n)),
        Err(e) => Err(e),
    }
}

} // verus!
