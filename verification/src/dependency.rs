//! Reading and rewriting the version that a manifest declares for a
//! dependency.
//!
//! A dependency is declared on a line that, after its leading white space,
//! begins with the package name and that holds the word `version`. The
//! declared version stands between the first two double quotes that follow
//! that word.

use crate::lines::{
    feed_free, join, join_lines, lemma_join_lines, lemma_lines_join, lemma_lines_shape, line_views,
    lines, split_lines,
};
use crate::text::{
    append_chars, chars_of, count_leading_spaces, find, find_in, has_prefix_at, index_of_first_from,
    is_space, leading_spaces, lemma_find, lemma_find_is, lemma_index_of_first_is,
    lemma_index_of_first_none, lemma_leading_spaces, lemma_leading_spaces_is, slice_of, string_of,
    trim_start,
};
use vstd::prelude::*;

verus! {

/// The word that announces a version.
pub open spec fn version_word() -> Seq<char> {
    "version"@
}

/// The indices of the two double quotes around the declared version: the
/// first two that follow the first `version` of the line.
pub open spec fn version_span(line: Seq<char>) -> Option<(int, int)> {
    match find(line, version_word()) {
        None => None,
        Some(v) => match line.skip(v).index_of_first('"') {
            None => None,
            Some(a) => match line.skip(v + a + 1).index_of_first('"') {
                None => None,
                Some(b) => Some((v + a, v + a + 1 + b)),
            },
        },
    }
}

/// `line` declares a version for the package `name`.
pub open spec fn declares_version(line: Seq<char>, name: Seq<char>) -> bool {
    name.is_prefix_of(trim_start(line)) && version_span(line) is Some
}

/// The version that `line` declares.
pub open spec fn version_in(line: Seq<char>) -> Seq<char>
    recommends
        version_span(line) is Some,
{
    line.subrange(version_span(line).unwrap().0 + 1, version_span(line).unwrap().1)
}

/// `line` with `version` in place of the version it declares.
pub open spec fn with_version(line: Seq<char>, version: Seq<char>) -> Seq<char>
    recommends
        version_span(line) is Some,
{
    line.subrange(0, version_span(line).unwrap().0 + 1) + version + line.subrange(
        version_span(line).unwrap().1,
        line.len() as int,
    )
}

/// The index of the first line of `ls` that declares a version for `name`.
pub open spec fn first_declaration(ls: Seq<Seq<char>>, name: Seq<char>) -> Option<int> {
    ls.map_values(|l: Seq<char>| declares_version(l, name)).index_of_first(true)
}

/// The version that `content` declares for `name`: that of the first line
/// that declares one.
pub open spec fn declared_version(content: Seq<char>, name: Seq<char>) -> Option<Seq<char>> {
    match first_declaration(lines(content), name) {
        Some(i) => Some(version_in(lines(content)[i])),
        None => None,
    }
}

/// `line` with its version replaced where it declares one for `name`.
pub open spec fn update_line(line: Seq<char>, name: Seq<char>, version: Seq<char>) -> Seq<char> {
    if declares_version(line, name) {
        with_version(line, version)
    } else {
        line
    }
}

/// `content` with `version` on every line that declares a version for
/// `name`, and every other character kept.
pub open spec fn updated_version(content: Seq<char>, name: Seq<char>, version: Seq<char>) -> Seq<
    char,
> {
    join(lines(content).map_values(|l: Seq<char>| update_line(l, name, version)))
}

/// Finds the two double quotes around the version that `line` declares.
pub fn find_version_span(line: &Vec<char>) -> (r: Option<(usize, usize)>)
    ensures
        match r {
            Some((a, b)) => a < b < line.len() && version_span(line@) == Some(
                (a as int, b as int),
            ),
            None => version_span(line@) is None,
        },
{
    let word = chars_of("version");
    match find_in(line, &word) {
        None => None,
        Some(v) => match index_of_first_from(line, '"', v) {
            None => None,
            Some(a) => match index_of_first_from(line, '"', a + 1) {
                None => None,
                Some(b) => Some((a, b)),
            },
        },
    }
}

/// Tells whether `line` declares a version for `name`, and where.
pub fn find_declaration(line: &Vec<char>, name: &Vec<char>) -> (r: Option<(usize, usize)>)
    ensures
        r is Some == declares_version(line@, name@),
        match r {
            Some((a, b)) => a < b < line.len() && version_span(line@) == Some(
                (a as int, b as int),
            ),
            None => true,
        },
{
    let n = count_leading_spaces(line);
    proof {
        lemma_leading_spaces(line@);
    }
    if has_prefix_at(line, n, name) {
        find_version_span(line)
    } else {
        None
    }
}

/// What an optional text of characters reads as.
pub open spec fn chars_option(v: Option<Vec<char>>) -> Option<Seq<char>> {
    match v {
        Some(s) => Some(s@),
        None => None,
    }
}

/// Reads the version that `content` declares for `name`.
pub fn extract_version_chars(content: &Vec<char>, name: &Vec<char>) -> (r: Option<Vec<char>>)
    ensures
        chars_option(r) == declared_version(content@, name@),
{
    let ls = split_lines(content);
    let ghost flags = line_views(ls@).map_values(|l: Seq<char>| declares_version(l, name@));
    let mut k: usize = 0;
    while k < ls.len()
        invariant
            0 <= k <= ls.len(),
            line_views(ls@) == lines(content@),
            flags == line_views(ls@).map_values(|l: Seq<char>| declares_version(l, name@)),
            forall|j: int| 0 <= j < k ==> flags[j] != true,
        decreases ls.len() - k,
    {
        assert(ls[k as int]@ == line_views(ls@)[k as int]);
        assert(flags[k as int] == declares_version(line_views(ls@)[k as int], name@));
        match find_declaration(&ls[k], name) {
            Some((a, b)) => {
                proof {
                    lemma_index_of_first_is(flags, true, k as int);
                }
                return Some(slice_of(&ls[k], a + 1, b));
            },
            None => {},
        }
        k += 1;
    }
    proof {
        lemma_index_of_first_none(flags, true);
    }
    None
}

/// Every line of `ls` below index `k` updated, the others as they are.
pub open spec fn updated_below(ls: Seq<Seq<char>>, k: int, name: Seq<char>, version: Seq<char>) -> Seq<
    Seq<char>,
> {
    Seq::new(
        ls.len(),
        |j: int|
            if j < k {
                update_line(ls[j], name, version)
            } else {
                ls[j]
            },
    )
}

/// Puts `version` on every line of `content` that declares a version for
/// `name`.
pub fn update_version_chars(content: &Vec<char>, name: &Vec<char>, version: &Vec<char>) -> (r: Vec<
    char,
>)
    ensures
        r@ == updated_version(content@, name@, version@),
{
    let mut ls = split_lines(content);
    let ghost before = line_views(ls@);
    let mut k: usize = 0;
    proof {
        assert(line_views(ls@) =~= updated_below(before, 0, name@, version@));
    }
    while k < ls.len()
        invariant
            0 <= k <= ls.len(),
            before == lines(content@),
            ls.len() == before.len(),
            line_views(ls@) == updated_below(before, k as int, name@, version@),
        decreases ls.len() - k,
    {
        let ghost now = line_views(ls@);
        assert(ls[k as int]@ == now[k as int]);
        assert(now[k as int] == before[k as int]);
        match find_declaration(&ls[k], name) {
            Some((a, b)) => {
                let mut line = slice_of(&ls[k], 0, a + 1);
                append_chars(&mut line, version);
                let tail = slice_of(&ls[k], b, ls[k].len());
                append_chars(&mut line, &tail);
                assert(line@ == with_version(before[k as int], version@));
                ls.set(k, line);
            },
            None => {},
        }
        proof {
            let goal = updated_below(before, k + 1, name@, version@);
            assert forall|j: int| 0 <= j < goal.len() implies line_views(ls@)[j] == goal[j] by {
                if j != k {
                    assert(line_views(ls@)[j] == now[j]);
                }
            }
            assert(line_views(ls@) =~= goal);
        }
        k += 1;
    }
    proof {
        assert(line_views(ls@) =~= before.map_values(
            |l: Seq<char>| update_line(l, name@, version@),
        ));
    }
    join_lines(&ls)
}

/// What an optional text reads as.
pub open spec fn text_option(v: Option<String>) -> Option<Seq<char>> {
    match v {
        Some(s) => Some(s@),
        None => None,
    }
}

/// Reads the version that `content` declares for the package `dep_name`.
pub fn extract_dependency_version(content: &str, dep_name: &str) -> (r: Option<String>)
    ensures
        text_option(r) == declared_version(content@, dep_name@),
{
    let text = chars_of(content);
    let name = chars_of(dep_name);
    match extract_version_chars(&text, &name) {
        Some(v) => Some(string_of(&v)),
        None => None,
    }
}

/// Puts `new_version` wherever `content` declares a version for the package
/// `dep_name`, and keeps every other character.
pub fn update_dependency_version(content: &str, dep_name: &str, new_version: &str) -> (r: String)
    ensures
        r@ == updated_version(content@, dep_name@, new_version@),
{
    let text = chars_of(content);
    let name = chars_of(dep_name);
    let version = chars_of(new_version);
    let out = update_version_chars(&text, &name, &version);
    string_of(&out)
}

/// The word `version` holds no double quote.
pub proof fn lemma_version_word_plain()
    ensures
        version_word().len() == 7,
        forall|j: int| 0 <= j < 7 ==> version_word()[j] != '"',
{
    reveal_strlit("version");
}

/// Where the version of a line is, and what stands around it.
pub proof fn lemma_version_span(line: Seq<char>)
    requires
        version_span(line) is Some,
    ensures
        ({
            let p = find(line, version_word()).unwrap();
            let (a, b) = version_span(line).unwrap();
            &&& find(line, version_word()) is Some
            &&& 0 <= p
            &&& p + 7 <= a < b < line.len()
            &&& line[a] == '"'
            &&& line[b] == '"'
            &&& forall|j: int| p <= j < a ==> line[j] != '"'
            &&& forall|j: int| a < j < b ==> line[j] != '"'
        }),
{
    let w = version_word();
    lemma_version_word_plain();
    lemma_find(line, w);
    let p = find(line, w).unwrap();
    let t = line.skip(p);
    t.index_of_first_ensures('"');
    let a1 = t.index_of_first('"').unwrap();
    let u = line.skip(p + a1 + 1);
    u.index_of_first_ensures('"');
    let b1 = u.index_of_first('"').unwrap();
    assert(t[a1] == line[p + a1]);
    assert(u[b1] == line[p + a1 + 1 + b1]);
    assert forall|j: int| p <= j < p + a1 implies line[j] != '"' by {
        assert(t[j - p] == line[j]);
    }
    assert forall|j: int| p + a1 < j < p + a1 + 1 + b1 implies line[j] != '"' by {
        assert(u[j - (p + a1 + 1)] == line[j]);
    }
    assert(w =~= t.subrange(0, 7));
    if a1 < 7 {
        assert(t.subrange(0, 7)[a1] == t[a1]);
        assert(w[a1] == '"');
    }
}

/// A span is known by what stands at it and around it.
pub proof fn lemma_version_span_is(line: Seq<char>, p: int, a: int, b: int)
    requires
        find(line, version_word()) == Some(p),
        0 <= p <= a < b < line.len(),
        line[a] == '"',
        line[b] == '"',
        forall|j: int| p <= j < a ==> line[j] != '"',
        forall|j: int| a < j < b ==> line[j] != '"',
    ensures
        version_span(line) == Some((a, b)),
{
    let t = line.skip(p);
    assert(t[a - p] == line[a]);
    assert forall|j: int| 0 <= j < a - p implies t[j] != '"' by {
        assert(t[j] == line[p + j]);
    }
    lemma_index_of_first_is(t, '"', a - p);
    let u = line.skip(a + 1);
    assert(u[b - a - 1] == line[b]);
    assert forall|j: int| 0 <= j < b - a - 1 implies u[j] != '"' by {
        assert(u[j] == line[a + 1 + j]);
    }
    lemma_index_of_first_is(u, '"', b - a - 1);
    assert(line.skip(p + (a - p) + 1) == u);
}

/// A line with a new version still declares one for the same package, and
/// declares the new one. This holds where neither the package name nor the
/// version holds a double quote.
pub proof fn lemma_update_line(line: Seq<char>, name: Seq<char>, version: Seq<char>)
    requires
        declares_version(line, name),
        !name.contains('"'),
        !version.contains('"'),
    ensures
        declares_version(with_version(line, version), name),
        version_in(with_version(line, version)) == version,
{
    let w = version_word();
    lemma_version_word_plain();
    lemma_version_span(line);
    lemma_find(line, w);
    let p = find(line, w).unwrap();
    let (a, b) = version_span(line).unwrap();
    let out = with_version(line, version);
    let z = a + 1 + version.len();
    assert(out.len() == z + line.len() - b);
    assert forall|j: int| 0 <= j <= a implies out[j] == line[j] by {}
    assert(w.is_prefix_of(out.skip(p))) by {
        assert(w =~= line.skip(p).subrange(0, 7));
        assert forall|j: int| 0 <= j < 7 implies out.skip(p)[j] == w[j] by {
            assert(out.skip(p)[j] == out[p + j]);
            assert(line.skip(p).subrange(0, 7)[j] == line[p + j]);
        }
        assert(w =~= out.skip(p).subrange(0, 7));
    }
    assert forall|j: int| 0 <= j < p implies !w.is_prefix_of(#[trigger] out.skip(j)) by {
        if w.is_prefix_of(out.skip(j)) {
            assert(w =~= out.skip(j).subrange(0, 7));
            assert forall|k: int| 0 <= k < 7 implies line.skip(j)[k] == w[k] by {
                assert(out.skip(j).subrange(0, 7)[k] == out[j + k]);
                assert(line.skip(j)[k] == line[j + k]);
            }
            assert(w =~= line.skip(j).subrange(0, 7));
            assert(w.is_prefix_of(line.skip(j)));
        }
    }
    lemma_find_is(out, w, p);
    assert(out[z] == line[b]);
    assert forall|j: int| a < j < z implies out[j] != '"' by {
        assert(out[j] == version[j - a - 1]);
        if out[j] == '"' {
            assert(version.contains('"'));
        }
    }
    lemma_version_span_is(out, p, a, z);
    assert(out.subrange(a + 1, z) =~= version);
    if name.len() > 0 {
        lemma_leading_spaces(line);
        let n = leading_spaces(line) as int;
        let m = name.len() as int;
        let t = trim_start(line);
        assert(t.subrange(0, m) == name);
        assert forall|j: int| 0 <= j < m implies line[n + j] == name[j] by {
            assert(t.subrange(0, m)[j] == t[j]);
            assert(t[j] == line[n + j]);
        }
        assert(a >= n + m) by {
            if a < n {
                assert(is_space(line[a]));
                assert(!is_space('"'));
            } else if a < n + m {
                assert(line[n + (a - n)] == name[a - n]);
                assert(name.contains('"'));
            }
        }
        assert forall|j: int| 0 <= j < n implies is_space(#[trigger] out[j]) by {
            assert(out[j] == line[j]);
        }
        assert(!is_space(out[n])) by {
            assert(out[n] == line[n]);
        }
        lemma_leading_spaces_is(out, n);
        assert(trim_start(out).subrange(0, m) =~= name) by {
            assert forall|j: int| 0 <= j < m implies trim_start(out)[j] == name[j] by {
                assert(trim_start(out)[j] == out[n + j]);
                assert(out[n + j] == line[n + j]);
            }
        }
    }
}

/// Reading after updating gives the new version: where `content` declares
/// a version for `name`, the updated text declares `version`. This holds
/// where neither the package name nor the version holds a double quote and
/// the version holds no line feed.
pub proof fn lemma_declared_after_update(content: Seq<char>, name: Seq<char>, version: Seq<char>)
    requires
        !name.contains('"'),
        !version.contains('"'),
        !version.contains('\n'),
        declared_version(content, name) is Some,
    ensures
        declared_version(updated_version(content, name, version), name) == Some(version),
{
    let ls = lines(content);
    lemma_lines_shape(content);
    let flags = ls.map_values(|l: Seq<char>| declares_version(l, name));
    flags.index_of_first_ensures(true);
    let i = first_declaration(ls, name).unwrap();
    assert(flags[i] == declares_version(ls[i], name));
    let out = ls.map_values(|l: Seq<char>| update_line(l, name, version));
    assert(feed_free(out)) by {
        assert forall|j: int| 0 <= j < out.len() implies !(#[trigger] out[j]).contains('\n') by {
            assert(out[j] == update_line(ls[j], name, version));
            assert(!ls[j].contains('\n'));
            if declares_version(ls[j], name) {
                lemma_version_span(ls[j]);
                let (a, b) = version_span(ls[j]).unwrap();
                let line = out[j];
                if line.contains('\n') {
                    let k = choose|k: int| 0 <= k < line.len() && line[k] == '\n';
                    if k <= a {
                        assert(line[k] == ls[j][k]);
                    } else if k < a + 1 + version.len() {
                        assert(line[k] == version[k - a - 1]);
                        assert(version.contains('\n'));
                    } else {
                        assert(line[k] == ls[j][k - (a + 1 + version.len()) + b]);
                    }
                    assert(ls[j].contains('\n'));
                }
            }
        }
    }
    lemma_lines_join(out);
    lemma_update_line(ls[i], name, version);
    let flags2 = out.map_values(|l: Seq<char>| declares_version(l, name));
    assert forall|j: int| 0 <= j < i implies flags2[j] != true by {
        assert(flags[j] == declares_version(ls[j], name));
        assert(out[j] == ls[j]);
    }
    assert(out[i] == with_version(ls[i], version));
    assert(flags2[i] == true);
    lemma_index_of_first_is(flags2, true, i);
}

/// Updating to the version that is already declared everywhere changes
/// nothing, and an updated text needs no second update: it declares the
/// version asked for. This holds where neither the package name nor the
/// version holds a double quote and the version holds no line feed.
pub proof fn lemma_update_settles(content: Seq<char>, name: Seq<char>, version: Seq<char>)
    requires
        !name.contains('"'),
        !version.contains('"'),
        !version.contains('\n'),
    ensures
        match declared_version(updated_version(content, name, version), name) {
            Some(v) => v == version,
            None => declared_version(content, name) is None,
        },
{
    if declared_version(content, name) is Some {
        lemma_declared_after_update(content, name, version);
    } else {
        let ls = lines(content);
        let flags = ls.map_values(|l: Seq<char>| declares_version(l, name));
        flags.index_of_first_ensures(true);
        let out = ls.map_values(|l: Seq<char>| update_line(l, name, version));
        assert forall|j: int| 0 <= j < ls.len() implies out[j] == ls[j] by {
            assert(flags[j] == declares_version(ls[j], name));
            if flags[j] {
                assert(flags.contains(true));
            }
        }
        assert(out =~= ls);
        lemma_join_lines(content);
    }
}

} // verus!
