//! What holds of reading and rewriting a declared value: a rewritten text
//! differs in the value alone, reads back as what was written, and gains a
//! declaration where it had none.

use crate::field::{
    count_declaring, count_rewritable, declarations, declares, extracted, FieldError, first_site,
    is_site, key_prefix, quoted_value, replaced_all, replaced_first, rewritable, rewrite_line,
    site_head, site_tail, site_value, well_quoted, with_value,
};
use crate::lines::{
    feed_free, join, lemma_around_update, lemma_join_around, lemma_join_lines, lemma_lines_join,
    lemma_lines_shape, lines,
};
use crate::text::{
    is_space, leading_spaces, lemma_index_of_first_is, lemma_index_of_last_is, lemma_leading_spaces,
    lemma_leading_spaces_is, trim_start,
};
use vstd::prelude::*;

verus! {

/// A rewritten line keeps its quotes apart and holds the new value.
pub proof fn lemma_value_set(line: Seq<char>, value: Seq<char>)
    requires
        well_quoted(line),
    ensures
        well_quoted(with_value(line, value)),
        quoted_value(with_value(line, value)) == value,
        with_value(line, value).index_of_first('"') == line.index_of_first('"'),
{
    line.index_of_first_ensures('"');
    line.index_of_last_ensures('"');
    let a = line.index_of_first('"').unwrap();
    let b = line.index_of_last('"').unwrap();
    let out = with_value(line, value);
    let z = a + 1 + value.len();
    assert(out.len() == z + line.len() - b);
    assert(out[a] == line[a]);
    assert forall|j: int| 0 <= j < a implies out[j] != '"' by {
        assert(out[j] == line[j]);
    }
    lemma_index_of_first_is(out, '"', a);
    assert(out[z] == line[b]);
    assert forall|j: int| z < j < out.len() implies out[j] != '"' by {
        assert(out[j] == line[j - z + b]);
    }
    lemma_index_of_last_is(out, '"', z);
    assert(out.subrange(a + 1, z) =~= value);
}

/// A rewritten site is still a site, as long as the prefix holds no double
/// quote.
pub proof fn lemma_site_kept(line: Seq<char>, prefix: Seq<char>, value: Seq<char>)
    requires
        is_site(line, prefix),
        well_quoted(line),
        !prefix.contains('"'),
    ensures
        is_site(with_value(line, value), prefix),
{
    if prefix.len() > 0 {
        line.index_of_first_ensures('"');
        line.index_of_last_ensures('"');
        lemma_leading_spaces(line);
        let a = line.index_of_first('"').unwrap();
        let n = leading_spaces(line) as int;
        let out = with_value(line, value);
        let m = prefix.len() as int;
        let t = trim_start(line);
        assert(t.subrange(0, m) == prefix);
        assert(n + m <= line.len());
        assert forall|j: int| 0 <= j < m implies line[n + j] == prefix[j] by {
            assert(t.subrange(0, m)[j] == t[j]);
            assert(t[j] == line[n + j]);
        }
        assert(a >= n + m) by {
            if a < n {
                assert(is_space(line[a]));
                assert(!is_space('"'));
            } else if a < n + m {
                assert(line[n + (a - n)] == prefix[a - n]);
                assert(prefix.contains('"'));
            }
        }
        assert forall|j: int| 0 <= j <= a implies out[j] == line[j] by {}
        assert forall|j: int| 0 <= j < n implies is_space(#[trigger] out[j]) by {
            assert(out[j] == line[j]);
        }
        assert(!is_space(out[n])) by {
            assert(out[n] == line[n]);
        }
        lemma_leading_spaces_is(out, n);
        assert(trim_start(out).subrange(0, m) =~= prefix) by {
            assert forall|j: int| 0 <= j < m implies trim_start(out)[j] == prefix[j] by {
                assert(trim_start(out)[j] == out[n + j]);
                assert(out[n + j] == line[n + j]);
            }
        }
    }
}

/// A rewritten line holds a line feed only if the line or the value did.
pub proof fn lemma_rewrite_feed_free(line: Seq<char>, value: Seq<char>)
    requires
        well_quoted(line),
        !line.contains('\n'),
        !value.contains('\n'),
    ensures
        !with_value(line, value).contains('\n'),
{
    line.index_of_first_ensures('"');
    line.index_of_last_ensures('"');
    let a = line.index_of_first('"').unwrap();
    let b = line.index_of_last('"').unwrap();
    let out = with_value(line, value);
    if out.contains('\n') {
        let j = choose|j: int| 0 <= j < out.len() && out[j] == '\n';
        if j <= a {
            assert(out[j] == line[j]);
        } else if j < a + 1 + value.len() {
            assert(out[j] == value[j - a - 1]);
            assert(value.contains('\n'));
        } else {
            assert(out[j] == line[j - (a + 1 + value.len()) + b]);
        }
        assert(line.contains('\n'));
    }
}

/// A value that was read holds no line feed and is not empty.
pub proof fn lemma_extracted_value(content: Seq<char>, prefix: Seq<char>)
    ensures
        match extracted(content, prefix) {
            Ok(Some(v)) => v.len() > 0 && !v.contains('\n'),
            _ => true,
        },
{
    let ls = lines(content);
    lemma_lines_shape(content);
    let flags = ls.map_values(|l: Seq<char>| is_site(l, prefix));
    flags.index_of_first_ensures(true);
    match extracted(content, prefix) {
        Ok(Some(v)) => {
            let i = first_site(ls, prefix).unwrap();
            let line = ls[i];
            line.index_of_first_ensures('"');
            line.index_of_last_ensures('"');
            assert(!line.contains('\n'));
            if v.contains('\n') {
                let j = choose|j: int| 0 <= j < v.len() && v[j] == '\n';
                assert(line[line.index_of_first('"').unwrap() + 1 + j] == '\n');
            }
        },
        _ => {},
    }
}

/// Reading after writing gives what was written: where the first site of
/// `content` can be rewritten, the rewritten text declares `value`. This
/// holds for a prefix without a double quote and a value that is not empty
/// and holds no line feed.
pub proof fn lemma_extract_after_replace_first(
    content: Seq<char>,
    prefix: Seq<char>,
    value: Seq<char>,
)
    requires
        !prefix.contains('"'),
        !value.contains('\n'),
        value.len() > 0,
        replaced_first(content, prefix, value) is Ok,
    ensures
        extracted(replaced_first(content, prefix, value).unwrap(), prefix) == Ok::<
            Option<Seq<char>>,
            FieldError,
        >(Some(value)),
{
    let ls = lines(content);
    lemma_lines_shape(content);
    let flags = ls.map_values(|l: Seq<char>| is_site(l, prefix));
    flags.index_of_first_ensures(true);
    let i = first_site(ls, prefix).unwrap();
    let line = with_value(ls[i], value);
    let out = ls.update(i, line);
    assert(flags[i] == is_site(ls[i], prefix));
    lemma_rewrite_feed_free(ls[i], value);
    lemma_site_kept(ls[i], prefix, value);
    lemma_value_set(ls[i], value);
    assert(feed_free(out)) by {
        assert forall|j: int| 0 <= j < out.len() implies !(#[trigger] out[j]).contains('\n') by {
            if j != i {
                assert(out[j] == ls[j]);
            }
        }
    }
    lemma_lines_join(out);
    let flags2 = out.map_values(|l: Seq<char>| is_site(l, prefix));
    assert forall|j: int| 0 <= j < i implies flags2[j] != true by {
        assert(out[j] == ls[j]);
        assert(flags[j] == is_site(ls[j], prefix));
    }
    assert(flags2[i] == true);
    lemma_index_of_first_is(flags2, true, i);
}

/// Reading after writing every site gives what was written: where the
/// first site of `content` can be rewritten, the text with every rewritable
/// site rewritten declares `value`. This holds for a prefix without a double
/// quote and a value that is not empty and holds no line feed.
pub proof fn lemma_extract_after_replace_all(
    content: Seq<char>,
    prefix: Seq<char>,
    value: Seq<char>,
)
    requires
        !prefix.contains('"'),
        !value.contains('\n'),
        value.len() > 0,
        replaced_first(content, prefix, value) is Ok,
    ensures
        replaced_all(content, prefix, value) is Ok,
        extracted(replaced_all(content, prefix, value).unwrap().0, prefix) == Ok::<
            Option<Seq<char>>,
            FieldError,
        >(Some(value)),
{
    let ls = lines(content);
    lemma_lines_shape(content);
    let flags = ls.map_values(|l: Seq<char>| is_site(l, prefix));
    flags.index_of_first_ensures(true);
    let i = first_site(ls, prefix).unwrap();
    assert(flags[i] == is_site(ls[i], prefix));
    assert(rewritable(ls[i], prefix));
    lemma_count_positive(ls, prefix, i);
    let out = ls.map_values(|l: Seq<char>| rewrite_line(l, prefix, value));
    assert(feed_free(out)) by {
        assert forall|j: int| 0 <= j < out.len() implies !(#[trigger] out[j]).contains('\n') by {
            assert(out[j] == rewrite_line(ls[j], prefix, value));
            assert(!ls[j].contains('\n'));
            if rewritable(ls[j], prefix) {
                lemma_rewrite_feed_free(ls[j], value);
            }
        }
    }
    lemma_lines_join(out);
    lemma_site_kept(ls[i], prefix, value);
    lemma_value_set(ls[i], value);
    let flags2 = out.map_values(|l: Seq<char>| is_site(l, prefix));
    assert forall|j: int| 0 <= j < i implies flags2[j] != true by {
        assert(flags[j] == is_site(ls[j], prefix));
        assert(out[j] == ls[j]);
    }
    assert(out[i] == with_value(ls[i], value));
    assert(flags2[i] == true);
    lemma_index_of_first_is(flags2, true, i);
}

/// One rewritable line makes the count positive.
pub proof fn lemma_count_positive(ls: Seq<Seq<char>>, prefix: Seq<char>, i: int)
    requires
        0 <= i < ls.len(),
        rewritable(ls[i], prefix),
    ensures
        count_rewritable(ls, prefix) > 0,
    decreases ls.len(),
{
    if i < ls.len() - 1 {
        assert(ls.drop_last()[i] == ls[i]);
        lemma_count_positive(ls.drop_last(), prefix, i);
    }
}

/// Replacing the value of the first site changes the value and nothing
/// else: the text is what stands before the value, the value, and what
/// stands after it, and the rewritten text differs in the value alone.
pub proof fn lemma_replace_first_frame(content: Seq<char>, prefix: Seq<char>, value: Seq<char>)
    requires
        replaced_first(content, prefix, value) is Ok,
    ensures
        content == site_head(content, prefix) + site_value(content, prefix) + site_tail(
            content,
            prefix,
        ),
        replaced_first(content, prefix, value).unwrap() == site_head(content, prefix) + value
            + site_tail(content, prefix),
{
    let ls = lines(content);
    let flags = ls.map_values(|l: Seq<char>| is_site(l, prefix));
    flags.index_of_first_ensures(true);
    let i = first_site(ls, prefix).unwrap();
    let line = ls[i];
    line.index_of_first_ensures('"');
    line.index_of_last_ensures('"');
    let a = line.index_of_first('"').unwrap();
    let b = line.index_of_last('"').unwrap();
    lemma_join_lines(content);
    lemma_join_around(ls, i);
    let out = ls.update(i, with_value(line, value));
    lemma_join_around(out, i);
    lemma_around_update(ls, i, with_value(line, value));
    assert(line =~= line.subrange(0, a + 1) + line.subrange(a + 1, b) + line.subrange(
        b,
        line.len() as int,
    ));
    assert(content =~= site_head(content, prefix) + site_value(content, prefix) + site_tail(
        content,
        prefix,
    ));
    assert(join(out) =~= site_head(content, prefix) + value + site_tail(content, prefix));
}

/// Writing the value that is already there changes nothing.
pub proof fn lemma_replace_first_same(content: Seq<char>, prefix: Seq<char>)
    requires
        replaced_first(content, prefix, Seq::empty()) is Ok,
    ensures
        replaced_first(content, prefix, site_value(content, prefix)) == Ok::<
            Seq<char>,
            FieldError,
        >(content),
{
    lemma_replace_first_frame(content, prefix, site_value(content, prefix));
}

/// Changing one line changes the count by what that line adds or takes.
pub proof fn lemma_count_update(ls: Seq<Seq<char>>, prefix: Seq<char>, i: int, line: Seq<char>)
    requires
        0 <= i < ls.len(),
    ensures
        count_declaring(ls.update(i, line), prefix) + (if declares(ls[i], prefix) {
            1int
        } else {
            0int
        }) == count_declaring(ls, prefix) + (if declares(line, prefix) {
            1int
        } else {
            0int
        }),
    decreases ls.len(),
{
    let out = ls.update(i, line);
    if i == ls.len() - 1 {
        assert(out.drop_last() =~= ls.drop_last());
    } else {
        lemma_count_update(ls.drop_last(), prefix, i, line);
        assert(out.drop_last() =~= ls.drop_last().update(i, line));
        assert(out.last() == ls.last());
    }
}

/// Filling the empty value of the first site adds exactly one declaration.
/// This holds for a prefix without a double quote and a value that is not
/// empty and holds no line feed.
pub proof fn lemma_fill_adds_one(content: Seq<char>, prefix: Seq<char>, value: Seq<char>)
    requires
        !prefix.contains('"'),
        !value.contains('\n'),
        value.len() > 0,
        replaced_first(content, prefix, value) is Ok,
        site_value(content, prefix).len() == 0,
    ensures
        declarations(replaced_first(content, prefix, value).unwrap(), prefix) == declarations(
            content,
            prefix,
        ) + 1,
{
    let ls = lines(content);
    lemma_lines_shape(content);
    let flags = ls.map_values(|l: Seq<char>| is_site(l, prefix));
    flags.index_of_first_ensures(true);
    let i = first_site(ls, prefix).unwrap();
    assert(flags[i] == is_site(ls[i], prefix));
    let line = with_value(ls[i], value);
    let out = ls.update(i, line);
    lemma_rewrite_feed_free(ls[i], value);
    lemma_site_kept(ls[i], prefix, value);
    lemma_value_set(ls[i], value);
    assert(feed_free(out)) by {
        assert forall|j: int| 0 <= j < out.len() implies !(#[trigger] out[j]).contains('\n') by {
            if j != i {
                assert(out[j] == ls[j]);
            }
        }
    }
    lemma_lines_join(out);
    lemma_count_update(ls, prefix, i, line);
}

/// After every rewritable site was rewritten, each of them declares the
/// value and no other line declares one: there are as many declarations as
/// there were rewritable sites. This holds for a prefix without a double
/// quote and a value that is not empty and holds no line feed.
pub proof fn lemma_replace_all_declares(content: Seq<char>, prefix: Seq<char>, value: Seq<char>)
    requires
        !prefix.contains('"'),
        !value.contains('\n'),
        value.len() > 0,
        replaced_all(content, prefix, value) is Ok,
    ensures
        declarations(replaced_all(content, prefix, value).unwrap().0, prefix) == count_rewritable(
            lines(content),
            prefix,
        ),
{
    let ls = lines(content);
    lemma_lines_shape(content);
    let out = ls.map_values(|l: Seq<char>| rewrite_line(l, prefix, value));
    assert(feed_free(out)) by {
        assert forall|j: int| 0 <= j < out.len() implies !(#[trigger] out[j]).contains('\n') by {
            assert(out[j] == rewrite_line(ls[j], prefix, value));
            assert(!ls[j].contains('\n'));
            if rewritable(ls[j], prefix) {
                lemma_rewrite_feed_free(ls[j], value);
            }
        }
    }
    lemma_lines_join(out);
    lemma_rewritten_count(ls, prefix, value);
}

/// Among rewritten lines those that declare a value are those that were
/// rewritable.
pub proof fn lemma_rewritten_count(ls: Seq<Seq<char>>, prefix: Seq<char>, value: Seq<char>)
    requires
        !prefix.contains('"'),
        value.len() > 0,
    ensures
        count_declaring(ls.map_values(|l: Seq<char>| rewrite_line(l, prefix, value)), prefix)
            == count_rewritable(ls, prefix),
    decreases ls.len(),
{
    let out = ls.map_values(|l: Seq<char>| rewrite_line(l, prefix, value));
    if ls.len() > 0 {
        lemma_rewritten_count(ls.drop_last(), prefix, value);
        assert(out.drop_last() =~= ls.drop_last().map_values(
            |l: Seq<char>| rewrite_line(l, prefix, value),
        ));
        assert(out.last() == rewrite_line(ls.last(), prefix, value));
        if rewritable(ls.last(), prefix) {
            lemma_site_kept(ls.last(), prefix, value);
            lemma_value_set(ls.last(), value);
        }
    }
}

/// Without a site there is nothing to rewrite.
pub proof fn lemma_count_needs_site(ls: Seq<Seq<char>>, prefix: Seq<char>)
    requires
        count_rewritable(ls, prefix) > 0,
    ensures
        first_site(ls, prefix) is Some,
    decreases ls.len(),
{
    let flags = ls.map_values(|l: Seq<char>| is_site(l, prefix));
    flags.index_of_first_ensures(true);
    if ls.len() > 0 {
        if rewritable(ls.last(), prefix) {
            assert(flags[ls.len() - 1] == true);
            assert(flags.contains(true));
        } else {
            lemma_count_needs_site(ls.drop_last(), prefix);
            let flags1 = ls.drop_last().map_values(|l: Seq<char>| is_site(l, prefix));
            flags1.index_of_first_ensures(true);
            let j = flags1.index_of_first(true).unwrap();
            assert(flags[j] == flags1[j]);
            assert(flags.contains(true));
        }
    }
}

/// The prefix of a key without a double quote holds none.
pub proof fn lemma_key_prefix_plain(key: Seq<char>)
    requires
        !key.contains('"'),
    ensures
        !key_prefix(key).contains('"'),
{
    let p = key_prefix(key);
    if p.contains('"') {
        let j = choose|j: int| 0 <= j < p.len() && p[j] == '"';
        if j < key.len() {
            assert(key[j] == '"');
            assert(key.contains('"'));
        }
    }
}

} // verus!
