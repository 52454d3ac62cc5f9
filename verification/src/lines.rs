//! The line structure of a text: splitting at line feeds and joining back.

use vstd::prelude::*;

verus! {

/// The lines of `s`: the pieces between its line feeds, in order. A text
/// with `n` line feeds has `n + 1` lines, some of which may be empty.
pub open spec fn lines(s: Seq<char>) -> Seq<Seq<char>>
    decreases s.len(),
{
    match s.index_of_first('\n') {
        Some(i) => {
            proof {
                s.index_of_first_ensures('\n');
            }
            seq![s.subrange(0, i)] + lines(s.subrange(i + 1, s.len() as int))
        },
        None => seq![s],
    }
}

/// The lines of `ls` with one line feed between each two neighbours.
pub open spec fn join(ls: Seq<Seq<char>>) -> Seq<char>
    decreases ls.len(),
{
    if ls.len() == 0 {
        Seq::empty()
    } else if ls.len() == 1 {
        ls[0]
    } else {
        ls[0] + seq!['\n'] + join(ls.drop_first())
    }
}

/// No line of `ls` holds a line feed.
pub open spec fn feed_free(ls: Seq<Seq<char>>) -> bool {
    forall|i: int| 0 <= i < ls.len() ==> !(#[trigger] ls[i]).contains('\n')
}

/// The contents of a vector of lines.
pub open spec fn line_views(ls: Seq<Vec<char>>) -> Seq<Seq<char>> {
    Seq::new(ls.len(), |i: int| ls[i]@)
}

/// The first line feed of `t` is where one stands with none before it.
pub proof fn lemma_first_feed(t: Seq<char>, k: int)
    requires
        0 <= k < t.len(),
        t[k] == '\n',
        forall|j: int| 0 <= j < k ==> t[j] != '\n',
    ensures
        t.index_of_first('\n') == Some(k),
{
    t.index_of_first_ensures('\n');
    assert(t.contains('\n'));
    let i = t.index_of_first('\n').unwrap();
    if i < k {
        assert(t[i] != '\n');
    }
}

/// A text without a line feed is its own single line.
pub proof fn lemma_single_line(t: Seq<char>)
    requires
        !t.contains('\n'),
    ensures
        lines(t) == seq![t],
{
    t.index_of_first_ensures('\n');
}

/// A text is never without lines, and no line holds a line feed.
pub proof fn lemma_lines_shape(s: Seq<char>)
    ensures
        lines(s).len() >= 1,
        feed_free(lines(s)),
    decreases s.len(),
{
    s.index_of_first_ensures('\n');
    match s.index_of_first('\n') {
        Some(i) => {
            let rest = s.subrange(i + 1, s.len() as int);
            lemma_lines_shape(rest);
            let head = s.subrange(0, i);
            assert(!head.contains('\n')) by {
                if head.contains('\n') {
                    let j = choose|j: int| 0 <= j < head.len() && head[j] == '\n';
                    assert(s[j] == '\n');
                }
            }
            assert forall|k: int| 0 <= k < lines(s).len() implies !(#[trigger] lines(s)[k]).contains(
                '\n',
            ) by {
                if k > 0 {
                    assert(lines(s)[k] == lines(rest)[k - 1]);
                }
            }
        },
        None => {},
    }
}

/// Joining the lines of a text gives the text back.
pub proof fn lemma_join_lines(s: Seq<char>)
    ensures
        join(lines(s)) == s,
    decreases s.len(),
{
    s.index_of_first_ensures('\n');
    match s.index_of_first('\n') {
        Some(i) => {
            let rest = s.subrange(i + 1, s.len() as int);
            lemma_join_lines(rest);
            lemma_lines_shape(rest);
            let ls = lines(s);
            assert(ls.drop_first() =~= lines(rest));
            assert(s.subrange(0, i) + seq!['\n'] + rest =~= s);
        },
        None => {},
    }
}

/// Splitting a join of lines without line feeds gives the lines back.
pub proof fn lemma_lines_join(ls: Seq<Seq<char>>)
    requires
        ls.len() >= 1,
        feed_free(ls),
    ensures
        lines(join(ls)) == ls,
    decreases ls.len(),
{
    if ls.len() == 1 {
        lemma_single_line(ls[0]);
        assert(seq![ls[0]] =~= ls);
    } else {
        let rest = ls.drop_first();
        assert(feed_free(rest)) by {
            assert forall|i: int| 0 <= i < rest.len() implies !(#[trigger] rest[i]).contains(
                '\n',
            ) by {
                assert(rest[i] == ls[i + 1]);
            }
        }
        lemma_lines_join(rest);
        let t = join(ls);
        let k = ls[0].len() as int;
        assert(t[k] == '\n');
        assert forall|j: int| 0 <= j < k implies t[j] != '\n' by {
            assert(t[j] == ls[0][j]);
            assert(!ls[0].contains('\n'));
        }
        lemma_first_feed(t, k);
        assert(t.subrange(0, k) =~= ls[0]);
        assert(t.subrange(k + 1, t.len() as int) =~= join(rest));
        assert(seq![ls[0]] + rest =~= ls);
    }
}

/// What stands before line `i` in the join of `ls`: the lines before it,
/// each with its line feed.
pub open spec fn before_line(ls: Seq<Seq<char>>, i: int) -> Seq<char> {
    if i <= 0 {
        Seq::empty()
    } else {
        join(ls.take(i)) + seq!['\n']
    }
}

/// What stands after line `i` in the join of `ls`: the line feed that ends
/// it and the lines after it.
pub open spec fn after_line(ls: Seq<Seq<char>>, i: int) -> Seq<char> {
    if i + 1 >= ls.len() {
        Seq::empty()
    } else {
        seq!['\n'] + join(ls.skip(i + 1))
    }
}

/// A join is one of its lines with what stands before and after it.
pub proof fn lemma_join_around(ls: Seq<Seq<char>>, i: int)
    requires
        0 <= i < ls.len(),
    ensures
        join(ls) == before_line(ls, i) + ls[i] + after_line(ls, i),
    decreases i,
{
    if i == 0 {
        if ls.len() == 1 {
            assert(join(ls) =~= before_line(ls, 0) + ls[0] + after_line(ls, 0));
        } else {
            assert(ls.drop_first() =~= ls.skip(1));
            assert(join(ls) =~= before_line(ls, 0) + ls[0] + after_line(ls, 0));
        }
    } else {
        let rest = ls.drop_first();
        lemma_join_around(rest, i - 1);
        assert(ls.skip(i + 1) =~= rest.skip(i));
        assert(after_line(ls, i) == after_line(rest, i - 1));
        assert(before_line(ls, i) =~= ls[0] + seq!['\n'] + before_line(rest, i - 1)) by {
            if i == 1 {
                assert(ls.take(1) =~= seq![ls[0]]);
            } else {
                assert(ls.take(i).drop_first() =~= rest.take(i - 1));
                assert(ls.take(i)[0] == ls[0]);
            }
        }
        assert(join(ls) =~= before_line(ls, i) + ls[i] + after_line(ls, i));
    }
}

/// What stands around a line does not depend on the line.
pub proof fn lemma_around_update(ls: Seq<Seq<char>>, i: int, line: Seq<char>)
    requires
        0 <= i < ls.len(),
    ensures
        before_line(ls.update(i, line), i) == before_line(ls, i),
        after_line(ls.update(i, line), i) == after_line(ls, i),
{
    assert(ls.update(i, line).take(i) =~= ls.take(i));
    assert(ls.update(i, line).skip(i + 1) =~= ls.skip(i + 1));
}

/// Splits a text into its lines.
pub fn split_lines(s: &Vec<char>) -> (r: Vec<Vec<char>>)
    ensures
        line_views(r@) == lines(s@),
{
    let mut out: Vec<Vec<char>> = Vec::new();
    let mut cur: Vec<char> = Vec::new();
    let mut i: usize = 0;
    let ghost mut start: int = 0;
    proof {
        assert(s@.subrange(0, s@.len() as int) =~= s@);
        assert(line_views(out@) + lines(s@) =~= lines(s@));
    }
    while i < s.len()
        invariant
            0 <= start <= i <= s.len(),
            cur@ == s@.subrange(start, i as int),
            !cur@.contains('\n'),
            lines(s@) == line_views(out@) + lines(s@.subrange(start, s@.len() as int)),
        decreases s.len() - i,
    {
        let c = s[i];
        if c == '\n' {
            proof {
                let t = s@.subrange(start, s@.len() as int);
                let k = i - start;
                assert forall|j: int| 0 <= j < k implies t[j] != '\n' by {
                    assert(t[j] == cur@[j]);
                }
                lemma_first_feed(t, k);
                assert(t.subrange(0, k) =~= cur@);
                assert(t.subrange(k + 1, t.len() as int) =~= s@.subrange(
                    i + 1,
                    s@.len() as int,
                ));
                assert(line_views(out@.push(cur)) =~= line_views(out@) + seq![cur@]);
                start = i + 1;
            }
            out.push(cur);
            cur = Vec::new();
            proof {
                assert(cur@ =~= s@.subrange(start, i + 1));
            }
        } else {
            proof {
                assert(cur@.push(c) =~= s@.subrange(start, i + 1));
                assert(!cur@.push(c).contains('\n')) by {
                    if cur@.push(c).contains('\n') {
                        let j = choose|j: int|
                            0 <= j < cur@.push(c).len() && cur@.push(c)[j] == '\n';
                        if j < cur@.len() {
                            assert(cur@[j] == '\n');
                        }
                    }
                }
            }
            cur.push(c);
        }
        i += 1;
    }
    proof {
        assert(cur@ =~= s@.subrange(start, s@.len() as int));
        lemma_single_line(cur@);
        assert(line_views(out@.push(cur)) =~= line_views(out@) + seq![cur@]);
    }
    out.push(cur);
    out
}

/// Appending one more line to a join adds a line feed and the line.
pub proof fn lemma_join_push(ls: Seq<Seq<char>>, line: Seq<char>)
    requires
        ls.len() >= 1,
    ensures
        join(ls.push(line)) == join(ls) + seq!['\n'] + line,
    decreases ls.len(),
{
    let all = ls.push(line);
    assert(all[0] == ls[0]);
    if ls.len() == 1 {
        assert(all.drop_first() =~= seq![line]);
        assert(join(all.drop_first()) == line);
        assert(join(all) == all[0] + seq!['\n'] + join(all.drop_first()));
    } else {
        lemma_join_push(ls.drop_first(), line);
        assert(all.drop_first() =~= ls.drop_first().push(line));
        assert(join(all) == all[0] + seq!['\n'] + join(all.drop_first()));
        assert(join(ls) == ls[0] + seq!['\n'] + join(ls.drop_first()));
        assert(join(all) =~= join(ls) + seq!['\n'] + line);
    }
}

/// Joins lines with a line feed between each two neighbours.
pub fn join_lines(ls: &Vec<Vec<char>>) -> (r: Vec<char>)
    ensures
        r@ == join(line_views(ls@)),
{
    let mut out: Vec<char> = Vec::new();
    let mut k: usize = 0;
    let ghost views = line_views(ls@);
    proof {
        assert(views.take(0) =~= Seq::<Seq<char>>::empty());
    }
    while k < ls.len()
        invariant
            0 <= k <= ls.len(),
            views == line_views(ls@),
            out@ == join(views.take(k as int)),
        decreases ls.len() - k,
    {
        let line = &ls[k];
        let ghost before = out@;
        if k > 0 {
            out.push('\n');
        }
        let ghost base = out@;
        let mut j: usize = 0;
        while j < line.len()
            invariant
                0 <= j <= line.len(),
                out@ == base + line@.subrange(0, j as int),
            decreases line.len() - j,
        {
            out.push(line[j]);
            proof {
                assert(out@ =~= base + line@.subrange(0, j + 1));
            }
            j += 1;
        }
        proof {
            assert(line@.subrange(0, line@.len() as int) =~= line@);
            assert(views.take(k + 1) =~= views.take(k as int).push(line@));
            if k > 0 {
                lemma_join_push(views.take(k as int), line@);
            } else {
                assert(base + line@ =~= line@);
            }
        }
        k += 1;
    }
    proof {
        assert(views.take(views.len() as int) =~= views);
    }
    out
}

} // verus!
