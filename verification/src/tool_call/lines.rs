//! Lines of a text, as `str::lines` reads them, and joining lines back.
use vstd::prelude::*;
use crate::text::{chars_of, decimal, decimal_string, extend_chars, string_of};

verus! {

/// The text split after every `\n` (each piece keeps its `\n`; the last
/// piece may lack one; an empty text has no pieces).
pub open spec fn line_chunks(s: Seq<char>) -> Seq<Seq<char>>
    decreases s.len(),
{
    if s.len() == 0 {
        seq![]
    } else {
        let r = line_chunks(s.drop_last());
        if r.len() == 0 || r.last().last() == '\n' {
            r.push(seq![s.last()])
        } else {
            r.update(r.len() - 1, r.last().push(s.last()))
        }
    }
}

/// A piece without its line ending (`\n` or `\r\n`).
pub open spec fn strip_line_ending(chunk: Seq<char>) -> Seq<char> {
    if chunk.len() > 0 && chunk.last() == '\n' {
        let x = chunk.drop_last();
        if x.len() > 0 && x.last() == '\r' {
            x.drop_last()
        } else {
            x
        }
    } else {
        chunk
    }
}

/// The lines of a text: split at `\n` or `\r\n`; a final line ending adds
/// no empty line.
pub open spec fn text_lines(s: Seq<char>) -> Seq<Seq<char>> {
    line_chunks(s).map_values(|c: Seq<char>| strip_line_ending(c))
}

/// Lines joined with `sep` between them.
pub open spec fn join_with(lines: Seq<Seq<char>>, sep: Seq<char>) -> Seq<char>
    decreases lines.len(),
{
    if lines.len() == 0 {
        seq![]
    } else if lines.len() == 1 {
        lines[0]
    } else {
        join_with(lines.drop_last(), sep) + sep + lines.last()
    }
}

/// The note that stands for lines left out.
pub open spec fn more_lines_note(n: nat) -> Seq<char> {
    "... ("@ + decimal(n) + " more lines)"@
}

/// A text cut to at most `limit` lines, with a note of how many were left out.
pub open spec fn limit_lines_spec(content: Seq<char>, limit: Option<usize>) -> Seq<char> {
    let ls = text_lines(content);
    match limit {
        Some(lim) => {
            if (lim as int) < ls.len() {
                join_with(
                    ls.take(lim as int).push(more_lines_note((ls.len() - lim) as nat)),
                    seq!['\n'],
                )
            } else {
                join_with(ls, seq!['\n'])
            }
        },
        None => join_with(ls, seq!['\n']),
    }
}

/// The views of a list of character vectors.
pub open spec fn views_of(v: Seq<Vec<char>>) -> Seq<Seq<char>> {
    v.map_values(|x: Vec<char>| x@)
}

proof fn lemma_views_of_push(v: Seq<Vec<char>>, x: Vec<char>)
    ensures
        views_of(v.push(x)) == views_of(v).push(x@),
{
    assert(views_of(v.push(x)) =~= views_of(v).push(x@));
}

/// The lines of `content`, each as a character vector.
fn split_lines(content: &Vec<char>) -> (r: Vec<Vec<char>>)
    ensures
        views_of(r@) == text_lines(content@),
{
    let mut lines: Vec<Vec<char>> = Vec::new();
    let mut cur: Vec<char> = Vec::new();
    let ghost mut done: Seq<Seq<char>> = seq![];
    let mut i: usize = 0;
    proof {
        assert(content@.take(0) =~= Seq::<char>::empty());
        assert(views_of(lines@) =~= Seq::<Seq<char>>::empty());
        assert(done.map_values(|c: Seq<char>| strip_line_ending(c)) =~= Seq::<Seq<char>>::empty());
    }
    while i < content.len()
        invariant
            i <= content@.len(),
            line_chunks(content@.take(i as int)) == (if cur@.len() == 0 {
                done
            } else {
                done.push(cur@)
            }),
            forall|k: int| 0 <= k < done.len() ==> #[trigger] done[k].len() > 0 && done[k].last() == '\n',
            forall|k: int| 0 <= k < cur@.len() ==> cur@[k] != '\n',
            views_of(lines@) == done.map_values(|c: Seq<char>| strip_line_ending(c)),
        decreases content@.len() - i,
    {
        let c = content[i];
        let ghost prev = content@.take(i as int);
        let ghost next = content@.take(i + 1);
        proof {
            assert(next.drop_last() =~= prev);
            assert(next.last() == c);
        }
        if c == '\n' {
            let ghost chunk = cur@.push('\n');
            proof {
                let r = line_chunks(prev);
                if cur@.len() == 0 {
                    if r.len() > 0 {
                        assert(r.last() == done.last());
                    }
                    assert(line_chunks(next) == r.push(seq![c]));
                    assert(seq![c] =~= chunk);
                } else {
                    assert(r.last() == cur@);
                    assert(cur@.last() != '\n');
                    assert(line_chunks(next) == r.update(r.len() - 1, r.last().push(c)));
                    assert(r.update(r.len() - 1, r.last().push(c)) =~= done.push(chunk));
                }
            }
            let n = cur.len();
            if n > 0 && cur[n - 1] == '\r' {
                cur.pop();
            }
            let ghost before = lines@;
            lines.push(cur);
            proof {
                lemma_views_of_push(before, lines@.last());
                assert(strip_line_ending(chunk) == lines@.last()@);
                let d2 = done.push(chunk);
                assert(d2.map_values(|c: Seq<char>| strip_line_ending(c)) =~= done.map_values(
                    |c: Seq<char>| strip_line_ending(c),
                ).push(strip_line_ending(chunk)));
                done = d2;
            }
            cur = Vec::new();
        } else {
            proof {
                let r = line_chunks(prev);
                if cur@.len() == 0 {
                    if r.len() > 0 {
                        assert(r.last() == done.last());
                    }
                    assert(line_chunks(next) == r.push(seq![c]));
                    assert(cur@.push(c) =~= seq![c]);
                    assert(done.push(cur@.push(c)) =~= r.push(seq![c]));
                } else {
                    assert(r.last() == cur@);
                    assert(cur@.last() != '\n');
                    assert(line_chunks(next) == r.update(r.len() - 1, r.last().push(c)));
                    assert(r.update(r.len() - 1, r.last().push(c)) =~= done.push(cur@.push(c)));
                }
            }
            cur.push(c);
        }
        i = i + 1;
    }
    proof {
        assert(content@.take(content@.len() as int) =~= content@);
    }
    if cur.len() > 0 {
        let ghost before = lines@;
        let ghost last = cur@;
        lines.push(cur);
        proof {
            lemma_views_of_push(before, lines@.last());
            assert(last.len() == 0 || last.last() != '\n');
            assert(strip_line_ending(last) == last);
            let d2 = done.push(last);
            assert(d2.map_values(|c: Seq<char>| strip_line_ending(c)) =~= done.map_values(
                |c: Seq<char>| strip_line_ending(c),
            ).push(strip_line_ending(last)));
            done = d2;
        }
    }
    lines
}

/// The lines joined with `\n` between them.
fn join_newline(lines: &Vec<Vec<char>>) -> (r: Vec<char>)
    ensures
        r@ == join_with(views_of(lines@), seq!['\n']),
{
    let mut out: Vec<char> = Vec::new();
    let mut i: usize = 0;
    proof {
        assert(views_of(lines@).take(0) =~= Seq::<Seq<char>>::empty());
    }
    while i < lines.len()
        invariant
            i <= lines@.len(),
            out@ == join_with(views_of(lines@).take(i as int), seq!['\n']),
        decreases lines@.len() - i,
    {
        let ghost pre = views_of(lines@).take(i as int);
        let ghost post = views_of(lines@).take(i + 1);
        proof {
            assert(post.drop_last() =~= pre);
            assert(post.last() == lines@[i as int]@);
        }
        if i > 0 {
            out.push('\n');
        } else {
            proof {
                assert(out@ =~= Seq::<char>::empty());
            }
        }
        extend_chars(&mut out, lines[i].as_slice());
        proof {
            if i == 0 {
                assert(post.len() == 1);
                assert(out@ =~= post[0]);
            } else {
                assert(out@ =~= join_with(pre, seq!['\n']) + seq!['\n'] + post.last());
            }
        }
        i = i + 1;
    }
    proof {
        assert(views_of(lines@).take(lines@.len() as int) =~= views_of(lines@));
    }
    out
}

/// `content` cut to at most `limit` lines; when lines are left out, a last
/// line `... (N more lines)` says how many.  Lines are joined with `\n`, so
/// `\r\n` endings and a final line ending do not survive.
pub fn limit_lines(content: &str, limit: Option<usize>) -> (r: String)
    ensures
        r@ == limit_lines_spec(content@, limit),
{
    let cs = chars_of(content);
    let mut lines = split_lines(&cs);
    let total = lines.len();
    match limit {
        Some(lim) => {
            if lim < total {
                let ghost all = views_of(lines@);
                lines.truncate(lim);
                let note_head = String::from_str("... (");
                let count = decimal_string((total - lim) as u64);
                let mut note = note_head.concat(count.as_str());
                note.append(" more lines)");
                let note_chars = chars_of(note.as_str());
                let ghost before = lines@;
                lines.push(note_chars);
                proof {
                    lemma_views_of_push(before, lines@.last());
                    assert(views_of(before) =~= all.take(lim as int));
                }
                let out = join_newline(&lines);
                string_of(out.as_slice())
            } else {
                let out = join_newline(&lines);
                string_of(out.as_slice())
            }
        },
        None => {
            let out = join_newline(&lines);
            string_of(out.as_slice())
        },
    }
}

/// The text without its final `\n`, if it has one.
pub open spec fn without_final_newline(s: Seq<char>) -> Seq<char> {
    if s.len() > 0 && s.last() == '\n' {
        s.drop_last()
    } else {
        s
    }
}

/// Extending the last line extends the joined text.
proof fn lemma_join_extend_last(ls: Seq<Seq<char>>, sep: Seq<char>, t: Seq<char>)
    requires
        ls.len() > 0,
    ensures
        join_with(ls.update(ls.len() - 1, ls.last() + t), sep) == join_with(ls, sep) + t,
{
    let u = ls.update(ls.len() - 1, ls.last() + t);
    if ls.len() == 1 {
        assert(u[0] == ls[0] + t);
    } else {
        assert(u.drop_last() =~= ls.drop_last());
        assert(u.last() == ls.last() + t);
        assert(join_with(u, sep) == join_with(u.drop_last(), sep) + sep + u.last());
        assert(join_with(ls, sep) == join_with(ls.drop_last(), sep) + sep + ls.last());
        assert(join_with(ls.drop_last(), sep) + sep + (ls.last() + t) =~= join_with(ls.drop_last(), sep)
            + sep + ls.last() + t);
    }
}

/// The pieces of a text are never empty, and all but the last end with `\n`.
proof fn lemma_chunk_facts(s: Seq<char>)
    ensures
        line_chunks(s).len() == 0 <==> s.len() == 0,
        s.len() > 0 ==> line_chunks(s).last().len() > 0 && line_chunks(s).last().last() == s.last(),
        s.len() > 0 ==> (line_chunks(s).last().last() == '\n' <==> s.last() == '\n'),
    decreases s.len(),
{
    if s.len() > 0 {
        lemma_chunk_facts(s.drop_last());
    }
}

/// Joining the lines of a text without `\r` gives the text back, less a
/// final `\n`.
proof fn lemma_join_lines(s: Seq<char>)
    requires
        forall|i: int| 0 <= i < s.len() ==> s[i] != '\r',
    ensures
        join_with(text_lines(s), seq!['\n']) == without_final_newline(s),
    decreases s.len(),
{
    let nl = seq!['\n'];
    if s.len() == 0 {
        assert(text_lines(s) =~= Seq::<Seq<char>>::empty());
    } else {
        let d = s.drop_last();
        let c = s.last();
        assert forall|i: int| 0 <= i < d.len() implies d[i] != '\r' by {
            assert(d[i] == s[i]);
        }
        lemma_join_lines(d);
        lemma_chunk_facts(d);
        lemma_chunk_facts(s);
        let r = line_chunks(d);
        let ld = text_lines(d);
        let strip_c = strip_line_ending(seq![c]);
        if c == '\n' {
            assert(seq![c].drop_last() =~= Seq::<char>::empty());
            assert(strip_c =~= Seq::<char>::empty());
        } else {
            assert(strip_c == seq![c]);
        }
        if r.len() == 0 || r.last().last() == '\n' {
            assert(line_chunks(s) == r.push(seq![c]));
            assert(text_lines(s) =~= ld.push(strip_c));
            if r.len() == 0 {
                assert(d.len() == 0);
                assert(text_lines(s) =~= seq![strip_c]);
                assert(join_with(text_lines(s), nl) == strip_c);
                if c == '\n' {
                    assert(without_final_newline(s) =~= Seq::<char>::empty());
                } else {
                    assert(s =~= seq![c]);
                }
            } else {
                assert(ld.len() > 0);
                assert(text_lines(s).drop_last() =~= ld);
                assert(join_with(text_lines(s), nl) == join_with(ld, nl) + nl + strip_c);
                assert(d.last() == '\n');
                assert(join_with(ld, nl) == d.drop_last());
                assert(d.drop_last() + nl =~= d);
                if c == '\n' {
                    assert(d + strip_c =~= d);
                } else {
                    assert(d + strip_c =~= s);
                }
            }
        } else {
            let last = r.last();
            assert(line_chunks(s) == r.update(r.len() - 1, last.push(c)));
            assert(last.last() != '\n');
            assert(strip_line_ending(last) == last);
            assert(d.last() != '\n');
            assert(join_with(ld, nl) == d);
            assert(ld.last() == last);
            if c == '\n' {
                let x = last.push(c).drop_last();
                assert(x =~= last);
                assert(x.len() > 0 ==> x.last() != '\r') by {
                    if x.len() > 0 {
                        assert(x.last() == d.last());
                    }
                };
                assert(strip_line_ending(last.push(c)) == last);
                assert(text_lines(s) =~= ld);
            } else {
                assert(strip_line_ending(last.push(c)) == last.push(c));
                assert(ld.last() + seq![c] =~= last.push(c));
                assert(text_lines(s) =~= ld.update(ld.len() - 1, ld.last() + seq![c]));
                lemma_join_extend_last(ld, nl, seq![c]);
                assert(d + seq![c] =~= s);
            }
        }
    }
}

/// Reading a whole text without `\r` gives it back unchanged, but for a
/// final `\n`.
pub proof fn law_unlimited_read_keeps_text(s: Seq<char>)
    requires
        forall|i: int| 0 <= i < s.len() ==> s[i] != '\r',
    ensures
        limit_lines_spec(s, None) == without_final_newline(s),
{
    lemma_join_lines(s);
}

} // verus!
