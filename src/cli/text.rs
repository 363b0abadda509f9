//! Lines and fields of the text that the Arduino CLI prints.

use vstd::prelude::*;

verus! {

/// Whether `c` has the Unicode property White_Space.
pub open spec fn is_white_space(c: char) -> bool {
    ('\t' <= c && c <= '\r') || c == ' ' || c == '\u{85}' || c == '\u{a0}' || c == '\u{1680}'
        || ('\u{2000}' <= c && c <= '\u{200a}') || c == '\u{2028}' || c == '\u{2029}'
        || c == '\u{202f}' || c == '\u{205f}' || c == '\u{3000}'
}

/// Whether `s` holds nothing but white space (the empty text included).
pub open spec fn is_blank(s: Seq<char>) -> bool {
    forall|i: int| 0 <= i < s.len() ==> is_white_space(#[trigger] s[i])
}

/// The pieces of `s` between the occurrences of `sep`, in order: one more piece than there are
/// occurrences.
pub open spec fn split_on(s: Seq<char>, sep: char) -> Seq<Seq<char>>
    decreases s.len(),
{
    if s.len() == 0 {
        seq![Seq::empty()]
    } else {
        let pieces = split_on(s.drop_last(), sep);
        if s.last() == sep {
            pieces.push(Seq::empty())
        } else {
            pieces.update(pieces.len() - 1, pieces.last().push(s.last()))
        }
    }
}

/// `line` without one carriage return at its end.
pub open spec fn strip_cr(line: Seq<char>) -> Seq<char> {
    if line.len() > 0 && line.last() == '\r' {
        line.drop_last()
    } else {
        line
    }
}

/// The lines of `s`: split at each `\n`, a `\r` right before it dropped, and no empty line after
/// a final `\n`.
pub open spec fn lines_of(s: Seq<char>) -> Seq<Seq<char>> {
    let pieces = split_on(s, '\n');
    let ended = pieces.drop_last().map_values(|l: Seq<char>| strip_cr(l));
    if pieces.last().len() == 0 {
        ended
    } else {
        ended.push(pieces.last())
    }
}

/// The views of a list of character vectors.
pub open spec fn seqs_of(v: Seq<Vec<char>>) -> Seq<Seq<char>> {
    v.map_values(|l: Vec<char>| l@)
}

proof fn lemma_split_on_nonempty(s: Seq<char>, sep: char)
    ensures
        split_on(s, sep).len() >= 1,
    decreases s.len(),
{
    if s.len() > 0 {
        lemma_split_on_nonempty(s.drop_last(), sep);
    }
}

/// A text without `sep` is a single piece.
pub proof fn lemma_split_without_sep(s: Seq<char>, sep: char)
    requires
        !s.contains(sep),
    ensures
        split_on(s, sep) == seq![s],
    decreases s.len(),
{
    if s.len() > 0 {
        assert(!s.drop_last().contains(sep)) by {
            if s.drop_last().contains(sep) {
                let i = choose|i: int| 0 <= i < s.drop_last().len() && s.drop_last()[i] == sep;
                assert(s[i] == sep);
            }
        }
        lemma_split_without_sep(s.drop_last(), sep);
        assert(s.last() != sep) by {
            assert(s[s.len() - 1] == s.last());
        }
        assert(s.drop_last().push(s.last()) == s);
        let p = seq![s.drop_last()];
        assert(p.update(p.len() - 1, p.last().push(s.last())) == seq![s]);
    } else {
        assert(s == Seq::<char>::empty());
    }
}

/// Splitting a text that starts with a piece `a` and a separator gives `a`, then the pieces of
/// the rest.
pub proof fn lemma_split_after_sep(a: Seq<char>, b: Seq<char>, sep: char)
    requires
        !a.contains(sep),
    ensures
        split_on(a + seq![sep] + b, sep) == seq![a] + split_on(b, sep),
    decreases b.len(),
{
    let c = a + seq![sep] + b;
    if b.len() == 0 {
        assert(c == a.push(sep));
        assert(c.drop_last() == a);
        lemma_split_without_sep(a, sep);
        assert(split_on(b, sep) == seq![Seq::<char>::empty()]);
    } else {
        assert(c.drop_last() == a + seq![sep] + b.drop_last());
        assert(c.last() == b.last());
        lemma_split_after_sep(a, b.drop_last(), sep);
        lemma_split_on_nonempty(b.drop_last(), sep);
        let p = split_on(b.drop_last(), sep);
        if b.last() == sep {
            assert((seq![a] + p).push(Seq::<char>::empty()) == seq![a] + p.push(Seq::<char>::empty()));
        } else {
            let q = seq![a] + p;
            assert(q.update(q.len() - 1, q.last().push(b.last())) == seq![a] + p.update(
                p.len() - 1,
                p.last().push(b.last()),
            ));
        }
    }
}

/// Dropping a final carriage return keeps a text from being blank.
pub proof fn lemma_strip_cr_not_blank(s: Seq<char>)
    requires
        !is_blank(s),
    ensures
        !is_blank(strip_cr(s)),
{
    if s.len() > 0 && s.last() == '\r' {
        let i = choose|i: int| 0 <= i < s.len() && !is_white_space(s[i]);
        assert(i != s.len() - 1);
        assert(strip_cr(s)[i] == s[i]);
    }
}

/// The characters of `s`, in order.
pub fn chars_of(s: &str) -> (r: Vec<char>)
    ensures
        r@ == s@,
{
    let mut r: Vec<char> = Vec::new();
    for c in it: s.chars()
        invariant
            r@ == it.seq().take(it.index() as int),
    {
        r.push(c);
    }
    r
}

/// The first `end` characters of `v`.
pub fn prefix_of(v: &Vec<char>, end: usize) -> (r: Vec<char>)
    requires
        end <= v@.len(),
    ensures
        r@ == v@.take(end as int),
{
    let mut r: Vec<char> = Vec::new();
    let mut i: usize = 0;
    while i < end
        invariant
            i <= end <= v@.len(),
            r@ == v@.take(i as int),
        decreases end - i,
    {
        r.push(v[i]);
        proof {
            assert(v@.take(i + 1) == v@.take(i as int).push(v@[i as int]));
        }
        i = i + 1;
    }
    r
}

/// Splits `s` at each occurrence of `sep`.
pub fn split_chars(s: &Vec<char>, sep: char) -> (pieces: Vec<Vec<char>>)
    ensures
        seqs_of(pieces@) == split_on(s@, sep),
{
    let mut done: Vec<Vec<char>> = Vec::new();
    let mut current: Vec<char> = Vec::new();
    let mut i: usize = 0;
    proof {
        assert(s@.take(0) == Seq::<char>::empty());
        assert(seqs_of(done@).push(current@) == seq![Seq::<char>::empty()]);
    }
    while i < s.len()
        invariant
            i <= s@.len(),
            seqs_of(done@).push(current@) == split_on(s@.take(i as int), sep),
        decreases s@.len() - i,
    {
        let c = s[i];
        proof {
            let t = s@.take(i + 1);
            assert(t.drop_last() == s@.take(i as int));
            assert(t.last() == c);
        }
        if c == sep {
            let ghost before = seqs_of(done@).push(current@);
            done.push(current);
            current = Vec::new();
            proof {
                assert(seqs_of(done@) == before);
                assert(seqs_of(done@).push(current@) == before.push(Seq::<char>::empty()));
            }
        } else {
            let ghost before = seqs_of(done@);
            let ghost old_current = current@;
            current.push(c);
            proof {
                let p = before.push(old_current);
                assert(p.update(p.len() - 1, p.last().push(c)) == before.push(current@));
            }
        }
        i = i + 1;
    }
    proof {
        assert(s@.take(i as int) == s@);
    }
    let ghost before = seqs_of(done@);
    done.push(current);
    proof {
        assert(seqs_of(done@) == before.push(current@));
    }
    done
}

/// Splits `s` into its lines.
pub fn lines_of_chars(s: &Vec<char>) -> (lines: Vec<Vec<char>>)
    ensures
        seqs_of(lines@) == lines_of(s@),
{
    let pieces = split_chars(s, '\n');
    proof {
        lemma_split_on_nonempty(s@, '\n');
    }
    let ghost all = split_on(s@, '\n');
    let last = pieces.len() - 1;
    let mut lines: Vec<Vec<char>> = Vec::new();
    let mut j: usize = 0;
    while j < last
        invariant
            last + 1 == pieces@.len(),
            seqs_of(pieces@) == all,
            j <= last,
            seqs_of(lines@) == all.take(j as int).map_values(|l: Seq<char>| strip_cr(l)),
        decreases last - j,
    {
        let piece = &pieces[j];
        let n = piece.len();
        let line = if n > 0 && piece[n - 1] == '\r' {
            prefix_of(piece, n - 1)
        } else {
            prefix_of(piece, n)
        };
        proof {
            assert(piece@ == all[j as int]);
            assert(line@ == strip_cr(all[j as int]));
            assert(all.take(j + 1) == all.take(j as int).push(all[j as int]));
        }
        let ghost before = seqs_of(lines@);
        lines.push(line);
        proof {
            assert(seqs_of(lines@) == before.push(line@));
            assert(all.take(j + 1).map_values(|l: Seq<char>| strip_cr(l)) == all.take(
                j as int,
            ).map_values(|l: Seq<char>| strip_cr(l)).push(strip_cr(all[j as int])));
        }
        j = j + 1;
    }
    proof {
        assert(all.take(last as int) == all.drop_last());
        assert(pieces@[last as int]@ == all.last());
    }
    if pieces[last].len() > 0 {
        let end = pieces[last].len();
        let tail = prefix_of(&pieces[last], end);
        let ghost before = seqs_of(lines@);
        lines.push(tail);
        proof {
            assert(seqs_of(lines@) == before.push(tail@));
            assert(tail@ == all.last());
        }
    }
    lines
}

} // verus!
