//! Texts read character by character: substitution and splitting.

use vstd::prelude::*;

verus! {

/// `s` with `to` before each of its characters and after the last.
pub open spec fn interleaved(s: Seq<char>, to: Seq<char>) -> Seq<char>
    decreases s.len(),
{
    if s.len() == 0 {
        to
    } else {
        to + s.take(1) + interleaved(s.skip(1), to)
    }
}

/// `s` with every occurrence of `from` replaced by `to`. Occurrences are
/// found from the left and do not overlap: after one, the search goes on
/// behind it. An empty `from` occurs before each character and at the end.
pub open spec fn replaced(s: Seq<char>, from: Seq<char>, to: Seq<char>) -> Seq<char>
    decreases s.len(),
{
    if from.len() == 0 {
        interleaved(s, to)
    } else if s.len() < from.len() {
        s
    } else if s.take(from.len() as int) == from {
        to + replaced(s.skip(from.len() as int), from, to)
    } else {
        s.take(1) + replaced(s.skip(1), from, to)
    }
}

/// The pieces of `s` between its blanks, in order. There is one piece more
/// than there are blanks; a piece is empty where two blanks meet, and where
/// a blank begins or ends the text.
pub open spec fn pieces(s: Seq<char>) -> Seq<Seq<char>>
    decreases s.len(),
{
    if s.len() == 0 {
        seq![Seq::empty()]
    } else {
        let before = pieces(s.drop_last());
        if s.last() == ' ' {
            before.push(Seq::empty())
        } else {
            before.drop_last().push(before.last().push(s.last()))
        }
    }
}

/// The texts that the strings of `v` hold, in order.
pub open spec fn texts(v: Seq<String>) -> Seq<Seq<char>> {
    v.map_values(|piece: String| piece@)
}

/// Whether `part` stands somewhere in `whole`.
pub open spec fn occurs_in(part: Seq<char>, whole: Seq<char>) -> bool {
    exists|i: int|
        0 <= i && i + part.len() <= whole.len() && #[trigger] whole.subrange(
            i,
            i + part.len(),
        ) == part
}

/// Whether `s` holds the character `c` nowhere.
pub open spec fn free_of(s: Seq<char>, c: char) -> bool {
    forall|i: int| 0 <= i < s.len() ==> #[trigger] s[i] != c
}

/// Where a text begins with `from`, the substitution puts `to` there and
/// goes on behind it.
pub proof fn lemma_replaced_at_match(from: Seq<char>, rest: Seq<char>, to: Seq<char>)
    requires
        from.len() > 0,
    ensures
        replaced(from + rest, from, to) == to + replaced(rest, from, to),
{
    let s = from + rest;
    assert(s.take(from.len() as int) =~= from);
    assert(s.skip(from.len() as int) =~= rest);
}

/// Where a text differs from `from` at some place of its beginning, the
/// substitution keeps its first character and goes on behind it.
pub proof fn lemma_replaced_at_mismatch(s: Seq<char>, from: Seq<char>, to: Seq<char>, k: int)
    requires
        0 <= k < from.len() <= s.len(),
        s[k] != from[k],
    ensures
        replaced(s, from, to) == s.take(1) + replaced(s.skip(1), from, to),
{
    assert(s.take(from.len() as int)[k] == s[k]);
}

/// The substitution passes over a beginning that does not hold the first
/// character of `from`.
pub proof fn lemma_replaced_after_plain(
    head: Seq<char>,
    rest: Seq<char>,
    from: Seq<char>,
    to: Seq<char>,
)
    requires
        from.len() > 0,
        free_of(head, from[0]),
    ensures
        replaced(head + rest, from, to) == head + replaced(rest, from, to),
    decreases head.len(),
{
    let s = head + rest;
    if head.len() == 0 {
        assert(s =~= rest);
        assert(head + replaced(rest, from, to) =~= replaced(rest, from, to));
    } else if s.len() < from.len() {
        assert(rest.len() < from.len());
    } else {
        assert(s[0] == head[0]);
        lemma_replaced_at_mismatch(s, from, to, 0);
        let tail = head.skip(1);
        assert(free_of(tail, from[0])) by {
            assert forall|i: int| 0 <= i < tail.len() implies #[trigger] tail[i] != from[0] by {
                assert(tail[i] == head[i + 1]);
            }
        }
        lemma_replaced_after_plain(tail, rest, from, to);
        assert(s.skip(1) =~= tail + rest);
        assert(s.take(1) + (tail + replaced(rest, from, to)) =~= head + replaced(rest, from, to));
    }
}

/// The substitution passes over a beginning in which the first character
/// of `from` is always followed by another than the second of `from`.
pub proof fn lemma_replaced_after_unlike(
    head: Seq<char>,
    rest: Seq<char>,
    from: Seq<char>,
    to: Seq<char>,
)
    requires
        from.len() >= 2,
        forall|i: int|
            0 <= i < head.len() && #[trigger] head[i] == from[0] ==> i + 1 < head.len() && head[i
                + 1] != from[1],
    ensures
        replaced(head + rest, from, to) == head + replaced(rest, from, to),
    decreases head.len(),
{
    let s = head + rest;
    if head.len() == 0 {
        assert(s =~= rest);
        assert(head + replaced(rest, from, to) =~= replaced(rest, from, to));
    } else if s.len() < from.len() {
        assert(rest.len() < from.len());
    } else {
        assert(s[0] == head[0]);
        if head[0] == from[0] {
            assert(s[1] == head[1]);
            lemma_replaced_at_mismatch(s, from, to, 1);
        } else {
            lemma_replaced_at_mismatch(s, from, to, 0);
        }
        let tail = head.skip(1);
        assert forall|i: int| 0 <= i < tail.len() && #[trigger] tail[i] == from[0] implies i + 1
            < tail.len() && tail[i + 1] != from[1] by {
            assert(tail[i] == head[i + 1]);
            assert(tail[i + 1] == head[i + 2]);
        }
        lemma_replaced_after_unlike(tail, rest, from, to);
        assert(s.skip(1) =~= tail + rest);
        assert(s.take(1) + (tail + replaced(rest, from, to)) =~= head + replaced(rest, from, to));
    }
}

/// A text that does not hold the first character of `from` is left as it is.
pub proof fn lemma_replaced_plain(s: Seq<char>, from: Seq<char>, to: Seq<char>)
    requires
        from.len() > 0,
        free_of(s, from[0]),
    ensures
        replaced(s, from, to) == s,
{
    lemma_replaced_after_plain(s, Seq::empty(), from, to);
    assert(s + Seq::<char>::empty() =~= s);
}

/// The substitution brings in no character that neither the text nor `to`
/// holds.
pub proof fn lemma_replaced_stays_free(s: Seq<char>, from: Seq<char>, to: Seq<char>, c: char)
    requires
        from.len() > 0,
        free_of(s, c),
        free_of(to, c),
    ensures
        free_of(replaced(s, from, to), c),
    decreases s.len(),
{
    if s.len() < from.len() {
    } else if s.take(from.len() as int) == from {
        let rest = s.skip(from.len() as int);
        assert(free_of(rest, c)) by {
            assert forall|i: int| 0 <= i < rest.len() implies #[trigger] rest[i] != c by {
                assert(rest[i] == s[i + from.len()]);
            }
        }
        lemma_replaced_stays_free(rest, from, to, c);
    } else {
        let rest = s.skip(1);
        assert(free_of(rest, c)) by {
            assert forall|i: int| 0 <= i < rest.len() implies #[trigger] rest[i] != c by {
                assert(rest[i] == s[i + 1]);
            }
        }
        lemma_replaced_stays_free(rest, from, to, c);
        assert(s.take(1)[0] == s[0]);
    }
}

/// A text without a blank is one piece.
pub proof fn lemma_pieces_plain(s: Seq<char>)
    requires
        free_of(s, ' '),
    ensures
        pieces(s) == seq![s],
    decreases s.len(),
{
    if s.len() > 0 {
        let front = s.drop_last();
        assert(free_of(front, ' ')) by {
            assert forall|i: int| 0 <= i < front.len() implies #[trigger] front[i] != ' ' by {
                assert(front[i] == s[i]);
            }
        }
        lemma_pieces_plain(front);
        assert(s.last() == s[s.len() - 1]);
        assert(seq![front].drop_last().push(front.push(s.last())) =~= seq![s]) by {
            assert(front.push(s.last()) =~= s);
        }
    } else {
        assert(s =~= Seq::<char>::empty());
    }
}

/// The pieces of two texts with a blank between them are the pieces of the
/// first, then the pieces of the second.
pub proof fn lemma_pieces_join(a: Seq<char>, b: Seq<char>)
    ensures
        pieces(a + seq![' '] + b) == pieces(a) + pieces(b),
        pieces(b).len() > 0,
    decreases b.len(),
{
    let s = a + seq![' '] + b;
    if b.len() == 0 {
        assert(s.drop_last() =~= a);
        assert(pieces(a).push(Seq::<char>::empty()) =~= pieces(a) + pieces(b));
    } else {
        let front = b.drop_last();
        lemma_pieces_join(a, front);
        assert(s.drop_last() =~= a + seq![' '] + front);
        assert(s.last() == b.last());
        let before = pieces(a) + pieces(front);
        if b.last() == ' ' {
            assert(before.push(Seq::<char>::empty()) =~= pieces(a) + pieces(b));
        } else {
            assert(before.last() == pieces(front).last());
            assert(before.drop_last() =~= pieces(a) + pieces(front).drop_last());
            assert(before.drop_last().push(before.last().push(b.last())) =~= pieces(a) + pieces(
                b,
            ));
        }
    }
}

/// The characters of `s`, one by one.
pub fn chars_of(s: &str) -> (r: Vec<char>)
    ensures
        r@ == s@,
{
    let mut r: Vec<char> = Vec::new();
    for c in it: s.chars()
        invariant
            it.seq() == s@,
            r@ == it.seq().take(it.index() as int),
    {
        r.push(c);
        assert(r@ =~= it.seq().take(it.index() + 1));
    }
    assert(r@ =~= s@);
    r
}

/// Whether `pattern` stands in `text` at place `at`.
fn occurs_at(text: &Vec<char>, at: usize, pattern: &Vec<char>) -> (r: bool)
    requires
        at + pattern.len() <= text.len(),
    ensures
        r == (text@.skip(at as int).take(pattern.len() as int) == pattern@),
{
    let ghost window = text@.skip(at as int).take(pattern.len() as int);
    let mut j: usize = 0;
    while j < pattern.len()
        invariant
            at + pattern.len() <= text.len(),
            window == text@.skip(at as int).take(pattern.len() as int),
            0 <= j <= pattern.len(),
            forall|k: int| 0 <= k < j ==> window[k] == pattern[k],
        decreases pattern.len() - j,
    {
        if text[at + j] != pattern[j] {
            assert(window[j as int] != pattern[j as int]);
            return false;
        }
        j += 1;
    }
    assert(window =~= pattern@);
    true
}

/// `s` with every occurrence of `from` replaced by `to`.
pub fn replace(s: &str, from: &str, to: &str) -> (r: String)
    ensures
        r@ == replaced(s@, from@, to@),
{
    let text = chars_of(s);
    let pattern = chars_of(from);
    let n = text.len();
    let m = pattern.len();
    let mut out = String::new();
    if m == 0 {
        let mut i: usize = 0;
        assert(out@ + interleaved(s@.skip(0), to@) =~= interleaved(s@, to@)) by {
            assert(s@.skip(0) =~= s@);
        }
        while i < n
            invariant
                n == s@.len(),
                0 <= i <= n,
                out@ + interleaved(s@.skip(i as int), to@) == interleaved(s@, to@),
            decreases n - i,
        {
            let ghost rest = s@.skip(i as int);
            let ghost before = out@;
            out.append(to);
            out.append(s.substring_char(i, i + 1));
            proof {
                assert(rest.take(1) =~= s@.subrange(i as int, i + 1));
                assert(rest.skip(1) =~= s@.skip(i + 1));
                assert(out@ + interleaved(s@.skip(i + 1), to@) =~= before + interleaved(
                    rest,
                    to@,
                ));
            }
            i += 1;
        }
        out.append(to);
        assert(out@ =~= interleaved(s@, to@));
        return out;
    }
    let mut start: usize = 0;
    let mut i: usize = 0;
    proof {
        assert(s@.skip(0) =~= s@);
        assert(out@ + s@.subrange(0, 0) + replaced(s@.skip(0), from@, to@) =~= replaced(
            s@,
            from@,
            to@,
        ));
    }
    while n - i >= m
        invariant
            text@ == s@,
            pattern@ == from@,
            n == s@.len(),
            m == from@.len(),
            m > 0,
            0 <= start <= i <= n,
            out@ + s@.subrange(start as int, i as int) + replaced(s@.skip(i as int), from@, to@)
                == replaced(s@, from@, to@),
        decreases n - i,
    {
        let ghost rest = s@.skip(i as int);
        let ghost before = out@;
        if occurs_at(&text, i, &pattern) {
            out.append(s.substring_char(start, i));
            out.append(to);
            proof {
                assert(rest.skip(m as int) =~= s@.skip(i + m));
                assert(s@.subrange(i + m, i + m) =~= Seq::<char>::empty());
                assert(out@ + s@.subrange(i + m, i + m) + replaced(s@.skip(i + m), from@, to@)
                    =~= before + s@.subrange(start as int, i as int) + replaced(rest, from@, to@));
            }
            i += m;
            start = i;
        } else {
            proof {
                assert(rest.take(1) =~= s@.subrange(i as int, i + 1));
                assert(rest.skip(1) =~= s@.skip(i + 1));
                assert(s@.subrange(start as int, i + 1) =~= s@.subrange(start as int, i as int)
                    + rest.take(1));
                assert(out@ + s@.subrange(start as int, i + 1) + replaced(
                    s@.skip(i + 1),
                    from@,
                    to@,
                ) =~= before + s@.subrange(start as int, i as int) + replaced(rest, from@, to@));
            }
            i += 1;
        }
    }
    out.append(s.substring_char(start, n));
    proof {
        let rest = s@.skip(i as int);
        assert(replaced(rest, from@, to@) == rest);
        assert(s@.subrange(start as int, n as int) =~= s@.subrange(start as int, i as int)
            + rest);
        assert(out@ =~= replaced(s@, from@, to@));
    }
    out
}

/// The pieces of `s` between its blanks.
pub fn split_at_blanks(s: &str) -> (r: Vec<String>)
    ensures
        texts(r@) == pieces(s@),
{
    let text = chars_of(s);
    let n = text.len();
    let mut r: Vec<String> = Vec::new();
    let mut start: usize = 0;
    let mut i: usize = 0;
    proof {
        assert(s@.take(0) =~= Seq::<char>::empty());
        assert(r@.map_values(|piece: String| piece@).push(s@.subrange(0, 0)) =~= pieces(
            s@.take(0),
        ));
    }
    while i < n
        invariant
            text@ == s@,
            n == s@.len(),
            0 <= start <= i <= n,
            r@.map_values(|piece: String| piece@).push(s@.subrange(start as int, i as int))
                == pieces(s@.take(i as int)),
        decreases n - i,
    {
        let ghost done = r@.map_values(|piece: String| piece@);
        let ghost open = s@.subrange(start as int, i as int);
        proof {
            assert(s@.take(i + 1).drop_last() =~= s@.take(i as int));
            assert(s@.take(i + 1).last() == s@[i as int]);
            assert(done.push(open).drop_last() =~= done);
        }
        if text[i] == ' ' {
            r.push(s.substring_char(start, i).to_owned());
            start = i + 1;
            proof {
                assert(r@.map_values(|piece: String| piece@) =~= done.push(open));
                assert(s@.subrange(i + 1, i + 1) =~= Seq::<char>::empty());
            }
        } else {
            proof {
                assert(s@.subrange(start as int, i + 1) =~= open.push(s@[i as int]));
            }
        }
        i += 1;
    }
    r.push(s.substring_char(start, n).to_owned());
    proof {
        assert(s@.take(n as int) =~= s@);
        assert(r@.map_values(|piece: String| piece@) =~= pieces(s@));
    }
    r
}

} // verus!
