//! Text as a sequence of lines, each closed by a line feed.

use vstd::prelude::*;

verus! {

/// The text made of `lines` in order, a line feed after each of them.
pub open spec fn join_lines(lines: Seq<Seq<char>>) -> Seq<char>
    decreases lines.len(),
{
    if lines.len() == 0 {
        Seq::empty()
    } else {
        join_lines(lines.drop_last()) + lines.last() + seq!['\n']
    }
}

/// One more line at the end adds that line and its line feed to the text.
pub proof fn lemma_join_lines_push(lines: Seq<Seq<char>>, line: Seq<char>)
    ensures
        join_lines(lines.push(line)) == join_lines(lines) + line + seq!['\n'],
{
    assert(lines.push(line).drop_last() =~= lines);
}

/// The text of two runs of lines put together is the two texts put together.
pub proof fn lemma_join_lines_concat(front: Seq<Seq<char>>, back: Seq<Seq<char>>)
    ensures
        join_lines(front + back) == join_lines(front) + join_lines(back),
    decreases back.len(),
{
    if back.len() == 0 {
        assert(front + back =~= front);
        assert(join_lines(front) + join_lines(back) =~= join_lines(front));
    } else {
        lemma_join_lines_concat(front, back.drop_last());
        assert((front + back).drop_last() =~= front + back.drop_last());
        assert((front + back).last() == back.last());
        assert(join_lines(front + back) =~= join_lines(front) + join_lines(back));
    }
}

/// The text made of `parts` in order, with `sep` between neighbours and
/// nowhere else.
pub open spec fn join_with(parts: Seq<Seq<char>>, sep: Seq<char>) -> Seq<char>
    decreases parts.len(),
{
    if parts.len() == 0 {
        Seq::empty()
    } else if parts.len() == 1 {
        parts[0]
    } else {
        join_with(parts.drop_last(), sep) + sep + parts.last()
    }
}

/// One more part at the end adds the separator and the part, or the part
/// alone where it is the first.
pub proof fn lemma_join_with_push(parts: Seq<Seq<char>>, sep: Seq<char>, part: Seq<char>)
    ensures
        join_with(parts.push(part), sep) == if parts.len() == 0 {
            part
        } else {
            join_with(parts, sep) + sep + part
        },
{
    assert(parts.push(part).drop_last() =~= parts);
}

/// Appends `line` and a line feed to `out`.
pub fn put_line(out: &mut String, line: &str)
    ensures
        final(out)@ == old(out)@ + line@ + seq!['\n'],
{
    proof {
        reveal_strlit("\n");
    }
    out.append(line);
    out.append("\n");
    assert(out@ =~= old(out)@ + line@ + seq!['\n']);
}

} // verus!
