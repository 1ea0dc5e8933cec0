//! Whitespace-tolerant comparison of program output.
//!
//! Two outputs are taken to be the same answer when they hold the same lines
//! once blanks at the end of each line and empty lines at the end of the text
//! are set aside. Every other difference counts.

use vstd::prelude::*;

verus! {

/// The byte that ends a line.
pub const LINE_FEED: u8 = 10;

/// Bytes that are ignored at the end of a line: space, tab, vertical tab,
/// form feed and carriage return.
pub open spec fn is_blank(b: u8) -> bool {
    b == 32 || b == 9 || b == 11 || b == 12 || b == 13
}

/// The lines of a text: the pieces that its line feeds separate. A text with
/// `n` line feeds has `n + 1` lines; the last one is what follows the final
/// line feed and may be empty.
pub open spec fn lines(text: Seq<u8>) -> Seq<Seq<u8>>
    decreases text.len(),
{
    if text.len() == 0 {
        seq![Seq::<u8>::empty()]
    } else {
        let before = lines(text.drop_last());
        if text.last() == LINE_FEED {
            before.push(Seq::<u8>::empty())
        } else {
            before.drop_last().push(before.last().push(text.last()))
        }
    }
}

/// A line without the blanks at its end.
pub open spec fn strip(line: Seq<u8>) -> Seq<u8>
    decreases line.len(),
{
    if line.len() > 0 && is_blank(line.last()) {
        strip(line.drop_last())
    } else {
        line
    }
}

/// A list of lines without the empty lines at its end.
pub open spec fn drop_empty_tail(rows: Seq<Seq<u8>>) -> Seq<Seq<u8>>
    decreases rows.len(),
{
    if rows.len() > 0 && rows.last().len() == 0 {
        drop_empty_tail(rows.drop_last())
    } else {
        rows
    }
}

/// Every line stripped of the blanks at its end.
pub open spec fn strip_all(rows: Seq<Seq<u8>>) -> Seq<Seq<u8>> {
    Seq::new(rows.len(), |i: int| strip(rows[i]))
}

/// What is left of a text for comparison: its lines, each stripped of the
/// blanks at its end, without the lines at the end of the text that are
/// empty after stripping.
pub open spec fn canonical(text: Seq<u8>) -> Seq<Seq<u8>> {
    drop_empty_tail(strip_all(lines(text)))
}

/// Whether two outputs are the same answer.
pub open spec fn same_output(expected: Seq<u8>, actual: Seq<u8>) -> bool {
    canonical(expected) == canonical(actual)
}

/// The contents of a list of byte vectors.
pub open spec fn rows_of(v: Seq<Vec<u8>>) -> Seq<Seq<u8>> {
    Seq::new(v.len(), |i: int| v[i]@)
}

/// Tells whether a byte is ignored at the end of a line.
pub fn blank(b: u8) -> (r: bool)
    ensures
        r == is_blank(b),
{
    b == 32 || b == 9 || b == 11 || b == 12 || b == 13
}

/// Removes the blanks at the end of `line`.
pub fn strip_line(line: &mut Vec<u8>)
    ensures
        final(line)@ == strip(old(line)@),
{
    while line.len() > 0 && blank(line[line.len() - 1])
        invariant
            strip(line@) == strip(old(line)@),
        decreases line.len(),
    {
        let ghost before = line@;
        line.pop();
        assert(line@ == before.drop_last());
    }
}

/// Removes the empty lines at the end of `rows`.
pub fn pop_empty_tail(rows: &mut Vec<Vec<u8>>)
    ensures
        rows_of(final(rows)@) == drop_empty_tail(rows_of(old(rows)@)),
{
    while rows.len() > 0 && rows[rows.len() - 1].len() == 0
        invariant
            drop_empty_tail(rows_of(rows@)) == drop_empty_tail(rows_of(old(rows)@)),
        decreases rows.len(),
    {
        let ghost before = rows@;
        rows.pop();
        assert(rows_of(rows@) =~= rows_of(before).drop_last());
    }
}

/// Splits a text into its lines and strips each of them.
pub fn stripped_lines(text: &[u8]) -> (out: Vec<Vec<u8>>)
    ensures
        rows_of(out@) == strip_all(lines(text@)),
{
    let mut out: Vec<Vec<u8>> = Vec::new();
    let mut line: Vec<u8> = Vec::new();
    let mut i: usize = 0;
    while i < text.len()
        invariant
            i <= text.len(),
            rows_of(out@) == strip_all(lines(text@.take(i as int)).drop_last()),
            line@ == lines(text@.take(i as int)).last(),
            lines(text@.take(i as int)).len() > 0,
        decreases text.len() - i,
    {
        let b = text[i];
        proof {
            let seen = text@.take(i as int);
            let next = text@.take(i + 1);
            assert(next.drop_last() =~= seen);
            assert(next.last() == b);
        }
        if b == LINE_FEED {
            let ghost full = line@;
            let ghost done = out@;
            strip_line(&mut line);
            out.push(line);
            line = Vec::new();
            proof {
                let seen = lines(text@.take(i as int));
                let next = lines(text@.take(i + 1));
                assert(next == seen.push(Seq::<u8>::empty()));
                assert(next.drop_last() =~= seen);
                assert(seen =~= seen.drop_last().push(full));
                assert(rows_of(out@) =~= rows_of(done).push(strip(full)));
                assert(strip_all(seen) =~= strip_all(seen.drop_last()).push(strip(full)));
            }
        } else {
            line.push(b);
            proof {
                let seen = lines(text@.take(i as int));
                let next = lines(text@.take(i + 1));
                assert(next == seen.drop_last().push(seen.last().push(b)));
                assert(next.drop_last() =~= seen.drop_last());
            }
        }
        i += 1;
    }
    proof {
        assert(text@.take(i as int) =~= text@);
    }
    let ghost full = line@;
    let ghost done = out@;
    strip_line(&mut line);
    out.push(line);
    proof {
        let all = lines(text@);
        assert(all =~= all.drop_last().push(full));
        assert(rows_of(out@) =~= rows_of(done).push(strip(full)));
        assert(strip_all(all) =~= strip_all(all.drop_last()).push(strip(full)));
    }
    out
}

/// The canonical lines of a text.
pub fn canonical_lines(text: &[u8]) -> (out: Vec<Vec<u8>>)
    ensures
        rows_of(out@) == canonical(text@),
{
    let mut out = stripped_lines(text);
    pop_empty_tail(&mut out);
    out
}

/// Tells whether two byte vectors hold the same bytes.
pub fn same_bytes(a: &Vec<u8>, b: &Vec<u8>) -> (r: bool)
    ensures
        r == (a@ == b@),
{
    if a.len() != b.len() {
        return false;
    }
    let mut i: usize = 0;
    while i < a.len()
        invariant
            i <= a.len(),
            a.len() == b.len(),
            forall|k: int| 0 <= k < i ==> a@[k] == b@[k],
        decreases a.len() - i,
    {
        if a[i] != b[i] {
            return false;
        }
        i += 1;
    }
    assert(a@ =~= b@);
    true
}

/// Tells whether two lists of lines hold the same lines.
pub fn same_rows(a: &Vec<Vec<u8>>, b: &Vec<Vec<u8>>) -> (r: bool)
    ensures
        r == (rows_of(a@) == rows_of(b@)),
{
    if a.len() != b.len() {
        assert(rows_of(a@).len() != rows_of(b@).len());
        return false;
    }
    let mut i: usize = 0;
    while i < a.len()
        invariant
            i <= a.len(),
            a.len() == b.len(),
            forall|k: int| 0 <= k < i ==> a@[k]@ == b@[k]@,
        decreases a.len() - i,
    {
        if !same_bytes(&a[i], &b[i]) {
            assert(rows_of(a@)[i as int] != rows_of(b@)[i as int]);
            return false;
        }
        i += 1;
    }
    assert(rows_of(a@) =~= rows_of(b@));
    true
}

/// Decides whether `actual` is the answer `expected`, ignoring blanks at the
/// end of lines and empty lines at the end of the text.
pub fn compare(expected: &[u8], actual: &[u8]) -> (same: bool)
    ensures
        same == same_output(expected@, actual@),
{
    let e = canonical_lines(expected);
    let a = canonical_lines(actual);
    same_rows(&e, &a)
}

/// Whether every byte of `s` is a blank.
pub open spec fn all_blank(s: Seq<u8>) -> bool {
    forall|i: int| 0 <= i < s.len() ==> is_blank(#[trigger] s[i])
}

/// Whether every byte of `s` is a blank or a line feed.
pub open spec fn all_blank_or_line_feed(s: Seq<u8>) -> bool {
    forall|i: int| 0 <= i < s.len() ==> is_blank(#[trigger] s[i]) || s[i] == LINE_FEED
}

/// Every text is the same answer as itself.
pub proof fn lemma_same_output_reflexive(x: Seq<u8>)
    ensures
        same_output(x, x),
{
}

/// Being the same answer does not depend on which text is called expected.
pub proof fn lemma_same_output_symmetric(a: Seq<u8>, b: Seq<u8>)
    ensures
        same_output(a, b) == same_output(b, a),
{
}

/// Two texts that are the same answer as a third are the same answer.
pub proof fn lemma_same_output_transitive(a: Seq<u8>, b: Seq<u8>, c: Seq<u8>)
    requires
        same_output(a, b),
        same_output(b, c),
    ensures
        same_output(a, c),
{
}

/// A text has at least one line.
pub proof fn lemma_lines_nonempty(text: Seq<u8>)
    ensures
        lines(text).len() >= 1,
    decreases text.len(),
{
    if text.len() > 0 {
        lemma_lines_nonempty(text.drop_last());
    }
}

/// A text without a line feed is a single line.
pub proof fn lemma_one_line(text: Seq<u8>)
    requires
        forall|i: int| 0 <= i < text.len() ==> text[i] != LINE_FEED,
    ensures
        lines(text) == seq![text],
    decreases text.len(),
{
    if text.len() == 0 {
        assert(text =~= Seq::<u8>::empty());
    } else {
        let front = text.drop_last();
        lemma_one_line(front);
        assert(front.push(text.last()) =~= text);
        assert(seq![front].drop_last().push(text) =~= seq![text]);
    }
}

/// Blanks added at the end of a line are stripped with the rest.
pub proof fn lemma_strip_blank_suffix(line: Seq<u8>, blanks: Seq<u8>)
    requires
        all_blank(blanks),
    ensures
        strip(line + blanks) == strip(line),
    decreases blanks.len(),
{
    if blanks.len() == 0 {
        assert(line + blanks =~= line);
    } else {
        assert((line + blanks).drop_last() =~= line + blanks.drop_last());
        assert(is_blank(blanks[blanks.len() - 1]));
        lemma_strip_blank_suffix(line, blanks.drop_last());
    }
}

/// The lines of two texts put end to end: the last line of the first text
/// and the first line of the second become one line, the others stay.
pub proof fn lemma_lines_concat(a: Seq<u8>, b: Seq<u8>)
    ensures
        lines(a + b) == lines(a).drop_last().push(lines(a).last() + lines(b).first()) + lines(
            b,
        ).drop_first(),
    decreases b.len(),
{
    let la = lines(a);
    lemma_lines_nonempty(a);
    if b.len() == 0 {
        assert(a + b =~= a);
        assert(la.last() + Seq::<u8>::empty() =~= la.last());
        assert(la.drop_last().push(la.last()) + seq![Seq::<u8>::empty()].drop_first() =~= la);
    } else {
        let front = b.drop_last();
        let c = b.last();
        let lf = lines(front);
        let joined = lines(a + front);
        lemma_lines_concat(a, front);
        lemma_lines_nonempty(front);
        assert((a + b).drop_last() =~= a + front);
        assert((a + b).last() == c);
        if c == LINE_FEED {
            assert(lines(b) == lf.push(Seq::<u8>::empty()));
            assert(lines(b).drop_first() =~= lf.drop_first().push(Seq::<u8>::empty()));
            assert(lines(a + b) =~= la.drop_last().push(la.last() + lines(b).first()) + lines(
                b,
            ).drop_first());
        } else {
            assert(lines(b) == lf.drop_last().push(lf.last().push(c)));
            if lf.len() == 1 {
                assert(lines(b).first() == lf.first().push(c));
                assert(joined.last() == la.last() + lf.first());
                assert((la.last() + lf.first()).push(c) =~= la.last() + lf.first().push(c));
                assert(lines(a + b) =~= la.drop_last().push(la.last() + lines(b).first())
                    + lines(b).drop_first());
            } else {
                assert(lines(b).first() == lf.first());
                assert(joined.last() == lf.last());
                assert(lines(a + b) =~= la.drop_last().push(la.last() + lines(b).first())
                    + lines(b).drop_first());
            }
        }
    }
}

/// Blanks at the end of a line do not count: a text with blanks put in
/// before a line feed, or at its very end, is the same answer as without.
pub proof fn lemma_blanks_at_line_end_ignored(head: Seq<u8>, blanks: Seq<u8>, tail: Seq<u8>)
    requires
        all_blank(blanks),
        tail.len() == 0 || tail[0] == LINE_FEED,
    ensures
        same_output(head + blanks + tail, head + tail),
{
    let lh = lines(head);
    let lt = lines(tail);
    let none = Seq::<u8>::empty();
    lemma_lines_nonempty(head);
    lemma_lines_nonempty(tail);
    assert(lt.first() == none) by {
        if tail.len() > 0 {
            let rest = tail.drop_first();
            let feed = seq![LINE_FEED];
            assert(tail =~= feed + rest);
            assert(feed.drop_last() =~= none);
            assert(lines(none) == seq![none]);
            assert(lines(feed) == seq![none].push(none));
            lemma_lines_concat(feed, rest);
        }
    }
    assert(lines(blanks) == seq![blanks]) by {
        lemma_one_line(blanks);
    }
    lemma_lines_concat(head, blanks);
    lemma_lines_concat(head + blanks, tail);
    lemma_lines_concat(head, tail);
    let with = lines(head + blanks + tail);
    let without = lines(head + tail);
    assert(lines(head + blanks) =~= lh.drop_last().push(lh.last() + blanks));
    assert(with =~= lh.drop_last().push(lh.last() + blanks) + lt.drop_first()) by {
        assert((lh.last() + blanks) + none =~= lh.last() + blanks);
    }
    assert(without =~= lh.drop_last().push(lh.last()) + lt.drop_first()) by {
        assert(lh.last() + none =~= lh.last());
    }
    lemma_strip_blank_suffix(lh.last(), blanks);
    assert(strip_all(with) =~= strip_all(without));
}

/// A blank or a line feed added at the end of a text does not count.
pub proof fn lemma_trailing_byte_ignored(text: Seq<u8>, b: u8)
    requires
        is_blank(b) || b == LINE_FEED,
    ensures
        canonical(text.push(b)) == canonical(text),
{
    let l = lines(text);
    let grown = text.push(b);
    lemma_lines_nonempty(text);
    assert(grown.drop_last() =~= text);
    if b == LINE_FEED {
        assert(lines(grown) == l.push(Seq::<u8>::empty()));
        assert(strip_all(lines(grown)) =~= strip_all(l).push(Seq::<u8>::empty()));
        assert(strip_all(lines(grown)).drop_last() =~= strip_all(l));
    } else {
        assert(lines(grown) == l.drop_last().push(l.last().push(b)));
        assert(l.last().push(b).drop_last() =~= l.last());
        assert(strip_all(lines(grown)) =~= strip_all(l));
    }
}

/// Empty lines and blanks at the end of a text do not count: a text
/// followed by any run of blanks and line feeds is the same answer.
pub proof fn lemma_blank_tail_ignored(text: Seq<u8>, tail: Seq<u8>)
    requires
        all_blank_or_line_feed(tail),
    ensures
        same_output(text, text + tail),
    decreases tail.len(),
{
    if tail.len() == 0 {
        assert(text + tail =~= text);
    } else {
        let front = tail.drop_last();
        lemma_blank_tail_ignored(text, front);
        assert(is_blank(tail[tail.len() - 1]) || tail[tail.len() - 1] == LINE_FEED);
        lemma_trailing_byte_ignored(text + front, tail.last());
        assert((text + front).push(tail.last()) =~= text + tail);
    }
}

/// Lines put back together, with a line feed between neighbours.
pub open spec fn join(rows: Seq<Seq<u8>>) -> Seq<u8>
    decreases rows.len(),
{
    if rows.len() == 0 {
        Seq::<u8>::empty()
    } else if rows.len() == 1 {
        rows[0]
    } else {
        join(rows.drop_last()).push(LINE_FEED) + rows.last()
    }
}

/// A text that holds nothing that comparison sets aside: no blank stands
/// directly before a line feed, and the text ends neither in a blank nor in
/// a line feed.
pub open spec fn is_tidy(text: Seq<u8>) -> bool {
    &&& forall|i: int|
        0 <= i < text.len() - 1 && is_blank(#[trigger] text[i]) ==> text[i + 1] != LINE_FEED
    &&& text.len() > 0 ==> !is_blank(text.last()) && text.last() != LINE_FEED
}

/// Splitting a text into lines loses nothing: joined again, the lines give
/// the text back.
pub proof fn lemma_join_lines(text: Seq<u8>)
    ensures
        join(lines(text)) == text,
    decreases text.len(),
{
    if text.len() == 0 {
        assert(join(seq![Seq::<u8>::empty()]) =~= text);
    } else {
        let front = text.drop_last();
        let c = text.last();
        let lf = lines(front);
        lemma_join_lines(front);
        lemma_lines_nonempty(front);
        assert(front.push(c) =~= text);
        if c == LINE_FEED {
            let grown = lf.push(Seq::<u8>::empty());
            assert(grown.drop_last() =~= lf);
            assert(join(grown) =~= join(lf).push(LINE_FEED));
        } else {
            let grown = lf.drop_last().push(lf.last().push(c));
            if lf.len() == 1 {
                assert(join(grown) == lf[0].push(c));
            } else {
                assert(grown.drop_last() =~= lf.drop_last());
                assert(join(grown) =~= join(lf).push(c));
            }
        }
    }
}

/// No line holds a line feed.
pub proof fn lemma_lines_hold_no_line_feed(text: Seq<u8>, row: int, column: int)
    requires
        0 <= row < lines(text).len(),
        0 <= column < lines(text)[row].len(),
    ensures
        lines(text)[row][column] != LINE_FEED,
    decreases text.len(),
{
    if text.len() > 0 {
        let front = text.drop_last();
        let lf = lines(front);
        lemma_lines_nonempty(front);
        if text.last() == LINE_FEED {
            lemma_lines_hold_no_line_feed(front, row, column);
        } else if row < lf.len() - 1 {
            lemma_lines_hold_no_line_feed(front, row, column);
        } else if column < lf.last().len() {
            lemma_lines_hold_no_line_feed(front, row, column);
        }
    }
}

proof fn lemma_inner_lines_stripped(text: Seq<u8>)
    requires
        forall|i: int|
            0 <= i < text.len() - 1 && is_blank(#[trigger] text[i]) ==> text[i + 1] != LINE_FEED,
    ensures
        forall|k: int|
            0 <= k < lines(text).len() - 1 ==> strip(#[trigger] lines(text)[k]) == lines(text)[k],
    decreases text.len(),
{
    if text.len() > 0 {
        let front = text.drop_last();
        let lf = lines(front);
        lemma_lines_nonempty(front);
        assert forall|i: int| 0 <= i < front.len() - 1 && is_blank(#[trigger] front[i]) implies front[i
            + 1] != LINE_FEED by {
            assert(front[i] == text[i]);
            assert(front[i + 1] == text[i + 1]);
        }
        lemma_inner_lines_stripped(front);
        if text.last() == LINE_FEED {
            if lf.last().len() > 0 {
                assert(front.len() > 0);
                assert(lf.last().last() == front.last());
                assert(front.last() == text[text.len() - 2]);
                assert(text[text.len() - 2 + 1] == LINE_FEED);
                assert(!is_blank(text[text.len() - 2]));
            }
            assert(strip(lf.last()) == lf.last());
        }
    }
}

proof fn lemma_tidy_canonical(text: Seq<u8>)
    requires
        is_tidy(text),
    ensures
        canonical(text) == if text.len() == 0 {
            Seq::<Seq<u8>>::empty()
        } else {
            lines(text)
        },
{
    let l = lines(text);
    if text.len() == 0 {
        let none = Seq::<Seq<u8>>::empty();
        assert(strip(Seq::<u8>::empty()) == Seq::<u8>::empty());
        assert(strip_all(l) =~= seq![Seq::<u8>::empty()]);
        assert(strip_all(l).drop_last() =~= none);
        assert(drop_empty_tail(none) == none);
        assert(drop_empty_tail(strip_all(l)) == drop_empty_tail(strip_all(l).drop_last()));
    } else {
        lemma_inner_lines_stripped(text);
        lemma_lines_nonempty(text.drop_last());
        assert(l.last().len() > 0 && l.last().last() == text.last());
        assert(strip(l.last()) == l.last());
        assert(strip_all(l) =~= l);
        assert(drop_empty_tail(l) == l);
    }
}

/// Every other difference counts: two tidy texts are the same answer only
/// when they are the same text.
pub proof fn lemma_tidy_texts_differ(a: Seq<u8>, b: Seq<u8>)
    requires
        is_tidy(a),
        is_tidy(b),
        same_output(a, b),
    ensures
        a == b,
{
    lemma_tidy_canonical(a);
    lemma_tidy_canonical(b);
    lemma_lines_nonempty(a);
    lemma_lines_nonempty(b);
    lemma_join_lines(a);
    lemma_join_lines(b);
    if a.len() == 0 || b.len() == 0 {
        assert(a.len() == 0 && b.len() == 0);
        assert(a =~= b);
    }
}

} // verus!
