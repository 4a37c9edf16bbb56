//! Line-structured text: splitting into lines, joining lines back with
//! terminating newlines, and keeping a selection of lines. The configuration
//! files this client maintains (known-hosts, SSH daemon configuration) are
//! edited line by line, and the editing laws are proved over these functions.

use crate::text::str_eq;
use vstd::prelude::*;
use vstd::string::*;

verus! {

/// The lines of `s` after a partial line `cur` already read: a line ends at
/// each newline, and a non-empty final fragment without a terminating newline
/// is a line of its own.
pub open spec fn lines_acc(s: Seq<char>, cur: Seq<char>) -> Seq<Seq<char>>
    decreases s.len(),
{
    if s.len() == 0 {
        if cur.len() == 0 {
            seq![]
        } else {
            seq![cur]
        }
    } else if s.first() == '\n' {
        seq![cur] + lines_acc(s.drop_first(), seq![])
    } else {
        lines_acc(s.drop_first(), cur.push(s.first()))
    }
}

/// The lines of a text.
pub open spec fn lines_of(s: Seq<char>) -> Seq<Seq<char>> {
    lines_acc(s, seq![])
}

/// Join lines, terminating every line with a newline.
pub open spec fn unlines(ls: Seq<Seq<char>>) -> Seq<char>
    decreases ls.len(),
{
    if ls.len() == 0 {
        seq![]
    } else {
        ls.first() + seq!['\n'] + unlines(ls.drop_first())
    }
}

/// The lines satisfying `pred`, in order.
pub open spec fn keep_lines(ls: Seq<Seq<char>>, pred: spec_fn(Seq<char>) -> bool) -> Seq<
    Seq<char>,
>
    decreases ls.len(),
{
    if ls.len() == 0 {
        seq![]
    } else if pred(ls.first()) {
        seq![ls.first()] + keep_lines(ls.drop_first(), pred)
    } else {
        keep_lines(ls.drop_first(), pred)
    }
}

/// A sequence that does not contain a newline keeps that property when its
/// first element is removed, and its first element is not a newline.
pub proof fn lemma_no_newline_drop_first(a: Seq<char>)
    requires
        a.len() > 0,
        !a.contains('\n'),
    ensures
        a.first() != '\n',
        !a.drop_first().contains('\n'),
{
    if a.first() == '\n' {
        assert(a.contains('\n'));
    }
    if a.drop_first().contains('\n') {
        let i = choose|i: int| 0 <= i < a.drop_first().len() && a.drop_first()[i] == '\n';
        assert(a[i + 1] == '\n');
        assert(a.contains('\n'));
    }
}

/// Pushing a non-newline character onto a newline-free sequence keeps it
/// newline-free.
pub proof fn lemma_no_newline_push(a: Seq<char>, c: char)
    requires
        !a.contains('\n'),
        c != '\n',
    ensures
        !a.push(c).contains('\n'),
{
    if a.push(c).contains('\n') {
        let i = choose|i: int| 0 <= i < a.push(c).len() && a.push(c)[i] == '\n';
        if i < a.len() {
            assert(a[i] == '\n');
            assert(a.contains('\n'));
        }
    }
}

/// Reading a newline-free prefix only grows the partial line.
pub proof fn lemma_lines_acc_prepend(a: Seq<char>, b: Seq<char>, cur: Seq<char>)
    requires
        !a.contains('\n'),
    ensures
        lines_acc(a + b, cur) == lines_acc(b, cur + a),
    decreases a.len(),
{
    if a.len() == 0 {
        assert(a + b =~= b);
        assert(cur + a =~= cur);
    } else {
        lemma_no_newline_drop_first(a);
        assert((a + b).first() == a.first());
        assert((a + b).drop_first() =~= a.drop_first() + b);
        assert(cur.push(a.first()) + a.drop_first() =~= cur + a);
        lemma_lines_acc_prepend(a.drop_first(), b, cur.push(a.first()));
    }
}

/// Lines split at a newline boundary: text ending in a newline contributes
/// its own lines, whatever follows contributes the rest.
pub proof fn lemma_lines_acc_append(s: Seq<char>, t: Seq<char>, cur: Seq<char>)
    requires
        s.len() > 0,
        s.last() == '\n',
    ensures
        lines_acc(s + t, cur) == lines_acc(s, cur) + lines_of(t),
    decreases s.len(),
{
    if s.len() == 1 {
        assert(s.first() == '\n');
        assert((s + t).first() == '\n');
        assert((s + t).drop_first() =~= t);
        assert(s.drop_first() =~= Seq::<char>::empty());
        assert(lines_acc(s, cur) =~= seq![cur]);
        assert(lines_acc(s + t, cur) =~= seq![cur] + lines_of(t));
    } else if s.first() == '\n' {
        assert((s + t).first() == '\n');
        assert((s + t).drop_first() =~= s.drop_first() + t);
        assert(s.drop_first().last() == '\n');
        lemma_lines_acc_append(s.drop_first(), t, seq![]);
        assert(lines_acc(s + t, cur) =~= seq![cur] + lines_acc(s.drop_first() + t, seq![]));
        assert(lines_acc(s, cur) + lines_of(t) =~= seq![cur] + (lines_acc(s.drop_first(), seq![])
            + lines_of(t)));
    } else {
        assert((s + t).first() == s.first());
        assert((s + t).drop_first() =~= s.drop_first() + t);
        assert(s.drop_first().last() == '\n');
        lemma_lines_acc_append(s.drop_first(), t, cur.push(s.first()));
    }
}

/// A newline-free line followed by a newline is exactly one line.
pub proof fn lemma_lines_of_single(line: Seq<char>)
    requires
        !line.contains('\n'),
    ensures
        lines_of(line + seq!['\n']) == seq![line],
{
    lemma_lines_acc_prepend(line, seq!['\n'], seq![]);
    assert(seq![] + line =~= line);
    let nl = seq!['\n'];
    assert(nl.drop_first() =~= Seq::<char>::empty());
    assert(lines_acc(nl, line) =~= seq![line] + lines_acc(Seq::<char>::empty(), seq![]));
    assert(lines_acc(nl, line) =~= seq![line]);
}

/// No line produced by splitting contains a newline, as long as the partial
/// line read so far contains none.
pub proof fn lemma_lines_acc_no_newline(s: Seq<char>, cur: Seq<char>)
    requires
        !cur.contains('\n'),
    ensures
        forall|i: int|
            0 <= i < lines_acc(s, cur).len() ==> !(#[trigger] lines_acc(s, cur)[i]).contains('\n'),
    decreases s.len(),
{
    let res = lines_acc(s, cur);
    if s.len() == 0 {
        assert forall|i: int| 0 <= i < res.len() implies !(#[trigger] res[i]).contains('\n') by {
            assert(res[i] == cur);
        }
    } else if s.first() == '\n' {
        lemma_lines_acc_no_newline(s.drop_first(), seq![]);
        let rest = lines_acc(s.drop_first(), seq![]);
        assert(res =~= seq![cur] + rest);
        assert forall|i: int| 0 <= i < res.len() implies !(#[trigger] res[i]).contains('\n') by {
            if i == 0 {
                assert(res[0] == cur);
            } else {
                assert(res[i] == rest[i - 1]);
            }
        }
    } else {
        lemma_no_newline_push(cur, s.first());
        lemma_lines_acc_no_newline(s.drop_first(), cur.push(s.first()));
        let rest = lines_acc(s.drop_first(), cur.push(s.first()));
        assert(res =~= rest);
        assert forall|i: int| 0 <= i < res.len() implies !(#[trigger] res[i]).contains('\n') by {
            assert(res[i] == rest[i]);
        }
    }
}

/// Joining newline-free lines and splitting again gives the lines back.
pub proof fn lemma_lines_of_unlines(ls: Seq<Seq<char>>)
    requires
        forall|i: int| 0 <= i < ls.len() ==> !(#[trigger] ls[i]).contains('\n'),
    ensures
        lines_of(unlines(ls)) == ls,
    decreases ls.len(),
{
    if ls.len() == 0 {
        assert(lines_of(unlines(ls)) =~= ls);
    } else {
        let head = ls.first();
        let rest = ls.drop_first();
        assert(!head.contains('\n'));
        assert(forall|i: int| 0 <= i < rest.len() ==> !(#[trigger] rest[i]).contains('\n'))
            by {
            assert(forall|i: int| 0 <= i < rest.len() ==> rest[i] == ls[i + 1]);
        }
        let headline = head + seq!['\n'];
        assert(unlines(ls) =~= headline + unlines(rest));
        assert(headline.last() == '\n');
        lemma_lines_acc_append(headline, unlines(rest), seq![]);
        lemma_lines_of_single(head);
        lemma_lines_of_unlines(rest);
        assert(lines_of(unlines(ls)) =~= seq![head] + rest);
        assert(seq![head] + rest =~= ls);
    }
}

/// Joining distributes over concatenation of line sequences.
pub proof fn lemma_unlines_append(a: Seq<Seq<char>>, b: Seq<Seq<char>>)
    ensures
        unlines(a + b) == unlines(a) + unlines(b),
    decreases a.len(),
{
    if a.len() == 0 {
        assert(a + b =~= b);
        assert(unlines(a) =~= Seq::<char>::empty());
        assert(unlines(a) + unlines(b) =~= unlines(b));
    } else {
        assert((a + b).first() == a.first());
        assert((a + b).drop_first() =~= a.drop_first() + b);
        lemma_unlines_append(a.drop_first(), b);
        assert(unlines(a + b) =~= a.first() + seq!['\n'] + (unlines(a.drop_first()) + unlines(b)));
        assert(unlines(a) + unlines(b) =~= a.first() + seq!['\n'] + unlines(a.drop_first())
            + unlines(b));
    }
}

/// Every kept line satisfies the predicate and came from the input.
pub proof fn lemma_keep_lines_sound(ls: Seq<Seq<char>>, pred: spec_fn(Seq<char>) -> bool)
    ensures
        forall|i: int|
            0 <= i < keep_lines(ls, pred).len() ==> pred(#[trigger] keep_lines(ls, pred)[i])
                && ls.contains(keep_lines(ls, pred)[i]),
    decreases ls.len(),
{
    if ls.len() == 0 {
    } else {
        lemma_keep_lines_sound(ls.drop_first(), pred);
        assert forall|l: Seq<char>| ls.drop_first().contains(l) implies ls.contains(l) by {
            let i = choose|i: int|
                0 <= i < ls.drop_first().len() && ls.drop_first()[i] == l;
            assert(ls[i + 1] == l);
        }
        assert(ls[0] == ls.first());
        assert(ls.contains(ls.first()));
        let res = keep_lines(ls, pred);
        let rest = keep_lines(ls.drop_first(), pred);
        if pred(ls.first()) {
            assert(res =~= seq![ls.first()] + rest);
            assert forall|i: int|
                0 <= i < res.len() implies pred(#[trigger] res[i]) && ls.contains(res[i]) by {
                if i == 0 {
                    assert(res[0] == ls.first());
                } else {
                    assert(res[i] == rest[i - 1]);
                }
            }
        } else {
            assert(res =~= rest);
            assert forall|i: int|
                0 <= i < res.len() implies pred(#[trigger] res[i]) && ls.contains(res[i]) by {
                assert(res[i] == rest[i]);
            }
        }
    }
}

/// Keeping lines that all satisfy the predicate changes nothing.
pub proof fn lemma_keep_lines_all(ls: Seq<Seq<char>>, pred: spec_fn(Seq<char>) -> bool)
    requires
        forall|i: int| 0 <= i < ls.len() ==> pred(#[trigger] ls[i]),
    ensures
        keep_lines(ls, pred) == ls,
    decreases ls.len(),
{
    if ls.len() == 0 {
        assert(keep_lines(ls, pred) =~= ls);
    } else {
        assert(pred(ls.first()));
        assert(forall|i: int|
            0 <= i < ls.drop_first().len() ==> pred(#[trigger] ls.drop_first()[i])) by {
            assert(forall|i: int|
                0 <= i < ls.drop_first().len() ==> #[trigger] ls.drop_first()[i] == ls[i + 1]);
        }
        lemma_keep_lines_all(ls.drop_first(), pred);
        assert(keep_lines(ls, pred) =~= seq![ls.first()] + ls.drop_first());
        assert(seq![ls.first()] + ls.drop_first() =~= ls);
    }
}

/// Keeping lines distributes over concatenation.
pub proof fn lemma_keep_lines_append(
    a: Seq<Seq<char>>,
    b: Seq<Seq<char>>,
    pred: spec_fn(Seq<char>) -> bool,
)
    ensures
        keep_lines(a + b, pred) == keep_lines(a, pred) + keep_lines(b, pred),
    decreases a.len(),
{
    if a.len() == 0 {
        assert(a + b =~= b);
        assert(keep_lines(a, pred) =~= Seq::<Seq<char>>::empty());
        assert(keep_lines(a, pred) + keep_lines(b, pred) =~= keep_lines(b, pred));
    } else {
        assert((a + b).first() == a.first());
        assert((a + b).drop_first() =~= a.drop_first() + b);
        lemma_keep_lines_append(a.drop_first(), b, pred);
        if pred(a.first()) {
            assert(keep_lines(a + b, pred) =~= seq![a.first()] + (keep_lines(a.drop_first(), pred)
                + keep_lines(b, pred)));
            assert(keep_lines(a, pred) + keep_lines(b, pred) =~= seq![a.first()] + keep_lines(
                a.drop_first(),
                pred,
            ) + keep_lines(b, pred));
        }
    }
}

/// A text guaranteed to contain `line` as one of its lines: unchanged if the
/// line is already there, otherwise the line is appended on a line of its own
/// (completing an unterminated final line first).
pub open spec fn spec_with_line(content: Seq<char>, line: Seq<char>) -> Seq<char> {
    if lines_of(content).contains(line) {
        content
    } else if content.len() == 0 || content.last() == '\n' {
        content + line + seq!['\n']
    } else {
        content + seq!['\n'] + line + seq!['\n']
    }
}

/// Whether one of the lines of `content` is exactly `line`.
pub fn content_has_line(content: &str, line: &str) -> (r: bool)
    ensures
        r == lines_of(content@).contains(line@),
{
    let len = content.unicode_len();
    let ghost mut done: Seq<Seq<char>> = Seq::empty();
    let mut start: usize = 0;
    let mut i: usize = 0;
    proof {
        assert(content@.skip(0) =~= content@);
        assert(content@.subrange(0, 0) =~= Seq::<char>::empty());
    }
    while i < len
        invariant
            len == content@.len(),
            0 <= start as int <= i as int <= len as int,
            forall|k: int| start <= k < i ==> content@[k] != '\n',
            lines_of(content@) == done + lines_acc(
                content@.skip(i as int),
                content@.subrange(start as int, i as int),
            ),
            !done.contains(line@),
        decreases len - i,
    {
        let c = content.get_char(i);
        let ghost rem = content@.skip(i as int);
        let ghost cur = content@.subrange(start as int, i as int);
        proof {
            assert(rem.len() > 0);
            assert(rem.first() == content@[i as int]);
            assert(rem.drop_first() =~= content@.skip(i as int + 1));
        }
        if c == '\n' {
            let current_line = content.substring_char(start, i);
            proof {
                assert(lines_acc(rem, cur) == seq![cur] + lines_acc(
                    content@.skip(i as int + 1),
                    seq![],
                ));
                assert(done + (seq![cur] + lines_acc(content@.skip(i as int + 1), seq![]))
                    =~= done.push(cur) + lines_acc(content@.skip(i as int + 1), seq![]));
            }
            if str_eq(current_line, line) {
                proof {
                    assert(lines_of(content@)[done.len() as int] == cur);
                    assert(lines_of(content@).contains(line@));
                }
                return true;
            }
            proof {
                assert forall|j: int|
                    0 <= j < done.push(cur).len() implies done.push(cur)[j] != line@ by {
                    if j < done.len() {
                        assert(!done.contains(line@));
                        assert(done[j] == done.push(cur)[j]);
                        if done.push(cur)[j] == line@ {
                            assert(done.contains(line@));
                        }
                    }
                }
                if done.push(cur).contains(line@) {
                    let j = choose|j: int|
                        0 <= j < done.push(cur).len() && done.push(cur)[j] == line@;
                }
                done = done.push(cur);
                assert(content@.subrange(i as int + 1, i as int + 1) =~= Seq::<char>::empty());
            }
            i = i + 1;
            start = i;
        } else {
            proof {
                assert(cur.push(c) =~= content@.subrange(start as int, i as int + 1));
                assert(lines_acc(rem, cur) == lines_acc(
                    content@.skip(i as int + 1),
                    content@.subrange(start as int, i as int + 1),
                ));
            }
            i = i + 1;
        }
    }
    let ghost cur = content@.subrange(start as int, len as int);
    proof {
        assert(content@.skip(len as int) =~= Seq::<char>::empty());
    }
    if start < len {
        let current_line = content.substring_char(start, len);
        proof {
            assert(cur.len() > 0);
            assert(lines_acc(Seq::<char>::empty(), cur) =~= seq![cur]);
            assert(done + seq![cur] =~= done.push(cur));
        }
        if str_eq(current_line, line) {
            proof {
                assert(lines_of(content@)[done.len() as int] == cur);
                assert(lines_of(content@).contains(line@));
            }
            return true;
        }
        proof {
            assert(lines_of(content@) =~= done.push(cur));
            if lines_of(content@).contains(line@) {
                let j = choose|j: int|
                    0 <= j < lines_of(content@).len() && lines_of(content@)[j] == line@;
                if j < done.len() {
                    assert(done[j] == line@);
                    assert(done.contains(line@));
                }
            }
        }
        false
    } else {
        proof {
            assert(cur.len() == 0);
            assert(lines_acc(Seq::<char>::empty(), cur) =~= Seq::<Seq<char>>::empty());
            assert(lines_of(content@) =~= done);
            if lines_of(content@).contains(line@) {
                let j = choose|j: int|
                    0 <= j < lines_of(content@).len() && lines_of(content@)[j] == line@;
                assert(done[j] == line@);
                assert(done.contains(line@));
            }
        }
        false
    }
}

/// Return `content` with `line` guaranteed present as a line of its own, and
/// whether anything was appended. The line is appended at most once, checked
/// by exact line match first.
pub fn ensure_config_line(content: &str, line: &str) -> (r: (String, bool))
    ensures
        r.0@ == spec_with_line(content@, line@),
        r.1 == !lines_of(content@).contains(line@),
{
    if content_has_line(content, line) {
        (content.to_owned(), false)
    } else {
        let len = content.unicode_len();
        let mut out = content.to_owned();
        if len > 0 && content.get_char(len - 1) != '\n' {
            proof {
                reveal_strlit("\n");
            }
            out.append("\n");
        }
        out.append(line);
        proof {
            reveal_strlit("\n");
        }
        out.append("\n");
        proof {
            assert("\n"@ =~= seq!['\n']);
            assert(out@ =~= spec_with_line(content@, line@));
        }
        (out, true)
    }
}

/// Guaranteeing a line twice yields exactly the content of guaranteeing it
/// once: the second pass finds the line and changes nothing.
pub proof fn lemma_with_line_idempotent(content: Seq<char>, line: Seq<char>)
    requires
        !line.contains('\n'),
    ensures
        spec_with_line(spec_with_line(content, line), line) == spec_with_line(content, line),
{
    if !lines_of(content).contains(line) {
        let terminated = line + seq!['\n'];
        lemma_lines_of_single(line);
        if content.len() == 0 {
            assert(content + line + seq!['\n'] =~= terminated);
            let c1 = spec_with_line(content, line);
            assert(lines_of(c1) == seq![line]);
            assert(lines_of(c1)[0] == line);
            assert(lines_of(c1).contains(line));
        } else if content.last() == '\n' {
            lemma_lines_acc_append(content, terminated, seq![]);
            let c1 = spec_with_line(content, line);
            assert(c1 =~= content + terminated);
            assert(lines_of(c1) == lines_of(content) + seq![line]);
            assert(lines_of(c1)[lines_of(content).len() as int] == line);
            assert(lines_of(c1).contains(line));
        } else {
            let pre = content + seq!['\n'];
            assert(pre.last() == '\n');
            lemma_lines_acc_append(pre, terminated, seq![]);
            let c1 = spec_with_line(content, line);
            assert(c1 =~= pre + terminated);
            assert(lines_of(c1) == lines_of(pre) + seq![line]);
            assert(lines_of(c1)[lines_of(pre).len() as int] == line);
            assert(lines_of(c1).contains(line));
        }
    }
}

/// Keeping lines acts on a newly appended line according to the predicate.
pub proof fn lemma_keep_lines_push(
    ls: Seq<Seq<char>>,
    l: Seq<char>,
    pred: spec_fn(Seq<char>) -> bool,
)
    ensures
        pred(l) ==> keep_lines(ls.push(l), pred) == keep_lines(ls, pred).push(l),
        !pred(l) ==> keep_lines(ls.push(l), pred) == keep_lines(ls, pred),
{
    assert(ls.push(l) =~= ls + seq![l]);
    lemma_keep_lines_append(ls, seq![l], pred);
    let single = seq![l];
    assert(single.drop_first() =~= Seq::<Seq<char>>::empty());
    assert(keep_lines(Seq::<Seq<char>>::empty(), pred) =~= Seq::<Seq<char>>::empty());
    if pred(l) {
        assert(keep_lines(single, pred) =~= seq![l]);
        assert(keep_lines(ls, pred) + seq![l] =~= keep_lines(ls, pred).push(l));
    } else {
        assert(keep_lines(single, pred) =~= Seq::<Seq<char>>::empty());
        assert(keep_lines(ls, pred) + keep_lines(single, pred) =~= keep_lines(ls, pred));
    }
}

} // verus!
