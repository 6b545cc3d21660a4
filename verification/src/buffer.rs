//! The typed-text buffer: the most recent printable keystrokes, oldest
//! first, never more of them than the configured capacity.

use vstd::prelude::*;
use crate::keys::{BufferedKeystroke, KEY_SPACE};

verus! {

/// The last `n` entries of `s`, in their order; all of `s` when it holds no
/// more than `n`.
pub open spec fn keep_last(s: Seq<BufferedKeystroke>, n: nat) -> Seq<BufferedKeystroke> {
    if s.len() <= n {
        s
    } else {
        s.skip(s.len() - n)
    }
}

/// The buffer after one keystroke is appended under capacity `cap`: the new
/// entry goes to the end and the oldest entries leave once the capacity is
/// passed.
pub open spec fn appended(
    buf: Seq<BufferedKeystroke>,
    entry: BufferedKeystroke,
    cap: nat,
) -> Seq<BufferedKeystroke> {
    keep_last(buf.push(entry), cap)
}

/// The buffer after the keystrokes of `entries` are appended one by one.
pub open spec fn appended_all(
    buf: Seq<BufferedKeystroke>,
    entries: Seq<BufferedKeystroke>,
    cap: nat,
) -> Seq<BufferedKeystroke>
    decreases entries.len(),
{
    if entries.len() == 0 {
        buf
    } else {
        appended(appended_all(buf, entries.drop_last(), cap), entries.last(), cap)
    }
}

/// Index of the last entry that is not a space, if there is one.
pub open spec fn last_non_space(buf: Seq<BufferedKeystroke>) -> Option<int>
    decreases buf.len(),
{
    if buf.len() == 0 {
        None
    } else if buf.last().0 != KEY_SPACE {
        Some(buf.len() - 1)
    } else {
        last_non_space(buf.drop_last())
    }
}

/// Index of the last entry that is a space, if there is one.
pub open spec fn last_space(buf: Seq<BufferedKeystroke>) -> Option<int>
    decreases buf.len(),
{
    if buf.len() == 0 {
        None
    } else if buf.last().0 == KEY_SPACE {
        Some(buf.len() - 1)
    } else {
        last_space(buf.drop_last())
    }
}

/// Where the current word begins: one past the last space that stands before
/// the final run of entries that are not spaces, or 0 when no space stands
/// before that run or the buffer holds spaces only.
pub open spec fn word_start(buf: Seq<BufferedKeystroke>) -> int {
    match last_non_space(buf) {
        Some(end) => match last_space(buf.take(end)) {
            Some(space) => space + 1,
            None => 0,
        },
        None => 0,
    }
}

/// What `last_non_space` finds: an entry that is not a space with only
/// spaces behind it, or nothing when every entry is a space.
pub proof fn lemma_last_non_space(buf: Seq<BufferedKeystroke>)
    ensures
        match last_non_space(buf) {
            Some(end) => {
                &&& 0 <= end < buf.len()
                &&& buf[end].0 != KEY_SPACE
                &&& forall|i: int| end < i < buf.len() ==> (#[trigger] buf[i]).0 == KEY_SPACE
            },
            None => forall|i: int| 0 <= i < buf.len() ==> (#[trigger] buf[i]).0 == KEY_SPACE,
        },
    decreases buf.len(),
{
    if buf.len() > 0 && buf.last().0 == KEY_SPACE {
        let rest = buf.drop_last();
        lemma_last_non_space(rest);
        assert forall|i: int| 0 <= i < rest.len() implies rest[i] == buf[i] by {}
        match last_non_space(rest) {
            Some(end) => {
                assert forall|i: int| end < i < buf.len() implies (#[trigger] buf[i]).0
                    == KEY_SPACE by {
                    if i < rest.len() {
                        assert(rest[i] == buf[i]);
                    }
                }
            },
            None => {
                assert forall|i: int| 0 <= i < buf.len() implies (#[trigger] buf[i]).0
                    == KEY_SPACE by {
                    if i < rest.len() {
                        assert(rest[i] == buf[i]);
                    }
                }
            },
        }
    }
}

/// What `last_space` finds: a space with no space behind it, or nothing when
/// no entry is a space.
pub proof fn lemma_last_space(buf: Seq<BufferedKeystroke>)
    ensures
        match last_space(buf) {
            Some(space) => {
                &&& 0 <= space < buf.len()
                &&& buf[space].0 == KEY_SPACE
                &&& forall|i: int| space < i < buf.len() ==> (#[trigger] buf[i]).0 != KEY_SPACE
            },
            None => forall|i: int| 0 <= i < buf.len() ==> (#[trigger] buf[i]).0 != KEY_SPACE,
        },
    decreases buf.len(),
{
    if buf.len() > 0 && buf.last().0 != KEY_SPACE {
        let rest = buf.drop_last();
        lemma_last_space(rest);
        match last_space(rest) {
            Some(space) => {
                assert forall|i: int| space < i < buf.len() implies (#[trigger] buf[i]).0
                    != KEY_SPACE by {
                    if i < rest.len() {
                        assert(rest[i] == buf[i]);
                    }
                }
            },
            None => {
                assert forall|i: int| 0 <= i < buf.len() implies (#[trigger] buf[i]).0
                    != KEY_SPACE by {
                    if i < rest.len() {
                        assert(rest[i] == buf[i]);
                    }
                }
            },
        }
    }
}

/// The start of the current word lies inside the buffer, strictly so when
/// the buffer is not empty: the span from there to the end is never empty.
pub proof fn lemma_word_start_bounds(buf: Seq<BufferedKeystroke>)
    ensures
        0 <= word_start(buf) <= buf.len(),
        buf.len() > 0 ==> word_start(buf) < buf.len(),
{
    lemma_last_non_space(buf);
    if let Some(end) = last_non_space(buf) {
        lemma_last_space(buf.take(end));
    }
}

/// The start of the current word, said without reference to how it is
/// found. In a buffer of spaces only it is 0. Otherwise it is the first
/// index of the final run of entries that are not spaces: the entry there is
/// no space, what stands just before it, if anything does, is a space, and
/// from there to the end no entry that is not a space follows a space.
pub proof fn lemma_word_start_is_one_past_last_space(buf: Seq<BufferedKeystroke>)
    ensures
        (forall|i: int| 0 <= i < buf.len() ==> (#[trigger] buf[i]).0 == KEY_SPACE)
            ==> word_start(buf) == 0,
        (exists|i: int| 0 <= i < buf.len() && (#[trigger] buf[i]).0 != KEY_SPACE) ==> {
            &&& 0 <= word_start(buf) < buf.len()
            &&& buf[word_start(buf)].0 != KEY_SPACE
            &&& word_start(buf) > 0 ==> buf[word_start(buf) - 1].0 == KEY_SPACE
            &&& forall|i: int, j: int|
                word_start(buf) <= i <= j < buf.len() && (#[trigger] buf[i]).0 == KEY_SPACE
                    ==> (#[trigger] buf[j]).0 == KEY_SPACE
        },
{
    lemma_last_non_space(buf);
    match last_non_space(buf) {
        Some(end) => {
            let head = buf.take(end);
            lemma_last_space(head);
            let start = word_start(buf);
            assert forall|i: int| start <= i <= end implies (#[trigger] buf[i]).0 != KEY_SPACE by {
                if i < end {
                    assert(head[i] == buf[i]);
                }
            }
            if start > 0 {
                assert(head[start - 1] == buf[start - 1]);
            }
            assert forall|i: int, j: int|
                start <= i <= j < buf.len() && (#[trigger] buf[i]).0 == KEY_SPACE implies (
            #[trigger] buf[j]).0 == KEY_SPACE by {
                assert(i > end);
            }
        },
        None => {
            if exists|i: int| 0 <= i < buf.len() && (#[trigger] buf[i]).0 != KEY_SPACE {
                let i = choose|i: int| 0 <= i < buf.len() && (#[trigger] buf[i]).0 != KEY_SPACE;
                assert(buf[i].0 == KEY_SPACE);
            }
        },
    }
}

/// Appending keeps a buffer within its capacity, puts the new keystroke at
/// the end where the capacity has room for one, evicts at most the oldest
/// entry, and leaves a buffer of capacity 0 empty.
pub proof fn lemma_appended(buf: Seq<BufferedKeystroke>, entry: BufferedKeystroke, cap: nat)
    requires
        buf.len() <= cap,
    ensures
        appended(buf, entry, cap).len() <= cap,
        cap >= 1 ==> appended(buf, entry, cap).last() == entry,
        buf.len() < cap ==> appended(buf, entry, cap) == buf.push(entry),
        buf.len() == cap >= 1 ==> appended(buf, entry, cap) == buf.skip(1).push(entry),
        cap == 0 ==> appended(buf, entry, cap).len() == 0,
{
    if buf.len() == cap && cap >= 1 {
        assert(appended(buf, entry, cap) =~= buf.skip(1).push(entry));
    }
}

/// However many keystrokes are appended, the buffer never holds more than
/// `cap` entries, and it holds exactly the most recent `cap` of all that
/// were ever in it or appended to it, in their original order.
pub proof fn lemma_appends_keep_most_recent(
    buf: Seq<BufferedKeystroke>,
    entries: Seq<BufferedKeystroke>,
    cap: nat,
)
    requires
        buf.len() <= cap,
    ensures
        appended_all(buf, entries, cap) == keep_last(buf + entries, cap),
        appended_all(buf, entries, cap).len() <= cap,
        entries.len() >= cap ==> appended_all(buf, entries, cap) == entries.skip(
            entries.len() - cap,
        ),
    decreases entries.len(),
{
    if entries.len() == 0 {
        assert(buf + entries =~= buf);
        assert(entries.skip(0) =~= entries);
    } else {
        let head = entries.drop_last();
        lemma_appends_keep_most_recent(buf, head, cap);
        let before = keep_last(buf + head, cap);
        assert((buf + head).push(entries.last()) =~= buf + entries);
        assert(keep_last(before.push(entries.last()), cap) =~= keep_last(buf + entries, cap));
        if entries.len() >= cap {
            assert(keep_last(buf + entries, cap) =~= entries.skip(entries.len() - cap));
        }
    }
}

/// Appends one keystroke to the buffer, evicting the oldest entry first when
/// the buffer is full. A buffer of capacity 0 stays empty.
pub fn push_bounded(buf: &mut Vec<BufferedKeystroke>, entry: BufferedKeystroke, cap: usize)
    requires
        old(buf)@.len() <= cap,
    ensures
        final(buf)@ == appended(old(buf)@, entry, cap as nat),
        final(buf)@.len() <= cap,
{
    if cap == 0 {
        assert(buf@ =~= appended(old(buf)@, entry, cap as nat));
        return ;
    }
    if buf.len() >= cap {
        buf.remove(0);
    }
    buf.push(entry);
    assert(buf@ =~= appended(old(buf)@, entry, cap as nat));
}

/// Finds where the current word of the buffer begins.
pub fn word_start_index(buf: &Vec<BufferedKeystroke>) -> (start: usize)
    ensures
        start == word_start(buf@),
        start <= buf@.len(),
        buf@.len() > 0 ==> start < buf@.len(),
{
    proof {
        lemma_word_start_bounds(buf@);
        assert(buf@.take(buf@.len() as int) =~= buf@);
    }
    let mut end: usize = buf.len();
    while end > 0 && buf[end - 1].0 == KEY_SPACE
        invariant
            end <= buf@.len(),
            last_non_space(buf@) == last_non_space(buf@.take(end as int)),
        decreases end,
    {
        proof {
            assert(buf@.take(end as int).drop_last() =~= buf@.take(end - 1));
        }
        end = end - 1;
    }
    if end == 0 {
        return 0;
    }
    let last: usize = end - 1;
    let ghost head = buf@.take(last as int);
    proof {
        assert(head.take(last as int) =~= head);
    }
    let mut pos: usize = last;
    while pos > 0 && buf[pos - 1].0 != KEY_SPACE
        invariant
            pos <= last < buf@.len(),
            head == buf@.take(last as int),
            last_space(head) == last_space(head.take(pos as int)),
        decreases pos,
    {
        proof {
            assert(head.take(pos as int).drop_last() =~= head.take(pos - 1));
        }
        pos = pos - 1;
    }
    pos
}

} // verus!
