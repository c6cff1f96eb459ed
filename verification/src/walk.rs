//! What a sequence hands out where the engine does its part.
//!
//! An iterator of the engine has the entries of the database in the order
//! of their keys and stands at one of them, or at none. This module says
//! what is expected of it when it is placed and moved, what a cursor then
//! finds where it stands, and what a sequence hands out: the entries in
//! that order, or against it, each once, and then nothing.

use crate::ffi::{PositionView, Reply, RequestView};
use crate::iterator::{
    advance_script, ended, item_script, moved, new_sequence_script, slice_script, start_of,
    status_script, valid_script, Direction, Part, SequenceView, YieldView,
};
use crate::laws::{
    advance_asks, item_asks, new_iterator_asks, slice_asks, status_asks, valid_asks,
};
use crate::model::{after_all, conversation, Model};
use crate::protocol::Next;
use vstd::prelude::*;

verus! {

/// An entry: a key and its value.
pub type Entry = (Seq<u8>, Seq<u8>);

/// An iterator of the engine, as far as a sequence has to do with it.
#[verifier::ext_equal]
pub struct Walk {
    /// The entries, in the order of their keys.
    pub entries: Seq<Entry>,
    /// Where the iterator stands: the index of an entry, or a number that
    /// is none where it stands at no entry.
    pub at: int,
    /// What it has lent, by the pointers that it handed out.
    pub lent: Map<usize, Seq<u8>>,
}

impl Walk {
    /// Whether the iterator stands at an entry.
    pub open spec fn standing(self) -> bool {
        0 <= self.at < self.entries.len()
    }

    /// The iterator once it has been placed at the index.
    pub open spec fn placed(self, at: int) -> Walk {
        Walk { at, lent: Map::empty(), ..self }
    }

    /// The iterator once it has lent the bytes at the pointer.
    pub open spec fn lending(self, pointer: usize, bytes: Seq<u8>) -> Walk {
        if self.standing() {
            Walk { lent: self.lent.insert(pointer, bytes), ..self }
        } else {
            self
        }
    }
}

/// Whether the one key comes before the other in the order of the engine:
/// byte by byte, and a key before every key that it begins.
pub open spec fn key_before(one: Seq<u8>, other: Seq<u8>) -> bool
    decreases one.len(),
{
    if other.len() == 0 {
        false
    } else if one.len() == 0 {
        true
    } else if one[0] != other[0] {
        one[0] < other[0]
    } else {
        key_before(one.skip(1), other.skip(1))
    }
}

/// Whether the entries are in the order of their keys, no key twice.
pub open spec fn ordered(entries: Seq<Entry>) -> bool {
    forall|i: int, j: int|
        0 <= i < j < entries.len() ==> key_before(
            (#[trigger] entries[i]).0,
            (#[trigger] entries[j]).0,
        )
}

/// The index of the first entry whose key is at or after the given one, and
/// the number of the entries where there is none.
pub open spec fn at_or_after(entries: Seq<Entry>, key: Seq<u8>) -> int
    decreases entries.len(),
{
    if entries.len() == 0 || !key_before(entries[0].0, key) {
        0
    } else {
        1 + at_or_after(entries.skip(1), key)
    }
}

/// The index of the last entry whose key is at or before the given one, and
/// the number before the first index where there is none.
pub open spec fn at_or_before(entries: Seq<Entry>, key: Seq<u8>) -> int
    decreases entries.len(),
{
    if entries.len() == 0 {
        -1
    } else if !key_before(key, entries.last().0) {
        entries.len() - 1
    } else {
        at_or_before(entries.drop_last(), key)
    }
}

/// Where the iterator stands once it has been moved as asked: at the
/// first entry or the last, at the entry that a key leads to, or one
/// further on or back.
pub open spec fn moved_to(walk: Walk, to: PositionView) -> int {
    match to {
        PositionView::First => 0,
        PositionView::Last => walk.entries.len() - 1,
        PositionView::AtOrAfter(key) => at_or_after(walk.entries, key),
        PositionView::AtOrBefore(key) => at_or_before(walk.entries, key),
        PositionView::Next => walk.at + 1,
        PositionView::Prev => walk.at - 1,
    }
}

impl Model for Walk {
    /// The iterator says that it stands at an entry exactly where it does.
    /// Where it does, it hands out the key and the value of that entry at
    /// their lengths, and what is copied from them is what they are. It
    /// meets no error.
    open spec fn expects(self, request: RequestView, reply: Reply) -> bool {
        match request {
            RequestView::Valid { .. } => (reply.flag != 0) == self.standing(),
            RequestView::Key { .. } => self.standing() ==> reply.pointer != 0 && reply.length
                == self.entries[self.at].0.len(),
            RequestView::Value { .. } => self.standing() ==> reply.pointer != 0 && reply.length
                == self.entries[self.at].1.len(),
            RequestView::ReadBuffer { pointer, .. } => self.lent.contains_key(pointer)
                ==> reply.bytes@ == self.lent[pointer],
            RequestView::Status { .. } => reply.error == 0,
            _ => true,
        }
    }

    open spec fn after(self, request: RequestView, reply: Reply) -> Walk {
        match request {
            RequestView::Seek { to, .. } => self.placed(moved_to(self, to)),
            RequestView::Key { .. } => self.lending(reply.pointer, self.entries[self.at].0),
            RequestView::Value { .. } => self.lending(reply.pointer, self.entries[self.at].1),
            _ => self,
        }
    }
}

/// A cursor says where it stands.
///
/// Against an iterator that does its part, asking a cursor whether it
/// stands at an entry gives yes exactly where it does, and leaves it there.
pub proof fn a_cursor_says_where_it_stands(iter: usize, walk: Walk, replies: Seq<Reply>)
    requires
        conversation(valid_asks(iter), walk, replies),
        valid_script(iter, replies) is Done,
    ensures
        valid_script(iter, replies) == Next::Done(walk.standing()),
        after_all(valid_asks(iter), walk, replies) == walk,
{
    let earlier = replies.drop_last();
    assert(forall|i: int| 0 <= i < earlier.len() ==> earlier[i] == replies[i]);
    assert(earlier.len() == 0);
    assert(after_all(valid_asks(iter), walk, earlier) == walk);
}

proof fn lemma_status_walk(iter: usize, walk: Walk, replies: Seq<Reply>)
    requires
        conversation(status_asks(iter), walk, replies),
    ensures
        replies.len() <= 1,
        replies.len() > 0 ==> replies[0].error == 0,
    decreases replies.len(),
{
    if replies.len() > 0 {
        let earlier = replies.drop_last();
        lemma_status_walk(iter, walk, earlier);
        assert(forall|i: int| 0 <= i < earlier.len() ==> earlier[i] == replies[i]);
    }
}

/// A cursor that has run off the entries has met no error.
///
/// Against an iterator that does its part, asking a cursor for its status
/// gives no error, wherever the cursor stands: to stand at no entry is not
/// an error.
pub proof fn a_cursor_off_the_entries_is_clean(iter: usize, walk: Walk, replies: Seq<Reply>)
    requires
        conversation(status_asks(iter), walk, replies),
        status_script(iter, replies) is Done,
    ensures
        status_script(iter, replies) == Next::<core::result::Result<(), Seq<char>>>::Done(Ok(())),
{
    lemma_status_walk(iter, walk, replies);
}

spec fn item_walk(walk: Walk, replies: Seq<Reply>) -> Walk {
    if replies.len() <= 1 {
        walk
    } else if replies.len() <= 3 {
        walk.lending(replies[1].pointer, walk.entries[walk.at].0)
    } else {
        walk.lending(replies[1].pointer, walk.entries[walk.at].0).lending(
            replies[3].pointer,
            walk.entries[walk.at].1,
        )
    }
}

proof fn lemma_item_walk(iter: usize, walk: Walk, replies: Seq<Reply>)
    requires
        conversation(item_asks(iter), walk, replies),
    ensures
        after_all(item_asks(iter), walk, replies) == item_walk(walk, replies),
        replies.len() <= 5,
        replies.len() > 0 ==> (replies[0].flag != 0) == walk.standing(),
        replies.len() > 1 ==> walk.standing() && replies[1].pointer != 0,
        replies.len() > 2 ==> replies[2].bytes@ == walk.entries[walk.at].0,
        replies.len() > 3 ==> replies[3].pointer != 0,
        replies.len() > 4 ==> replies[4].bytes@ == walk.entries[walk.at].1,
    decreases replies.len(),
{
    if replies.len() > 0 {
        let earlier = replies.drop_last();
        lemma_item_walk(iter, walk, earlier);
        assert(forall|i: int| 0 <= i < earlier.len() ==> earlier[i] == replies[i]);
        assert(after_all(item_asks(iter), walk, replies) =~= item_walk(walk, replies));
    }
}

/// A cursor hands out the entry at which it stands.
///
/// Against an iterator that does its part, the copying of the entry at a
/// cursor gives the key and the value of the entry at which the cursor
/// stands, byte for byte, and nothing where it stands at none. The cursor
/// stays where it is.
pub proof fn a_cursor_hands_out_its_entry(iter: usize, walk: Walk, replies: Seq<Reply>)
    requires
        conversation(item_asks(iter), walk, replies),
        item_script(iter, replies) is Done,
    ensures
        item_script(iter, replies) == Next::<Option<Entry>>::Done(
            if walk.standing() {
                Some(walk.entries[walk.at])
            } else {
                None
            },
        ),
        after_all(item_asks(iter), walk, replies).at == walk.at,
        after_all(item_asks(iter), walk, replies).entries == walk.entries,
{
    lemma_item_walk(iter, walk, replies);
}

spec fn slice_walk(part: Part, walk: Walk, replies: Seq<Reply>) -> Walk {
    if replies.len() <= 1 {
        walk
    } else {
        walk.lending(replies[1].pointer, part_of(part, walk.entries[walk.at]))
    }
}

/// The part of the entry.
pub open spec fn part_of(part: Part, entry: Entry) -> Seq<u8> {
    match part {
        Part::Key => entry.0,
        Part::Value => entry.1,
    }
}

proof fn lemma_slice_walk(iter: usize, part: Part, walk: Walk, replies: Seq<Reply>)
    requires
        conversation(slice_asks(iter, part), walk, replies),
    ensures
        after_all(slice_asks(iter, part), walk, replies) == slice_walk(part, walk, replies),
        replies.len() <= 3,
        replies.len() > 0 ==> (replies[0].flag != 0) == walk.standing(),
        replies.len() > 1 ==> walk.standing() && replies[1].pointer != 0,
        replies.len() > 2 ==> replies[2].bytes@ == part_of(part, walk.entries[walk.at]),
    decreases replies.len(),
{
    if replies.len() > 0 {
        let earlier = replies.drop_last();
        lemma_slice_walk(iter, part, walk, earlier);
        assert(forall|i: int| 0 <= i < earlier.len() ==> earlier[i] == replies[i]);
        assert(after_all(slice_asks(iter, part), walk, replies) =~= slice_walk(
            part,
            walk,
            replies,
        ));
    }
}

/// A cursor hands out the key, or the value, of the entry at which it
/// stands.
///
/// Against an iterator that does its part, the copying of a part of the
/// entry at a cursor gives that part of the entry at which the cursor
/// stands, byte for byte, and nothing where it stands at none.
pub proof fn a_cursor_hands_out_its_part(iter: usize, part: Part, walk: Walk, replies: Seq<Reply>)
    requires
        conversation(slice_asks(iter, part), walk, replies),
        slice_script(iter, part, replies) is Done,
    ensures
        slice_script(iter, part, replies) == Next::<Option<Seq<u8>>>::Done(
            if walk.standing() {
                Some(part_of(part, walk.entries[walk.at]))
            } else {
                None
            },
        ),
{
    lemma_slice_walk(iter, part, walk, replies);
}

proof fn lemma_no_key_before_itself(key: Seq<u8>)
    ensures
        !key_before(key, key),
    decreases key.len(),
{
    if key.len() > 0 {
        lemma_no_key_before_itself(key.skip(1));
    }
}

proof fn lemma_not_both_before(one: Seq<u8>, other: Seq<u8>)
    requires
        key_before(one, other),
    ensures
        !key_before(other, one),
    decreases one.len(),
{
    if one.len() > 0 && other.len() > 0 && one[0] == other[0] {
        lemma_not_both_before(one.skip(1), other.skip(1));
    }
}

proof fn lemma_before_goes_on(first: Seq<u8>, second: Seq<u8>, third: Seq<u8>)
    requires
        key_before(first, second),
        key_before(second, third),
    ensures
        key_before(first, third),
    decreases first.len(),
{
    if first.len() > 0 && first[0] == second[0] && second[0] == third[0] {
        lemma_before_goes_on(first.skip(1), second.skip(1), third.skip(1));
    }
}

proof fn lemma_at_or_after(entries: Seq<Entry>, key: Seq<u8>, index: int)
    requires
        0 <= index <= entries.len(),
        forall|j: int| 0 <= j < index ==> key_before((#[trigger] entries[j]).0, key),
        index < entries.len() ==> !key_before(entries[index].0, key),
    ensures
        at_or_after(entries, key) == index,
    decreases entries.len(),
{
    if entries.len() > 0 && index > 0 {
        let rest = entries.skip(1);
        assert(key_before(entries[0].0, key));
        assert forall|j: int| 0 <= j < index - 1 implies key_before((#[trigger] rest[j]).0, key) by {
            assert(rest[j] == entries[j + 1]);
        }
        lemma_at_or_after(rest, key, index - 1);
    }
}

proof fn lemma_at_or_before(entries: Seq<Entry>, key: Seq<u8>, index: int)
    requires
        -1 <= index < entries.len(),
        forall|j: int| index < j < entries.len() ==> key_before(key, (#[trigger] entries[j]).0),
        index >= 0 ==> !key_before(key, entries[index].0),
    ensures
        at_or_before(entries, key) == index,
    decreases entries.len(),
{
    if entries.len() > 0 && index < entries.len() - 1 {
        let rest = entries.drop_last();
        assert(key_before(key, entries[entries.len() - 1].0));
        assert forall|j: int| index < j < rest.len() implies key_before(
            key,
            (#[trigger] rest[j]).0,
        ) by {
            assert(rest[j] == entries[j]);
        }
        lemma_at_or_before(rest, key, index);
    }
}

/// A key that is there is found.
///
/// Where the entries are in order and one of them has the key, an iterator
/// placed at or after the key, or at or before it, stands at that entry.
pub proof fn a_key_that_is_there_is_found(walk: Walk, key: Seq<u8>, index: int)
    requires
        ordered(walk.entries),
        0 <= index < walk.entries.len(),
        walk.entries[index].0 == key,
    ensures
        moved_to(walk, PositionView::AtOrAfter(key)) == index,
        moved_to(walk, PositionView::AtOrBefore(key)) == index,
{
    lemma_no_key_before_itself(key);
    assert forall|j: int| index < j < walk.entries.len() implies key_before(
        key,
        (#[trigger] walk.entries[j]).0,
    ) by {
        assert(key_before(walk.entries[index].0, walk.entries[j].0));
    }
    lemma_at_or_after(walk.entries, key, index);
    lemma_at_or_before(walk.entries, key, index);
}

/// A key between two entries is found at the next.
///
/// Where the entries are in order and the key lies between the keys of two
/// neighbours, or before the first key or after the last, an iterator
/// placed at or after the key stands at the later of the two, and one
/// placed at or before it at the earlier: at none where there is no such
/// entry.
pub proof fn a_key_between_two_is_found_at_the_next(walk: Walk, key: Seq<u8>, index: int)
    requires
        ordered(walk.entries),
        0 <= index <= walk.entries.len(),
        index > 0 ==> key_before(walk.entries[index - 1].0, key),
        index < walk.entries.len() ==> key_before(key, walk.entries[index].0),
    ensures
        moved_to(walk, PositionView::AtOrAfter(key)) == index,
        moved_to(walk, PositionView::AtOrBefore(key)) == index - 1,
{
    let entries = walk.entries;
    assert forall|j: int| 0 <= j < index implies key_before((#[trigger] entries[j]).0, key) by {
        if j < index - 1 {
            assert(key_before(entries[j].0, entries[index - 1].0));
            lemma_before_goes_on(entries[j].0, entries[index - 1].0, key);
        }
    }
    assert forall|j: int| index - 1 < j < entries.len() implies key_before(
        key,
        (#[trigger] entries[j]).0,
    ) by {
        if j > index {
            assert(key_before(entries[index].0, entries[j].0));
            lemma_before_goes_on(key, entries[index].0, entries[j].0);
        }
    }
    if index < entries.len() {
        lemma_not_both_before(key, entries[index].0);
    }
    if index > 0 {
        lemma_not_both_before(entries[index - 1].0, key);
    }
    lemma_at_or_after(entries, key, index);
    lemma_at_or_before(entries, key, index - 1);
}

/// A cursor sought at a key that is there stands at that key.
///
/// Against an iterator that does its part and has its entries in order, a
/// cursor that has been sought at a key of one of the entries stands at an
/// entry, and the key that it hands out is that key.
pub proof fn a_cursor_sought_at_a_key_stands_there(
    iter: usize,
    key: Seq<u8>,
    walk: Walk,
    sought: Reply,
    valid: Seq<Reply>,
    copied: Seq<Reply>,
)
    requires
        ordered(walk.entries),
        exists|index: int| 0 <= index < walk.entries.len() && (#[trigger] walk.entries[index]).0 == key,
        conversation(
            valid_asks(iter),
            walk.after(RequestView::Seek { iter, to: PositionView::AtOrAfter(key) }, sought),
            valid,
        ),
        valid_script(iter, valid) is Done,
        conversation(
            slice_asks(iter, Part::Key),
            walk.after(RequestView::Seek { iter, to: PositionView::AtOrAfter(key) }, sought),
            copied,
        ),
        slice_script(iter, Part::Key, copied) is Done,
    ensures
        valid_script(iter, valid) == Next::Done(true),
        slice_script(iter, Part::Key, copied) == Next::Done(Some(key)),
{
    let index = choose|index: int|
        0 <= index < walk.entries.len() && (#[trigger] walk.entries[index]).0 == key;
    a_key_that_is_there_is_found(walk, key, index);
    let placed = walk.after(RequestView::Seek { iter, to: PositionView::AtOrAfter(key) }, sought);
    a_cursor_says_where_it_stands(iter, placed, valid);
    a_cursor_hands_out_its_part(iter, Part::Key, placed, copied);
}

/// A cursor sought between two keys stands at the later.
///
/// Against an iterator that does its part and has its entries in order, a
/// cursor that has been sought at a key between the keys of two neighbours
/// hands out the key of the later of the two: the next key at or after the
/// one sought.
pub proof fn a_cursor_sought_between_keys_stands_at_the_next(
    iter: usize,
    key: Seq<u8>,
    index: int,
    walk: Walk,
    sought: Reply,
    copied: Seq<Reply>,
)
    requires
        ordered(walk.entries),
        0 < index < walk.entries.len(),
        key_before(walk.entries[index - 1].0, key),
        key_before(key, walk.entries[index].0),
        conversation(
            slice_asks(iter, Part::Key),
            walk.after(RequestView::Seek { iter, to: PositionView::AtOrAfter(key) }, sought),
            copied,
        ),
        slice_script(iter, Part::Key, copied) is Done,
    ensures
        slice_script(iter, Part::Key, copied) == Next::Done(Some(walk.entries[index].0)),
{
    a_key_between_two_is_found_at_the_next(walk, key, index);
    let placed = walk.after(RequestView::Seek { iter, to: PositionView::AtOrAfter(key) }, sought);
    a_cursor_hands_out_its_part(iter, Part::Key, placed, copied);
}

/// A cursor moved on from the last entry stands at none, and has met no
/// error.
pub proof fn a_cursor_moved_on_from_the_last_entry_stands_at_none(
    iter: usize,
    walk: Walk,
    moved: Reply,
    valid: Seq<Reply>,
    status: Seq<Reply>,
)
    requires
        walk.at == walk.entries.len() - 1,
        conversation(
            valid_asks(iter),
            walk.after(RequestView::Seek { iter, to: PositionView::Next }, moved),
            valid,
        ),
        valid_script(iter, valid) is Done,
        conversation(
            status_asks(iter),
            walk.after(RequestView::Seek { iter, to: PositionView::Next }, moved),
            status,
        ),
        status_script(iter, status) is Done,
    ensures
        valid_script(iter, valid) == Next::Done(false),
        status_script(iter, status) == Next::<core::result::Result<(), Seq<char>>>::Done(Ok(())),
{
    let placed = walk.after(RequestView::Seek { iter, to: PositionView::Next }, moved);
    a_cursor_says_where_it_stands(iter, placed, valid);
    a_cursor_off_the_entries_is_clean(iter, placed, status);
}

/// Where a sequence in the direction stands when it hands out its item of
/// the given number, counted from none: that far from the end at which it
/// begins.
pub open spec fn station(direction: Direction, entries: Seq<Entry>, number: int) -> int {
    match direction {
        Direction::Forward => number,
        Direction::Reverse => entries.len() - 1 - number,
    }
}

/// The iterator in the course of a step: moved on, unless the step is the
/// first, and lending the key and then the value of its entry.
spec fn step_walk(sequence: SequenceView, walk: Walk, replies: Seq<Reply>) -> Walk {
    let skip = if sequence.just_seeked {
        0int
    } else {
        1int
    };
    let placed = if skip == 1 && replies.len() >= 1 {
        walk.placed(
            moved_to(
                walk,
                match sequence.direction {
                    Direction::Forward => PositionView::Next,
                    Direction::Reverse => PositionView::Prev,
                },
            ),
        )
    } else {
        walk
    };
    if replies.len() <= skip + 1 || !placed.standing() {
        placed
    } else if replies.len() <= skip + 3 {
        placed.lending(replies[skip + 1].pointer, placed.entries[placed.at].0)
    } else {
        placed.lending(replies[skip + 1].pointer, placed.entries[placed.at].0).lending(
            replies[skip + 3].pointer,
            placed.entries[placed.at].1,
        )
    }
}

proof fn lemma_step(sequence: SequenceView, walk: Walk, replies: Seq<Reply>)
    requires
        !sequence.finished,
        conversation(advance_asks(sequence), walk, replies),
    ensures
        after_all(advance_asks(sequence), walk, replies) == step_walk(sequence, walk, replies),
        ({
            let skip = if sequence.just_seeked {
                0int
            } else {
                1int
            };
            let now = step_walk(sequence, walk, replies);
            &&& replies.len() <= skip + 5
            &&& replies.len() > skip ==> (replies[skip].flag != 0) == now.standing()
            &&& replies.len() > skip + 1 && !now.standing() ==> replies[skip + 1].error == 0
                && replies.len() == skip + 2
            &&& replies.len() > skip + 1 && now.standing() ==> replies[skip + 1].pointer != 0
            &&& replies.len() > skip + 2 && now.standing() ==> replies[skip + 2].bytes@
                == now.entries[now.at].0
            &&& replies.len() > skip + 3 && now.standing() ==> replies[skip + 3].pointer != 0
            &&& replies.len() > skip + 4 && now.standing() ==> replies[skip + 4].bytes@
                == now.entries[now.at].1
        }),
    decreases replies.len(),
{
    if replies.len() > 0 {
        let earlier = replies.drop_last();
        lemma_step(sequence, walk, earlier);
        assert(forall|i: int| 0 <= i < earlier.len() ==> earlier[i] == replies[i]);
        assert(after_all(advance_asks(sequence), walk, replies) =~= step_walk(
            sequence,
            walk,
            replies,
        ));
    }
}

/// A step hands out the entry at which the iterator stands.
///
/// Against an iterator that does its part, a step of a sequence that has
/// not ended leaves the iterator where it stood on the first step, and one
/// entry on in the direction of the sequence on every other. Where the
/// iterator then stands at an entry, the step hands out that entry, key
/// and value byte for byte, and the sequence goes on. Where it stands at
/// none, the step hands out nothing and the sequence has ended.
pub proof fn a_step_hands_out_the_entry(sequence: SequenceView, walk: Walk, replies: Seq<Reply>)
    requires
        !sequence.finished,
        conversation(advance_asks(sequence), walk, replies),
        advance_script(sequence, replies) is Done,
    ensures
        ({
            let now = after_all(advance_asks(sequence), walk, replies);
            let at = if sequence.just_seeked {
                walk.at
            } else {
                match sequence.direction {
                    Direction::Forward => walk.at + 1,
                    Direction::Reverse => walk.at - 1,
                }
            };
            &&& now.entries == walk.entries
            &&& now.at == at
            &&& advance_script(sequence, replies) == Next::<(SequenceView, YieldView)>::Done(
                if now.standing() {
                    (moved(sequence), Some(Ok(walk.entries[at])))
                } else {
                    (ended(sequence), None)
                },
            )
        }),
{
    lemma_step(sequence, walk, replies);
}

/// What a sequence has handed out after a number of steps, and how it and
/// its iterator then are: each step is a conversation of its own, and goes
/// on from where the step before left the two.
pub open spec fn after_steps(sequence: SequenceView, walk: Walk, steps: Seq<Seq<Reply>>) -> (
    SequenceView,
    Walk,
    Seq<YieldView>,
)
    decreases steps.len(),
{
    if steps.len() == 0 {
        (sequence, walk, Seq::empty())
    } else {
        let (before, stood, handed) = after_steps(sequence, walk, steps.drop_last());
        match advance_script(before, steps.last()) {
            Next::Done((after, item)) => (
                after,
                after_all(advance_asks(before), stood, steps.last()),
                handed.push(item),
            ),
            Next::Ask(_) => (before, stood, handed),
        }
    }
}

/// Whether each of the steps is a conversation with the iterator, from
/// where the step before left it, and is over.
pub open spec fn steps_taken(sequence: SequenceView, walk: Walk, steps: Seq<Seq<Reply>>) -> bool
    decreases steps.len(),
{
    steps.len() == 0 || {
        let (before, stood, _) = after_steps(sequence, walk, steps.drop_last());
        &&& steps_taken(sequence, walk, steps.drop_last())
        &&& conversation(advance_asks(before), stood, steps.last())
        &&& advance_script(before, steps.last()) is Done
    }
}

/// The item of the given number of a sequence over the entries: the entry
/// that far from the end at which the sequence begins, and nothing once
/// the entries have all been handed out.
pub open spec fn item(direction: Direction, entries: Seq<Entry>, number: int) -> YieldView {
    if 0 <= number < entries.len() {
        Some(Ok(entries[station(direction, entries, number)]))
    } else {
        None
    }
}

/// A sequence hands out the entries in order, each once, and then ends.
///
/// Against an iterator that does its part and stands where a new sequence
/// has placed it, the steps of the sequence hand out the entries one by
/// one: in the order of their keys where the sequence goes forward, and
/// against it where it goes in reverse. After the last entry every step
/// hands out nothing.
pub proof fn a_sequence_hands_out_the_entries_in_order(
    sequence: SequenceView,
    walk: Walk,
    steps: Seq<Seq<Reply>>,
)
    requires
        sequence.just_seeked,
        !sequence.finished,
        walk.at == station(sequence.direction, walk.entries, 0),
        steps_taken(sequence, walk, steps),
    ensures
        ({
            let (after, stood, handed) = after_steps(sequence, walk, steps);
            &&& handed.len() == steps.len()
            &&& forall|number: int|
                0 <= number < steps.len() ==> #[trigger] handed[number] == item(
                    sequence.direction,
                    walk.entries,
                    number,
                )
            &&& stood.entries == walk.entries
            &&& after.iter == sequence.iter
            &&& after.direction == sequence.direction
            &&& after.finished == (steps.len() > walk.entries.len())
            &&& steps.len() > 0 ==> !after.just_seeked
            &&& 0 < steps.len() <= walk.entries.len() ==> stood.at == station(
                sequence.direction,
                walk.entries,
                steps.len() - 1,
            )
        }),
    decreases steps.len(),
{
    if steps.len() > 0 {
        let earlier = steps.drop_last();
        a_sequence_hands_out_the_entries_in_order(sequence, walk, earlier);
        let (before, stood, handed) = after_steps(sequence, walk, earlier);
        assert(forall|i: int| 0 <= i < earlier.len() ==> earlier[i] == steps[i]);
        if !before.finished {
            a_step_hands_out_the_entry(before, stood, steps.last());
        }
    }
}

/// A new sequence stands where it begins.
///
/// Against an iterator that does its part, the creation of a sequence
/// leaves the iterator at the first entry where the sequence goes forward,
/// and at the last where it goes in reverse.
pub proof fn a_new_sequence_stands_at_its_start(
    db: usize,
    direction: Direction,
    walk: Walk,
    replies: Seq<Reply>,
)
    requires
        conversation(new_iterator_asks(db, Some(start_of(direction))), walk, replies),
        new_sequence_script(db, direction, replies) matches Next::Done(Ok(_)),
    ensures
        after_all(new_iterator_asks(db, Some(start_of(direction))), walk, replies).entries
            == walk.entries,
        after_all(new_iterator_asks(db, Some(start_of(direction))), walk, replies).at == station(
            direction,
            walk.entries,
            0,
        ),
{
    let script = new_iterator_asks(db, Some(start_of(direction)));
    assert(replies.len() == 4);
    let three = replies.drop_last();
    let two = three.drop_last();
    let one = two.drop_last();
    let none = one.drop_last();
    assert(after_all(script, walk, none) == walk);
    assert(after_all(script, walk, one) == walk);
    assert(after_all(script, walk, two) == walk);
    assert(after_all(script, walk, three) == walk);
    assert(script(three) == Some(
        RequestView::Seek { iter: replies[1].pointer, to: start_of(direction) },
    ));
}

} // verus!
