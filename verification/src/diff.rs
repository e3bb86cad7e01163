//! Applying list changes (as the sync service reports them for the room
//! list and the timelines) to a local copy of the list.
use vstd::prelude::*;

verus! {

/// One change to a list.
pub enum VectorDiff<T> {
    Append { values: Vec<T> },
    Clear,
    PushFront { value: T },
    PushBack { value: T },
    PopFront,
    PopBack,
    Insert { index: usize, value: T },
    Replace { index: usize, value: T },
    Remove { index: usize },
    Truncate { length: usize },
    Reset { values: Vec<T> },
}

/// The list after one change. An index past the end makes `Insert` append
/// and makes `Remove` and `Replace` do nothing; popping an empty list and
/// truncating to at least its length do nothing either.
pub open spec fn apply_diff_spec<T>(s: Seq<T>, d: VectorDiff<T>) -> Seq<T> {
    match d {
        VectorDiff::Append { values } => s + values@,
        VectorDiff::Clear => Seq::empty(),
        VectorDiff::PushFront { value } => seq![value] + s,
        VectorDiff::PushBack { value } => s.push(value),
        VectorDiff::PopFront => if s.len() > 0 {
            s.drop_first()
        } else {
            s
        },
        VectorDiff::PopBack => if s.len() > 0 {
            s.drop_last()
        } else {
            s
        },
        VectorDiff::Insert { index, value } => if index <= s.len() {
            s.insert(index as int, value)
        } else {
            s.push(value)
        },
        VectorDiff::Replace { index, value } => if index < s.len() {
            s.update(index as int, value)
        } else {
            s
        },
        VectorDiff::Remove { index } => if index < s.len() {
            s.remove(index as int)
        } else {
            s
        },
        VectorDiff::Truncate { length } => if length < s.len() {
            s.take(length as int)
        } else {
            s
        },
        VectorDiff::Reset { values } => values@,
    }
}

/// Pushing an element and popping it at the same end gives the list back.
pub proof fn law_push_then_pop_restores<T>(s: Seq<T>, value: T)
    ensures
        apply_diff_spec(apply_diff_spec(s, VectorDiff::PushBack { value }), VectorDiff::PopBack) == s,
        apply_diff_spec(apply_diff_spec(s, VectorDiff::PushFront { value }), VectorDiff::PopFront) == s,
{
    assert(s.push(value).drop_last() =~= s);
    assert((seq![value] + s).drop_first() =~= s);
}

/// Inserting an element and removing it from the same place gives the
/// list back.
pub proof fn law_insert_then_remove_restores<T>(s: Seq<T>, index: usize, value: T)
    requires
        index <= s.len(),
    ensures
        apply_diff_spec(
            apply_diff_spec(s, VectorDiff::Insert { index, value }),
            VectorDiff::Remove { index },
        ) == s,
{
    assert(s.insert(index as int, value).remove(index as int) =~= s);
}

/// Clearing a list and appending values gives the same list as resetting
/// it to those values; a reset forgets what the list held.
pub proof fn law_clear_append_is_reset<T>(s: Seq<T>, t: Seq<T>, values: Vec<T>)
    ensures
        apply_diff_spec(apply_diff_spec(s, VectorDiff::Clear), VectorDiff::Append { values }) == apply_diff_spec(
            s,
            VectorDiff::Reset { values },
        ),
        apply_diff_spec(s, VectorDiff::Reset { values }) == apply_diff_spec(t, VectorDiff::Reset { values }),
{
    assert(Seq::<T>::empty() + values@ =~= values@);
}

/// Replacing an element by the one already there changes nothing.
pub proof fn law_replace_with_same_is_noop<T>(s: Seq<T>, index: usize)
    requires
        index < s.len(),
    ensures
        apply_diff_spec(s, VectorDiff::Replace { index, value: s[index as int] }) == s,
{
    assert(s.update(index as int, s[index as int]) =~= s);
}

/// The list operations that applying a change needs.
pub trait VectorOperations<T>: Sized {
    /// The list's elements in order.
    spec fn items(&self) -> Seq<T>;

    fn v_len(&self) -> (r: usize)
        ensures
            r == self.items().len(),
    ;

    fn v_insert(&mut self, index: usize, value: T)
        requires
            index <= old(self).items().len(),
        ensures
            final(self).items() == old(self).items().insert(index as int, value),
    ;

    fn v_remove(&mut self, index: usize)
        requires
            index < old(self).items().len(),
        ensures
            final(self).items() == old(self).items().remove(index as int),
    ;

    fn v_set(&mut self, index: usize, value: T)
        requires
            index < old(self).items().len(),
        ensures
            final(self).items() == old(self).items().update(index as int, value),
    ;

    fn v_push_back(&mut self, value: T)
        ensures
            final(self).items() == old(self).items().push(value),
    ;

    fn v_push_front(&mut self, value: T)
        ensures
            final(self).items() == seq![value] + old(self).items(),
    ;

    fn v_pop_back(&mut self)
        ensures
            final(self).items() == if old(self).items().len() > 0 {
                old(self).items().drop_last()
            } else {
                old(self).items()
            },
    ;

    fn v_pop_front(&mut self)
        ensures
            final(self).items() == if old(self).items().len() > 0 {
                old(self).items().drop_first()
            } else {
                old(self).items()
            },
    ;

    fn v_clear(&mut self)
        ensures
            final(self).items() == Seq::<T>::empty(),
    ;

    fn v_reset(&mut self, values: Vec<T>)
        ensures
            final(self).items() == values@,
    ;

    fn v_extend(&mut self, values: Vec<T>)
        ensures
            final(self).items() == old(self).items() + values@,
    ;

    fn v_truncate(&mut self, length: usize)
        ensures
            final(self).items() == if length < old(self).items().len() {
                old(self).items().take(length as int)
            } else {
                old(self).items()
            },
    ;
}

impl<T> VectorOperations<T> for Vec<T> {
    open spec fn items(&self) -> Seq<T> {
        self@
    }

    fn v_len(&self) -> (r: usize) {
        self.len()
    }

    fn v_insert(&mut self, index: usize, value: T) {
        self.insert(index, value);
    }

    fn v_remove(&mut self, index: usize) {
        self.remove(index);
    }

    fn v_set(&mut self, index: usize, value: T) {
        self.set(index, value);
    }

    fn v_push_back(&mut self, value: T) {
        self.push(value);
    }

    fn v_push_front(&mut self, value: T) {
        self.insert(0, value);
        assert(self@ =~= seq![value] + old(self)@);
    }

    fn v_pop_back(&mut self) {
        self.pop();
    }

    fn v_pop_front(&mut self) {
        if self.len() > 0 {
            self.remove(0);
            assert(self@ =~= old(self)@.drop_first());
        }
    }

    fn v_clear(&mut self) {
        self.clear();
    }

    fn v_reset(&mut self, values: Vec<T>) {
        *self = values;
    }

    fn v_extend(&mut self, values: Vec<T>) {
        let mut values = values;
        self.append(&mut values);
    }

    fn v_truncate(&mut self, length: usize) {
        self.truncate(length);
    }
}

/// Applying a change to a list.
pub trait ApplyVectorDiffExt<T>: VectorOperations<T> {
    /// Applies `diff` to the list.
    fn apply_diff(&mut self, diff: VectorDiff<T>)
        ensures
            final(self).items() == apply_diff_spec(old(self).items(), diff),
    {
        match diff {
            VectorDiff::Insert { index, value } => {
                if index <= self.v_len() {
                    self.v_insert(index, value);
                } else {
                    self.v_push_back(value);
                }
            },
            VectorDiff::Remove { index } => {
                if index < self.v_len() {
                    self.v_remove(index);
                }
            },
            VectorDiff::Replace { index, value } => {
                if index < self.v_len() {
                    self.v_set(index, value);
                }
            },
            VectorDiff::Reset { values } => {
                self.v_reset(values);
            },
            VectorDiff::PushBack { value } => {
                self.v_push_back(value);
            },
            VectorDiff::PushFront { value } => {
                self.v_push_front(value);
            },
            VectorDiff::PopBack => {
                self.v_pop_back();
            },
            VectorDiff::PopFront => {
                self.v_pop_front();
            },
            VectorDiff::Clear => {
                self.v_clear();
            },
            VectorDiff::Append { values } => {
                self.v_extend(values);
            },
            VectorDiff::Truncate { length } => {
                self.v_truncate(length);
            },
        }
    }
}

impl<C: VectorOperations<T>, T> ApplyVectorDiffExt<T> for C {}

} // verus!
