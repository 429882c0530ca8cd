//! Cursor arithmetic and the ordered collection with a selection cursor.

use vstd::prelude::*;
use vstd::arithmetic::div_mod::lemma_add_mod_noop;
use vstd::arithmetic::div_mod::lemma_small_mod;
use vstd::arithmetic::div_mod::lemma_mod_self_0;

verus! {

/// Which way a key press moves a cursor.
#[derive(Clone, Copy, Debug, PartialEq, Eq, Structural)]
pub enum KeyDirection {
    Up,
    Down,
    Initial,
}

/// The index that follows `current` in a list of `list_size` entries.
///
/// Movement is circular: one step up from the first entry reaches the last
/// one, one step down from the last entry reaches the first one. A list
/// without entries has no valid index and yields 0. `Initial` keeps the
/// index as it is.
pub open spec fn wrapped_index(current: int, list_size: int, direction: KeyDirection) -> int {
    if list_size <= 0 {
        0
    } else {
        match direction {
            KeyDirection::Up => if current <= 0 {
                list_size - 1
            } else {
                (current - 1) % list_size
            },
            KeyDirection::Down => (current + 1) % list_size,
            KeyDirection::Initial => current,
        }
    }
}

/// Helper to determine the next index for indexable widgets.
pub fn next_index(current: usize, list_size: usize, direction: KeyDirection) -> (next: usize)
    ensures
        next == wrapped_index(current as int, list_size as int, direction),
        list_size > 0 && direction != KeyDirection::Initial ==> next < list_size,
{
    if list_size == 0 {
        return 0;
    }
    match direction {
        KeyDirection::Up => {
            if current == 0 {
                list_size - 1
            } else {
                (current - 1) % list_size
            }
        },
        KeyDirection::Down => {
            let rest: usize = current % list_size;
            proof {
                let n = list_size as int;
                lemma_add_mod_noop(current as int, 1, n);
                if n > 1 {
                    lemma_small_mod(1, n as nat);
                    if rest + 1 == n {
                        lemma_mod_self_0(n);
                    } else {
                        lemma_small_mod((rest + 1) as nat, n as nat);
                    }
                }
            }
            if rest == list_size - 1 {
                0
            } else {
                rest + 1
            }
        },
        KeyDirection::Initial => current,
    }
}

/// Whether `cursor` is a legal selection for a list of `len` entries: an
/// empty list has no selection, any other list has one, and it is in range.
pub open spec fn cursor_valid(cursor: Option<nat>, len: nat) -> bool {
    match cursor {
        Some(index) => index < len,
        None => len == 0,
    }
}

/// The selection after one key press in `direction` on a list of `len` entries.
pub open spec fn moved_cursor(cursor: Option<nat>, len: nat, direction: KeyDirection) -> Option<
    nat,
> {
    if len == 0 {
        None
    } else {
        match cursor {
            Some(index) => Some(wrapped_index(index as int, len as int, direction) as nat),
            None => Some(0),
        }
    }
}

/// The selection after the key presses `moves`, applied first to last.
pub open spec fn cursor_after(cursor: Option<nat>, len: nat, moves: Seq<KeyDirection>) -> Option<
    nat,
>
    decreases moves.len(),
{
    if moves.len() == 0 {
        cursor
    } else {
        moved_cursor(cursor_after(cursor, len, moves.drop_last()), len, moves.last())
    }
}

/// The selection that survives when the list is replaced by one of `new_len`
/// entries: an index that is still in range is kept, one past the end falls
/// back to the last entry, and an empty list has no selection.
pub open spec fn clamped_cursor(cursor: Option<nat>, new_len: nat) -> Option<nat> {
    if new_len == 0 {
        None
    } else {
        match cursor {
            Some(index) => if index < new_len {
                Some(index)
            } else {
                Some((new_len - 1) as nat)
            },
            None => Some(0),
        }
    }
}

/// The selection as a number of the model.
pub open spec fn cursor_view(cursor: Option<usize>) -> Option<nat> {
    match cursor {
        Some(index) => Some(index as nat),
        None => None,
    }
}

/// One key press keeps a legal selection legal.
pub proof fn lemma_move_keeps_cursor_valid(cursor: Option<nat>, len: nat, direction: KeyDirection)
    requires
        cursor_valid(cursor, len),
    ensures
        cursor_valid(moved_cursor(cursor, len, direction), len),
{
    if len > 0 {
        let index = cursor->0 as int;
        let size = len as int;
        match direction {
            KeyDirection::Up => {
                if index > 0 {
                    lemma_small_mod((index - 1) as nat, len);
                }
            },
            KeyDirection::Down => {
                if index + 1 == size {
                    lemma_mod_self_0(size);
                } else {
                    lemma_small_mod((index + 1) as nat, len);
                }
            },
            KeyDirection::Initial => {},
        }
    }
}

/// Whatever keys are pressed, and however many, the selection stays inside
/// the list, and it is absent exactly when the list is empty.
pub proof fn lemma_cursor_stays_in_range(cursor: Option<nat>, len: nat, moves: Seq<KeyDirection>)
    requires
        cursor_valid(cursor, len),
    ensures
        cursor_valid(cursor_after(cursor, len, moves), len),
        cursor_after(cursor, len, moves) is None <==> len == 0,
    decreases moves.len(),
{
    if moves.len() > 0 {
        lemma_cursor_stays_in_range(cursor, len, moves.drop_last());
        lemma_move_keeps_cursor_valid(
            cursor_after(cursor, len, moves.drop_last()),
            len,
            moves.last(),
        );
    }
}

/// Movement wraps around: up from the first entry selects the last one, down
/// from the last entry selects the first one, and any other step moves by one.
pub proof fn lemma_cursor_wraps(len: nat, index: nat)
    requires
        index < len,
    ensures
        moved_cursor(Some(0), len, KeyDirection::Up) == Some((len - 1) as nat),
        moved_cursor(Some((len - 1) as nat), len, KeyDirection::Down) == Some(0nat),
        index > 0 ==> moved_cursor(Some(index), len, KeyDirection::Up) == Some(
            (index - 1) as nat,
        ),
        index + 1 < len ==> moved_cursor(Some(index), len, KeyDirection::Down) == Some(index + 1),
        moved_cursor(Some(index), len, KeyDirection::Initial) == Some(index),
{
    lemma_mod_self_0(len as int);
    if index > 0 {
        lemma_small_mod((index - 1) as nat, len);
    }
    if index + 1 < len {
        lemma_small_mod(index + 1, len);
    }
}

/// Replacing the list never leaves the selection out of range: an index
/// that still exists is kept, one beyond the new end becomes the last index,
/// and an empty list has no selection.
pub proof fn lemma_clamp_keeps_cursor_valid(cursor: Option<nat>, new_len: nat)
    ensures
        cursor_valid(clamped_cursor(cursor, new_len), new_len),
        new_len == 0 ==> clamped_cursor(cursor, new_len) is None,
        cursor matches Some(index) && index < new_len ==> clamped_cursor(cursor, new_len)
            == cursor,
        cursor matches Some(index) && index >= new_len && new_len > 0 ==> clamped_cursor(
            cursor,
            new_len,
        ) == Some((new_len - 1) as nat),
{
}

/// What a [`Collection`] is to its callers: the entries in order, and the
/// selection.
pub struct CollectionView<T> {
    pub items: Seq<T>,
    pub cursor: Option<nat>,
}

impl<T> CollectionView<T> {
    /// No entry, nothing selected.
    pub open spec fn empty() -> Self {
        CollectionView { items: Seq::empty(), cursor: None }
    }

    /// The selection is legal for the entries.
    pub open spec fn valid(self) -> bool {
        cursor_valid(self.cursor, self.items.len())
    }

    /// The selected entry, where there is one.
    pub open spec fn selected(self) -> Option<T> {
        match self.cursor {
            Some(index) => if index < self.items.len() {
                Some(self.items[index as int])
            } else {
                None
            },
            None => None,
        }
    }

    /// The view after one key press.
    pub open spec fn moved(self, direction: KeyDirection) -> Self {
        CollectionView {
            items: self.items,
            cursor: moved_cursor(self.cursor, self.items.len(), direction),
        }
    }

    /// The view after the entries are replaced by `items`.
    pub open spec fn replaced(self, items: Seq<T>) -> Self {
        CollectionView { items, cursor: clamped_cursor(self.cursor, items.len()) }
    }
}

/// An ordered list together with a selection cursor.
///
/// The cursor is absent exactly when the list is empty, and otherwise names
/// one of its entries.
#[derive(Debug)]
pub struct Collection<T> {
    items: Vec<T>,
    cursor: Option<usize>,
}

impl<T> View for Collection<T> {
    type V = CollectionView<T>;

    closed spec fn view(&self) -> CollectionView<T> {
        CollectionView { items: self.items@, cursor: cursor_view(self.cursor) }
    }
}

impl<T> Collection<T> {
    #[verifier::type_invariant]
    spec fn well_formed(self) -> bool {
        cursor_valid(cursor_view(self.cursor), self.items@.len())
    }

    /// An empty collection, with nothing selected.
    pub fn new() -> (collection: Self)
        ensures
            collection@ == CollectionView::<T>::empty(),
    {
        Collection { items: Vec::new(), cursor: None }
    }

    /// A collection of `items` with the first entry selected, if there is one.
    pub fn from_items(items: Vec<T>) -> (collection: Self)
        ensures
            collection@.items == items@,
            collection@.cursor == clamped_cursor(None, items@.len()),
            collection@.valid(),
    {
        let cursor = if items.len() == 0 {
            None
        } else {
            Some(0)
        };
        Collection { items, cursor }
    }

    /// The number of entries.
    pub fn len(&self) -> (len: usize)
        ensures
            len == self@.items.len(),
    {
        self.items.len()
    }

    /// Whether there is no entry.
    pub fn is_empty(&self) -> (empty: bool)
        ensures
            empty == (self@.items.len() == 0),
    {
        self.items.len() == 0
    }

    /// The entries in order.
    pub fn items(&self) -> (items: &Vec<T>)
        ensures
            items@ == self@.items,
    {
        &self.items
    }

    /// The index of the selected entry.
    pub fn selected(&self) -> (cursor: Option<usize>)
        ensures
            cursor_view(cursor) == self@.cursor,
            self@.valid(),
    {
        proof {
            use_type_invariant(self);
        }
        self.cursor
    }

    /// The selected entry.
    pub fn selected_item(&self) -> (item: Option<&T>)
        ensures
            self@.valid(),
            match item {
                Some(entry) => self@.selected() == Some(*entry),
                None => self@.selected() is None,
            },
    {
        proof {
            use_type_invariant(self);
        }
        match self.cursor {
            Some(index) => Some(&self.items[index]),
            None => None,
        }
    }

    /// Puts the selection on the entry at `index`. Where the list has no such
    /// entry, the selection stays as it is, and the result says so.
    pub fn select(&mut self, index: usize) -> (done: bool)
        ensures
            done == (index < old(self)@.items.len()),
            final(self)@.items == old(self)@.items,
            final(self)@.cursor == if done {
                Some(index as nat)
            } else {
                old(self)@.cursor
            },
            final(self)@.valid(),
    {
        proof {
            use_type_invariant(&*self);
        }
        if index < self.items.len() {
            self.cursor = Some(index);
            true
        } else {
            false
        }
    }

    /// Moves the selection one step in `direction`, wrapping at both ends.
    /// On an empty collection nothing is selected before or after.
    pub fn move_cursor(&mut self, direction: KeyDirection)
        ensures
            final(self)@ == old(self)@.moved(direction),
            final(self)@.valid(),
    {
        let len: usize = self.items.len();
        proof {
            use_type_invariant(&*self);
            lemma_move_keeps_cursor_valid(cursor_view(self.cursor), len as nat, direction);
        }
        if len > 0 {
            let target: usize = match self.cursor {
                Some(index) => next_index(index, len, direction),
                None => 0,
            };
            self.cursor = Some(target);
        }
    }

    /// Replaces the entries by `items` and keeps the selection where it was,
    /// as far as the new list allows.
    pub fn replace(&mut self, items: Vec<T>)
        ensures
            final(self)@ == old(self)@.replaced(items@),
            final(self)@.valid(),
    {
        let len: usize = items.len();
        let cursor = if len == 0 {
            None
        } else {
            match self.cursor {
                Some(index) => if index < len {
                    Some(index)
                } else {
                    Some(len - 1)
                },
                None => Some(0),
            }
        };
        *self = Collection { items, cursor };
    }
}

impl<T: Clone> Clone for Collection<T> {
    /// A copy with the same selection, whose entries are copies of the
    /// entries, in the same order.
    fn clone(&self) -> (copy: Self)
        ensures
            copy@.cursor == self@.cursor,
            copy@.items.len() == self@.items.len(),
            forall|i: int|
                0 <= i < self@.items.len() ==> cloned(#[trigger] self@.items[i], copy@.items[i]),
            copy@.valid(),
    {
        proof {
            use_type_invariant(self);
        }
        Collection { items: self.items.clone(), cursor: self.cursor }
    }
}

} // verus!
