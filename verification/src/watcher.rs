//! The last two samples of one polled field.

use vstd::prelude::*;

verus! {

/// Two successive samples of a field: the one before the latest, and the latest.
#[derive(Clone, Copy, Debug, PartialEq, Eq)]
pub struct Pair<T> {
    pub old: T,
    pub current: T,
}

/// The cause reported when the field could not be read in this tick.
#[derive(Clone, Copy, Debug, PartialEq, Eq)]
pub struct ReadFailed;

/// What a watcher holds after sampling `value` on top of `before`: the former
/// latest sample moves to `old`; with no history both samples are `value`.
pub open spec fn rotated<T>(before: Option<Pair<T>>, value: T) -> Pair<T> {
    match before {
        Some(pair) => Pair { old: pair.current, current: value },
        None => Pair { old: value, current: value },
    }
}

/// Mathematical model of a [`Watcher`].
pub struct WatcherView<T> {
    pub pair: Option<Pair<T>>,
    pub path: Seq<u64>,
}

/// A field of the watched process: the pointer path that leads to it and the
/// last two values read from it.
#[derive(Clone, Debug)]
pub struct Watcher<T> {
    pair: Option<Pair<T>>,
    path: Vec<u64>,
}

impl<T> View for Watcher<T> {
    type V = WatcherView<T>;

    closed spec fn view(&self) -> WatcherView<T> {
        WatcherView { pair: self.pair, path: self.path@ }
    }
}

impl<T> Watcher<T> {
    /// A watcher without history for the field at the end of `path`.
    pub fn new(path: &[u64]) -> (watcher: Self)
        ensures
            watcher@.pair is None,
            watcher@.path == path@,
    {
        Watcher { pair: None, path: vstd::slice::slice_to_vec(path) }
    }

    /// The offsets to follow from the module base to reach the field.
    pub fn path(&self) -> (path: &[u64])
        ensures
            path@ == self@.path,
    {
        self.path.as_slice()
    }
}

impl<T: Copy> Watcher<T> {
    /// The samples held, if the field has been read since the watcher was made.
    pub fn pair(&self) -> (pair: Option<Pair<T>>)
        ensures
            pair == self@.pair,
    {
        self.pair
    }

    /// The pair that sampling `value` would leave; the watcher stays as it is.
    pub fn preview(&self, value: T) -> (pair: Pair<T>)
        ensures
            pair == rotated(self@.pair, value),
    {
        match self.pair {
            Some(before) => Pair { old: before.current, current: value },
            None => Pair { old: value, current: value },
        }
    }

    /// Rotates `value` in as the latest sample and returns the new pair.
    pub fn rotate(&mut self, value: T) -> (pair: Pair<T>)
        ensures
            pair == rotated(old(self)@.pair, value),
            final(self)@.pair == Some(pair),
            final(self)@.path == old(self)@.path,
    {
        let pair = self.preview(value);
        self.pair = Some(pair);
        pair
    }

    /// Takes in the outcome of this tick's read. A value is rotated in and the
    /// new pair returned; a failed read (`None`) leaves the watcher as it was.
    pub fn update(&mut self, read: Option<T>) -> (result: Result<Pair<T>, ReadFailed>)
        ensures
            match read {
                Some(value) => {
                    &&& result == Ok::<Pair<T>, ReadFailed>(rotated(old(self)@.pair, value))
                    &&& final(self)@.pair == Some(rotated(old(self)@.pair, value))
                    &&& final(self)@.path == old(self)@.path
                },
                None => {
                    &&& result == Err::<Pair<T>, ReadFailed>(ReadFailed)
                    &&& final(self)@ == old(self)@
                },
            },
    {
        match read {
            Some(value) => Ok(self.rotate(value)),
            None => Err(ReadFailed),
        }
    }
}

impl<T> Default for Watcher<T> {
    /// A watcher without history and with an empty path.
    fn default() -> (watcher: Self)
        ensures
            watcher@.pair is None,
            watcher@.path == Seq::<u64>::empty(),
    {
        Watcher { pair: None, path: Vec::new() }
    }
}

/// After one read on a watcher without history both samples are the value
/// read; after two reads in a row, whatever the watcher held before, the pair
/// is exactly the two values in the order they were read.
pub proof fn lemma_rotation<T>(before: Option<Pair<T>>, first: T, second: T)
    ensures
        rotated(None, first) == (Pair { old: first, current: first }),
        rotated(Some(rotated(before, first)), second) == (Pair { old: first, current: second }),
{
}

} // verus!
