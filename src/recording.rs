use vstd::prelude::*;

verus! {

/// Offsets are nondecreasing in the order the events were stored.
pub open spec fn offsets_ordered<E>(s: Seq<(u64, E)>) -> bool {
    forall|i: int, j: int| 0 <= i <= j < s.len() ==> s[i].0 <= s[j].0
}

/// The offset of the last stored event, or zero for an empty recording.
pub open spec fn duration_of<E>(s: Seq<(u64, E)>) -> u64 {
    if s.len() == 0 {
        0
    } else {
        s.last().0
    }
}

/// A phrase of timestamped events; each offset is in microseconds from the
/// start of the phrase.
pub struct Recording<E> {
    events: Vec<(u64, E)>,
}

impl<E> View for Recording<E> {
    type V = Seq<(u64, E)>;

    closed spec fn view(&self) -> Seq<(u64, E)> {
        self.events@
    }
}

impl<E> Recording<E> {
    /// An empty recording.
    pub fn new() -> (r: Self)
        ensures
            r@ == Seq::<(u64, E)>::empty(),
    {
        Recording { events: Vec::new() }
    }

    /// Appends `event` at `offset` microseconds from the start.
    pub fn add_message(&mut self, offset: u64, event: E)
        ensures
            final(self)@ == old(self)@.push((offset, event)),
    {
        self.events.push((offset, event));
    }

    pub fn len(&self) -> (r: usize)
        ensures
            r == self@.len(),
    {
        self.events.len()
    }

    pub fn is_empty(&self) -> (r: bool)
        ensures
            r == (self@.len() == 0),
    {
        self.events.len() == 0
    }

    /// The offset of the `i`-th stored event.
    pub fn offset(&self, i: usize) -> (r: u64)
        requires
            i < self@.len(),
        ensures
            r == self@[i as int].0,
    {
        self.events[i].0
    }

    /// The `i`-th stored event.
    pub fn event(&self, i: usize) -> (r: &E)
        requires
            i < self@.len(),
        ensures
            *r == self@[i as int].1,
    {
        &self.events[i].1
    }

    /// Total length of the recording: the offset of its last event.
    pub fn duration(&self) -> (r: u64)
        ensures
            r == duration_of(self@),
    {
        let n = self.events.len();
        if n == 0 {
            0
        } else {
            self.events[n - 1].0
        }
    }
}

} // verus!
