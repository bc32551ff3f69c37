use crate::mode::RecordingMode;
use crate::recording::{duration_of, offsets_ordered, Recording};
use vstd::prelude::*;

verus! {

/// `h` with `(offset, e)` appended to its last phrase.
pub open spec fn append_to_last<E>(h: Seq<Seq<(u64, E)>>, offset: u64, e: E) -> Seq<
    Seq<(u64, E)>,
> {
    h.update(h.len() - 1, h.last().push((offset, e)))
}

/// Appending an offset no smaller than every stored one keeps the order.
proof fn lemma_push_ordered<E>(s: Seq<(u64, E)>, offset: u64, e: E)
    requires
        offsets_ordered(s),
        forall|k: int| 0 <= k < s.len() ==> #[trigger] s[k].0 <= offset,
    ensures
        offsets_ordered(s.push((offset, e))),
{
    assert forall|i: int, j: int| 0 <= i <= j < s.len() + 1 implies #[trigger] s.push((offset, e))[i].0
        <= #[trigger] s.push((offset, e))[j].0 by {
        if j < s.len() {
            assert(s.push((offset, e))[i] == s[i]);
            assert(s.push((offset, e))[j] == s[j]);
        }
    }
}

/// The session state: mode, phrase segmentation and the stored phrases.
///
/// Times are microseconds on a monotonic clock that the caller reads; an
/// event stamped earlier than a time already seen counts as arriving at that
/// time.
pub struct Recorder<E> {
    /// Minimum silence, in microseconds, that ends an accompaniment phrase.
    timeout: u64,
    mode: RecordingMode,
    accompaniments: Vec<Recording<E>>,
    solos: Vec<Recording<E>>,
    solo_duration: Option<u64>,
    last_event: u64,
    phrase_start: u64,
    solo_start: u64,
    clock: u64,
    input_port_name: String,
}

impl<E> Recorder<E> {
    /// The stored accompaniment phrases, oldest first.
    pub closed spec fn accompaniments(&self) -> Seq<Seq<(u64, E)>> {
        self.accompaniments@.map_values(|r: Recording<E>| r@)
    }

    /// The stored solo phrases, oldest first.
    pub closed spec fn solos(&self) -> Seq<Seq<(u64, E)>> {
        self.solos@.map_values(|r: Recording<E>| r@)
    }

    /// Length of the backing phrase while a solo session is in progress.
    pub closed spec fn solo_duration(&self) -> Option<u64> {
        self.solo_duration
    }

    /// Arrival time of the latest event that was stored or ended a solo.
    pub closed spec fn last_event(&self) -> u64 {
        self.last_event
    }

    /// Start of the current accompaniment phrase.
    pub closed spec fn phrase_start(&self) -> u64 {
        self.phrase_start
    }

    /// Start of the current solo session.
    pub closed spec fn solo_start(&self) -> u64 {
        self.solo_start
    }

    /// The latest time seen.
    pub closed spec fn clock(&self) -> u64 {
        self.clock
    }

    pub closed spec fn current_mode(&self) -> RecordingMode {
        self.mode
    }

    /// The silence threshold in force.
    pub closed spec fn silence(&self) -> u64 {
        self.timeout
    }

    pub closed spec fn port_name(&self) -> Seq<char> {
        self.input_port_name@
    }

    /// The time at which an event stamped `now` counts as arriving.
    pub open spec fn arrival(&self, now: u64) -> u64 {
        if now < self.clock() {
            self.clock()
        } else {
            now
        }
    }

    /// An accompaniment phrase is still open at time `t`.
    pub open spec fn phrase_open(&self, t: u64) -> bool {
        self.accompaniments().len() > 0 && t - self.last_event() < self.silence()
    }

    pub closed spec fn wf(&self) -> bool {
        &&& self.phrase_start <= self.last_event <= self.clock
        &&& self.solo_start <= self.clock
        &&& forall|i: int|
            0 <= i < self.accompaniments().len() ==> offsets_ordered(
                #[trigger] self.accompaniments()[i],
            )
        &&& forall|i: int|
            0 <= i < self.solos().len() ==> offsets_ordered(#[trigger] self.solos()[i])
        &&& self.accompaniments().len() > 0 ==> forall|k: int|
            0 <= k < self.accompaniments().last().len() ==> #[trigger] self.accompaniments().last()[k].0
                <= self.last_event - self.phrase_start
        &&& self.solo_duration is Some ==> {
            &&& self.solos().len() > 0
            &&& forall|k: int|
                0 <= k < self.solos().last().len() ==> #[trigger] self.solos().last()[k].0
                    <= self.clock - self.solo_start
        }
    }

    /// Every stored offset is at least the ones stored before it in the same
    /// recording, accompaniments and solos alike.
    pub proof fn lemma_offsets_ordered(&self)
        requires
            self.wf(),
        ensures
            forall|i: int|
                0 <= i < self.accompaniments().len() ==> offsets_ordered(
                    #[trigger] self.accompaniments()[i],
                ),
            forall|i: int|
                0 <= i < self.solos().len() ==> offsets_ordered(#[trigger] self.solos()[i]),
    {
    }

    /// A recorder in `Playthrough` mode with nothing stored, at time zero.
    pub fn new(timeout: u64, input_port_name: String) -> (r: Self)
        ensures
            r.wf(),
            r.silence() == timeout,
            r.current_mode() == RecordingMode::Playthrough,
            r.accompaniments() == Seq::<Seq<(u64, E)>>::empty(),
            r.solos() == Seq::<Seq<(u64, E)>>::empty(),
            r.solo_duration() is None,
            r.clock() == 0,
            r.port_name() == input_port_name@,
    {
        let r = Recorder {
            timeout,
            mode: RecordingMode::Playthrough,
            accompaniments: Vec::new(),
            solos: Vec::new(),
            solo_duration: None,
            last_event: 0,
            phrase_start: 0,
            solo_start: 0,
            clock: 0,
            input_port_name,
        };
        assert(r.accompaniments() =~= Seq::<Seq<(u64, E)>>::empty());
        assert(r.solos() =~= Seq::<Seq<(u64, E)>>::empty());
        r
    }
    /// Takes one live event stamped `now`, acting on it as the mode says.
    ///
    /// In `Playthrough` nothing changes. In `Record` the event joins the open
    /// phrase, or starts a new one when none is open (no phrase yet, or a
    /// silence of at least the timeout since the last event). In `SoloOver`,
    /// while a session is in progress, the event joins the current solo, or
    /// ends the session and is dropped once the backing phrase is over.
    pub fn receive(&mut self, now: u64, event: E)
        requires
            old(self).wf(),
        ensures
            final(self).wf(),
            final(self).silence() == old(self).silence(),
            final(self).current_mode() == old(self).current_mode(),
            final(self).port_name() == old(self).port_name(),
            old(self).current_mode() == RecordingMode::Playthrough ==> *final(self) == *old(self),
            old(self).current_mode() == RecordingMode::Record ==> {
                let t = old(self).arrival(now);
                &&& final(self).solos() == old(self).solos()
                &&& final(self).solo_duration() == old(self).solo_duration()
                &&& final(self).solo_start() == old(self).solo_start()
                &&& final(self).last_event() == t
                &&& final(self).clock() == t
                &&& (final(self).accompaniments().len() == old(self).accompaniments().len() + 1
                    <==> (old(self).accompaniments().len() == 0 || t - old(self).last_event()
                    >= old(self).silence()))
                &&& if old(self).phrase_open(t) {
                    &&& final(self).accompaniments() == append_to_last(
                        old(self).accompaniments(),
                        (t - old(self).phrase_start()) as u64,
                        event,
                    )
                    &&& final(self).phrase_start() == old(self).phrase_start()
                } else {
                    &&& final(self).accompaniments() == old(self).accompaniments().push(
                        seq![(0u64, event)],
                    )
                    &&& final(self).phrase_start() == t
                }
            },
            old(self).current_mode() == RecordingMode::SoloOver && old(self).solo_duration() is None
                ==> *final(self) == *old(self),
            old(self).current_mode() == RecordingMode::SoloOver && old(self).solo_duration() is Some
                ==> {
                let t = old(self).arrival(now);
                let d = old(self).solo_duration()->0;
                &&& final(self).accompaniments() == old(self).accompaniments()
                &&& final(self).phrase_start() == old(self).phrase_start()
                &&& final(self).solo_start() == old(self).solo_start()
                &&& final(self).last_event() == t
                &&& final(self).clock() == t
                &&& if t - old(self).solo_start() > d {
                    &&& final(self).solo_duration() is None
                    &&& final(self).solos() == old(self).solos()
                } else {
                    &&& final(self).solo_duration() == old(self).solo_duration()
                    &&& final(self).solos() == append_to_last(
                        old(self).solos(),
                        (t - old(self).solo_start()) as u64,
                        event,
                    )
                }
            },
    {
        let t = if now < self.clock {
            self.clock
        } else {
            now
        };
        match self.mode {
            RecordingMode::Playthrough => {},
            RecordingMode::Record => {
                let open = self.accompaniments.len() > 0 && t - self.last_event < self.timeout;
                let ghost old_acc = self.accompaniments();
                if !open {
                    self.accompaniments.push(Recording::new());
                    self.phrase_start = t;
                    assert(self.accompaniments() =~= old_acc.push(Seq::empty()));
                }
                let ghost before = self.accompaniments();
                let mut last = self.accompaniments.pop().unwrap();
                last.add_message(t - self.phrase_start, event);
                self.accompaniments.push(last);
                self.last_event = t;
                self.clock = t;
                assert(self.accompaniments() =~= append_to_last(
                    before,
                    (t - self.phrase_start) as u64,
                    event,
                ));
                proof {
                    let off = (t - self.phrase_start) as u64;
                    assert forall|k: int| 0 <= k < before.last().len() implies #[trigger] before.last()[k].0
                        <= off by {}
                    lemma_push_ordered(before.last(), off, event);
                    assert forall|i: int| 0 <= i < self.accompaniments().len() implies offsets_ordered(
                        #[trigger] self.accompaniments()[i],
                    ) by {
                        if i < before.len() - 1 {
                            assert(self.accompaniments()[i] == before[i]);
                            assert(before[i] == old_acc[i]);
                        }
                    }
                }
            },
            RecordingMode::SoloOver => {
                match self.solo_duration {
                    Some(d) => {
                        let so_far = t - self.solo_start;
                        if so_far > d {
                            self.solo_duration = None;
                        } else {
                            let ghost before = self.solos();
                            let mut last = self.solos.pop().unwrap();
                            last.add_message(so_far, event);
                            self.solos.push(last);
                            assert(self.solos() =~= append_to_last(before, so_far, event));
                            proof {
                                lemma_push_ordered(before.last(), so_far, event);
                                assert forall|i: int| 0 <= i < self.solos().len() implies offsets_ordered(
                                    #[trigger] self.solos()[i],
                                ) by {
                                    if i < before.len() - 1 {
                                        assert(self.solos()[i] == before[i]);
                                    }
                                }
                            }
                        }
                        self.last_event = t;
                        self.clock = t;
                    },
                    None => {},
                }
            },
        }
    }
    /// Begins a solo session over accompaniment `selected` at time `now`,
    /// unless one is already in progress, in which case nothing changes and
    /// the result is `false`. The caller plays the backing phrase when the
    /// result is `true`.
    pub fn start_solo(&mut self, selected: usize, now: u64) -> (r: bool)
        requires
            old(self).wf(),
            old(self).current_mode() == RecordingMode::SoloOver,
            selected < old(self).accompaniments().len(),
        ensures
            final(self).wf(),
            r == (old(self).solo_duration() is None),
            !r ==> *final(self) == *old(self),
            r ==> {
                let t = old(self).arrival(now);
                &&& final(self).solo_duration() == Some(
                    duration_of(old(self).accompaniments()[selected as int]),
                )
                &&& final(self).solos() == old(self).solos().push(Seq::empty())
                &&& final(self).solo_start() == t
                &&& final(self).clock() == t
                &&& final(self).accompaniments() == old(self).accompaniments()
                &&& final(self).last_event() == old(self).last_event()
                &&& final(self).phrase_start() == old(self).phrase_start()
                &&& final(self).silence() == old(self).silence()
                &&& final(self).current_mode() == old(self).current_mode()
                &&& final(self).port_name() == old(self).port_name()
            },
    {
        if self.solo_duration.is_some() {
            return false;
        }
        let t = if now < self.clock {
            self.clock
        } else {
            now
        };
        let d = self.accompaniments[selected].duration();
        let ghost old_solos = self.solos();
        self.solo_duration = Some(d);
        self.solos.push(Recording::new());
        self.solo_start = t;
        self.clock = t;
        proof {
            assert(self.solos() =~= old_solos.push(Seq::empty()));
            assert forall|i: int| 0 <= i < self.solos().len() implies offsets_ordered(
                #[trigger] self.solos()[i],
            ) by {
                if i < old_solos.len() {
                    assert(self.solos()[i] == old_solos[i]);
                }
            }
        }
        true
    }

    /// Number of stored accompaniments.
    pub fn len(&self) -> (r: usize)
        ensures
            r == self.accompaniments().len(),
    {
        self.accompaniments.len()
    }

    pub fn is_empty(&self) -> (r: bool)
        ensures
            r == (self.accompaniments().len() == 0),
    {
        self.accompaniments.len() == 0
    }

    /// The accompaniment at `index`, oldest first.
    pub fn index(&self, index: usize) -> (r: &Recording<E>)
        requires
            index < self.accompaniments().len(),
        ensures
            r@ == self.accompaniments()[index as int],
    {
        &self.accompaniments[index]
    }

    /// Number of stored solos.
    pub fn solo_count(&self) -> (r: usize)
        ensures
            r == self.solos().len(),
    {
        self.solos.len()
    }

    /// The solo at `index`, oldest first.
    pub fn solo(&self, index: usize) -> (r: &Recording<E>)
        requires
            index < self.solos().len(),
        ensures
            r@ == self.solos()[index as int],
    {
        &self.solos[index]
    }

    pub fn input_port_name(&self) -> (r: &str)
        ensures
            r@ == self.port_name(),
    {
        self.input_port_name.as_str()
    }

    /// An accompaniment phrase is still open at time `now`.
    pub fn actively_recording(&self, now: u64) -> (r: bool)
        requires
            self.wf(),
        ensures
            r == self.phrase_open(self.arrival(now)),
    {
        let t = if now < self.clock {
            self.clock
        } else {
            now
        };
        self.accompaniments.len() > 0 && t - self.last_event < self.timeout
    }

    /// A solo session is in progress.
    pub fn actively_soloing(&self) -> (r: bool)
        ensures
            r == (self.solo_duration() is Some),
    {
        self.solo_duration.is_some()
    }

    pub fn mode(&self) -> (r: RecordingMode)
        ensures
            r == self.current_mode(),
    {
        self.mode
    }

    /// Switches mode; stored phrases are left as they are.
    pub fn set_mode(&mut self, mode: RecordingMode)
        requires
            old(self).wf(),
        ensures
            final(self).wf(),
            final(self).current_mode() == mode,
            final(self).accompaniments() == old(self).accompaniments(),
            final(self).solos() == old(self).solos(),
            final(self).solo_duration() == old(self).solo_duration(),
            final(self).last_event() == old(self).last_event(),
            final(self).phrase_start() == old(self).phrase_start(),
            final(self).solo_start() == old(self).solo_start(),
            final(self).clock() == old(self).clock(),
            final(self).silence() == old(self).silence(),
            final(self).port_name() == old(self).port_name(),
    {
        self.mode = mode;
        assert(self.accompaniments() == old(self).accompaniments());
        assert(self.solos() == old(self).solos());
    }

    /// The silence threshold, in microseconds.
    pub fn timeout(&self) -> (r: u64)
        ensures
            r == self.silence(),
    {
        self.timeout
    }

    pub fn set_timeout(&mut self, timeout: u64)
        requires
            old(self).wf(),
        ensures
            final(self).wf(),
            final(self).silence() == timeout,
            final(self).current_mode() == old(self).current_mode(),
            final(self).accompaniments() == old(self).accompaniments(),
            final(self).solos() == old(self).solos(),
            final(self).solo_duration() == old(self).solo_duration(),
            final(self).last_event() == old(self).last_event(),
            final(self).phrase_start() == old(self).phrase_start(),
            final(self).solo_start() == old(self).solo_start(),
            final(self).clock() == old(self).clock(),
            final(self).port_name() == old(self).port_name(),
    {
        self.timeout = timeout;
        assert(self.accompaniments() == old(self).accompaniments());
        assert(self.solos() == old(self).solos());
    }
}

} // verus!
