//! The rewind timeline: the working state of the simulation together with
//! the append-only history of its snapshots, the position slider and the
//! pause flag.
//!
//! While running, every recorded state is appended to the history and the
//! slider follows the newest entry. While paused, the slider is free and the
//! working state is whatever history entry the slider selects. Resuming after
//! a scrub continues from the selected entry; the entries behind it stay
//! where they are, and new ones are appended after them.

use vstd::prelude::*;

verus! {

/// What a [`Timeline`] holds, as mathematical values.
pub struct TimelineView<S> {
    /// The working state.
    pub state: S,
    /// The snapshots taken so far, oldest first.
    pub history: Seq<S>,
    /// The position slider.
    pub slider: nat,
    /// Index of the history entry that the working state was last taken from
    /// or recorded as.
    pub current: nat,
    /// Whether the simulation is paused.
    pub paused: bool,
}

impl<S> TimelineView<S> {
    /// The history is never empty, and both indices point into it.
    pub open spec fn wf(self) -> bool {
        &&& self.history.len() >= 1
        &&& self.slider < self.history.len()
        &&& self.current < self.history.len()
    }

    /// Index of the newest history entry.
    pub open spec fn max_index(self) -> int {
        self.history.len() - 1
    }

    /// A fresh timeline: running, with `state` as working state and as the
    /// only history entry.
    pub open spec fn initial(state: S) -> Self {
        TimelineView { state, history: seq![state], slider: 0, current: 0, paused: false }
    }

    /// The state that the next update starts from: the working state, or,
    /// after a scrub away from the newest entry, the entry under the slider.
    pub open spec fn base(self) -> S {
        if self.current != self.max_index() {
            self.history[self.slider as int]
        } else {
            self.state
        }
    }

    /// The timeline after `next` was recorded. While running, `next` becomes
    /// the working state and the newest history entry, and slider and current
    /// index move to it. While paused nothing is recorded.
    pub open spec fn recorded(self, next: S) -> Self {
        if self.paused {
            self
        } else {
            TimelineView {
                state: next,
                history: self.history.push(next),
                slider: self.history.len(),
                current: self.history.len(),
                paused: false,
            }
        }
    }

    /// The timeline after a paused frame: the working state is the history
    /// entry under the slider. While running nothing changes.
    pub open spec fn scrubbed(self) -> Self {
        if self.paused {
            TimelineView { state: self.history[self.slider as int], current: self.slider, ..self }
        } else {
            self
        }
    }

    /// The timeline after the slider was set to `value`. A value past the
    /// newest entry is ignored.
    pub open spec fn with_slider(self, value: int) -> Self {
        if 0 <= value <= self.max_index() {
            TimelineView { slider: value as nat, ..self }
        } else {
            self
        }
    }

    /// The timeline after pause was toggled.
    pub open spec fn toggled(self) -> Self {
        TimelineView { paused: !self.paused, ..self }
    }

    /// The timeline after `state` was loaded as the working state.
    pub open spec fn loaded(self, state: S) -> Self {
        TimelineView { state, ..self }
    }
}

/// The working state of a simulation and the history of its snapshots.
///
/// The working state is not stored twice: unless it was loaded from outside,
/// it is the history entry at the current index.
pub struct Timeline<S> {
    history: Vec<S>,
    loaded: Option<S>,
    slider: usize,
    current: usize,
    paused: bool,
}

impl<S> View for Timeline<S> {
    type V = TimelineView<S>;

    closed spec fn view(&self) -> TimelineView<S> {
        TimelineView {
            state: match self.loaded {
                Some(state) => state,
                None => self.history@[self.current as int],
            },
            history: self.history@,
            slider: self.slider as nat,
            current: self.current as nat,
            paused: self.paused,
        }
    }
}

impl<S> Timeline<S> {
    /// Starts a running timeline whose working state and only history entry
    /// is `initial`.
    pub fn new(initial: S) -> (timeline: Self)
        ensures
            timeline@ == TimelineView::initial(initial),
            timeline@.wf(),
    {
        let mut history: Vec<S> = Vec::new();
        history.push(initial);
        let timeline = Timeline { history, loaded: None, slider: 0, current: 0, paused: false };
        assert(timeline@.history =~= seq![initial]);
        timeline
    }

    /// Records `next` as the result of one update. While running it becomes
    /// the working state and is appended to the history, and the slider moves
    /// to it; while paused it is dropped and nothing changes.
    pub fn record(&mut self, next: S) -> (recorded: bool)
        requires
            old(self)@.wf(),
        ensures
            recorded == !old(self)@.paused,
            final(self)@ == old(self)@.recorded(next),
            final(self)@.wf(),
    {
        if self.paused {
            return false;
        }
        self.history.push(next);
        let newest: usize = self.history.len() - 1;
        self.slider = newest;
        self.current = newest;
        self.loaded = None;
        true
    }

    /// Runs a paused frame: the working state becomes the history entry under
    /// the slider. While running nothing changes.
    pub fn scrub(&mut self) -> (shown: bool)
        requires
            old(self)@.wf(),
        ensures
            shown == old(self)@.paused,
            final(self)@ == old(self)@.scrubbed(),
            final(self)@.wf(),
    {
        if !self.paused {
            return false;
        }
        self.current = self.slider;
        self.loaded = None;
        true
    }

    /// Replaces the working state by `state`, in either mode. History, slider
    /// and current index stay as they are.
    pub fn load(&mut self, state: S)
        requires
            old(self)@.wf(),
        ensures
            final(self)@ == old(self)@.loaded(state),
            final(self)@.wf(),
    {
        self.loaded = Some(state);
    }

    /// Sets the slider to `value` if that is the index of a history entry,
    /// and leaves it alone otherwise.
    pub fn set_slider(&mut self, value: usize) -> (accepted: bool)
        requires
            old(self)@.wf(),
        ensures
            accepted == (value <= old(self)@.max_index()),
            final(self)@ == old(self)@.with_slider(value as int),
            final(self)@.wf(),
    {
        if value < self.history.len() {
            self.slider = value;
            true
        } else {
            false
        }
    }

    /// Pauses a running timeline and resumes a paused one.
    pub fn toggle_pause(&mut self)
        requires
            old(self)@.wf(),
        ensures
            final(self)@ == old(self)@.toggled(),
            final(self)@.wf(),
    {
        self.paused = !self.paused;
    }

    /// The state that the next update starts from.
    pub fn base(&self) -> (state: &S)
        requires
            self@.wf(),
        ensures
            *state == self@.base(),
    {
        if self.current != self.history.len() - 1 {
            &self.history[self.slider]
        } else {
            self.state()
        }
    }

    /// The working state.
    pub fn state(&self) -> (state: &S)
        requires
            self@.wf(),
        ensures
            *state == self@.state,
    {
        match &self.loaded {
            Some(state) => state,
            None => &self.history[self.current],
        }
    }

    /// The history entry at `index`, if there is one.
    pub fn entry(&self, index: usize) -> (entry: Option<&S>)
        ensures
            index < self@.history.len() ==> entry == Some(&self@.history[index as int]),
            index >= self@.history.len() ==> entry.is_none(),
    {
        if index < self.history.len() {
            Some(&self.history[index])
        } else {
            None
        }
    }

    /// Number of history entries.
    pub fn len(&self) -> (len: usize)
        requires
            self@.wf(),
        ensures
            len == self@.history.len(),
    {
        self.history.len()
    }

    /// Index of the newest history entry, the upper end of the slider.
    pub fn max_index(&self) -> (index: usize)
        requires
            self@.wf(),
        ensures
            index == self@.max_index(),
    {
        self.history.len() - 1
    }

    /// The position slider.
    pub fn slider(&self) -> (value: usize)
        ensures
            value == self@.slider,
    {
        self.slider
    }

    /// Index of the history entry that the working state was last taken from
    /// or recorded as.
    pub fn current_index(&self) -> (index: usize)
        ensures
            index == self@.current,
    {
        self.current
    }

    /// Whether the timeline is paused.
    pub fn is_paused(&self) -> (paused: bool)
        ensures
            paused == self@.paused,
    {
        self.paused
    }
}

/// Well-formedness is an invariant: whatever is done to a well-formed
/// timeline, the result is well formed.
pub proof fn lemma_operations_keep_wf<S>(v: TimelineView<S>, next: S, value: int, state: S)
    requires
        v.wf(),
    ensures
        TimelineView::initial(state).wf(),
        v.recorded(next).wf(),
        v.scrubbed().wf(),
        v.with_slider(value).wf(),
        v.toggled().wf(),
        v.loaded(state).wf(),
{
}

/// The history never shrinks and never changes an entry it holds: after any
/// operation the old history is a prefix of the new one. Only recording
/// while running changes it at all, and then by exactly the recorded state;
/// while paused it stays as it is.
pub proof fn lemma_history_only_grows<S>(v: TimelineView<S>, next: S, value: int, state: S)
    requires
        v.wf(),
    ensures
        v.history.is_prefix_of(v.recorded(next).history),
        !v.paused ==> v.recorded(next).history == v.history.push(next),
        v.paused ==> v.recorded(next).history == v.history,
        v.scrubbed().history == v.history,
        v.with_slider(value).history == v.history,
        v.toggled().history == v.history,
        v.loaded(state).history == v.history,
{
    assert(v.history.push(next).subrange(0, v.history.len() as int) =~= v.history);
    assert(v.history.subrange(0, v.history.len() as int) =~= v.history);
}

/// Recording while running appends: the recorded state is the newest entry
/// and the working state, and slider and current index point at it.
pub proof fn lemma_record_follows_newest<S>(v: TimelineView<S>, next: S)
    requires
        v.wf(),
        !v.paused,
    ensures
        v.recorded(next).history.len() == v.history.len() + 1,
        v.recorded(next).history.last() == next,
        v.recorded(next).state == next,
        v.recorded(next).slider == v.recorded(next).max_index(),
        v.recorded(next).current == v.recorded(next).max_index(),
        v.recorded(next).base() == next,
{
}

/// Scrubbing while paused: once the slider is set to the index `i` of a
/// history entry, the paused frame makes the working state that very entry,
/// and leaves the history as it was.
pub proof fn lemma_scrub_shows_entry<S>(v: TimelineView<S>, i: int)
    requires
        v.wf(),
        v.paused,
        0 <= i <= v.max_index(),
    ensures
        v.with_slider(i).scrubbed().state == v.history[i],
        v.with_slider(i).scrubbed().history == v.history,
        v.with_slider(i).scrubbed().slider == i,
        v.with_slider(i).scrubbed().current == i,
{
}

/// Resuming after a scrub to an entry `i` continues from that entry: it is
/// the state that the next update starts from, and the state recorded next is
/// appended behind the newest entry, not behind `i`.
pub proof fn lemma_resume_continues_from_scrub<S>(v: TimelineView<S>, i: int, next: S)
    requires
        v.wf(),
        v.paused,
        0 <= i <= v.max_index(),
    ensures
        v.with_slider(i).scrubbed().toggled().base() == v.history[i],
        v.with_slider(i).scrubbed().toggled().recorded(next).history == v.history.push(next),
{
}

/// Loading replaces the working state and nothing else: history, slider,
/// current index and pause flag are untouched, in either mode.
pub proof fn lemma_load_keeps_history<S>(v: TimelineView<S>, state: S)
    requires
        v.wf(),
    ensures
        v.loaded(state).state == state,
        v.loaded(state).history == v.history,
        v.loaded(state).max_index() == v.max_index(),
        v.loaded(state).slider == v.slider,
        v.loaded(state).current == v.current,
        v.loaded(state).paused == v.paused,
{
}

} // verus!
