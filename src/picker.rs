//! The live / frozen picker: which sample is held, when to capture, and the
//! history of frozen colours. Capturing itself happens outside: [`Picker::poll`]
//! says whether to capture and [`Picker::complete`] takes the outcome.
use vstd::prelude::*;

use crate::color::Rgb;
use crate::geometry::Point;
use crate::history::{
    history_ok, lemma_remember_keeps_history_ok, lemma_remember_twice, lemma_replay_history_ok, remember, remember_color,
    replay, restore_history,
};
use crate::region::{swatch_sample, Sample, SampleView};

verus! {

/// Fewest milliseconds between two live captures.
pub const CAPTURE_INTERVAL_MS: u64 = 50;

/// What the input source reports once per tick.
#[derive(Clone, Copy, Debug, PartialEq, Eq, Structural)]
pub struct Input {
    /// Cursor position in virtual-desktop coordinates.
    pub point: Point,
    /// The freeze key is down; a freeze is requested when it goes down.
    pub freeze_down: bool,
    /// The release key is down.
    pub unfreeze_down: bool,
    /// A monotonic clock, in milliseconds.
    pub now_ms: u64,
}

/// What the caller is to do after a tick's decisions.
#[derive(Clone, Copy, Debug, PartialEq, Eq, Structural)]
pub enum TickAction {
    /// Nothing to capture.
    Idle,
    /// Capture at `point` and hand the outcome to [`Picker::complete`];
    /// with `freeze`, the new sample is frozen once stored.
    Capture { point: Point, freeze: bool },
}

/// The picker's state. Frozen exactly when a frozen sample is held.
pub struct Picker {
    current: Option<Sample>,
    frozen: Option<Sample>,
    history: Vec<Rgb>,
    freeze_held: bool,
    last_capture: Option<u64>,
}

/// What a [`Picker`] holds, as plain values.
pub struct PickerView {
    /// The latest live sample, if any capture has succeeded.
    pub current: Option<SampleView>,
    /// The frozen sample; `None` while live.
    pub frozen: Option<SampleView>,
    /// Frozen colours, oldest first.
    pub history: Seq<Rgb>,
    /// The freeze key was down at the previous tick.
    pub freeze_held: bool,
    /// Clock reading of the last capture that was asked for.
    pub last_capture: Option<u64>,
}

/// The view of an optional sample.
pub open spec fn sample_view(s: Option<Sample>) -> Option<SampleView> {
    match s {
        Some(x) => Some(x@),
        None => None,
    }
}

impl View for Picker {
    type V = PickerView;

    closed spec fn view(&self) -> PickerView {
        PickerView {
            current: sample_view(self.current),
            frozen: sample_view(self.frozen),
            history: self.history@,
            freeze_held: self.freeze_held,
            last_capture: self.last_capture,
        }
    }
}

/// The state before any tick, with the given history.
pub open spec fn start(history: Seq<Rgb>) -> PickerView {
    PickerView { current: None, frozen: None, history, freeze_held: false, last_capture: None }
}

/// Freezing the live sample: it becomes the frozen one and its colour is
/// remembered. Without a live sample nothing changes.
pub open spec fn freeze_now(s: PickerView) -> PickerView {
    match s.current {
        Some(c) => PickerView { frozen: Some(c), history: remember(s.history, c.color), ..s },
        None => s,
    }
}

/// Dropping the frozen sample: live again.
pub open spec fn release(s: PickerView) -> PickerView {
    PickerView { frozen: None, ..s }
}

/// A capture outcome: a new sample replaces the live one, a failure keeps it.
pub open spec fn store(s: PickerView, outcome: Option<SampleView>) -> PickerView {
    match outcome {
        Some(x) => PickerView { current: Some(x), ..s },
        None => s,
    }
}

/// Frozen on a colour picked from history.
pub open spec fn pick(s: PickerView, c: Rgb) -> PickerView {
    PickerView { frozen: Some(swatch_sample(c)), ..s }
}

/// A live capture is due at `now` after one asked for at `last`.
pub open spec fn capture_due(last: Option<u64>, now: u64) -> bool {
    match last {
        Some(t) => now >= t + CAPTURE_INTERVAL_MS,
        None => true,
    }
}

/// A freeze request at `point`: while live the live sample is frozen at once;
/// while frozen a capture is asked for, whose sample is then frozen. The
/// frozen sample stays until then, and stays as well when the capture fails
/// and no live sample is held.
pub open spec fn freeze_request(s: PickerView, point: Point, now: u64) -> (PickerView, TickAction) {
    if s.frozen is Some {
        (PickerView { last_capture: Some(now), ..s }, TickAction::Capture { point, freeze: true })
    } else {
        (freeze_now(s), TickAction::Idle)
    }
}

/// One tick's decisions: a freeze request when the freeze key goes down;
/// else release while the release key is down; else, while live, a capture
/// at the cursor when one is due.
pub open spec fn tick(s: PickerView, i: Input) -> (PickerView, TickAction) {
    let pressed = i.freeze_down && !s.freeze_held;
    let s1 = PickerView { freeze_held: i.freeze_down, ..s };
    if pressed {
        freeze_request(s1, i.point, i.now_ms)
    } else if i.unfreeze_down {
        (release(s1), TickAction::Idle)
    } else if s1.frozen is Some {
        (s1, TickAction::Idle)
    } else if capture_due(s1.last_capture, i.now_ms) {
        (
            PickerView { last_capture: Some(i.now_ms), ..s1 },
            TickAction::Capture { point: i.point, freeze: false },
        )
    } else {
        (s1, TickAction::Idle)
    }
}

/// The state once the outcome of the capture that `a` asked for is in.
pub open spec fn complete_tick(s: PickerView, a: TickAction, outcome: Option<SampleView>) -> PickerView {
    match a {
        TickAction::Idle => s,
        TickAction::Capture { freeze, .. } => {
            let s1 = store(s, outcome);
            if freeze {
                freeze_now(s1)
            } else {
                s1
            }
        },
    }
}

/// The sample on show: the frozen one, else the live one.
pub open spec fn active(s: PickerView) -> Option<SampleView> {
    if s.frozen is Some {
        s.frozen
    } else {
        s.current
    }
}

/// With a live sample held, freezing, releasing and freezing again with no
/// capture between leaves the state as after the first freeze: the same
/// sample frozen, and its colour remembered once.
pub proof fn lemma_refreeze_idempotent(s: PickerView)
    requires
        s.current is Some,
    ensures
        freeze_now(release(freeze_now(s))) == freeze_now(s),
{
    if let Some(c) = s.current {
        lemma_remember_twice(s.history, c.color);
    }
}

/// With the cursor held still, pressing the freeze key, then the release key
/// (freeze key up), then the freeze key again, freezes the live sample that
/// was there before the first press, asks for no capture, and remembers its
/// colour once.
pub proof fn lemma_refreeze_stationary(s: PickerView, p: Point, t1: u64, t2: u64, t3: u64)
    requires
        s.frozen is None,
        !s.freeze_held,
    ensures
        ({
            let (s1, a1) = tick(s, (Input { point: p, freeze_down: true, unfreeze_down: false, now_ms: t1 }));
            let (s2, a2) = tick(s1, (Input { point: p, freeze_down: false, unfreeze_down: true, now_ms: t2 }));
            let (s3, a3) = tick(s2, (Input { point: p, freeze_down: true, unfreeze_down: false, now_ms: t3 }));
            &&& a1 == TickAction::Idle
            &&& a2 == TickAction::Idle
            &&& a3 == TickAction::Idle
            &&& s1.frozen == s.current
            &&& s3.frozen == s.current
            &&& s3.history == s1.history
        }),
{
    if let Some(c) = s.current {
        lemma_remember_twice(s.history, c.color);
    }
}

/// A freeze request while frozen stays frozen whatever its capture brings:
/// on the new sample when the capture succeeds, else on the live sample, else
/// on the sample that was frozen before.
pub proof fn lemma_refreeze_stays_frozen(s: PickerView, p: Point, now: u64, outcome: Option<SampleView>)
    requires
        s.frozen is Some,
    ensures
        ({
            let (s1, a) = freeze_request(s, p, now);
            let s2 = complete_tick(s1, a, outcome);
            &&& s1.frozen == s.frozen
            &&& s2.frozen == if outcome is Some {
                outcome
            } else if s.current is Some {
                s.current
            } else {
                s.frozen
            }
        }),
{
}

/// Every transition keeps the history at most [`MAX_HISTORY`] colours long
/// and free of a colour directly after an equal one; so does every start.
pub proof fn lemma_transitions_keep_history_ok(
    s: PickerView,
    i: Input,
    a: TickAction,
    outcome: Option<SampleView>,
    p: Point,
    now: u64,
    c: Rgb,
    colors: Seq<Rgb>,
)
    requires
        history_ok(s.history),
    ensures
        history_ok(start(replay(colors)).history),
        history_ok(tick(s, i).0.history),
        history_ok(complete_tick(s, a, outcome).history),
        history_ok(freeze_request(s, p, now).0.history),
        history_ok(freeze_now(s).history),
        history_ok(release(s).history),
        history_ok(pick(s, c).history),
{
    lemma_replay_history_ok(colors);
    if let Some(x) = s.current {
        lemma_remember_keeps_history_ok(s.history, x.color);
    }
    if let Some(x) = outcome {
        lemma_remember_keeps_history_ok(s.history, x.color);
    }
}

impl Picker {
    #[verifier::type_invariant]
    spec fn inv(&self) -> bool {
        history_ok(self.history@)
    }

    /// Live, with no sample and an empty history.
    pub fn new() -> (p: Picker)
        ensures
            p@ == start(Seq::empty()),
    {
        Picker { current: None, frozen: None, history: Vec::new(), freeze_held: false, last_capture: None }
    }

    /// Live, with no sample and the history that remembering `colors` in
    /// order gives.
    pub fn with_history(colors: &Vec<Rgb>) -> (p: Picker)
        ensures
            p@ == start(replay(colors@)),
    {
        let history = restore_history(colors);
        Picker { current: None, frozen: None, history, freeze_held: false, last_capture: None }
    }

    /// Freezes the live sample, if any, and remembers its colour.
    fn freeze_current(&mut self)
        ensures
            final(self)@ == freeze_now(old(self)@),
    {
        let copy = match &self.current {
            Some(c) => Some(c.duplicate()),
            None => None,
        };
        if let Some(c) = copy {
            let color = c.color;
            proof {
                use_type_invariant(&*self);
                lemma_remember_keeps_history_ok(self.history@, color);
            }
            self.frozen = Some(c);
            let mut history: Vec<Rgb> = Vec::new();
            std::mem::swap(&mut history, &mut self.history);
            remember_color(&mut history, color);
            self.history = history;
        }
    }

    /// A freeze request at `point` (the freeze command): see [`freeze_request`].
    pub fn request_freeze(&mut self, point: Point, now_ms: u64) -> (a: TickAction)
        ensures
            (final(self)@, a) == freeze_request(old(self)@, point, now_ms),
    {
        proof {
            use_type_invariant(&*self);
        }
        if self.frozen.is_some() {
            self.last_capture = Some(now_ms);
            TickAction::Capture { point, freeze: true }
        } else {
            self.freeze_current();
            TickAction::Idle
        }
    }

    /// Drops the frozen sample: live again.
    pub fn unfreeze(&mut self)
        ensures
            final(self)@ == release(old(self)@),
    {
        proof {
            use_type_invariant(&*self);
        }
        self.frozen = None;
    }

    /// Freezes on a colour picked from history.
    pub fn select_history(&mut self, c: Rgb)
        ensures
            final(self)@ == pick(old(self)@, c),
    {
        proof {
            use_type_invariant(&*self);
        }
        self.frozen = Some(Sample::swatch(c));
    }

    /// Empties the history.
    pub fn clear_history(&mut self)
        ensures
            final(self)@ == (PickerView { history: Seq::empty(), ..old(self)@ }),
    {
        self.history = Vec::new();
        assert(self.history@ =~= Seq::<Rgb>::empty());
    }

    /// One tick's decisions on the polled input; see [`tick`].
    pub fn poll(&mut self, input: Input) -> (a: TickAction)
        ensures
            (final(self)@, a) == tick(old(self)@, input),
    {
        proof {
            use_type_invariant(&*self);
        }
        let pressed = input.freeze_down && !self.freeze_held;
        self.freeze_held = input.freeze_down;
        if pressed {
            return self.request_freeze(input.point, input.now_ms);
        }
        if input.unfreeze_down {
            self.frozen = None;
            return TickAction::Idle;
        }
        if self.frozen.is_some() {
            return TickAction::Idle;
        }
        let due = match self.last_capture {
            Some(t) => input.now_ms >= t && input.now_ms - t >= CAPTURE_INTERVAL_MS,
            None => true,
        };
        if due {
            self.last_capture = Some(input.now_ms);
            TickAction::Capture { point: input.point, freeze: false }
        } else {
            TickAction::Idle
        }
    }

    /// Takes the outcome of the capture that `a` asked for (`None` when it
    /// failed); see [`complete_tick`].
    pub fn complete(&mut self, a: TickAction, outcome: Option<Sample>)
        ensures
            final(self)@ == complete_tick(old(self)@, a, sample_view(outcome)),
    {
        proof {
            use_type_invariant(&*self);
        }
        match a {
            TickAction::Idle => {},
            TickAction::Capture { freeze, .. } => {
                if let Some(x) = outcome {
                    self.current = Some(x);
                }
                if freeze {
                    self.freeze_current();
                }
            },
        }
    }

    /// Frozen exactly when a frozen sample is held.
    pub fn is_frozen(&self) -> (r: bool)
        ensures
            r == self@.frozen is Some,
    {
        self.frozen.is_some()
    }

    /// The sample on show; see [`active`].
    pub fn active(&self) -> (r: Option<&Sample>)
        ensures
            match r {
                Some(x) => active(self@) == Some(x@),
                None => active(self@) is None,
            },
    {
        match &self.frozen {
            Some(x) => Some(x),
            None => match &self.current {
                Some(x) => Some(x),
                None => None,
            },
        }
    }

    /// Frozen colours, oldest first: at most [`MAX_HISTORY`], none directly
    /// after an equal one.
    pub fn history(&self) -> (h: &Vec<Rgb>)
        ensures
            h@ == self@.history,
            history_ok(h@),
    {
        proof {
            use_type_invariant(self);
        }
        &self.history
    }
}

} // verus!
