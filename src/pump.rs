use vstd::prelude::*;

use crate::event::Event;

verus! {

/// Whether a key was pressed, repeated or released.
#[derive(Debug, Clone, Copy, PartialEq, Eq, Structural)]
pub enum KeyKind {
    Press,
    Repeat,
    Release,
}

/// One occurrence read from the terminal's input stream.
#[derive(Debug)]
pub enum RawInput {
    Key(crossterm::event::KeyEvent, KeyKind),
    Mouse(crossterm::event::MouseEvent),
    Resize(u16, u16),
    FocusGained,
    FocusLost,
    Paste(String),
}

/// The source that won one race of the pump: the cancellation signal, one of
/// the two timers, or the input stream.
#[derive(Debug)]
pub enum Ready {
    Cancelled,
    Tick,
    Render,
    Input(RawInput),
    InputError,
    InputEnded,
}

/// Life of one pump task.
#[derive(Debug, Clone, Copy, PartialEq, Eq, Structural)]
pub enum PumpPhase {
    /// `Init` has not been emitted yet.
    Fresh,
    /// Emitting events.
    Running,
    /// Cancelled, or its receiver has gone: nothing more is emitted.
    Stopped,
}

/// The decisions of the event pump, one race at a time.
#[derive(Debug)]
pub struct Pump {
    pub phase: PumpPhase,
}

/// The event that one race yields while the pump runs.
pub open spec fn event_of(r: Ready) -> Option<Event> {
    match r {
        Ready::Cancelled => None,
        Ready::Tick => Some(Event::Tick),
        Ready::Render => Some(Event::Render),
        Ready::Input(RawInput::Key(k, kind)) => if kind == KeyKind::Press {
            Some(Event::Key(k))
        } else {
            None
        },
        Ready::Input(RawInput::Mouse(m)) => Some(Event::Mouse(m)),
        Ready::Input(RawInput::Resize(w, h)) => Some(Event::Resize(w, h)),
        Ready::Input(RawInput::FocusGained) => Some(Event::FocusGained),
        Ready::Input(RawInput::FocusLost) => Some(Event::FocusLost),
        Ready::Input(RawInput::Paste(s)) => Some(Event::Paste(s)),
        Ready::InputError => Some(Event::Error),
        Ready::InputEnded => None,
    }
}

pub open spec fn as_seq(e: Option<Event>) -> Seq<Event> {
    match e {
        Some(e) => seq![e],
        None => Seq::empty(),
    }
}

/// The events that a running pump emits for the races `rs`, up to the first cancellation.
pub open spec fn run(rs: Seq<Ready>) -> Seq<Event>
    decreases rs.len(),
{
    if rs.len() == 0 || rs[0] is Cancelled {
        Seq::empty()
    } else {
        as_seq(event_of(rs[0])) + run(rs.skip(1))
    }
}

/// Everything a pump emits over its life: `Init` first, then what the races yield.
pub open spec fn emitted(rs: Seq<Ready>) -> Seq<Event> {
    seq![Event::Init] + run(rs)
}

pub open spec fn is_press(r: Ready) -> bool {
    r matches Ready::Input(RawInput::Key(_, KeyKind::Press))
}

/// Key presses among the races `rs` before the first cancellation.
pub open spec fn presses(rs: Seq<Ready>) -> nat
    decreases rs.len(),
{
    if rs.len() == 0 || rs[0] is Cancelled {
        0
    } else {
        (if is_press(rs[0]) { 1nat } else { 0nat }) + presses(rs.skip(1))
    }
}

/// `Key` events in `es`.
pub open spec fn key_events(es: Seq<Event>) -> nat
    decreases es.len(),
{
    if es.len() == 0 {
        0
    } else {
        (if es[0] is Key { 1nat } else { 0nat }) + key_events(es.skip(1))
    }
}

pub proof fn lemma_key_events_append(a: Seq<Event>, b: Seq<Event>)
    ensures
        key_events(a + b) == key_events(a) + key_events(b),
    decreases a.len(),
{
    if a.len() == 0 {
        assert(a + b =~= b);
    } else {
        lemma_key_events_append(a.skip(1), b);
        assert((a + b).skip(1) =~= a.skip(1) + b);
    }
}

/// Only key presses come out as `Key` events: each press before the
/// cancellation gives one, and a release or a repeat gives none.
pub proof fn lemma_key_press_only(rs: Seq<Ready>)
    ensures
        key_events(emitted(rs)) == presses(rs),
    decreases rs.len(),
{
    lemma_key_events_append(seq![Event::Init], run(rs));
    assert(key_events(seq![Event::Init]) == 0) by {
        assert(seq![Event::Init].skip(1) =~= Seq::<Event>::empty());
        assert(key_events(Seq::<Event>::empty()) == 0);
    }
    lemma_run_key_events(rs);
}

proof fn lemma_run_key_events(rs: Seq<Ready>)
    ensures
        key_events(run(rs)) == presses(rs),
    decreases rs.len(),
{
    if rs.len() > 0 && !(rs[0] is Cancelled) {
        lemma_run_key_events(rs.skip(1));
        lemma_key_events_append(as_seq(event_of(rs[0])), run(rs.skip(1)));
        match event_of(rs[0]) {
            Some(e) => {
                assert(seq![e].skip(1) =~= Seq::<Event>::empty());
                assert(key_events(Seq::<Event>::empty()) == 0);
                assert(key_events(seq![e]) == (if e is Key { 1nat } else { 0nat }));
                assert((e is Key) == is_press(rs[0]));
            },
            None => {
                assert(as_seq(event_of(rs[0])) =~= Seq::<Event>::empty());
                assert(key_events(Seq::<Event>::empty()) == 0);
                assert(!is_press(rs[0]));
            },
        }
    }
}

/// Once the cancellation signal has won a race, nothing that follows it is emitted.
pub proof fn lemma_cancel_is_final(pre: Seq<Ready>, post: Seq<Ready>)
    ensures
        emitted(pre.push(Ready::Cancelled) + post) == emitted(pre.push(Ready::Cancelled)),
    decreases pre.len(),
{
    lemma_run_cancel(pre, post);
}

proof fn lemma_run_cancel(pre: Seq<Ready>, post: Seq<Ready>)
    ensures
        run(pre.push(Ready::Cancelled) + post) == run(pre.push(Ready::Cancelled)),
    decreases pre.len(),
{
    let a = pre.push(Ready::Cancelled);
    if pre.len() > 0 {
        lemma_run_cancel(pre.skip(1), post);
        assert((a + post).skip(1) =~= pre.skip(1).push(Ready::Cancelled) + post);
        assert(a.skip(1) =~= pre.skip(1).push(Ready::Cancelled));
        assert((a + post)[0] == a[0]);
    } else {
        assert((a + post)[0] == Ready::Cancelled);
    }
}

impl Pump {
    /// A pump that has not started.
    pub fn new() -> (r: Pump)
        ensures
            r.phase == PumpPhase::Fresh,
    {
        Pump { phase: PumpPhase::Fresh }
    }

    /// Whether the pump still emits events.
    pub fn is_running(&self) -> (r: bool)
        ensures
            r == (self.phase != PumpPhase::Stopped),
    {
        !matches!(self.phase, PumpPhase::Stopped)
    }

    /// The lifecycle marker that a fresh pump emits once, before its first race.
    pub fn begin(&mut self) -> (r: Option<Event>)
        ensures
            old(self).phase == PumpPhase::Fresh ==> r == Some(Event::Init) && final(self).phase
                == PumpPhase::Running,
            old(self).phase != PumpPhase::Fresh ==> r is None && final(self).phase == old(
                self,
            ).phase,
    {
        match self.phase {
            PumpPhase::Fresh => {
                self.phase = PumpPhase::Running;
                Some(Event::Init)
            },
            _ => None,
        }
    }

    /// Takes the outcome of one race and gives the event to emit, if any. The
    /// cancellation signal stops the pump; a stopped pump emits nothing more.
    pub fn step(&mut self, ready: Ready) -> (r: Option<Event>)
        requires
            old(self).phase != PumpPhase::Fresh,
        ensures
            old(self).phase == PumpPhase::Stopped ==> r is None && final(self).phase
                == PumpPhase::Stopped,
            old(self).phase == PumpPhase::Running ==> r == event_of(ready) && final(self).phase
                == (if ready is Cancelled {
                PumpPhase::Stopped
            } else {
                PumpPhase::Running
            }),
    {
        if matches!(self.phase, PumpPhase::Stopped) {
            return None;
        }
        match ready {
            Ready::Cancelled => {
                self.phase = PumpPhase::Stopped;
                None
            },
            Ready::Tick => Some(Event::Tick),
            Ready::Render => Some(Event::Render),
            Ready::Input(input) => match input {
                RawInput::Key(k, kind) => match kind {
                    KeyKind::Press => Some(Event::Key(k)),
                    _ => None,
                },
                RawInput::Mouse(m) => Some(Event::Mouse(m)),
                RawInput::Resize(w, h) => Some(Event::Resize(w, h)),
                RawInput::FocusGained => Some(Event::FocusGained),
                RawInput::FocusLost => Some(Event::FocusLost),
                RawInput::Paste(s) => Some(Event::Paste(s)),
            },
            Ready::InputError => Some(Event::Error),
            Ready::InputEnded => None,
        }
    }

    /// The receiver of the events has gone: the pump ends quietly.
    pub fn receiver_gone(&mut self)
        ensures
            final(self).phase == PumpPhase::Stopped,
    {
        self.phase = PumpPhase::Stopped;
    }
}

} // verus!
