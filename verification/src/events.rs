//! Event codes and the per-event dispatch protocol.
//!
//! An event code is a small closed set of byte values whose mapping to
//! meaning must round-trip exactly between host and foreign runtime.  Each
//! dispatch constructs a complete fresh set of capability closures, invokes
//! the foreign entry point, inspects the returned result tag, and — on
//! success — proceeds to apply the accumulated effect batch.

use vstd::prelude::*;

use crate::closures::Closure;
use crate::closures::CallbackId;
use crate::closures::bound_closure_wf;
use crate::closures::mk_set_app_state;
use crate::closures::mk_fresh_column;
use crate::closures::mk_push_line;
use crate::closures::mk_reset_text;
use crate::effects::Interpreter;
use crate::results::LeanOKCtor;
use crate::results::ok_header;
use crate::scalar::LEAN_UNIT;
use crate::scalar::spec_box_inline;
use crate::scalar::is_inline_word;
use crate::scalar::spec_unbox_inline;
use crate::scalar::unbox_inline;

verus! {

/// The events the host reports to the foreign runtime.
#[derive(Clone, Copy, PartialEq, Eq, Structural, Debug)]
pub enum Event {
    /// Start of the session.
    Init,
    /// A character was typed.
    Char,
    /// Directional input: up.
    Up,
    /// Directional input: down.
    Down,
}

/// The fixed wire code of each event.
pub open spec fn spec_event_code(e: Event) -> u8 {
    match e {
        Event::Init => 0,
        Event::Char => 1,
        Event::Up => 2,
        Event::Down => 3,
    }
}

/// Encodes an event as its wire code.
pub fn event_code(e: Event) -> (c: u8)
    ensures
        c == spec_event_code(e),
{
    match e {
        Event::Init => 0,
        Event::Char => 1,
        Event::Up => 2,
        Event::Down => 3,
    }
}

/// The event a wire code denotes; codes outside the closed set denote none.
pub open spec fn spec_event_from_code(c: u8) -> Option<Event> {
    if c == 0 {
        Some(Event::Init)
    } else if c == 1 {
        Some(Event::Char)
    } else if c == 2 {
        Some(Event::Up)
    } else if c == 3 {
        Some(Event::Down)
    } else {
        None
    }
}

/// Decodes a wire code; codes outside the closed set are rejected.
pub fn event_from_code(c: u8) -> (r: Option<Event>)
    ensures
        r == spec_event_from_code(c),
        r matches Some(e) ==> spec_event_code(e) == c,
        r is None ==> c > 3,
{
    match c {
        0 => Some(Event::Init),
        1 => Some(Event::Char),
        2 => Some(Event::Up),
        3 => Some(Event::Down),
        _ => None,
    }
}

/// The code-to-event mapping round-trips exactly: every event's code is in
/// the closed set and decodes back to that same event, and every code in the
/// closed set encodes back to itself.
pub proof fn lemma_event_code_round_trip(e: Event, c: u8)
    ensures
        spec_event_code(e) <= 3,
        spec_event_from_code(spec_event_code(e)) == Some(e),
        c <= 3 ==> (spec_event_from_code(c) matches Some(d) && spec_event_code(d) == c),
        c > 3 ==> spec_event_from_code(c) is None,
{
}

/// The event-notification callback: decodes the inline-tagged event code,
/// toggles the interpreter's commit marker, and reports success with a unit
/// payload.  The toggling marker has no consumer beyond diagnostics and
/// gates nothing else.
pub fn on_event(interp: &mut Interpreter, evt_word: u64) -> (r: (Event, LeanOKCtor))
    requires
        is_inline_word(evt_word),
        spec_unbox_inline(evt_word) <= 3,
    ensures
        final(interp).effects == old(interp).effects,
        final(interp).committed == !old(interp).committed,
        spec_event_code(r.0) == spec_unbox_inline(evt_word),
        ok_header(r.1.m_header),
        r.1.m_objs_0 == spec_box_inline(0),
        r.1.m_objs_1 == LEAN_UNIT,
{
    let code = unbox_inline(evt_word);
    let e = match event_from_code(code as u8) {
        Some(e) => e,
        None => Event::Init,
    };
    interp.committed = !interp.committed;
    (e, crate::results::lean_io_result_mk_ok(0))
}

/// The complete, fresh set of capability closures constructed for one event
/// dispatch: every capability the foreign runtime may invoke during this
/// call.  Closures are single-use; the whole set is rebuilt for every
/// dispatch, because the foreign collector may reclaim each one as soon as
/// its invocation completes.
pub struct EventClosureSet {
    pub set_app_state: Closure,
    pub fresh_column: Closure,
    pub push_line: Closure,
    pub reset_text: Closure,
}

/// Every closure of the set is well-formed and bound to a fresh external
/// object wrapping the same host state handle under the same class.
pub open spec fn closure_set_wf(s: EventClosureSet, cls: u64, data: u64) -> bool {
    &&& bound_closure_wf(s.set_app_state, CallbackId::SetAppState, cls, data)
    &&& bound_closure_wf(s.fresh_column, CallbackId::FreshColumn, cls, data)
    &&& bound_closure_wf(s.push_line, CallbackId::PushLine, cls, data)
    &&& bound_closure_wf(s.reset_text, CallbackId::ResetText, cls, data)
}

/// Builds the closure set for one dispatch.  Called once per event, never
/// cached: reusing a set from an earlier dispatch would hand the foreign
/// runtime objects its collector may already have reclaimed.
pub fn prepare_event_closures(cls: u64, data: u64) -> (s: EventClosureSet)
    ensures
        closure_set_wf(s, cls, data),
{
    EventClosureSet {
        set_app_state: mk_set_app_state(cls, data),
        fresh_column: mk_fresh_column(cls, data),
        push_line: mk_push_line(cls, data),
        reset_text: mk_reset_text(cls, data),
    }
}

/// Where the host stands in the per-event protocol.
#[derive(Clone, Copy, PartialEq, Eq, Structural, Debug)]
pub enum Phase {
    /// No call in flight.
    Idle,
    /// Closures constructed, foreign entry point invoked, awaiting return.
    Dispatching,
    /// The foreign call returned success; the host is applying the batch.
    Applying,
}

/// The per-event dispatch state machine: `Idle` to `Dispatching` when the
/// closures are built and the foreign entry point is invoked, `Dispatching`
/// to `Applying` when the call returns success, back to `Idle` when the
/// batch has been applied.  A failure reported by the foreign runtime
/// returns to `Idle` carrying the diagnostic tag; this bridge has no in-band
/// recovery for it.
pub struct Dispatch {
    pub phase: Phase,
}

impl Dispatch {
    /// A dispatcher with no call in flight.
    pub fn new() -> (d: Dispatch)
        ensures
            d.phase is Idle,
    {
        Dispatch { phase: Phase::Idle }
    }

    /// Enters `Dispatching`: to be called exactly when a complete fresh
    /// closure set has been built and the foreign entry point is about to be
    /// invoked.
    pub fn begin(&mut self)
        requires
            old(self).phase is Idle,
        ensures
            final(self).phase is Dispatching,
    {
        self.phase = Phase::Dispatching;
    }

    /// Inspects the outer tag of the result the foreign entry point
    /// returned.  A zero tag means success and the host proceeds to apply
    /// the batch; any other tag is a propagated failure surfaced to the
    /// caller with the batch left unapplied.
    pub fn on_return(&mut self, result_tag: u8) -> (r: Result<(), u8>)
        requires
            old(self).phase is Dispatching,
        ensures
            result_tag == 0 ==> final(self).phase is Applying && r is Ok,
            result_tag != 0 ==> final(self).phase is Idle && r == Result::<(), u8>::Err(
                result_tag,
            ),
    {
        if result_tag == 0 {
            self.phase = Phase::Applying;
            Ok(())
        } else {
            self.phase = Phase::Idle;
            Err(result_tag)
        }
    }

    /// Leaves `Applying` once the batch has been drained and reset.
    pub fn finish(&mut self)
        requires
            old(self).phase is Applying,
        ensures
            final(self).phase is Idle,
    {
        self.phase = Phase::Idle;
    }
}


/// The host-side keys this bridge reacts to without a foreign round trip.
#[derive(Clone, Copy, PartialEq, Eq, Structural, Debug)]
pub enum Key {
    /// Directional input: up.
    Up,
    /// Directional input: down.
    Down,
    /// The quit key.
    Q,
    /// Anything else.
    Other,
}

/// What a host-side key press does.
#[derive(Clone, Copy, PartialEq, Eq, Structural, Debug)]
pub enum KeyAction {
    /// Start animating the first column by `dy` pixels over `duration_ms`
    /// milliseconds.
    Animate { dy: i32, duration_ms: u32 },
    /// Leave the event loop.
    Quit,
    /// Nothing.
    Ignore,
}

/// The fixed mapping from host-side keys to actions: up nudges the first
/// column fifty pixels up quickly, down nudges it fifty pixels down slowly,
/// the quit key quits, and every other key does nothing.
pub fn key_down_plan(k: Key) -> (a: KeyAction)
    ensures
        k is Up ==> a == (KeyAction::Animate { dy: -50i32, duration_ms: 100u32 }),
        k is Down ==> a == (KeyAction::Animate { dy: 50i32, duration_ms: 1000u32 }),
        k is Q ==> a is Quit,
        k is Other ==> a is Ignore,
{
    match k {
        Key::Up => KeyAction::Animate { dy: -50, duration_ms: 100 },
        Key::Down => KeyAction::Animate { dy: 50, duration_ms: 1000 },
        Key::Q => KeyAction::Quit,
        Key::Other => KeyAction::Ignore,
    }
}

} // verus!
