//! The agent's state machine: idle, listening, recording a macro, or
//! executing a task; and the recorder that turns input events into a macro.
use vstd::prelude::*;
use crate::modules::io_controller::{EventType, Key};
use crate::modules::macro_engine::{Macro, TimedEvent};
use crate::text::{append_chars, append_str, chars_of, digit_char, string_from, string_of};

verus! {

/// What the agent is doing.
#[allow(non_camel_case_types)]
#[derive(PartialEq, Eq, Structural, Clone, Copy, Debug)]
pub enum AppState {
    IDLE,
    LISTENING,
    RECORDING,
    EXECUTING,
}

/// The outcome of a task.
#[derive(Debug)]
pub struct TaskResult {
    pub success: bool,
    pub message: String,
}

/// Why an operation of the orchestrator failed.
#[derive(Debug)]
pub enum OrchestratorError {
    InvalidStateTransition { from: AppState, to: AppState },
    CognitionError(String),
    ToolingError(String),
    FileSystemError(String),
    EventError(String),
}

/// The perception module.
#[derive(Debug)]
pub struct Perception;

/// The cognition module.
#[derive(Debug)]
pub struct Cognition;

/// The tooling module.
#[derive(Debug)]
pub struct Tooling;

/// The knowledge module.
#[derive(Debug)]
pub struct Knowledge;

/// The name of a state, as it is printed.
pub open spec fn state_name(s: AppState) -> Seq<char> {
    match s {
        AppState::IDLE => "IDLE"@,
        AppState::LISTENING => "LISTENING"@,
        AppState::RECORDING => "RECORDING"@,
        AppState::EXECUTING => "EXECUTING"@,
    }
}

/// The name of a state.
pub fn state_name_str(s: AppState) -> (r: &'static str)
    ensures
        r@ == state_name(s),
{
    match s {
        AppState::IDLE => "IDLE",
        AppState::LISTENING => "LISTENING",
        AppState::RECORDING => "RECORDING",
        AppState::EXECUTING => "EXECUTING",
    }
}

/// The text of each error, as it is shown to users.
pub open spec fn orchestrator_error_text(e: OrchestratorError) -> Seq<char> {
    match e {
        OrchestratorError::InvalidStateTransition { from, to } => "Invalid state transition: Cannot go from "@
            + state_name(from) + " to "@ + state_name(to),
        OrchestratorError::CognitionError(m) => "Cognition module failed: "@ + m@,
        OrchestratorError::ToolingError(m) => "Tooling module failed: "@ + m@,
        OrchestratorError::FileSystemError(m) => "File system error: "@ + m@,
        OrchestratorError::EventError(m) => "Tauri event emission failed: "@ + m@,
    }
}

impl OrchestratorError {
    /// The text of the error.
    pub fn message(&self) -> (r: String)
        ensures
            r@ == orchestrator_error_text(*self),
    {
        let mut out: Vec<char> = Vec::new();
        match self {
            OrchestratorError::InvalidStateTransition { from, to } => {
                append_str(&mut out, "Invalid state transition: Cannot go from ");
                append_str(&mut out, state_name_str(*from));
                append_str(&mut out, " to ");
                append_str(&mut out, state_name_str(*to));
            },
            OrchestratorError::CognitionError(m) => {
                append_str(&mut out, "Cognition module failed: ");
                append_chars(&mut out, &chars_of(m.as_str()));
            },
            OrchestratorError::ToolingError(m) => {
                append_str(&mut out, "Tooling module failed: ");
                append_chars(&mut out, &chars_of(m.as_str()));
            },
            OrchestratorError::FileSystemError(m) => {
                append_str(&mut out, "File system error: ");
                append_chars(&mut out, &chars_of(m.as_str()));
            },
            OrchestratorError::EventError(m) => {
                append_str(&mut out, "Tauri event emission failed: ");
                append_chars(&mut out, &chars_of(m.as_str()));
            },
        }
        string_of(&out)
    }
}

// ---------------------------------------------------------------------------
// The missed Win-key correction
// ---------------------------------------------------------------------------

/// Whether `k` is a modifier key (Control, Shift, Alt, AltGr or Meta).
pub open spec fn is_modifier(k: Key) -> bool {
    ||| k == Key::ControlLeft
    ||| k == Key::ControlRight
    ||| k == Key::ShiftLeft
    ||| k == Key::ShiftRight
    ||| k == Key::Alt
    ||| k == Key::AltGr
    ||| k == Key::MetaLeft
    ||| k == Key::MetaRight
}

fn key_is_modifier(k: Key) -> (r: bool)
    ensures
        r == is_modifier(k),
{
    k == Key::ControlLeft || k == Key::ControlRight || k == Key::ShiftLeft || k == Key::ShiftRight
        || k == Key::Alt || k == Key::AltGr || k == Key::MetaLeft || k == Key::MetaRight
}

/// Index of the first event of type `e` in `s`, searching from `i`.
pub open spec fn event_index(s: Seq<TimedEvent>, e: EventType, i: int) -> Option<int>
    decreases s.len() - i,
{
    if i < 0 || i >= s.len() {
        None
    } else if s[i].event_type == e {
        Some(i)
    } else {
        event_index(s, e, i + 1)
    }
}

proof fn lemma_event_index(s: Seq<TimedEvent>, e: EventType, i: int)
    requires
        i >= 0,
    ensures
        event_index(s, e, i) matches Some(j) ==> i <= j < s.len() && s[j].event_type == e,
    decreases s.len() - i,
{
    if i < s.len() && s[i].event_type != e {
        lemma_event_index(s, e, i + 1);
    }
}

/// Whether a recording starts by typing: its first event presses a key
/// that is not a modifier.
pub open spec fn begins_with_typing(s: Seq<TimedEvent>) -> bool {
    s.len() > 0 && match s[0].event_type {
        EventType::KeyPress(k) => !is_modifier(k),
        _ => false,
    }
}

/// `e` with its delay set to `t` nanoseconds.
pub open spec fn with_delay(e: TimedEvent, t: u64) -> TimedEvent {
    TimedEvent { event_type: e.event_type, time_since_previous: t }
}

/// How long the Win key is held, and how long the Start menu is waited for,
/// after a correction, in nanoseconds.
pub open spec fn win_hold_nanos() -> u64 {
    80_000_000
}

pub open spec fn start_menu_wait_nanos() -> u64 {
    300_000_000
}

/// A recording with a missed initial Win-key press corrected: when it
/// starts by typing, and the first release of the left Win key comes after
/// its first press, that press and release are moved to the front, the
/// press with no delay, the release 80 ms after it, and the event that now
/// comes third 300 ms after that. Any other recording is kept as it is.
pub open spec fn corrected_events(s: Seq<TimedEvent>) -> Seq<TimedEvent> {
    match (
        event_index(s, EventType::KeyPress(Key::MetaLeft), 0),
        event_index(s, EventType::KeyRelease(Key::MetaLeft), 0),
    ) {
        (Some(p), Some(r)) => if begins_with_typing(s) && r > p {
            let moved = seq![s[p], s[r]] + s.remove(r).remove(p);
            moved.update(0, with_delay(moved[0], 0)).update(
                1,
                with_delay(moved[1], win_hold_nanos()),
            ).update(2, with_delay(moved[2], start_menu_wait_nanos()))
        } else {
            s
        },
        _ => s,
    }
}

fn position_of(buf: &Vec<TimedEvent>, e: EventType) -> (r: Option<usize>)
    ensures
        match r {
            Some(j) => event_index(buf@, e, 0) == Some(j as int),
            None => event_index(buf@, e, 0) is None,
        },
{
    let mut i: usize = 0;
    while i < buf.len()
        invariant
            i <= buf.len(),
            event_index(buf@, e, 0) == event_index(buf@, e, i as int),
        decreases buf.len() - i,
    {
        if buf[i].event_type == e {
            return Some(i);
        }
        i = i + 1;
    }
    None
}

/// Corrects a recording whose initial Win-key press was missed, as
/// `corrected_events` describes.
pub fn correct_missed_win_press(buf: &mut Vec<TimedEvent>)
    ensures
        final(buf)@ == corrected_events(old(buf)@),
{
    let ghost s = buf@;
    if buf.len() == 0 {
        return;
    }
    let typing = match buf[0].event_type {
        EventType::KeyPress(k) => !key_is_modifier(k),
        _ => false,
    };
    let press = position_of(buf, EventType::KeyPress(Key::MetaLeft));
    let release = position_of(buf, EventType::KeyRelease(Key::MetaLeft));
    if !typing {
        return;
    }
    match (press, release) {
        (Some(p), Some(r)) => {
            if r > p {
                proof {
                    lemma_event_index(s, EventType::KeyPress(Key::MetaLeft), 0);
                    lemma_event_index(s, EventType::KeyRelease(Key::MetaLeft), 0);
                    assert(p > 0) by {
                        if p == 0 {
                            assert(is_modifier(Key::MetaLeft));
                        }
                    }
                }
                let release_event = buf.remove(r);
                let press_event = buf.remove(p);
                buf.insert(0, release_event);
                buf.insert(0, press_event);
                proof {
                    assert(buf@ =~= seq![s[p as int], s[r as int]] + s.remove(r as int).remove(
                        p as int,
                    ));
                }
                let e0 = buf[0].event_type;
                let e1 = buf[1].event_type;
                let e2 = buf[2].event_type;
                buf.set(0, TimedEvent { event_type: e0, time_since_previous: 0 });
                buf.set(1, TimedEvent { event_type: e1, time_since_previous: 80_000_000 });
                buf.set(2, TimedEvent { event_type: e2, time_since_previous: 300_000_000 });
            }
        },
        _ => {},
    }
}

// ---------------------------------------------------------------------------
// The orchestrator
// ---------------------------------------------------------------------------

/// The agent: its state, the task it is executing, and the macro being
/// recorded.
#[derive(Debug)]
pub struct Orchestrator {
    pub state: AppState,
    pub session_context: Option<String>,
    pub perception: Perception,
    pub cognition: Cognition,
    pub tooling: Tooling,
    pub knowledge: Knowledge,
    pub recording_buffer: Vec<TimedEvent>,
    pub last_event_time: Option<u64>,
    pub last_recorded_event_type: Option<EventType>,
}

/// What an orchestrator holds, as mathematical values.
pub struct OrchestratorView {
    pub state: AppState,
    pub session: Option<Seq<char>>,
    pub events: Seq<TimedEvent>,
    pub last_time: Option<u64>,
    pub last_event: Option<EventType>,
}

/// The view of an optional string.
pub open spec fn session_view(o: Option<String>) -> Option<Seq<char>> {
    match o {
        Some(s) => Some(s@),
        None => None,
    }
}

impl View for Orchestrator {
    type V = OrchestratorView;

    open spec fn view(&self) -> OrchestratorView {
        OrchestratorView {
            state: self.state,
            session: session_view(self.session_context),
            events: self.recording_buffer@,
            last_time: self.last_event_time,
            last_event: self.last_recorded_event_type,
        }
    }
}

/// An idle agent with nothing recorded.
pub open spec fn initial_view() -> OrchestratorView {
    OrchestratorView {
        state: AppState::IDLE,
        session: None,
        events: Seq::empty(),
        last_time: None,
        last_event: None,
    }
}

/// The error for a refused move from `from` to `to`.
pub open spec fn refused(from: AppState, to: AppState) -> OrchestratorError {
    OrchestratorError::InvalidStateTransition { from, to }
}

/// `start_listening`: only from `IDLE`, to `LISTENING`.
pub open spec fn listen_next(o: OrchestratorView) -> Result<OrchestratorView, OrchestratorError> {
    if o.state == AppState::IDLE {
        Ok(OrchestratorView { state: AppState::LISTENING, ..o })
    } else {
        Err(refused(o.state, AppState::LISTENING))
    }
}

/// `start_recording`: only from `IDLE`, to `RECORDING` with an empty
/// recording.
pub open spec fn record_next(o: OrchestratorView) -> Result<OrchestratorView, OrchestratorError> {
    if o.state == AppState::IDLE {
        Ok(
            OrchestratorView {
                state: AppState::RECORDING,
                events: Seq::empty(),
                last_time: None,
                last_event: None,
                ..o
            },
        )
    } else {
        Err(refused(o.state, AppState::RECORDING))
    }
}

/// `stop_recording`: only while `RECORDING`; the recording gets the
/// missed Win-key correction and the state stays until `stop`.
pub open spec fn finish_recording_next(o: OrchestratorView) -> Result<
    OrchestratorView,
    OrchestratorError,
> {
    if o.state == AppState::RECORDING {
        Ok(OrchestratorView { events: corrected_events(o.events), ..o })
    } else {
        Err(refused(o.state, AppState::IDLE))
    }
}

/// The end of a recording whose macro was handed to be saved, given how
/// the save went: a saved recording returns the agent to idle without a
/// task, keeping the recording; a failed save keeps the agent as it is and
/// reports the save's error.
pub open spec fn saved_recording_next(o: OrchestratorView, saved: Result<(), OrchestratorError>) -> Result<
    OrchestratorView,
    OrchestratorError,
> {
    match saved {
        Ok(()) => Ok(stop_next(o)),
        Err(e) => Err(e),
    }
}

/// `start_executing`: from `IDLE` or `LISTENING`, to `EXECUTING` with the
/// task as session context.
pub open spec fn execute_next(o: OrchestratorView, task: Seq<char>) -> Result<
    OrchestratorView,
    OrchestratorError,
> {
    if o.state == AppState::IDLE || o.state == AppState::LISTENING {
        Ok(OrchestratorView { state: AppState::EXECUTING, session: Some(task), ..o })
    } else {
        Err(refused(o.state, AppState::EXECUTING))
    }
}

/// `stop`: from any state to `IDLE`, without a session context.
pub open spec fn stop_next(o: OrchestratorView) -> OrchestratorView {
    OrchestratorView { state: AppState::IDLE, session: None, ..o }
}

/// Whether an event seen at `now` is dropped: outside recording, or as the
/// auto-repeat of the key press recorded last.
pub open spec fn event_dropped(o: OrchestratorView, event: EventType) -> bool {
    o.state != AppState::RECORDING || (o.last_event == Some(event) && event is KeyPress)
}

/// The delay recorded for an event seen at `now`: the time since the last
/// recorded event, none for the first, and none when the clock reads
/// earlier.
pub open spec fn event_delay(o: OrchestratorView, now: u64) -> u64 {
    match o.last_time {
        None => 0,
        Some(t) => if now >= t {
            (now - t) as u64
        } else {
            0
        },
    }
}

/// `handle_event`: records an event seen at `now`, unless it is dropped.
pub open spec fn event_next(o: OrchestratorView, event: EventType, now: u64) -> OrchestratorView {
    if event_dropped(o, event) {
        o
    } else {
        OrchestratorView {
            events: o.events.push(
                TimedEvent { event_type: event, time_since_previous: event_delay(o, now) },
            ),
            last_time: Some(now),
            last_event: Some(event),
            ..o
        }
    }
}

/// The outcome of a move for the exec function that makes it.
pub open spec fn moved_as(
    next: Result<OrchestratorView, OrchestratorError>,
    before: OrchestratorView,
    after: OrchestratorView,
    r: Result<(), OrchestratorError>,
) -> bool {
    match next {
        Ok(v) => r is Ok && after == v,
        Err(e) => r == Err::<(), OrchestratorError>(e) && after == before,
    }
}

impl Orchestrator {
    /// An idle agent with nothing recorded.
    pub fn new() -> (r: Self)
        ensures
            r@ == initial_view(),
    {
        let r = Orchestrator {
            state: AppState::IDLE,
            session_context: None,
            perception: Perception,
            cognition: Cognition,
            tooling: Tooling,
            knowledge: Knowledge,
            recording_buffer: Vec::new(),
            last_event_time: None,
            last_recorded_event_type: None,
        };
        assert(r@ =~= initial_view());
        r
    }

    fn set_state(&mut self, new_state: AppState)
        ensures
            final(self)@ == (OrchestratorView { state: new_state, ..old(self)@ }),
    {
        self.state = new_state;
    }

    /// Starts listening; only an idle agent can.
    pub fn start_listening(&mut self) -> (r: Result<(), OrchestratorError>)
        ensures
            moved_as(listen_next(old(self)@), old(self)@, final(self)@, r),
    {
        if self.state != AppState::IDLE {
            return Err(
                OrchestratorError::InvalidStateTransition { from: self.state, to: AppState::LISTENING },
            );
        }
        self.set_state(AppState::LISTENING);
        Ok(())
    }

    /// Starts recording a new macro, with an empty recording; only an idle
    /// agent can.
    pub fn start_recording(&mut self) -> (r: Result<(), OrchestratorError>)
        ensures
            moved_as(record_next(old(self)@), old(self)@, final(self)@, r),
    {
        if self.state != AppState::IDLE {
            return Err(
                OrchestratorError::InvalidStateTransition { from: self.state, to: AppState::RECORDING },
            );
        }
        self.recording_buffer.clear();
        self.last_event_time = None;
        self.last_recorded_event_type = None;
        self.set_state(AppState::RECORDING);
        assert(self@ =~= record_next(old(self)@)->Ok_0);
        Ok(())
    }

    /// Ends a recording, first half: applies the missed Win-key correction
    /// to the recorded events and hands back the macro named `name` that
    /// holds them, to be saved. Only a recording agent can. The agent stays
    /// in `RECORDING` until `finish_saved_recording` is told how the save
    /// went (see `law_recording_ends_idle`).
    pub fn stop_recording(&mut self, name: String) -> (r: Result<Macro, OrchestratorError>)
        ensures
            match finish_recording_next(old(self)@) {
                Ok(v) => (r matches Ok(m) && m.name == name && m.events@ == v.events && final(self)@
                    == v),
                Err(e) => (r matches Err(e2) && e2 == e && final(self)@ == old(self)@),
            },
    {
        if self.state != AppState::RECORDING {
            return Err(
                OrchestratorError::InvalidStateTransition { from: self.state, to: AppState::IDLE },
            );
        }
        correct_missed_win_press(&mut self.recording_buffer);
        let events = self.recording_buffer.clone();
        Ok(Macro { name, events })
    }

    /// Ends a recording once the macro that `stop_recording` handed back
    /// has been saved, as `saved_recording_next` says: after a save that
    /// went well the agent is idle without a task; after a failed save it
    /// keeps recording and the save's error is returned.
    pub fn finish_saved_recording(&mut self, saved: Result<(), OrchestratorError>) -> (r: Result<
        (),
        OrchestratorError,
    >)
        ensures
            moved_as(saved_recording_next(old(self)@, saved), old(self)@, final(self)@, r),
    {
        match saved {
            Ok(()) => self.stop(),
            Err(e) => Err(e),
        }
    }

    /// Starts executing `task`; an idle or listening agent can.
    pub fn start_executing(&mut self, task: String) -> (r: Result<(), OrchestratorError>)
        ensures
            moved_as(execute_next(old(self)@, task@), old(self)@, final(self)@, r),
    {
        if self.state != AppState::IDLE && self.state != AppState::LISTENING {
            return Err(
                OrchestratorError::InvalidStateTransition { from: self.state, to: AppState::EXECUTING },
            );
        }
        self.session_context = Some(task);
        self.set_state(AppState::EXECUTING);
        Ok(())
    }

    /// Returns to idle from any state, forgetting the task.
    pub fn stop(&mut self) -> (r: Result<(), OrchestratorError>)
        ensures
            r is Ok,
            final(self)@ == stop_next(old(self)@),
    {
        self.session_context = None;
        self.set_state(AppState::IDLE);
        Ok(())
    }

    /// Records an input event seen at `now` (a monotonic clock reading in
    /// nanoseconds), as `event_next` describes.
    pub fn handle_event(&mut self, event: EventType, now: u64)
        ensures
            final(self)@ == event_next(old(self)@, event, now),
    {
        if self.state != AppState::RECORDING {
            return;
        }
        match self.last_recorded_event_type {
            Some(last) => {
                if last == event {
                    match event {
                        EventType::KeyPress(_) => {
                            return;
                        },
                        _ => {},
                    }
                }
            },
            None => {},
        }
        let time_since_previous: u64 = match self.last_event_time {
            None => 0,
            Some(t) => if now >= t {
                now - t
            } else {
                0
            },
        };
        self.recording_buffer.push(TimedEvent { event_type: event, time_since_previous });
        self.last_recorded_event_type = Some(event);
        self.last_event_time = Some(now);
    }

    /// One step of executing a task; the caller performs what the returned
    /// action says and calls again with the next step number, from 0, until
    /// the task is done. Step 0 starts executing `task_description` and
    /// reports that a plan is being generated (then pauses 1000 ms); steps 1
    /// to 3 report that plan step executing (then pause 500 ms each); any
    /// later step returns to idle and reports success.
    pub fn execute_task_step(&mut self, step: u64, task_description: &String) -> (r: Result<
        TaskAction,
        OrchestratorError,
    >)
        ensures
            match task_step_next(old(self)@, step, task_description@) {
                Ok((v, a)) => final(self)@ == v && (r matches Ok(act) && task_action_view(act) == a),
                Err(e) => final(self)@ == old(self)@ && (r matches Err(e2) && e2 == e),
            },
    {
        if step == 0 {
            match self.start_executing(task_description.clone()) {
                Ok(()) => {},
                Err(e) => {
                    return Err(e);
                },
            }
            Ok(TaskAction::Progress { message: string_from("Generating plan..."), pause_millis: 1000 })
        } else if step <= 3 {
            let mut out: Vec<char> = Vec::new();
            crate::text::append_str(&mut out, "Executing step ");
            let d: u8 = 48u8 + (step as u8);
            assert(d as int == 48 + step);
            assert((d as char) == digit_char(step as int));
            out.push(d as char);
            crate::text::append_str(&mut out, " of 3...");
            assert(out@ =~= step_report(step));
            Ok(TaskAction::Progress { message: string_of(&out), pause_millis: 500 })
        } else {
            let _ = self.stop();
            Ok(
                TaskAction::Done(
                    TaskResult { success: true, message: string_from("Task completed successfully!") },
                ),
            )
        }
    }
}

/// What the caller of `execute_task_step` does next: report progress and
/// pause, or finish with a result.
#[derive(Debug)]
pub enum TaskAction {
    Progress { message: String, pause_millis: u64 },
    Done(TaskResult),
}

/// A task action as mathematical values: progress (text and pause) or
/// done (success and message).
pub enum TaskActionView {
    Progress(Seq<char>, u64),
    Done(bool, Seq<char>),
}

pub open spec fn task_action_view(a: TaskAction) -> TaskActionView {
    match a {
        TaskAction::Progress { message, pause_millis } => TaskActionView::Progress(
            message@,
            pause_millis,
        ),
        TaskAction::Done(t) => TaskActionView::Done(t.success, t.message@),
    }
}

/// The progress report of plan step `step` (1 to 3).
pub open spec fn step_report(step: u64) -> Seq<char> {
    "Executing step "@ + seq![digit_char(step as int)] + " of 3..."@
}

/// Step `step` of executing a task, as `execute_task_step` describes.
pub open spec fn task_step_next(o: OrchestratorView, step: u64, task: Seq<char>) -> Result<
    (OrchestratorView, TaskActionView),
    OrchestratorError,
> {
    if step == 0 {
        match execute_next(o, task) {
            Ok(v) => Ok((v, TaskActionView::Progress("Generating plan..."@, 1000))),
            Err(e) => Err(e),
        }
    } else if step <= 3 {
        Ok((o, TaskActionView::Progress(step_report(step), 500)))
    } else {
        Ok((stop_next(o), TaskActionView::Done(true, "Task completed successfully!"@)))
    }
}


// ---------------------------------------------------------------------------
// Laws
// ---------------------------------------------------------------------------

/// The types of a recording's events, in order.
pub open spec fn event_types(s: Seq<TimedEvent>) -> Seq<EventType> {
    s.map_values(|e: TimedEvent| e.event_type)
}

/// Only an idle agent starts listening or recording; an idle or listening
/// agent starts executing; only a recording agent finishes a recording; and
/// stopping returns any agent to idle without a task, keeping its
/// recording.
pub proof fn law_state_transitions(o: OrchestratorView, task: Seq<char>)
    ensures
        listen_next(o) is Ok <==> o.state == AppState::IDLE,
        record_next(o) is Ok <==> o.state == AppState::IDLE,
        execute_next(o, task) is Ok <==> (o.state == AppState::IDLE || o.state
            == AppState::LISTENING),
        finish_recording_next(o) is Ok <==> o.state == AppState::RECORDING,
        stop_next(o).state == AppState::IDLE,
        stop_next(o).session is None,
        stop_next(o).events == o.events,
{
}

/// Stopping undoes starting to listen or to execute: an idle agent without
/// a task that starts and then stops is as it was.
pub proof fn law_stop_undoes_start(o: OrchestratorView, task: Seq<char>)
    requires
        o.state == AppState::IDLE,
        o.session is None,
    ensures
        stop_next(listen_next(o)->Ok_0) == o,
        stop_next(execute_next(o, task)->Ok_0) == o,
{
}

/// Events are recorded only while recording.
pub proof fn law_events_only_while_recording(o: OrchestratorView, e: EventType, now: u64)
    requires
        o.state != AppState::RECORDING,
    ensures
        event_next(o, e, now) == o,
{
}

/// A held key's auto-repeat is recorded once: a key press that follows
/// the same key press adds nothing.
pub proof fn law_auto_repeat_recorded_once(o: OrchestratorView, k: Key, t1: u64, t2: u64)
    requires
        o.state == AppState::RECORDING,
    ensures
        event_next(event_next(o, EventType::KeyPress(k), t1), EventType::KeyPress(k), t2)
            == event_next(o, EventType::KeyPress(k), t1),
{
}

proof fn lemma_correction_applies(s: Seq<TimedEvent>, p: int, r: int)
    requires
        event_index(s, EventType::KeyPress(Key::MetaLeft), 0) == Some(p),
        event_index(s, EventType::KeyRelease(Key::MetaLeft), 0) == Some(r),
        begins_with_typing(s),
        r > p,
    ensures
        1 <= p < r < s.len(),
        s[p].event_type == EventType::KeyPress(Key::MetaLeft),
        s[r].event_type == EventType::KeyRelease(Key::MetaLeft),
{
    lemma_event_index(s, EventType::KeyPress(Key::MetaLeft), 0);
    lemma_event_index(s, EventType::KeyRelease(Key::MetaLeft), 0);
    if p == 0 {
        assert(is_modifier(Key::MetaLeft));
    }
}

/// The missed Win-key correction only reorders and retimes: the corrected
/// recording holds the same events, each as often; when it applies, the
/// recording then begins by pressing and releasing the left Win key.
pub proof fn law_correction_keeps_events(s: Seq<TimedEvent>)
    ensures
        corrected_events(s).len() == s.len(),
        event_types(corrected_events(s)).to_multiset() == event_types(s).to_multiset(),
        corrected_events(s) != s ==> corrected_events(s)[0].event_type == EventType::KeyPress(
            Key::MetaLeft,
        ) && corrected_events(s)[1].event_type == EventType::KeyRelease(Key::MetaLeft),
{
    broadcast use vstd::multiset::group_multiset_axioms;

    match (
        event_index(s, EventType::KeyPress(Key::MetaLeft), 0),
        event_index(s, EventType::KeyRelease(Key::MetaLeft), 0),
    ) {
        (Some(p), Some(r)) => {
            if begins_with_typing(s) && r > p {
                lemma_correction_applies(s, p, r);
                let x = event_types(s);
                let moved = seq![s[p], s[r]] + s.remove(r).remove(p);
                let c = corrected_events(s);
                let y = x.remove(r);
                let z = y.remove(p);
                assert(y[p] == x[p]);
                assert(event_types(c) =~= z.insert(0, x[r]).insert(0, x[p]));
                vstd::seq_lib::to_multiset_remove(x, r);
                vstd::seq_lib::to_multiset_remove(y, p);
                vstd::seq_lib::to_multiset_insert(z, 0, x[r]);
                vstd::seq_lib::to_multiset_insert(z.insert(0, x[r]), 0, x[p]);
                vstd::seq_lib::to_multiset_contains(x, x[r]);
                vstd::seq_lib::to_multiset_contains(x, x[p]);
                assert(x[p] != x[r]);
                assert(event_types(c).to_multiset() =~= x.to_multiset());
            }
        },
        _ => {},
    }
}

/// A recording ends with its corrected events kept: once the macro is
/// saved, the agent is idle without a task; when the save fails, it is
/// still recording and the save's error is reported.
pub proof fn law_recording_ends_idle(o: OrchestratorView, e: OrchestratorError)
    requires
        o.state == AppState::RECORDING,
    ensures
        finish_recording_next(o) is Ok,
        saved_recording_next(finish_recording_next(o)->Ok_0, Ok(())) == Ok::<
            OrchestratorView,
            OrchestratorError,
        >(OrchestratorView { state: AppState::IDLE, session: None, events: corrected_events(o.events), ..o }),
        saved_recording_next(finish_recording_next(o)->Ok_0, Err(e)) == Err::<
            OrchestratorView,
            OrchestratorError,
        >(e),
        finish_recording_next(o)->Ok_0 == (OrchestratorView { events: corrected_events(o.events), ..o }),
{
}

/// Starting to record from idle begins an empty recording, whatever was
/// recorded before, with no last event time and no last event; the task
/// context is kept.
pub proof fn law_recording_starts_empty(o: OrchestratorView)
    requires
        o.state == AppState::IDLE,
    ensures
        record_next(o) is Ok,
        record_next(o)->Ok_0.state == AppState::RECORDING,
        record_next(o)->Ok_0.events == Seq::<TimedEvent>::empty(),
        record_next(o)->Ok_0.events.len() == 0,
        record_next(o)->Ok_0.last_time is None,
        record_next(o)->Ok_0.last_event is None,
        record_next(o)->Ok_0.session == o.session,
{
}

/// While recording, every event that is not a key press is recorded, after
/// the events before it, with the time since the last recorded event (none
/// for the first event, and none when the clock reads earlier). A key press
/// is recorded the same way unless it repeats the event recorded last;
/// nothing else is ever dropped.
pub proof fn law_recording_keeps_events(o: OrchestratorView, e: EventType, now: u64)
    requires
        o.state == AppState::RECORDING,
    ensures
        ({
            let delay: u64 = match o.last_time {
                None => 0u64,
                Some(t) => if now >= t {
                    (now - t) as u64
                } else {
                    0u64
                },
            };
            let recorded = OrchestratorView {
                events: o.events.push(TimedEvent { event_type: e, time_since_previous: delay }),
                last_time: Some(now),
                last_event: Some(e),
                ..o
            };
            &&& !(e is KeyPress) ==> event_next(o, e, now) == recorded
            &&& (e is KeyPress && o.last_event != Some(e)) ==> event_next(o, e, now) == recorded
            &&& (e is KeyPress && o.last_event == Some(e)) ==> event_next(o, e, now) == o
            &&& event_next(o, e, now).events.len() == o.events.len() + 1 || (e is KeyPress
                && o.last_event == Some(e))
        }),
{
}

/// The Win-key correction applies only to a recording that begins by
/// pressing a key other than Control, Shift, Alt, AltGr or the Win keys:
/// any other recording (empty, beginning with a release, a click, a move,
/// a wheel turn, or a modifier press) is kept exactly as it is.
pub proof fn law_correction_needs_typing_first(s: Seq<TimedEvent>)
    requires
        s.len() == 0 || !(s[0].event_type is KeyPress) || (s[0].event_type matches EventType::KeyPress(k)
            && (k == Key::ControlLeft || k == Key::ControlRight || k == Key::ShiftLeft || k
            == Key::ShiftRight || k == Key::Alt || k == Key::AltGr || k == Key::MetaLeft || k
            == Key::MetaRight)),
    ensures
        corrected_events(s) == s,
{
}

/// Executing a task from an idle or listening agent: step 0 starts it and
/// reports planning, steps 1 to 3 report the plan's steps without changing
/// the agent, and step 4 returns the agent to idle, its recording kept,
/// and reports success.
pub proof fn law_task_run(o: OrchestratorView, task: Seq<char>)
    requires
        o.state == AppState::IDLE || o.state == AppState::LISTENING,
    ensures
        ({
            let v = task_step_next(o, 0, task)->Ok_0.0;
            &&& task_step_next(o, 0, task) is Ok
            &&& v.state == AppState::EXECUTING
            &&& v.session == Some(task)
            &&& forall|i: u64| 1 <= i <= 3 ==> #[trigger] task_step_next(v, i, task) == Ok::<
                (OrchestratorView, TaskActionView),
                OrchestratorError,
            >((v, TaskActionView::Progress(step_report(i), 500)))
            &&& task_step_next(v, 4, task) == Ok::<
                (OrchestratorView, TaskActionView),
                OrchestratorError,
            >(
                (
                    OrchestratorView { state: AppState::IDLE, session: None, ..o },
                    TaskActionView::Done(true, "Task completed successfully!"@),
                ),
            )
        }),
{
}

} // verus!
