//! What a recorded macro is, and how it may be invoked.
use vstd::prelude::*;
use crate::modules::io_controller::EventType;

verus! {

/// The HTTP method through which a macro is invoked.
#[derive(PartialEq, Eq, Structural, Clone, Copy, Debug)]
pub enum MacroHttpMethod {
    GET,
    POST,
}

/// What a macro takes in through, or hands back on, the clipboard.
#[derive(PartialEq, Eq, Structural, Clone, Copy, Debug)]
pub enum MacroDataKind {
    /// Nothing.
    Nothing,
    Text,
    Image,
}

/// How a macro is offered to callers.
#[derive(Debug)]
pub struct MacroProfile {
    pub name: String,
    pub method: MacroHttpMethod,
    pub input_kind: MacroDataKind,
    pub output_kind: MacroDataKind,
    pub description: String,
    pub use_when: String,
}

/// A macro's name together with its profile.
#[derive(Debug)]
pub struct MacroConfig {
    pub name: String,
    pub profile: MacroProfile,
}

/// One recorded event and the time since the event before it, in
/// nanoseconds.
#[derive(PartialEq, Eq, Structural, Clone, Copy, Debug)]
pub struct TimedEvent {
    pub event_type: EventType,
    pub time_since_previous: u64,
}

/// A recorded macro: its name and its events in playback order.
#[derive(Debug)]
pub struct Macro {
    pub name: String,
    pub events: Vec<TimedEvent>,
}

/// A copy of a profile.
pub fn clone_profile(p: &MacroProfile) -> (r: MacroProfile)
    ensures
        r == *p,
{
    MacroProfile {
        name: p.name.clone(),
        method: p.method,
        input_kind: p.input_kind,
        output_kind: p.output_kind,
        description: p.description.clone(),
        use_when: p.use_when.clone(),
    }
}

} // verus!
