//! Which macro is playing, so that at most one plays at a time and a stop
//! request reaches it.
use vstd::prelude::*;
use crate::text::{append_chars, append_str, chars_eq_ignore_ascii_case, chars_of, eq_ignore_ascii_case, string_of};

verus! {

/// The macro that is playing, and whether it has been asked to stop.
#[derive(Debug)]
pub struct RunningMacro {
    pub name: String,
    pub cancel_requested: bool,
}

/// The playback slot: empty, or holding the macro that is playing.
#[derive(Debug)]
pub struct MacroRuntime {
    pub running: Option<RunningMacro>,
}

/// The slot as mathematical values: the playing macro's name and its stop
/// flag, if one is playing.
pub type RuntimeView = Option<(Seq<char>, bool)>;

impl View for MacroRuntime {
    type V = RuntimeView;

    open spec fn view(&self) -> RuntimeView {
        match self.running {
            Some(m) => Some((m.name@, m.cancel_requested)),
            None => None,
        }
    }
}

/// The refusal to start `name` while `current` plays.
pub open spec fn already_running_text(current: Seq<char>) -> Seq<char> {
    "Macro '"@ + current + "' is already running."@
}

/// The refusal to stop `requested` while `current` plays.
pub open spec fn other_running_text(current: Seq<char>, requested: Seq<char>) -> Seq<char> {
    "Macro '"@ + current + "' is running; requested stop for '"@ + requested + "'."@
}

/// `begin`: an empty slot takes `name`, not yet asked to stop; a full
/// slot refuses.
pub open spec fn begin_next(v: RuntimeView, name: Seq<char>) -> Result<RuntimeView, Seq<char>> {
    match v {
        Some((current, _)) => Err(already_running_text(current)),
        None => Ok(Some((name, false))),
    }
}

/// `stop_running`: the playing macro, if any, is asked to stop.
pub open spec fn stop_running_next(v: RuntimeView) -> RuntimeView {
    match v {
        Some((current, _)) => Some((current, true)),
        None => None,
    }
}

/// `stop_named`: the playing macro is asked to stop when its name matches
/// `requested` up to ASCII case; another name is refused.
pub open spec fn stop_named_next(v: RuntimeView, requested: Seq<char>) -> Result<
    RuntimeView,
    Seq<char>,
> {
    match v {
        Some((current, _)) => if eq_ignore_ascii_case(current, requested) {
            Ok(Some((current, true)))
        } else {
            Err(other_running_text(current, requested))
        },
        None => Ok(None),
    }
}

impl MacroRuntime {
    /// An empty slot.
    pub fn new() -> (r: Self)
        ensures
            r@ is None,
    {
        MacroRuntime { running: None }
    }

    /// Takes the slot for `name`, unless a macro is playing.
    pub fn begin(&mut self, name: String) -> (r: Result<(), String>)
        ensures
            match begin_next(old(self)@, name@) {
                Ok(v) => r is Ok && final(self)@ == v,
                Err(m) => (r matches Err(t) && t@ == m) && final(self)@ == old(self)@,
            },
    {
        match &self.running {
            Some(current) => {
                let mut out: Vec<char> = Vec::new();
                append_str(&mut out, "Macro '");
                append_chars(&mut out, &chars_of(current.name.as_str()));
                append_str(&mut out, "' is already running.");
                return Err(string_of(&out));
            },
            None => {},
        }
        self.running = Some(RunningMacro { name, cancel_requested: false });
        Ok(())
    }

    /// Asks the playing macro, if any, to stop, and names it.
    pub fn stop_running(&mut self) -> (r: Option<String>)
        ensures
            final(self)@ == stop_running_next(old(self)@),
            match old(self)@ {
                Some((current, _)) => r matches Some(n) && n@ == current,
                None => r is None,
            },
    {
        match &mut self.running {
            Some(current) => {
                current.cancel_requested = true;
                Some(current.name.clone())
            },
            None => None,
        }
    }

    /// Asks the playing macro to stop if it is the one named `requested`
    /// (up to ASCII case), and names it; refuses when another one plays.
    pub fn stop_named(&mut self, requested_name: &str) -> (r: Result<Option<String>, String>)
        ensures
            match stop_named_next(old(self)@, requested_name@) {
                Ok(v) => final(self)@ == v && match old(self)@ {
                    Some((current, _)) => r matches Ok(Some(n)) && n@ == current,
                    None => r matches Ok(None),
                },
                Err(m) => (r matches Err(t) && t@ == m) && final(self)@ == old(self)@,
            },
    {
        let requested = chars_of(requested_name);
        match &mut self.running {
            Some(current) => {
                let cc = chars_of(current.name.as_str());
                if chars_eq_ignore_ascii_case(&cc, &requested) {
                    current.cancel_requested = true;
                    Ok(Some(current.name.clone()))
                } else {
                    let mut out: Vec<char> = Vec::new();
                    append_str(&mut out, "Macro '");
                    append_chars(&mut out, &cc);
                    append_str(&mut out, "' is running; requested stop for '");
                    append_chars(&mut out, &requested);
                    append_str(&mut out, "'.");
                    Err(string_of(&out))
                }
            },
            None => Ok(None),
        }
    }

    /// Empties the slot.
    pub fn clear(&mut self)
        ensures
            final(self)@ is None,
    {
        self.running = None;
    }

    /// Whether the playing macro has been asked to stop.
    pub fn cancel_requested(&self) -> (r: bool)
        ensures
            r == (self@ matches Some((_, true))),
    {
        match &self.running {
            Some(m) => m.cancel_requested,
            None => false,
        }
    }
}


// ---------------------------------------------------------------------------
// Laws
// ---------------------------------------------------------------------------

/// One macro at a time: once a macro has taken the slot, starting any
/// other is refused and changes nothing, until the slot is cleared; an
/// empty slot always takes a macro.
pub proof fn law_one_macro_at_a_time(v: RuntimeView, a: Seq<char>, b: Seq<char>)
    ensures
        begin_next(v, a) is Ok <==> v is None,
        begin_next(None, b) == Ok::<RuntimeView, Seq<char>>(Some((b, false))),
        begin_next(v, a) matches Ok(w) ==> begin_next(w, b) == Err::<RuntimeView, Seq<char>>(
            already_running_text(a),
        ),
{
}

/// A stop request reaches the playing macro: stopping it by its own name,
/// in any ASCII case, or stopping whatever plays, flags it and keeps it in
/// the slot; asking twice is the same as asking once.
pub proof fn law_stop_reaches_playing_macro(current: Seq<char>, flag: bool, requested: Seq<char>)
    requires
        eq_ignore_ascii_case(current, requested),
    ensures
        stop_named_next(Some((current, flag)), requested) == Ok::<RuntimeView, Seq<char>>(
            Some((current, true)),
        ),
        stop_running_next(Some((current, flag))) == Some((current, true)),
        stop_running_next(stop_running_next(Some((current, flag)))) == stop_running_next(
            Some((current, flag)),
        ),
{
}

} // verus!

