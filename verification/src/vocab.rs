//! The closed vocabulary of the call-out protocol: events, actions, operation
//! states, and the case-insensitive mapping from command-line strings to each.

use vstd::prelude::*;

verus! {

/// The call-out phase: before an action, after it, an attribute query, or an
/// asynchronous notification.
#[derive(Clone, Copy, Debug, PartialEq, Eq, Structural)]
pub enum CalloutEvent {
    Pre,
    Post,
    Get,
    Notify,
}

/// The device-lifecycle operation the call-out relates to.
#[derive(Clone, Copy, Debug, PartialEq, Eq, Structural)]
pub enum CommandAction {
    Define,
    Modify,
    Start,
    Stop,
    Undefine,
    List,
    Attributes,
}

/// The outcome of the operation the manager already performed (relevant for
/// `Post` events).
#[derive(Clone, Copy, Debug, PartialEq, Eq, Structural)]
pub enum CommandState {
    NoState,
    Success,
    Failure,
}

/// A failure at the parameter-construction boundary: an unrecognized
/// vocabulary word, or a device type missing for an event that mandates one.
#[derive(Clone, Copy, Debug, PartialEq, Eq, Structural)]
pub enum ParseError {
    UnknownEvent,
    UnknownAction,
    UnknownState,
    MissingDeviceType,
}

/// `s` spells a keyword under ASCII case folding.  The keyword is given
/// letter by letter in its lowercase spelling `lo` and its uppercase
/// spelling `up`; at each position the input holds one of the two.
pub open spec fn ascii_eq_ci(s: Seq<char>, lo: Seq<char>, up: Seq<char>) -> bool {
    s.len() == lo.len() && (forall|i: int| 0 <= i < s.len() ==> (s[i] == lo[i] || s[i] == up[i]))
}

/// The event named by `s`, case-insensitively, if any.
pub open spec fn event_from_chars(s: Seq<char>) -> Option<CalloutEvent> {
    if ascii_eq_ci(s, "pre"@, "PRE"@) {
        Some(CalloutEvent::Pre)
    } else if ascii_eq_ci(s, "post"@, "POST"@) {
        Some(CalloutEvent::Post)
    } else if ascii_eq_ci(s, "get"@, "GET"@) {
        Some(CalloutEvent::Get)
    } else if ascii_eq_ci(s, "notify"@, "NOTIFY"@) {
        Some(CalloutEvent::Notify)
    } else {
        None
    }
}

/// The action named by `s`, case-insensitively, if any.
pub open spec fn action_from_chars(s: Seq<char>) -> Option<CommandAction> {
    if ascii_eq_ci(s, "define"@, "DEFINE"@) {
        Some(CommandAction::Define)
    } else if ascii_eq_ci(s, "modify"@, "MODIFY"@) {
        Some(CommandAction::Modify)
    } else if ascii_eq_ci(s, "start"@, "START"@) {
        Some(CommandAction::Start)
    } else if ascii_eq_ci(s, "stop"@, "STOP"@) {
        Some(CommandAction::Stop)
    } else if ascii_eq_ci(s, "undefine"@, "UNDEFINE"@) {
        Some(CommandAction::Undefine)
    } else if ascii_eq_ci(s, "list"@, "LIST"@) {
        Some(CommandAction::List)
    } else if ascii_eq_ci(s, "attributes"@, "ATTRIBUTES"@) {
        Some(CommandAction::Attributes)
    } else {
        None
    }
}

/// The operation state named by `s`, case-insensitively, if any.
pub open spec fn state_from_chars(s: Seq<char>) -> Option<CommandState> {
    if ascii_eq_ci(s, "none"@, "NONE"@) {
        Some(CommandState::NoState)
    } else if ascii_eq_ci(s, "success"@, "SUCCESS"@) {
        Some(CommandState::Success)
    } else if ascii_eq_ci(s, "failure"@, "FAILURE"@) {
        Some(CommandState::Failure)
    } else {
        None
    }
}

/// Compares `s` against a keyword under ASCII case folding, the keyword given
/// in both spellings.
fn str_eq_ci(s: &str, lo: &str, up: &str) -> (r: bool)
    requires
        lo@.len() == up@.len(),
    ensures
        r == ascii_eq_ci(s@, lo@, up@),
{
    let n = s.unicode_len();
    if n != lo.unicode_len() {
        return false;
    }
    let mut i: usize = 0;
    while i < n
        invariant
            n == s@.len(),
            n == lo@.len(),
            lo@.len() == up@.len(),
            0 <= i <= n,
            forall|j: int| 0 <= j < i ==> (s@[j] == lo@[j] || s@[j] == up@[j]),
        decreases n - i,
    {
        let c = s.get_char(i);
        let cl = lo.get_char(i);
        let cu = up.get_char(i);
        if c != cl && c != cu {
            assert(!(s@[i as int] == lo@[i as int] || s@[i as int] == up@[i as int]));
            return false;
        }
        i += 1;
    }
    true
}

/// Maps a command-line string to an event, case-insensitively; an
/// unrecognized word is a parse error, surfaced before dispatch ever begins.
pub fn parse_event(s: &str) -> (r: Result<CalloutEvent, ParseError>)
    ensures
        (event_from_chars(s@) matches Some(e) ==> r == Ok::<CalloutEvent, ParseError>(e)),
        event_from_chars(s@) is None ==> r == Err::<CalloutEvent, ParseError>(
            ParseError::UnknownEvent,
        ),
{
    proof {
        reveal_strlit("pre");
        reveal_strlit("PRE");
        reveal_strlit("post");
        reveal_strlit("POST");
        reveal_strlit("get");
        reveal_strlit("GET");
        reveal_strlit("notify");
        reveal_strlit("NOTIFY");
    }
    if str_eq_ci(s, "pre", "PRE") {
        Ok(CalloutEvent::Pre)
    } else if str_eq_ci(s, "post", "POST") {
        Ok(CalloutEvent::Post)
    } else if str_eq_ci(s, "get", "GET") {
        Ok(CalloutEvent::Get)
    } else if str_eq_ci(s, "notify", "NOTIFY") {
        Ok(CalloutEvent::Notify)
    } else {
        Err(ParseError::UnknownEvent)
    }
}

/// Maps a command-line string to an action, case-insensitively; an
/// unrecognized word is a parse error, surfaced before dispatch ever begins.
pub fn parse_action(s: &str) -> (r: Result<CommandAction, ParseError>)
    ensures
        (action_from_chars(s@) matches Some(a) ==> r == Ok::<CommandAction, ParseError>(a)),
        action_from_chars(s@) is None ==> r == Err::<CommandAction, ParseError>(
            ParseError::UnknownAction,
        ),
{
    proof {
        reveal_strlit("define");
        reveal_strlit("DEFINE");
        reveal_strlit("modify");
        reveal_strlit("MODIFY");
        reveal_strlit("start");
        reveal_strlit("START");
        reveal_strlit("stop");
        reveal_strlit("STOP");
        reveal_strlit("undefine");
        reveal_strlit("UNDEFINE");
        reveal_strlit("list");
        reveal_strlit("LIST");
        reveal_strlit("attributes");
        reveal_strlit("ATTRIBUTES");
    }
    if str_eq_ci(s, "define", "DEFINE") {
        Ok(CommandAction::Define)
    } else if str_eq_ci(s, "modify", "MODIFY") {
        Ok(CommandAction::Modify)
    } else if str_eq_ci(s, "start", "START") {
        Ok(CommandAction::Start)
    } else if str_eq_ci(s, "stop", "STOP") {
        Ok(CommandAction::Stop)
    } else if str_eq_ci(s, "undefine", "UNDEFINE") {
        Ok(CommandAction::Undefine)
    } else if str_eq_ci(s, "list", "LIST") {
        Ok(CommandAction::List)
    } else if str_eq_ci(s, "attributes", "ATTRIBUTES") {
        Ok(CommandAction::Attributes)
    } else {
        Err(ParseError::UnknownAction)
    }
}

/// Maps a command-line string to an operation state, case-insensitively; an
/// unrecognized word is a parse error, surfaced before dispatch ever begins.
pub fn parse_state(s: &str) -> (r: Result<CommandState, ParseError>)
    ensures
        (state_from_chars(s@) matches Some(st) ==> r == Ok::<CommandState, ParseError>(st)),
        state_from_chars(s@) is None ==> r == Err::<CommandState, ParseError>(
            ParseError::UnknownState,
        ),
{
    proof {
        reveal_strlit("none");
        reveal_strlit("NONE");
        reveal_strlit("success");
        reveal_strlit("SUCCESS");
        reveal_strlit("failure");
        reveal_strlit("FAILURE");
    }
    if str_eq_ci(s, "none", "NONE") {
        Ok(CommandState::NoState)
    } else if str_eq_ci(s, "success", "SUCCESS") {
        Ok(CommandState::Success)
    } else if str_eq_ci(s, "failure", "FAILURE") {
        Ok(CommandState::Failure)
    } else {
        Err(ParseError::UnknownState)
    }
}

} // verus!
