//! The call-out dispatch protocol: the parent gate, the conditional payload
//! acquisition, the conditional type gate, and the routing of each
//! (event, action) pair to exactly one hook.
//!
//! Dispatch runs in two stages.  [`run_script`] decides the parent gate and
//! whether a payload must be read; reading standard input blocks until end of
//! input and belongs to the embedding process, which then finishes the
//! protocol through [`run_script_with_payload`].

use vstd::prelude::*;

use crate::opts::ScriptOpts;
use crate::vocab::CalloutEvent;
use crate::vocab::CommandAction;

verus! {

/// One named hook operation of the capability set.
#[derive(Clone, Copy, Debug, PartialEq, Eq, Structural)]
pub enum HookKind {
    PreDefine,
    PreModify,
    PreStart,
    PreStop,
    PreUndefine,
    PreList,
    PostDefine,
    PostModify,
    PostStart,
    PostStop,
    PostUndefine,
    PostList,
    GetAttributes,
    Notify,
}

/// Whether a payload is read from standard input for this event: every event
/// but `Get` expects one.
pub open spec fn payload_expected(event: CalloutEvent) -> bool {
    !(event is Get)
}

/// Whether the type gate runs for this event: only `Pre` and `Post` carry a
/// device type worth checking (`Notify` carries none, and `Get` branches
/// away earlier).
pub open spec fn type_gate_applies(event: CalloutEvent) -> bool {
    event is Pre || event is Post
}

/// The routing table: the one hook an (event, action) pair invokes, or `None`
/// for a pair that is accepted as a silent no-op.
pub open spec fn selected_hook(event: CalloutEvent, action: CommandAction) -> Option<HookKind> {
    match event {
        CalloutEvent::Get => match action {
            CommandAction::Attributes => Some(HookKind::GetAttributes),
            _ => None,
        },
        CalloutEvent::Notify => Some(HookKind::Notify),
        CalloutEvent::Pre => match action {
            CommandAction::Define => Some(HookKind::PreDefine),
            CommandAction::Modify => Some(HookKind::PreModify),
            CommandAction::Start => Some(HookKind::PreStart),
            CommandAction::Stop => Some(HookKind::PreStop),
            CommandAction::Undefine => Some(HookKind::PreUndefine),
            CommandAction::List => Some(HookKind::PreList),
            CommandAction::Attributes => None,
        },
        CalloutEvent::Post => match action {
            CommandAction::Define => Some(HookKind::PostDefine),
            CommandAction::Modify => Some(HookKind::PostModify),
            CommandAction::Start => Some(HookKind::PostStart),
            CommandAction::Stop => Some(HookKind::PostStop),
            CommandAction::Undefine => Some(HookKind::PostUndefine),
            CommandAction::List => Some(HookKind::PostList),
            CommandAction::Attributes => None,
        },
    }
}

/// The routing table, executable: the one hook this pair invokes, if any.
pub fn select_hook(event: CalloutEvent, action: CommandAction) -> (r: Option<HookKind>)
    ensures
        r == selected_hook(event, action),
{
    match event {
        CalloutEvent::Get => match action {
            CommandAction::Attributes => Some(HookKind::GetAttributes),
            _ => None,
        },
        CalloutEvent::Notify => Some(HookKind::Notify),
        CalloutEvent::Pre => match action {
            CommandAction::Define => Some(HookKind::PreDefine),
            CommandAction::Modify => Some(HookKind::PreModify),
            CommandAction::Start => Some(HookKind::PreStart),
            CommandAction::Stop => Some(HookKind::PreStop),
            CommandAction::Undefine => Some(HookKind::PreUndefine),
            CommandAction::List => Some(HookKind::PreList),
            CommandAction::Attributes => None,
        },
        CalloutEvent::Post => match action {
            CommandAction::Define => Some(HookKind::PostDefine),
            CommandAction::Modify => Some(HookKind::PostModify),
            CommandAction::Start => Some(HookKind::PostStart),
            CommandAction::Stop => Some(HookKind::PostStop),
            CommandAction::Undefine => Some(HookKind::PostUndefine),
            CommandAction::List => Some(HookKind::PostList),
            CommandAction::Attributes => None,
        },
    }
}

/// The exit status the protocol owes once both gate outcomes, the pair and
/// the result of every hook are fixed: 2 on a failed gate, the selected
/// hook's own status, or 0 when no hook is listed for the pair.
pub open spec fn dispatch_code(
    parent_ok: bool,
    type_ok: bool,
    event: CalloutEvent,
    action: CommandAction,
    results: spec_fn(HookKind) -> i32,
) -> i32 {
    if !parent_ok {
        2
    } else if type_gate_applies(event) && !type_ok {
        2
    } else {
        match selected_hook(event, action) {
            Some(hook) => results(hook),
            None => 0,
        }
    }
}

/// The capability set a concrete call-out script supplies: the two
/// eligibility predicates and one named operation per routing-table row.
/// Each operation's status is pinned to the implementation's own
/// `hook_result`, so what dispatch returns can be stated exactly.
pub trait ScriptFunctions: Sized {
    /// Whether the parent-device identifier in `opts` is one this script
    /// supports; what `check_parent` returns.
    spec fn parent_ok(&self, opts: &ScriptOpts) -> bool;

    /// Whether the device type in `opts` is one this script supports; what
    /// `check_type` returns.
    spec fn type_ok(&self, opts: &ScriptOpts) -> bool;

    /// The status each named hook reports on these parameters.
    spec fn hook_result(&self, hook: HookKind, opts: &ScriptOpts) -> i32;

    /// The parent gate: a predicate with no side effects.
    fn check_parent(&self, opts: &ScriptOpts) -> (r: bool)
        ensures
            r == self.parent_ok(opts),
    ;

    /// The type gate: a predicate with no side effects, only ever consulted
    /// on a record that carries a device type.
    fn check_type(&self, opts: &ScriptOpts) -> (r: bool)
        requires
            opts.mdev_type is Some,
        ensures
            r == self.type_ok(opts),
    ;

    fn pre_define(&self, opts: &ScriptOpts) -> (r: i32)
        ensures
            r == self.hook_result(HookKind::PreDefine, opts),
    ;

    fn post_define(&self, opts: &ScriptOpts) -> (r: i32)
        ensures
            r == self.hook_result(HookKind::PostDefine, opts),
    ;

    fn pre_modify(&self, opts: &ScriptOpts) -> (r: i32)
        ensures
            r == self.hook_result(HookKind::PreModify, opts),
    ;

    fn post_modify(&self, opts: &ScriptOpts) -> (r: i32)
        ensures
            r == self.hook_result(HookKind::PostModify, opts),
    ;

    fn pre_start(&self, opts: &ScriptOpts) -> (r: i32)
        ensures
            r == self.hook_result(HookKind::PreStart, opts),
    ;

    fn post_start(&self, opts: &ScriptOpts) -> (r: i32)
        ensures
            r == self.hook_result(HookKind::PostStart, opts),
    ;

    fn pre_stop(&self, opts: &ScriptOpts) -> (r: i32)
        ensures
            r == self.hook_result(HookKind::PreStop, opts),
    ;

    fn post_stop(&self, opts: &ScriptOpts) -> (r: i32)
        ensures
            r == self.hook_result(HookKind::PostStop, opts),
    ;

    fn pre_undefine(&self, opts: &ScriptOpts) -> (r: i32)
        ensures
            r == self.hook_result(HookKind::PreUndefine, opts),
    ;

    fn post_undefine(&self, opts: &ScriptOpts) -> (r: i32)
        ensures
            r == self.hook_result(HookKind::PostUndefine, opts),
    ;

    fn pre_list(&self, opts: &ScriptOpts) -> (r: i32)
        ensures
            r == self.hook_result(HookKind::PreList, opts),
    ;

    fn post_list(&self, opts: &ScriptOpts) -> (r: i32)
        ensures
            r == self.hook_result(HookKind::PostList, opts),
    ;

    fn get_attributes(&self, opts: &ScriptOpts) -> (r: i32)
        ensures
            r == self.hook_result(HookKind::GetAttributes, opts),
    ;

    fn notify(&self, opts: &ScriptOpts) -> (r: i32)
        ensures
            r == self.hook_result(HookKind::Notify, opts),
    ;
}

/// Invokes the one named hook the routing table selected.
fn invoke_hook<T: ScriptFunctions>(hooks: &T, hook: HookKind, opts: &ScriptOpts) -> (r: i32)
    ensures
        r == hooks.hook_result(hook, opts),
{
    match hook {
        HookKind::PreDefine => hooks.pre_define(opts),
        HookKind::PreModify => hooks.pre_modify(opts),
        HookKind::PreStart => hooks.pre_start(opts),
        HookKind::PreStop => hooks.pre_stop(opts),
        HookKind::PreUndefine => hooks.pre_undefine(opts),
        HookKind::PreList => hooks.pre_list(opts),
        HookKind::PostDefine => hooks.post_define(opts),
        HookKind::PostModify => hooks.post_modify(opts),
        HookKind::PostStart => hooks.post_start(opts),
        HookKind::PostStop => hooks.post_stop(opts),
        HookKind::PostUndefine => hooks.post_undefine(opts),
        HookKind::PostList => hooks.post_list(opts),
        HookKind::GetAttributes => hooks.get_attributes(opts),
        HookKind::Notify => hooks.notify(opts),
    }
}

/// What the first dispatch stage decided: either the protocol is finished
/// with an exit status, or the parent gate passed and the event expects a
/// payload, which the embedding process must now read from standard input —
/// in full, blocking until end of input — and hand to
/// [`run_script_with_payload`].
#[derive(Clone, Copy, Debug, PartialEq, Eq, Structural)]
pub enum RunStep {
    Exit(i32),
    AwaitPayload,
}

/// The first stage of the protocol, on a freshly constructed record.
///
/// The parent gate is decided before anything else: when it fails, the
/// status is 2 and neither a payload read, the type gate, nor any hook
/// follows.  A `Get` call-out never expects a payload and is routed at once;
/// every other event awaits one.
pub fn run_script<T: ScriptFunctions>(hooks: &T, opts: &ScriptOpts) -> (r: RunStep)
    ensures
        !hooks.parent_ok(opts) ==> r == RunStep::Exit(2i32),
        hooks.parent_ok(opts) && payload_expected(opts.event) ==> r == RunStep::AwaitPayload,
        hooks.parent_ok(opts) && !payload_expected(opts.event) ==> r == RunStep::Exit(
            dispatch_code(
                true,
                true,
                opts.event,
                opts.action,
                (|hook: HookKind| hooks.hook_result(hook, opts)),
            ),
        ),
{
    if !hooks.check_parent(opts) {
        return RunStep::Exit(2);
    }
    match opts.event {
        CalloutEvent::Get => match opts.action {
            CommandAction::Attributes => RunStep::Exit(hooks.get_attributes(opts)),
            _ => RunStep::Exit(0),
        },
        _ => RunStep::AwaitPayload,
    }
}

/// The second stage of the protocol, once the payload stands read.
///
/// The payload is attached to the record — exactly once, every other field
/// kept — before anything that may depend on it runs.  The type gate is then
/// consulted for `Pre` and `Post` events and skipped for `Notify`, and the
/// routing table invokes at most one hook, whose status is returned verbatim.
pub fn run_script_with_payload<T: ScriptFunctions>(
    hooks: &T,
    opts: &mut ScriptOpts,
    payload: String,
) -> (r: i32)
    requires
        hooks.parent_ok(old(opts)),
        payload_expected(old(opts).event),
        type_gate_applies(old(opts).event) ==> old(opts).mdev_type is Some,
    ensures
        final(opts).json == payload,
        final(opts).mdev_type == old(opts).mdev_type,
        final(opts).event == old(opts).event,
        final(opts).action == old(opts).action,
        final(opts).state == old(opts).state,
        final(opts).uuid == old(opts).uuid,
        final(opts).parent == old(opts).parent,
        r == dispatch_code(
            true,
            hooks.type_ok(final(opts)),
            final(opts).event,
            final(opts).action,
            (|hook: HookKind| hooks.hook_result(hook, final(opts))),
        ),
{
    opts.json = payload;
    match opts.event {
        CalloutEvent::Notify => {},
        _ => {
            if !hooks.check_type(opts) {
                return 2;
            }
        },
    }
    match select_hook(opts.event, opts.action) {
        Some(hook) => invoke_hook(hooks, hook, opts),
        None => 0,
    }
}

/// The parent gate is decided first: when it fails, the status is 2 whatever
/// the type gate, the pair or any hook would have said, and no hook's result
/// enters the outcome.
pub proof fn lemma_parent_gate_first(
    type_ok: bool,
    event: CalloutEvent,
    action: CommandAction,
    results: spec_fn(HookKind) -> i32,
)
    ensures
        dispatch_code(false, type_ok, event, action, results) == 2,
{
}

/// A `Notify` call-out never consults the type gate: its outcome is the same
/// whatever that gate would have said.
pub proof fn lemma_notify_skips_type_gate(
    parent_ok: bool,
    type_ok_one: bool,
    type_ok_other: bool,
    action: CommandAction,
    results: spec_fn(HookKind) -> i32,
)
    ensures
        dispatch_code(parent_ok, type_ok_one, CalloutEvent::Notify, action, results)
            == dispatch_code(parent_ok, type_ok_other, CalloutEvent::Notify, action, results),
{
}

/// Routing is deterministic: identical parameters and identical hook
/// behaviour select the identical hook and yield the identical status.
pub proof fn lemma_dispatch_deterministic(
    parent_ok: bool,
    type_ok: bool,
    event: CalloutEvent,
    action: CommandAction,
    results_one: spec_fn(HookKind) -> i32,
    results_other: spec_fn(HookKind) -> i32,
)
    requires
        forall|hook: HookKind| #[trigger] results_one(hook) == #[trigger] results_other(hook),
    ensures
        dispatch_code(parent_ok, type_ok, event, action, results_one) == dispatch_code(
            parent_ok,
            type_ok,
            event,
            action,
            results_other,
        ),
{
}

/// Routing is total: every pair either fails a gate with status 2, invokes
/// the one hook the table lists, or is a silent no-op with status 0.
pub proof fn lemma_dispatch_total(
    parent_ok: bool,
    type_ok: bool,
    event: CalloutEvent,
    action: CommandAction,
    results: spec_fn(HookKind) -> i32,
)
    ensures
        dispatch_code(parent_ok, type_ok, event, action, results) == 2 || (selected_hook(
            event,
            action,
        ) matches Some(hook) && dispatch_code(parent_ok, type_ok, event, action, results)
            == results(hook)) || (selected_hook(event, action) is None && dispatch_code(
            parent_ok,
            type_ok,
            event,
            action,
            results,
        ) == 0),
{
}

/// Exactly these pairs are unlisted: `Get` with any action but `Attributes`,
/// and `Pre` or `Post` with `Attributes`.
pub proof fn lemma_unlisted_pairs(event: CalloutEvent, action: CommandAction)
    ensures
        selected_hook(event, action) is None <==> ((event is Get && !(action is Attributes)) || (
        event is Pre && action is Attributes) || (event is Post && action is Attributes)),
{
}

/// An unlisted pair is accepted without complaint: with both gates passing,
/// the status is 0 and no hook's result enters the outcome.
pub proof fn lemma_unlisted_pair_is_noop(
    event: CalloutEvent,
    action: CommandAction,
    results: spec_fn(HookKind) -> i32,
)
    requires
        selected_hook(event, action) is None,
    ensures
        dispatch_code(true, true, event, action, results) == 0,
{
}

} // verus!
