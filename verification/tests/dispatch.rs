use mdev_callout::select_hook;
use mdev_callout::CalloutEvent::{Get, Notify, Post, Pre};
use mdev_callout::CommandAction::{Attributes, Define, List, Modify, Start, Stop, Undefine};
use mdev_callout::run_script;
use mdev_callout::run_script_with_payload;
use mdev_callout::CalloutEvent;
use mdev_callout::CommandAction;
use mdev_callout::CommandState;
use mdev_callout::FixedHooks;
use mdev_callout::HookCodes;
use mdev_callout::HookKind;
use mdev_callout::LoggerHooks;
use mdev_callout::RunStep;
use mdev_callout::ScriptOpts;

fn record(
    mdev_type: Option<&str>,
    event: CalloutEvent,
    action: CommandAction,
    parent: &str,
) -> ScriptOpts {
    ScriptOpts {
        mdev_type: mdev_type.map(|t| t.to_string()),
        event,
        action,
        state: CommandState::NoState,
        uuid: "83c32df7-7c22-4639-a3cb-45b0c5b12b1c".to_string(),
        parent: parent.to_string(),
        json: String::new(),
    }
}

fn accepting(codes: HookCodes) -> FixedHooks {
    FixedHooks { accept_parent: true, accept_type: true, codes }
}

#[test]
fn routing_table_is_the_specified_one() {
    assert_eq!(select_hook(Get, Attributes), Some(HookKind::GetAttributes));
    for action in [Define, Modify, Start, Stop, Undefine, List] {
        assert_eq!(select_hook(Get, action), None);
        assert_eq!(select_hook(Notify, action), Some(HookKind::Notify));
    }
    assert_eq!(select_hook(Notify, Attributes), Some(HookKind::Notify));
    assert_eq!(select_hook(Pre, Define), Some(HookKind::PreDefine));
    assert_eq!(select_hook(Pre, Modify), Some(HookKind::PreModify));
    assert_eq!(select_hook(Pre, Start), Some(HookKind::PreStart));
    assert_eq!(select_hook(Pre, Stop), Some(HookKind::PreStop));
    assert_eq!(select_hook(Pre, Undefine), Some(HookKind::PreUndefine));
    assert_eq!(select_hook(Pre, List), Some(HookKind::PreList));
    assert_eq!(select_hook(Pre, Attributes), None);
    assert_eq!(select_hook(Post, Define), Some(HookKind::PostDefine));
    assert_eq!(select_hook(Post, Modify), Some(HookKind::PostModify));
    assert_eq!(select_hook(Post, Start), Some(HookKind::PostStart));
    assert_eq!(select_hook(Post, Stop), Some(HookKind::PostStop));
    assert_eq!(select_hook(Post, Undefine), Some(HookKind::PostUndefine));
    assert_eq!(select_hook(Post, List), Some(HookKind::PostList));
    assert_eq!(select_hook(Post, Attributes), None);
}

#[test]
fn routing_is_deterministic_across_repeated_runs() {
    let hooks = accepting(HookCodes::uniform(3));
    let opts = record(Some("t"), CalloutEvent::Get, CommandAction::Attributes, "p");
    let first = run_script(&hooks, &opts);
    for _ in 0..5 {
        assert_eq!(run_script(&hooks, &opts), first);
    }
}

#[test]
fn failed_parent_gate_exits_two_before_any_payload() {
    // event=Pre, action=Start, type="foo", parent="bar", check_parent=false:
    // status 2 at once; no payload is awaited, so pre_start can never run.
    let hooks = FixedHooks {
        accept_parent: false,
        accept_type: true,
        codes: HookCodes::uniform(9),
    };
    let opts = record(Some("foo"), CalloutEvent::Pre, CommandAction::Start, "bar");
    assert_eq!(run_script(&hooks, &opts), RunStep::Exit(2));
}

#[test]
fn failed_type_gate_exits_two_after_payload() {
    let hooks = FixedHooks {
        accept_parent: true,
        accept_type: false,
        codes: HookCodes::uniform(9),
    };
    let mut opts = record(Some("foo"), CalloutEvent::Pre, CommandAction::Start, "bar");
    assert_eq!(run_script(&hooks, &opts), RunStep::AwaitPayload);
    let code = run_script_with_payload(&hooks, &mut opts, "{}".to_string());
    assert_eq!(code, 2);
    assert_eq!(opts.json, "{}");
}

#[test]
fn get_attributes_runs_without_payload_stage() {
    // event=Get, action=Attributes: the hook's return value is the status and
    // no payload is ever requested, even on a record with no device type.
    let mut codes = HookCodes::uniform(0);
    codes.get_attributes = 5;
    let hooks = accepting(codes);
    let opts = record(None, CalloutEvent::Get, CommandAction::Attributes, "p");
    assert_eq!(run_script(&hooks, &opts), RunStep::Exit(5));
}

#[test]
fn get_with_other_action_is_a_silent_noop() {
    let hooks = accepting(HookCodes::uniform(9));
    for action in [
        CommandAction::Define,
        CommandAction::Modify,
        CommandAction::Start,
        CommandAction::Stop,
        CommandAction::Undefine,
        CommandAction::List,
    ] {
        let opts = record(Some("t"), CalloutEvent::Get, action, "p");
        assert_eq!(run_script(&hooks, &opts), RunStep::Exit(0));
    }
}

#[test]
fn pre_and_post_attributes_are_silent_noops() {
    let hooks = accepting(HookCodes::uniform(9));
    for event in [CalloutEvent::Pre, CalloutEvent::Post] {
        let mut opts = record(Some("t"), event, CommandAction::Attributes, "p");
        assert_eq!(run_script(&hooks, &opts), RunStep::AwaitPayload);
        let code = run_script_with_payload(&hooks, &mut opts, "{}".to_string());
        assert_eq!(code, 0);
    }
}

#[test]
fn notify_reads_payload_and_skips_type_gate() {
    // event=Notify, action=Start, parent accepted: the payload is attached to
    // the record and notify's return value is the status, even though the
    // type gate would have said no.
    let mut codes = HookCodes::uniform(0);
    codes.notify = 4;
    let hooks = FixedHooks { accept_parent: true, accept_type: false, codes };
    let mut opts = record(None, CalloutEvent::Notify, CommandAction::Start, "matrix");
    assert_eq!(run_script(&hooks, &opts), RunStep::AwaitPayload);
    let code = run_script_with_payload(&hooks, &mut opts, "{\"a\": 1}".to_string());
    assert_eq!(code, 4);
    assert_eq!(opts.json, "{\"a\": 1}");
}

#[test]
fn post_undefine_status_is_returned_verbatim() {
    // event=Post, action=Undefine, both gates true, post_undefine reports 7:
    // the process status is 7.
    let mut codes = HookCodes::uniform(0);
    codes.post_undefine = 7;
    let hooks = accepting(codes);
    let mut opts = record(Some("t"), CalloutEvent::Post, CommandAction::Undefine, "p");
    assert_eq!(run_script(&hooks, &opts), RunStep::AwaitPayload);
    let code = run_script_with_payload(&hooks, &mut opts, "{}".to_string());
    assert_eq!(code, 7);
}

#[test]
fn payload_attachment_keeps_every_other_field() {
    let hooks = accepting(HookCodes::uniform(0));
    let mut opts = record(Some("t"), CalloutEvent::Post, CommandAction::List, "p");
    run_script_with_payload(&hooks, &mut opts, "payload text".to_string());
    assert_eq!(opts.json, "payload text");
    assert_eq!(opts.mdev_type.as_deref(), Some("t"));
    assert_eq!(opts.event, CalloutEvent::Post);
    assert_eq!(opts.action, CommandAction::List);
    assert_eq!(opts.state, CommandState::NoState);
    assert_eq!(opts.uuid, "83c32df7-7c22-4639-a3cb-45b0c5b12b1c");
    assert_eq!(opts.parent, "p");
}

#[test]
fn logger_hooks_support_matrix_parent_only() {
    let hooks = LoggerHooks;
    let good = record(None, CalloutEvent::Notify, CommandAction::Start, "matrix");
    assert_eq!(run_script(&hooks, &good), RunStep::AwaitPayload);
    let bad = record(None, CalloutEvent::Notify, CommandAction::Start, "chassis");
    assert_eq!(run_script(&hooks, &bad), RunStep::Exit(2));
}

#[test]
fn logger_hooks_support_vfio_ap_type_only() {
    let hooks = LoggerHooks;
    let mut good = record(
        Some("vfio_ap-passthrough"),
        CalloutEvent::Pre,
        CommandAction::Start,
        "matrix",
    );
    assert_eq!(run_script(&hooks, &good), RunStep::AwaitPayload);
    assert_eq!(run_script_with_payload(&hooks, &mut good, "{}".to_string()), 0);

    let mut bad = record(Some("other-type"), CalloutEvent::Pre, CommandAction::Start, "matrix");
    assert_eq!(run_script(&hooks, &bad), RunStep::AwaitPayload);
    assert_eq!(run_script_with_payload(&hooks, &mut bad, "{}".to_string()), 2);
}

#[test]
fn logger_notify_reports_success() {
    let hooks = LoggerHooks;
    let mut opts = record(None, CalloutEvent::Notify, CommandAction::Define, "matrix");
    assert_eq!(run_script(&hooks, &opts), RunStep::AwaitPayload);
    assert_eq!(run_script_with_payload(&hooks, &mut opts, "{}".to_string()), 0);
}
