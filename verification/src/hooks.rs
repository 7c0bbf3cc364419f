//! Concrete capability sets.
//!
//! [`LoggerHooks`] carries the eligibility rules of the notification logger
//! script: it supports the `matrix` parent device and the
//! `vfio_ap-passthrough` device type, and every hook is inert.
//! [`FixedHooks`] answers its gates from two switches and reports, from every
//! hook, the status held in a table: the simplest complete hook set, for
//! wiring and for exercising the dispatcher where hook bodies do not matter.

use vstd::prelude::*;

use crate::dispatch::HookKind;
use crate::dispatch::ScriptFunctions;
use crate::opts::ScriptOpts;

verus! {

/// The hook set of the notification logger script.  Both gates compare
/// identifiers; every hook reports status 0.  Diagnostic printing of the
/// record is the embedding process's concern, not this library's.
#[derive(Clone, Copy, Debug)]
pub struct LoggerHooks;

impl ScriptFunctions for LoggerHooks {
    open spec fn parent_ok(&self, opts: &ScriptOpts) -> bool {
        opts.parent@ == "matrix"@
    }

    open spec fn type_ok(&self, opts: &ScriptOpts) -> bool {
        opts.mdev_type matches Some(t) && t@ == "vfio_ap-passthrough"@
    }

    open spec fn hook_result(&self, hook: HookKind, opts: &ScriptOpts) -> i32 {
        0
    }

    fn check_parent(&self, opts: &ScriptOpts) -> (r: bool) {
        let supported: String = "matrix".to_owned();
        opts.parent == supported
    }

    fn check_type(&self, opts: &ScriptOpts) -> (r: bool) {
        match &opts.mdev_type {
            Some(mdev_type) => {
                let supported: String = "vfio_ap-passthrough".to_owned();
                *mdev_type == supported
            },
            None => false,
        }
    }

    fn pre_define(&self, _opts: &ScriptOpts) -> (r: i32) {
        0
    }

    fn post_define(&self, _opts: &ScriptOpts) -> (r: i32) {
        0
    }

    fn pre_modify(&self, _opts: &ScriptOpts) -> (r: i32) {
        0
    }

    fn post_modify(&self, _opts: &ScriptOpts) -> (r: i32) {
        0
    }

    fn pre_start(&self, _opts: &ScriptOpts) -> (r: i32) {
        0
    }

    fn post_start(&self, _opts: &ScriptOpts) -> (r: i32) {
        0
    }

    fn pre_stop(&self, _opts: &ScriptOpts) -> (r: i32) {
        0
    }

    fn post_stop(&self, _opts: &ScriptOpts) -> (r: i32) {
        0
    }

    fn pre_undefine(&self, _opts: &ScriptOpts) -> (r: i32) {
        0
    }

    fn post_undefine(&self, _opts: &ScriptOpts) -> (r: i32) {
        0
    }

    fn pre_list(&self, _opts: &ScriptOpts) -> (r: i32) {
        0
    }

    fn post_list(&self, _opts: &ScriptOpts) -> (r: i32) {
        0
    }

    fn get_attributes(&self, _opts: &ScriptOpts) -> (r: i32) {
        0
    }

    fn notify(&self, _opts: &ScriptOpts) -> (r: i32) {
        0
    }
}

/// One status per named hook.
#[derive(Clone, Copy, Debug, PartialEq, Eq, Structural)]
pub struct HookCodes {
    pub pre_define: i32,
    pub pre_modify: i32,
    pub pre_start: i32,
    pub pre_stop: i32,
    pub pre_undefine: i32,
    pub pre_list: i32,
    pub post_define: i32,
    pub post_modify: i32,
    pub post_start: i32,
    pub post_stop: i32,
    pub post_undefine: i32,
    pub post_list: i32,
    pub get_attributes: i32,
    pub notify: i32,
}

impl HookCodes {
    /// The table that reports `code` from every hook.
    pub fn uniform(code: i32) -> (r: HookCodes)
        ensures
            r == (HookCodes {
                pre_define: code,
                pre_modify: code,
                pre_start: code,
                pre_stop: code,
                pre_undefine: code,
                pre_list: code,
                post_define: code,
                post_modify: code,
                post_start: code,
                post_stop: code,
                post_undefine: code,
                post_list: code,
                get_attributes: code,
                notify: code,
            }),
    {
        HookCodes {
            pre_define: code,
            pre_modify: code,
            pre_start: code,
            pre_stop: code,
            pre_undefine: code,
            pre_list: code,
            post_define: code,
            post_modify: code,
            post_start: code,
            post_stop: code,
            post_undefine: code,
            post_list: code,
            get_attributes: code,
            notify: code,
        }
    }
}

/// A hook set with fixed behaviour: the gates answer from two switches and
/// every hook reports the status held in `codes`, whatever the parameters.
#[derive(Clone, Copy, Debug, PartialEq, Eq, Structural)]
pub struct FixedHooks {
    pub accept_parent: bool,
    pub accept_type: bool,
    pub codes: HookCodes,
}

impl FixedHooks {
    /// The status `codes` holds for one hook.
    pub open spec fn code_of(&self, hook: HookKind) -> i32 {
        match hook {
            HookKind::PreDefine => self.codes.pre_define,
            HookKind::PreModify => self.codes.pre_modify,
            HookKind::PreStart => self.codes.pre_start,
            HookKind::PreStop => self.codes.pre_stop,
            HookKind::PreUndefine => self.codes.pre_undefine,
            HookKind::PreList => self.codes.pre_list,
            HookKind::PostDefine => self.codes.post_define,
            HookKind::PostModify => self.codes.post_modify,
            HookKind::PostStart => self.codes.post_start,
            HookKind::PostStop => self.codes.post_stop,
            HookKind::PostUndefine => self.codes.post_undefine,
            HookKind::PostList => self.codes.post_list,
            HookKind::GetAttributes => self.codes.get_attributes,
            HookKind::Notify => self.codes.notify,
        }
    }
}

impl ScriptFunctions for FixedHooks {
    open spec fn parent_ok(&self, opts: &ScriptOpts) -> bool {
        self.accept_parent
    }

    open spec fn type_ok(&self, opts: &ScriptOpts) -> bool {
        self.accept_type
    }

    open spec fn hook_result(&self, hook: HookKind, opts: &ScriptOpts) -> i32 {
        self.code_of(hook)
    }

    fn check_parent(&self, _opts: &ScriptOpts) -> (r: bool) {
        self.accept_parent
    }

    fn check_type(&self, _opts: &ScriptOpts) -> (r: bool) {
        self.accept_type
    }

    fn pre_define(&self, _opts: &ScriptOpts) -> (r: i32) {
        self.codes.pre_define
    }

    fn post_define(&self, _opts: &ScriptOpts) -> (r: i32) {
        self.codes.post_define
    }

    fn pre_modify(&self, _opts: &ScriptOpts) -> (r: i32) {
        self.codes.pre_modify
    }

    fn post_modify(&self, _opts: &ScriptOpts) -> (r: i32) {
        self.codes.post_modify
    }

    fn pre_start(&self, _opts: &ScriptOpts) -> (r: i32) {
        self.codes.pre_start
    }

    fn post_start(&self, _opts: &ScriptOpts) -> (r: i32) {
        self.codes.post_start
    }

    fn pre_stop(&self, _opts: &ScriptOpts) -> (r: i32) {
        self.codes.pre_stop
    }

    fn post_stop(&self, _opts: &ScriptOpts) -> (r: i32) {
        self.codes.post_stop
    }

    fn pre_undefine(&self, _opts: &ScriptOpts) -> (r: i32) {
        self.codes.pre_undefine
    }

    fn post_undefine(&self, _opts: &ScriptOpts) -> (r: i32) {
        self.codes.post_undefine
    }

    fn pre_list(&self, _opts: &ScriptOpts) -> (r: i32) {
        self.codes.pre_list
    }

    fn post_list(&self, _opts: &ScriptOpts) -> (r: i32) {
        self.codes.post_list
    }

    fn get_attributes(&self, _opts: &ScriptOpts) -> (r: i32) {
        self.codes.get_attributes
    }

    fn notify(&self, _opts: &ScriptOpts) -> (r: i32) {
        self.codes.notify
    }
}

} // verus!
