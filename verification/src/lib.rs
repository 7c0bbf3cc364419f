//! A verified call-out dispatcher for a device-mediation lifecycle manager.
//!
//! An external manager invokes a call-out script at defined points around
//! device-configuration changes (before an action, after it, for an attribute
//! query, or as a notification).  This library holds the dispatch protocol:
//! the vocabulary of events and actions, the invocation record, the
//! eligibility gates, and the routing of each (event, action) pair to exactly
//! one hook of a capability set.

pub mod dispatch;
pub mod hooks;
pub mod opts;
pub mod vocab;

pub use dispatch::run_script;
pub use dispatch::run_script_with_payload;
pub use dispatch::select_hook;
pub use dispatch::HookKind;
pub use dispatch::RunStep;
pub use dispatch::ScriptFunctions;
pub use hooks::FixedHooks;
pub use hooks::HookCodes;
pub use hooks::LoggerHooks;
pub use opts::ScriptOpts;
pub use vocab::CalloutEvent;
pub use vocab::CommandAction;
pub use vocab::CommandState;
pub use vocab::ParseError;
