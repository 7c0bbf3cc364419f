//! The invocation record: one immutable set of parameters per call-out,
//! constructed from command-line input, optionally given a payload once, and
//! consumed by exactly one dispatch.

use vstd::prelude::*;

use crate::vocab::CalloutEvent;
use crate::vocab::CommandAction;
use crate::vocab::CommandState;
use crate::vocab::ParseError;

verus! {

/// Whether `event` mandates a device type on the command line.  Absence for
/// such an event is a configuration error caught at the construction
/// boundary, never a runtime decision inside dispatch.
pub open spec fn device_type_required(event: CalloutEvent) -> bool {
    event is Pre || event is Post || event is Get
}

/// The parameters of one call-out.  `json` is populated only when a payload
/// is read from standard input, and is empty otherwise.
#[derive(Debug)]
pub struct ScriptOpts {
    /// The device type; mandatory when the event is `Pre`, `Post` or `Get`.
    pub mdev_type: Option<String>,
    /// The call-out phase.
    pub event: CalloutEvent,
    /// The device-lifecycle operation the call-out relates to.
    pub action: CommandAction,
    /// The outcome of the operation the manager already performed.
    pub state: CommandState,
    /// The device instance identifier; always present.
    pub uuid: String,
    /// The parent-device identifier; always present.
    pub parent: String,
    /// The raw payload handed through opaquely to hooks.
    pub json: String,
}

impl ScriptOpts {
    /// Cross-field invariant: a device type is present whenever the event
    /// mandates one, so every type-eligibility gate finds one to inspect.
    pub open spec fn wf(&self) -> bool {
        device_type_required(self.event) ==> self.mdev_type is Some
    }

    /// Builds the record for one call-out, with an empty payload.  Fails with
    /// `MissingDeviceType` exactly when the event mandates a device type and
    /// none was given; dispatch never begins on such a record.
    pub fn new(
        mdev_type: Option<String>,
        event: CalloutEvent,
        action: CommandAction,
        state: CommandState,
        uuid: String,
        parent: String,
    ) -> (r: Result<ScriptOpts, ParseError>)
        ensures
            r is Ok <==> !(device_type_required(event) && mdev_type is None),
            (r matches Ok(o) ==> {
                &&& o.mdev_type == mdev_type
                &&& o.event == event
                &&& o.action == action
                &&& o.state == state
                &&& o.uuid == uuid
                &&& o.parent == parent
                &&& o.json@ == Seq::<char>::empty()
                &&& o.wf()
            }),
            r is Err ==> r == Err::<ScriptOpts, ParseError>(ParseError::MissingDeviceType),
    {
        let required = match event {
            CalloutEvent::Pre | CalloutEvent::Post | CalloutEvent::Get => true,
            CalloutEvent::Notify => false,
        };
        if required && mdev_type.is_none() {
            return Err(ParseError::MissingDeviceType);
        }
        Ok(
            ScriptOpts {
                mdev_type,
                event,
                action,
                state,
                uuid,
                parent,
                json: String::new(),
            },
        )
    }
}

} // verus!
