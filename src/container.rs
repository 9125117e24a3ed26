//! One container of an instance: what each lifecycle operation asks of the
//! engine, and how the engine's answers are judged.
use vstd::prelude::*;
use crate::image::{image_of, ContainerImage};
use crate::status::ContainerStatus;

verus! {

#[derive(Clone, Copy, Debug, PartialEq, Eq, Structural)]
pub enum ContainerOperation {
    Start,
    Stop,
    Restart,
    Delete,
    Inspect,
}

/// A call that changes a container, made to the engine.
#[derive(Clone, Copy, Debug, PartialEq, Eq, Structural)]
pub enum EngineCall {
    Start,
    Stop,
    Restart,
    Remove,
}

/// What the engine answered to one call.
pub enum EngineReply {
    Done,
    /// The engine has no such container.
    NotFound,
    Failed(String),
}

/// Why an operation on a container did not succeed.
pub enum ContainerError {
    NotFound { container_id: String },
    /// The container's state could not be read.
    Inspection { container_id: String, message: String },
    Engine { container_id: String, call: EngineCall, message: String },
}

/// A container of an instance, as last observed.
pub struct InstanceContainer {
    pub container_id: String,
    pub container_image: ContainerImage,
    pub container_status: ContainerStatus,
}

/// The calls that an operation makes on a container in state `current`, in
/// order. Starting a running container and stopping one that is not running
/// make no call; restarting always calls, as the engine restarts a stopped
/// container by starting it; deleting stops a running container first, and a
/// container the engine no longer knows needs no call to be gone.
pub open spec fn planned_calls(op: ContainerOperation, current: ContainerStatus) -> Seq<EngineCall> {
    match op {
        ContainerOperation::Start => if current == ContainerStatus::Running {
            seq![]
        } else {
            seq![EngineCall::Start]
        },
        ContainerOperation::Stop => if current == ContainerStatus::Running {
            seq![EngineCall::Stop]
        } else {
            seq![]
        },
        ContainerOperation::Restart => seq![EngineCall::Restart],
        ContainerOperation::Delete => if current == ContainerStatus::NotFound {
            seq![]
        } else if current == ContainerStatus::Running {
            seq![EngineCall::Stop, EngineCall::Remove]
        } else {
            seq![EngineCall::Remove]
        },
        ContainerOperation::Inspect => seq![],
    }
}

/// An answer that lets the operation go on: success, or, for a removal, a
/// container that is already gone.
pub open spec fn reply_accepted(call: EngineCall, reply: EngineReply) -> bool {
    match reply {
        EngineReply::Done => true,
        EngineReply::NotFound => call == EngineCall::Remove,
        EngineReply::Failed(_) => false,
    }
}

/// The role that a container's image label names; a container without one
/// has the `Unknown` role.
pub open spec fn role_of_label(label: Option<Seq<char>>) -> ContainerImage {
    match label {
        Some(s) => image_of(s),
        None => ContainerImage::Unknown,
    }
}

/// The calls that `op` makes on a container in state `current`.
pub fn plan_operation(op: ContainerOperation, current: ContainerStatus) -> (r: Vec<EngineCall>)
    ensures
        r@ == planned_calls(op, current),
{
    let mut r: Vec<EngineCall> = Vec::new();
    match op {
        ContainerOperation::Start => {
            if current != ContainerStatus::Running {
                r.push(EngineCall::Start);
            }
        },
        ContainerOperation::Stop => {
            if current == ContainerStatus::Running {
                r.push(EngineCall::Stop);
            }
        },
        ContainerOperation::Restart => {
            r.push(EngineCall::Restart);
        },
        ContainerOperation::Delete => {
            if current == ContainerStatus::Running {
                r.push(EngineCall::Stop);
            }
            if current != ContainerStatus::NotFound {
                r.push(EngineCall::Remove);
            }
        },
        ContainerOperation::Inspect => {},
    }
    assert(r@ =~= planned_calls(op, current));
    r
}

/// Judges the engine's answer to `call` on the container `container_id`.
pub fn accept_reply(container_id: &str, call: EngineCall, reply: EngineReply) -> (r: Result<
    (),
    ContainerError,
>)
    ensures
        r is Ok <==> reply_accepted(call, reply),
        r matches Err(ContainerError::NotFound { container_id: id }) ==> reply is NotFound && id@
            == container_id@,
        r matches Err(ContainerError::Engine { container_id: id, call: c, message: m }) ==> (
        reply matches EngineReply::Failed(msg) && m@ == msg@ && c == call && id@ == container_id@),
        r is Err ==> (r->Err_0 is NotFound <==> reply is NotFound),
{
    match reply {
        EngineReply::Done => Ok(()),
        EngineReply::NotFound => {
            if call == EngineCall::Remove {
                Ok(())
            } else {
                Err(ContainerError::NotFound { container_id: container_id.to_owned() })
            }
        },
        EngineReply::Failed(message) => Err(
            ContainerError::Engine { container_id: container_id.to_owned(), call, message },
        ),
    }
}

impl InstanceContainer {
    /// The container `container_id` as observed after an operation: its role
    /// from its image label, and the state fetched afresh.
    pub fn observed(container_id: String, image_label: Option<&String>, status: ContainerStatus) -> (r:
        InstanceContainer)
        ensures
            r.container_id == container_id,
            r.container_image == role_of_label(
                match image_label {
                    Some(s) => Some(s@),
                    None => None,
                },
            ),
            r.container_status == status,
    {
        let container_image = match image_label {
            Some(s) => ContainerImage::from_str(s.as_str()),
            None => ContainerImage::Unknown,
        };
        InstanceContainer { container_id, container_image, container_status: status }
    }
}

/// Starting a running container calls nothing, and neither does stopping a
/// container that is not running: each makes at most one call over two runs.
pub proof fn lemma_start_stop_idempotent(current: ContainerStatus)
    ensures
        planned_calls(ContainerOperation::Start, ContainerStatus::Running).len() == 0,
        current != ContainerStatus::Running ==> planned_calls(ContainerOperation::Stop, current).len()
            == 0,
        planned_calls(ContainerOperation::Start, current).len() <= 1,
        planned_calls(ContainerOperation::Stop, current).len() <= 1,
{
}

/// Deleting a container that is already gone succeeds: either no call is
/// needed, or the engine's not-found answer to the removal is accepted.
pub proof fn lemma_delete_idempotent(current: ContainerStatus)
    ensures
        planned_calls(ContainerOperation::Delete, ContainerStatus::NotFound).len() == 0,
        reply_accepted(EngineCall::Remove, EngineReply::NotFound),
        planned_calls(ContainerOperation::Delete, current).last() == EngineCall::Remove || current
            == ContainerStatus::NotFound,
{
}

} // verus!
