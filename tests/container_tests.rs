use wpdev_core::container::{
    accept_reply, plan_operation, ContainerError, ContainerOperation, EngineCall, EngineReply,
    InstanceContainer,
};
use wpdev_core::image::ContainerImage;
use wpdev_core::status::ContainerStatus;

/// A stand-in for the engine: one container, and a count of the calls made.
struct FakeEngine {
    state: Option<ContainerStatus>,
    calls: Vec<EngineCall>,
    fail_on: Option<EngineCall>,
}

impl FakeEngine {
    fn status(&self) -> ContainerStatus {
        self.state.unwrap_or(ContainerStatus::NotFound)
    }

    fn call(&mut self, call: EngineCall) -> EngineReply {
        self.calls.push(call);
        if self.fail_on == Some(call) {
            return EngineReply::Failed("daemon error".to_string());
        }
        match self.state {
            None => EngineReply::NotFound,
            Some(_) => {
                self.state = match call {
                    EngineCall::Start | EngineCall::Restart => Some(ContainerStatus::Running),
                    EngineCall::Stop => Some(ContainerStatus::Stopped),
                    EngineCall::Remove => None,
                };
                EngineReply::Done
            }
        }
    }

    fn run(&mut self, id: &str, op: ContainerOperation) -> Result<(), ContainerError> {
        let plan = plan_operation(op, self.status());
        for call in plan {
            let reply = self.call(call);
            accept_reply(id, call, reply)?;
        }
        Ok(())
    }
}

fn engine(state: Option<ContainerStatus>) -> FakeEngine {
    FakeEngine { state, calls: Vec::new(), fail_on: None }
}

#[test]
fn start_twice_calls_once() {
    let mut e = engine(Some(ContainerStatus::Stopped));
    assert!(e.run("c1", ContainerOperation::Start).is_ok());
    assert!(e.run("c1", ContainerOperation::Start).is_ok());
    assert_eq!(e.calls, vec![EngineCall::Start]);
}

#[test]
fn start_running_calls_nothing() {
    let mut e = engine(Some(ContainerStatus::Running));
    assert!(e.run("c1", ContainerOperation::Start).is_ok());
    assert!(e.calls.is_empty());
}

#[test]
fn stop_not_running_calls_nothing() {
    for s in [ContainerStatus::Stopped, ContainerStatus::Exited, ContainerStatus::Paused] {
        let mut e = engine(Some(s));
        assert!(e.run("c1", ContainerOperation::Stop).is_ok());
        assert!(e.calls.is_empty());
    }
    let mut e = engine(Some(ContainerStatus::Running));
    assert!(e.run("c1", ContainerOperation::Stop).is_ok());
    assert!(e.run("c1", ContainerOperation::Stop).is_ok());
    assert_eq!(e.calls, vec![EngineCall::Stop]);
}

#[test]
fn restart_always_calls() {
    assert_eq!(plan_operation(ContainerOperation::Restart, ContainerStatus::Stopped), vec![EngineCall::Restart]);
    assert_eq!(plan_operation(ContainerOperation::Restart, ContainerStatus::Running), vec![EngineCall::Restart]);
    assert!(plan_operation(ContainerOperation::Inspect, ContainerStatus::Running).is_empty());
}

#[test]
fn delete_stops_running_first() {
    assert_eq!(
        plan_operation(ContainerOperation::Delete, ContainerStatus::Running),
        vec![EngineCall::Stop, EngineCall::Remove]
    );
    assert_eq!(plan_operation(ContainerOperation::Delete, ContainerStatus::Exited), vec![EngineCall::Remove]);
    let mut e = engine(Some(ContainerStatus::Running));
    assert!(e.run("c1", ContainerOperation::Delete).is_ok());
    assert_eq!(e.state, None);
}

#[test]
fn delete_of_absent_container_succeeds() {
    let mut e = engine(None);
    assert!(e.run("c1", ContainerOperation::Delete).is_ok());
    assert!(e.calls.is_empty());
    assert!(accept_reply("c1", EngineCall::Remove, EngineReply::NotFound).is_ok());
    let mut twice = engine(Some(ContainerStatus::Stopped));
    assert!(twice.run("c1", ContainerOperation::Delete).is_ok());
    assert!(twice.run("c1", ContainerOperation::Delete).is_ok());
    assert_eq!(twice.calls, vec![EngineCall::Remove]);
}

#[test]
fn absent_container_cannot_be_started() {
    let r = accept_reply("c9", EngineCall::Start, EngineReply::NotFound);
    assert!(matches!(r, Err(ContainerError::NotFound { container_id }) if container_id == "c9"));
}

#[test]
fn engine_failure_is_reported() {
    let mut e = engine(Some(ContainerStatus::Running));
    e.fail_on = Some(EngineCall::Stop);
    let r = e.run("c2", ContainerOperation::Stop);
    match r {
        Err(ContainerError::Engine { container_id, call, message }) => {
            assert_eq!(container_id, "c2");
            assert_eq!(call, EngineCall::Stop);
            assert_eq!(message, "daemon error");
        }
        _ => panic!("expected an engine failure"),
    }
}

#[test]
fn observed_container_role_from_label() {
    let label = "adminer".to_string();
    let c = InstanceContainer::observed("abc".to_string(), Some(&label), ContainerStatus::Running);
    assert_eq!(c.container_id, "abc");
    assert_eq!(c.container_image, ContainerImage::Adminer);
    assert_eq!(c.container_status, ContainerStatus::Running);
    let c = InstanceContainer::observed("abc".to_string(), None, ContainerStatus::Stopped);
    assert_eq!(c.container_image, ContainerImage::Unknown);
}
