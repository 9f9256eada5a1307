//! Wake handles: edge-triggered tokens that resume a suspended task.
use vstd::prelude::*;
use futures::task::Task;

verus! {

/// `futures::task::Task`, a handle on which `notify` asks the executor to
/// poll the task again.
#[verifier::external_type_specification]
#[verifier::external_body]
pub struct ExTask(futures::task::Task);

/// The handle of the task that is running now, from `futures::task::current`,
/// or `None` where `futures::task::is_in_task` says that none is running
/// (there `current` would panic). Nothing is claimed of the handle: which task
/// runs is the executor's affair.
#[verifier::external_body]
pub(crate) fn current_task() -> (handle: Option<Task>) {
    if futures::task::is_in_task() {
        Some(futures::task::current())
    } else {
        None
    }
}

/// `Task::notify`: asks the executor to poll the task again. The effect is
/// outside this library, so nothing is claimed of it; the executor's own
/// notification code decides whether the call returns.
#[verifier::external_body]
pub(crate) fn notify(handle: &Task) {
    handle.notify()
}

} // verus!
