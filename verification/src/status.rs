//! Progress reporting for long-running server tasks: the payloads to
//! announce, update, and finish a progress token. Building the
//! payload is the server's decision; handing it to the transport is
//! the caller's.

use vstd::prelude::*;

verus! {

/// The long-running tasks the server reports progress for.
#[derive(Clone, Copy, PartialEq, Eq, Structural, Debug)]
pub enum ProgressTask {
    LoadWorkspace,
    DiagnoseWorkspace,
    RefreshIndex,
}

impl ProgressTask {
    /// The task's stable progress-token number.
    pub fn as_i32(&self) -> (r: i32)
        ensures
            *self is LoadWorkspace ==> r == 0,
            *self is DiagnoseWorkspace ==> r == 1,
            *self is RefreshIndex ==> r == 2,
    {
        match self {
            ProgressTask::LoadWorkspace => 0,
            ProgressTask::DiagnoseWorkspace => 1,
            ProgressTask::RefreshIndex => 2,
        }
    }

    /// The task's human-readable title.
    pub fn get_task_name(&self) -> (r: &'static str)
        ensures
            *self is LoadWorkspace ==> r@ == "Load workspace"@,
            *self is DiagnoseWorkspace ==> r@ == "Diagnose workspace"@,
            *self is RefreshIndex ==> r@ == "Refresh index"@,
    {
        match self {
            ProgressTask::LoadWorkspace => "Load workspace",
            ProgressTask::DiagnoseWorkspace => "Diagnose workspace",
            ProgressTask::RefreshIndex => "Refresh index",
        }
    }
}

/// One work-done progress payload.
pub enum WorkDoneProgress {
    Begin {
        title: String,
        cancellable: Option<bool>,
        message: Option<String>,
        percentage: Option<u32>,
    },
    Report { cancellable: Option<bool>, message: Option<String>, percentage: Option<u32> },
    End { message: Option<String> },
}

/// A progress notification: the token it belongs to and its payload.
pub struct ProgressNotification {
    pub token: i32,
    pub value: WorkDoneProgress,
}

/// A request asking the client to create a progress token.
pub struct ProgressCreateRequest {
    pub token: i32,
}

/// Builds progress payloads for the transport layer to send.
pub struct StatusBar {}

impl StatusBar {
    pub fn new() -> (r: StatusBar) {
        StatusBar {  }
    }

    /// The two messages that announce a task: the token-creation
    /// request, then the begin notification titled with the task's
    /// name, not cancellable.
    pub fn create_progress_task(&self, task: ProgressTask) -> (r: (
        ProgressCreateRequest,
        ProgressNotification,
    ))
        ensures
            r.0.token == r.1.token,
            task is LoadWorkspace ==> r.1.token == 0,
            task is DiagnoseWorkspace ==> r.1.token == 1,
            task is RefreshIndex ==> r.1.token == 2,
            r.1.value matches WorkDoneProgress::Begin {
                title,
                cancellable,
                message,
                percentage,
            } && {
                &&& (task is LoadWorkspace ==> title@ == "Load workspace"@ && (
                message matches Some(msg) && msg@ == "Load workspace"@))
                &&& (task is DiagnoseWorkspace ==> title@ == "Diagnose workspace"@ && (
                message matches Some(msg) && msg@ == "Diagnose workspace"@))
                &&& (task is RefreshIndex ==> title@ == "Refresh index"@ && (
                message matches Some(msg) && msg@ == "Refresh index"@))
                &&& cancellable == Some(false)
                &&& percentage is None
            },
    {
        let token = task.as_i32();
        let name = task.get_task_name();
        let title: String = name.to_owned();
        let message: String = name.to_owned();
        (
            ProgressCreateRequest { token },
            ProgressNotification {
                token,
                value: WorkDoneProgress::Begin {
                    title,
                    cancellable: Some(false),
                    message: Some(message),
                    percentage: None,
                },
            },
        )
    }

    /// A mid-task report carrying the given progress and message,
    /// not cancellable.
    pub fn update_progress_task(
        &self,
        task: ProgressTask,
        percentage: Option<u32>,
        message: Option<String>,
    ) -> (r: ProgressNotification)
        ensures
            task is LoadWorkspace ==> r.token == 0,
            task is DiagnoseWorkspace ==> r.token == 1,
            task is RefreshIndex ==> r.token == 2,
            r.value matches WorkDoneProgress::Report {
                cancellable,
                message: msg,
                percentage: pct,
            } && {
                &&& cancellable == Some(false)
                &&& msg == message
                &&& pct == percentage
            },
    {
        ProgressNotification {
            token: task.as_i32(),
            value: WorkDoneProgress::Report {
                cancellable: Some(false),
                message,
                percentage,
            },
        }
    }

    /// The end notification for a task, with an optional final
    /// message.
    pub fn finish_progress_task(&self, task: ProgressTask, message: Option<String>) -> (r:
        ProgressNotification)
        ensures
            task is LoadWorkspace ==> r.token == 0,
            task is DiagnoseWorkspace ==> r.token == 1,
            task is RefreshIndex ==> r.token == 2,
            r.value matches WorkDoneProgress::End { message: msg } && msg == message,
    {
        ProgressNotification { token: task.as_i32(), value: WorkDoneProgress::End { message } }
    }
}

/// The server's health announcement to status-bar integrations.
pub struct EmmyServerStatus {
    pub health: String,
    pub loading: bool,
    pub message: String,
}

} // verus!
