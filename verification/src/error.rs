//! The error taxonomy of the plugin contract.

use crate::model::PluginTaskType;
use vstd::prelude::*;

verus! {

/// The kinds by which a caller tells failures apart.
#[derive(Debug, Clone, Copy, PartialEq, Eq, Structural, Hash)]
pub enum ErrorKind {
    UnsupportedOperation,
    InvalidRequest,
    NotFound,
    AlreadyRunning,
    NotRunning,
    Network,
    Filesystem,
    ProcessStart,
}

/// A failed plugin operation.
#[derive(Debug, Clone, PartialEq, Eq)]
pub enum PluginError {
    /// The plugin does not implement the operation.
    UnsupportedOperation,
    /// The request is malformed; nothing was attempted.
    InvalidRequest(String),
    /// No plugin is registered under the identifier.
    NotFound(String),
    /// The task category already has a tracked process.
    ProcessAlreadyRunning(PluginTaskType),
    /// The task category has no tracked process.
    ProcessNotRunning(PluginTaskType),
    /// The filesystem refused; the text says how.
    Io(String),
    /// The transfer failed; `status` is the upstream status where one came back.
    Network { status: Option<u16>, message: String },
    /// The process could not be launched, or could not be terminated.
    ProcessStart(String),
}

/// A failure as plain mathematical values.
pub enum PluginErrorView {
    UnsupportedOperation,
    InvalidRequest(Seq<char>),
    NotFound(Seq<char>),
    ProcessAlreadyRunning(PluginTaskType),
    ProcessNotRunning(PluginTaskType),
    Io(Seq<char>),
    Network { status: Option<u16>, message: Seq<char> },
    ProcessStart(Seq<char>),
}

impl View for PluginError {
    type V = PluginErrorView;

    open spec fn view(&self) -> PluginErrorView {
        match self {
            PluginError::UnsupportedOperation => PluginErrorView::UnsupportedOperation,
            PluginError::InvalidRequest(m) => PluginErrorView::InvalidRequest(m@),
            PluginError::NotFound(id) => PluginErrorView::NotFound(id@),
            PluginError::ProcessAlreadyRunning(t) => PluginErrorView::ProcessAlreadyRunning(*t),
            PluginError::ProcessNotRunning(t) => PluginErrorView::ProcessNotRunning(*t),
            PluginError::Io(m) => PluginErrorView::Io(m@),
            PluginError::Network { status, message } => PluginErrorView::Network {
                status: *status,
                message: message@,
            },
            PluginError::ProcessStart(m) => PluginErrorView::ProcessStart(m@),
        }
    }
}

/// The name under which a task category is printed in a message.
pub open spec fn task_name(task: PluginTaskType) -> Seq<char> {
    match task {
        PluginTaskType::Text => "Text"@,
        PluginTaskType::Tts => "Tts"@,
    }
}

impl PluginErrorView {
    pub open spec fn kind(self) -> ErrorKind {
        match self {
            PluginErrorView::UnsupportedOperation => ErrorKind::UnsupportedOperation,
            PluginErrorView::InvalidRequest(_) => ErrorKind::InvalidRequest,
            PluginErrorView::NotFound(_) => ErrorKind::NotFound,
            PluginErrorView::ProcessAlreadyRunning(_) => ErrorKind::AlreadyRunning,
            PluginErrorView::ProcessNotRunning(_) => ErrorKind::NotRunning,
            PluginErrorView::Io(_) => ErrorKind::Filesystem,
            PluginErrorView::Network { .. } => ErrorKind::Network,
            PluginErrorView::ProcessStart(_) => ErrorKind::ProcessStart,
        }
    }

    /// The text shown to a caller.
    pub open spec fn message(self) -> Seq<char> {
        match self {
            PluginErrorView::UnsupportedOperation => "operation not supported"@,
            PluginErrorView::InvalidRequest(m) => "invalid request: "@ + m,
            PluginErrorView::NotFound(_) => "plugin not found"@,
            PluginErrorView::ProcessAlreadyRunning(t) => "process already running for "@
                + task_name(t),
            PluginErrorView::ProcessNotRunning(t) => "process not running for "@ + task_name(t),
            PluginErrorView::Io(m) => m,
            PluginErrorView::Network { message, .. } => message,
            PluginErrorView::ProcessStart(m) => "failed to start process: "@ + m,
        }
    }
}

fn name_of_task(task: PluginTaskType) -> (name: &'static str)
    ensures
        name@ == task_name(task),
{
    match task {
        PluginTaskType::Text => "Text",
        PluginTaskType::Tts => "Tts",
    }
}

impl PluginError {
    pub fn kind(&self) -> (kind: ErrorKind)
        ensures
            kind == self@.kind(),
    {
        match self {
            PluginError::UnsupportedOperation => ErrorKind::UnsupportedOperation,
            PluginError::InvalidRequest(_) => ErrorKind::InvalidRequest,
            PluginError::NotFound(_) => ErrorKind::NotFound,
            PluginError::ProcessAlreadyRunning(_) => ErrorKind::AlreadyRunning,
            PluginError::ProcessNotRunning(_) => ErrorKind::NotRunning,
            PluginError::Io(_) => ErrorKind::Filesystem,
            PluginError::Network { .. } => ErrorKind::Network,
            PluginError::ProcessStart(_) => ErrorKind::ProcessStart,
        }
    }

    /// The text shown to a caller.
    pub fn message(&self) -> (text: String)
        ensures
            text@ == self@.message(),
    {
        match self {
            PluginError::UnsupportedOperation => "operation not supported".to_owned(),
            PluginError::InvalidRequest(m) => "invalid request: ".to_owned().concat(m.as_str()),
            PluginError::NotFound(_) => "plugin not found".to_owned(),
            PluginError::ProcessAlreadyRunning(t) => "process already running for ".to_owned().concat(
                name_of_task(*t),
            ),
            PluginError::ProcessNotRunning(t) => "process not running for ".to_owned().concat(
                name_of_task(*t),
            ),
            PluginError::Io(m) => m.clone(),
            PluginError::Network { message, .. } => message.clone(),
            PluginError::ProcessStart(m) => "failed to start process: ".to_owned().concat(
                m.as_str(),
            ),
        }
    }
}

} // verus!
