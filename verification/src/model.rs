//! Capability model and the request and response values of the plugin contract.

use std::collections::HashMap;
use vstd::prelude::*;

verus! {

/// The kind of workload a managed service process serves.
#[derive(Debug, Clone, Copy, PartialEq, Eq, Structural, Hash)]
pub enum PluginTaskType {
    Text,
    Tts,
}

/// The directory name, and launch argument, that stands for a task category.
pub open spec fn directory_suffix(task: PluginTaskType) -> Seq<char> {
    match task {
        PluginTaskType::Text => "text"@,
        PluginTaskType::Tts => "tts"@,
    }
}

impl PluginTaskType {
    pub fn as_directory_suffix(&self) -> (suffix: &'static str)
        ensures
            suffix@ == directory_suffix(*self),
    {
        match self {
            PluginTaskType::Text => "text",
            PluginTaskType::Tts => "tts",
        }
    }
}

/// What a plugin says it can do. Descriptive only: nothing enforces it.
#[derive(Debug, Clone, Copy, PartialEq, Eq, Structural, Hash)]
pub enum PluginCapability {
    ModelDownload,
    ServiceStart,
    ServiceStop,
}

/// The descriptor of a plugin: its identity and declared capabilities.
#[derive(Debug)]
pub struct PluginMetadata {
    pub id: String,
    pub name: String,
    pub description: String,
    pub capabilities: Vec<PluginCapability>,
}

/// A descriptor as plain mathematical values.
pub struct PluginMetadataView {
    pub id: Seq<char>,
    pub name: Seq<char>,
    pub description: Seq<char>,
    pub capabilities: Seq<PluginCapability>,
}

impl View for PluginMetadata {
    type V = PluginMetadataView;

    open spec fn view(&self) -> PluginMetadataView {
        PluginMetadataView {
            id: self.id@,
            name: self.name@,
            description: self.description@,
            capabilities: self.capabilities@,
        }
    }
}

impl Clone for PluginMetadata {
    fn clone(&self) -> (copy: Self)
        ensures
            copy@ == self@,
    {
        PluginMetadata {
            id: self.id.clone(),
            name: self.name.clone(),
            description: self.description.clone(),
            capabilities: self.capabilities.clone(),
        }
    }
}

/// The revision that a download request names when it gives none.
pub fn default_revision() -> (revision: String)
    ensures
        revision@ == "main"@,
{
    "main".to_owned()
}

/// A request to fetch one file of a model into local storage.
#[derive(Debug, Clone)]
pub struct DownloadModelRequest {
    pub model_id: String,
    pub filename: String,
    pub revision: String,
    pub destination_dir: Option<String>,
    pub auth_token: Option<String>,
    pub task_type: PluginTaskType,
}

/// Where a downloaded file was stored and how many bytes it holds.
#[derive(Debug, Clone, PartialEq, Eq)]
pub struct DownloadModelResponse {
    pub saved_path: String,
    pub bytes_written: u64,
}

/// A request to launch the service process of one task category.
#[derive(Debug, Clone)]
pub struct StartServiceRequest {
    pub task_type: PluginTaskType,
    pub model_path: String,
    pub binary_path: Option<String>,
    pub args: Option<Vec<String>>,
    pub environment: Option<HashMap<String, String>>,
}

/// The process that was launched, and the command line it was launched with.
#[derive(Debug, Clone, PartialEq, Eq)]
pub struct StartServiceResponse {
    pub pid: u32,
    pub command: String,
    pub args: Vec<String>,
}

/// A request to terminate the service process of one task category.
#[derive(Debug, Clone, Copy, PartialEq, Eq, Structural)]
pub struct StopServiceRequest {
    pub task_type: PluginTaskType,
}

/// The category whose process was terminated.
#[derive(Debug, Clone, Copy, PartialEq, Eq, Structural)]
pub struct StopServiceResponse {
    pub task_type: PluginTaskType,
    pub terminated: bool,
}

} // verus!
