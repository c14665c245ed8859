//! The external-process plugin: it plans model downloads and keeps track of
//! one service process for each task category.
//!
//! The plugin decides; a host acts. A download or a launch is first planned
//! here, then carried out by the host, and its outcome is handed back to the
//! plugin, which settles what the caller is told and what the tracking table
//! holds. The plugin itself never changes; the tracking table is the one
//! piece of state. A host that serves several callers keeps the table behind
//! a lock and holds the lock from `plan_start` to the end of `finish_start`.
//! Downloads need no lock.

use crate::download::{
    download_path_segments,
    download_segments,
    fits_url,
    lemma_download_segments_fit,
    within_url_limits,
    DownloadPlan,
};
use crate::error::{PluginError, PluginErrorView};
use crate::lifecycle::{
    default_launch_args,
    resolved_args,
    resolved_binary,
    running_after_start,
    start_outcome,
    start_refusal,
    stop_outcome,
    stop_refusal,
    LaunchPlan,
    Spawned,
};
use crate::model::{
    directory_suffix,
    DownloadModelRequest,
    PluginCapability,
    PluginMetadata,
    PluginMetadataView,
    PluginTaskType,
    StartServiceRequest,
    StartServiceResponse,
    StopServiceRequest,
    StopServiceResponse,
};
use crate::process::{ManagedProcess, ProcessTable};
use crate::text::{is_blank, str_is_blank, texts};
use crate::trusted::{compose_url, join_path, joined_path, url_text, UrlRefusal};
use vstd::prelude::*;

verus! {

/// The host that model files are fetched from.
pub open spec fn download_host() -> Seq<char> {
    "https://huggingface.co/"@
}

/// The query string of every retrieval URL.
pub open spec fn download_query() -> Seq<char> {
    "download=1"@
}

/// The descriptor under which the plugin registers.
pub open spec fn llmserver_descriptor() -> PluginMetadataView {
    PluginMetadataView {
        id: "llmserver-rs"@,
        name: "llmserver-rs"@,
        description: "Manage llmserver-rs instances and download models"@,
        capabilities: seq![
            PluginCapability::ModelDownload,
            PluginCapability::ServiceStart,
            PluginCapability::ServiceStop,
        ],
    }
}

/// The base directory of a plugin for which none is configured:
/// `plugins/llmserver` under the working directory.
pub open spec fn default_base_dir_text(current_dir: Seq<char>) -> Seq<char> {
    joined_path(joined_path(current_dir, "plugins"@), "llmserver"@)
}

/// The directories that exist before the plugin serves: the base directory
/// and, under it, one for each task category.
pub open spec fn storage_dir_texts(base_dir: Seq<char>) -> Seq<Seq<char>> {
    seq![
        base_dir,
        joined_path(base_dir, directory_suffix(PluginTaskType::Text)),
        joined_path(base_dir, directory_suffix(PluginTaskType::Tts)),
    ]
}

/// Computes [`default_base_dir_text`].
pub fn default_base_dir(current_dir: &str) -> (dir: String)
    ensures
        dir@ == default_base_dir_text(current_dir@),
{
    let plugins = join_path(current_dir, "plugins");
    join_path(plugins.as_str(), "llmserver")
}

/// The directory a download goes to: the one the request names, else the
/// plugin's directory for the task category.
pub open spec fn destination_dir(base_dir: Seq<char>, request: DownloadModelRequest) -> Seq<char> {
    match request.destination_dir {
        Some(dir) => dir@,
        None => joined_path(base_dir, directory_suffix(request.task_type)),
    }
}

/// Why a download request is turned down before anything is fetched.
pub open spec fn download_refusal(request: DownloadModelRequest) -> Option<PluginErrorView> {
    if is_blank(request.model_id@) {
        Some(PluginErrorView::InvalidRequest("model_id is required"@))
    } else if is_blank(request.filename@) {
        Some(PluginErrorView::InvalidRequest("filename is required"@))
    } else if !fits_url(request) {
        Some(PluginErrorView::InvalidRequest("request is too long for a URL"@))
    } else {
        None
    }
}

/// The text of the retrieval URL for `request`, where one can be built.
pub open spec fn download_url(request: DownloadModelRequest) -> Option<Seq<char>> {
    url_text(
        download_host(),
        download_segments(request.model_id@, request.revision@, request.filename@),
        download_query(),
    )
}

/// The failure that a refusal of the URL library is reported as.
pub fn refusal_error(refusal: UrlRefusal) -> (error: PluginError)
    ensures
        error@ == match refusal {
            UrlRefusal::Malformed(message) => PluginErrorView::InvalidRequest(message@),
            UrlRefusal::NotABase => PluginErrorView::InvalidRequest("cannot modify URL segments"@),
        },
{
    match refusal {
        UrlRefusal::Malformed(message) => PluginError::InvalidRequest(message),
        UrlRefusal::NotABase => PluginError::InvalidRequest(
            "cannot modify URL segments".to_owned(),
        ),
    }
}

/// The plugin: its descriptor, where downloads go by default, and what is
/// launched by default.
#[derive(Debug)]
pub struct LlmServerPlugin {
    metadata: PluginMetadata,
    base_dir: String,
    default_binary: Option<String>,
}

impl Clone for LlmServerPlugin {
    fn clone(&self) -> (copy: Self)
        ensures
            copy.base_dir_text() == self.base_dir_text(),
            copy.default_binary_text() == self.default_binary_text(),
    {
        proof {
            use_type_invariant(self);
        }
        LlmServerPlugin {
            metadata: self.metadata.clone(),
            base_dir: self.base_dir.clone(),
            default_binary: match &self.default_binary {
                Some(path) => Some(path.clone()),
                None => None,
            },
        }
    }
}

impl LlmServerPlugin {
    /// The base directory of downloads.
    pub closed spec fn base_dir_text(&self) -> Seq<char> {
        self.base_dir@
    }

    /// The executable launched where a request names none.
    pub closed spec fn default_binary_text(&self) -> Option<Seq<char>> {
        match self.default_binary {
            Some(path) => Some(path@),
            None => None,
        }
    }

    /// Every plugin carries the one descriptor.
    #[verifier::type_invariant]
    closed spec fn described(&self) -> bool {
        self.metadata@ == llmserver_descriptor()
    }

    /// A plugin with the given base directory and default executable.
    pub fn new(base_dir: String, default_binary: Option<String>) -> (plugin: Self)
        ensures
            plugin.base_dir_text() == base_dir@,
            plugin.default_binary_text() == match default_binary {
                Some(path) => Some(path@),
                None => None,
            },
    {
        let mut capabilities: Vec<PluginCapability> = Vec::new();
        capabilities.push(PluginCapability::ModelDownload);
        capabilities.push(PluginCapability::ServiceStart);
        capabilities.push(PluginCapability::ServiceStop);
        assert(capabilities@ =~= llmserver_descriptor().capabilities);
        let metadata = PluginMetadata {
            id: "llmserver-rs".to_owned(),
            name: "llmserver-rs".to_owned(),
            description: "Manage llmserver-rs instances and download models".to_owned(),
            capabilities,
        };
        LlmServerPlugin { metadata, base_dir, default_binary }
    }

    /// The plugin's descriptor.
    pub fn metadata(&self) -> (metadata: PluginMetadata)
        ensures
            metadata@ == llmserver_descriptor(),
    {
        proof {
            use_type_invariant(self);
        }
        self.metadata.clone()
    }

    /// The base directory of downloads.
    pub fn base_dir(&self) -> (dir: &str)
        ensures
            dir@ == self.base_dir_text(),
    {
        self.base_dir.as_str()
    }

    /// The directories that the host creates before the plugin serves.
    pub fn storage_dirs(&self) -> (dirs: Vec<String>)
        ensures
            texts(dirs@) == storage_dir_texts(self.base_dir_text()),
    {
        let mut dirs: Vec<String> = Vec::new();
        dirs.push(self.base_dir.clone());
        dirs.push(join_path(self.base_dir.as_str(), PluginTaskType::Text.as_directory_suffix()));
        dirs.push(join_path(self.base_dir.as_str(), PluginTaskType::Tts.as_directory_suffix()));
        dirs
    }

    /// The directory that the download of `request` goes to.
    pub fn resolve_destination_dir(&self, request: &DownloadModelRequest) -> (dir: String)
        ensures
            dir@ == destination_dir(self.base_dir_text(), *request),
    {
        match &request.destination_dir {
            Some(dir) => dir.clone(),
            None => join_path(self.base_dir.as_str(), request.task_type.as_directory_suffix()),
        }
    }

    /// The executable that `request` launches.
    pub fn resolve_binary_path(&self, request: &StartServiceRequest) -> (binary: Result<
        String,
        PluginError,
    >)
        ensures
            match resolved_binary(self.default_binary_text(), *request) {
                Some(path) => binary is Ok && binary->Ok_0@ == path,
                None => binary is Err && binary->Err_0@ == PluginErrorView::InvalidRequest(
                    "binary_path not provided and GOOSE_PLUGIN_LLM_BINARY unset"@,
                ),
            },
    {
        if let Some(explicit) = &request.binary_path {
            return Ok(explicit.clone());
        }
        if let Some(default) = &self.default_binary {
            return Ok(default.clone());
        }
        Err(
            PluginError::InvalidRequest(
                "binary_path not provided and GOOSE_PLUGIN_LLM_BINARY unset".to_owned(),
            ),
        )
    }

    /// The arguments of a launch that names none.
    pub fn default_args(task: &PluginTaskType, model_path: &str) -> (args: Vec<String>)
        ensures
            texts(args@) == default_launch_args(*task, model_path@),
    {
        let mut args: Vec<String> = Vec::new();
        args.push("serve".to_owned());
        args.push("--model".to_owned());
        args.push(model_path.to_owned());
        args.push("--task".to_owned());
        args.push(task.as_directory_suffix().to_owned());
        args
    }

    /// The text of the retrieval URL for `request`.
    pub fn build_download_url(&self, request: &DownloadModelRequest) -> (url: Result<
        String,
        PluginError,
    >)
        requires
            fits_url(*request),
        ensures
            match download_url(*request) {
                Some(text) => url is Ok && url->Ok_0@ == text,
                None => url is Err && url->Err_0@ is InvalidRequest,
            },
    {
        let segments = download_path_segments(request);
        proof {
            reveal_strlit("https://huggingface.co/");
            reveal_strlit("download=1");
            lemma_download_segments_fit(request.model_id@, request.revision@, request.filename@);
        }
        match compose_url("https://huggingface.co/", &segments, "download=1") {
            Ok(text) => Ok(text),
            Err(refusal) => Err(refusal_error(refusal)),
        }
    }

    /// Plans the download of `request`: turns a malformed request down, and
    /// otherwise says what to fetch and where to store it. Only a plan lets
    /// the host open a connection.
    pub fn plan_download(&self, request: DownloadModelRequest) -> (plan: Result<
        DownloadPlan,
        PluginError,
    >)
        ensures
            match download_refusal(request) {
                Some(error) => plan is Err && plan->Err_0@ == error,
                None => match download_url(request) {
                    Some(text) => {
                        &&& plan is Ok
                        &&& plan->Ok_0.url@ == text
                        &&& plan->Ok_0.auth_token == request.auth_token
                        &&& plan->Ok_0.target_path@ == joined_path(
                            destination_dir(self.base_dir_text(), request),
                            request.filename@,
                        )
                    },
                    None => plan is Err && plan->Err_0@ is InvalidRequest,
                },
            },
    {
        if str_is_blank(request.model_id.as_str()) {
            return Err(PluginError::InvalidRequest("model_id is required".to_owned()));
        }
        if str_is_blank(request.filename.as_str()) {
            return Err(PluginError::InvalidRequest("filename is required".to_owned()));
        }
        if !within_url_limits(&request) {
            return Err(PluginError::InvalidRequest("request is too long for a URL".to_owned()));
        }
        let url = match self.build_download_url(&request) {
            Ok(url) => url,
            Err(error) => {
                return Err(error);
            },
        };
        let destination = self.resolve_destination_dir(&request);
        let target_path = join_path(destination.as_str(), request.filename.as_str());
        Ok(DownloadPlan { url, auth_token: request.auth_token, target_path })
    }

    /// Plans the launch of `request`: turns it down where it is malformed, no
    /// executable can be resolved or the category already has a process in
    /// `processes`, and otherwise says what to launch.
    pub fn plan_start<H>(&self, processes: &ProcessTable<H>, request: StartServiceRequest) -> (plan:
        Result<LaunchPlan, PluginError>)
        ensures
            match start_refusal(self.default_binary_text(), processes@.dom(), request) {
                Some(error) => plan is Err && plan->Err_0@ == error,
                None => {
                    &&& plan is Ok
                    &&& plan->Ok_0.task_type == request.task_type
                    &&& Some(plan->Ok_0.command@) == resolved_binary(
                        self.default_binary_text(),
                        request,
                    )
                    &&& texts(plan->Ok_0.args@) == resolved_args(request)
                    &&& plan->Ok_0.environment == request.environment
                },
            },
    {
        if str_is_blank(request.model_path.as_str()) {
            return Err(PluginError::InvalidRequest("model_path is required".to_owned()));
        }
        let command = match self.resolve_binary_path(&request) {
            Ok(command) => command,
            Err(error) => {
                return Err(error);
            },
        };
        let task_type = request.task_type;
        let args = match request.args {
            Some(args) => args,
            None => Self::default_args(&task_type, request.model_path.as_str()),
        };
        if processes.contains(task_type) {
            return Err(PluginError::ProcessAlreadyRunning(task_type));
        }
        Ok(LaunchPlan { task_type, command, args, environment: request.environment })
    }

    /// Settles a launch that the host attempted for `plan`. A process with an
    /// identifier is entered into `processes`, unless its category has an
    /// entry by now, and the answer names it. Every failure leaves the table
    /// as it was.
    pub fn finish_start<H>(
        &self,
        processes: &mut ProcessTable<H>,
        plan: LaunchPlan,
        spawned: Result<Spawned<H>, String>,
    ) -> (answer: Result<StartServiceResponse, PluginError>)
        ensures
            final(processes)@ == running_after_start(old(processes)@, plan, spawned),
            match start_outcome(old(processes)@.dom(), plan.task_type, spawned) {
                Ok(pid) => {
                    &&& answer is Ok
                    &&& answer->Ok_0.pid == pid
                    &&& answer->Ok_0.command@ == plan.command@
                    &&& texts(answer->Ok_0.args@) == texts(plan.args@)
                },
                Err(error) => answer is Err && answer->Err_0@ == error,
            },
    {
        let process = match spawned {
            Ok(process) => process,
            Err(message) => {
                return Err(PluginError::ProcessStart(message));
            },
        };
        let pid = match process.pid {
            Some(pid) => pid,
            None => {
                return Err(
                    PluginError::ProcessStart("failed to obtain process identifier".to_owned()),
                );
            },
        };
        if processes.contains(plan.task_type) {
            return Err(PluginError::ProcessAlreadyRunning(plan.task_type));
        }
        let command = plan.command.clone();
        let args = plan.args.clone();
        processes.insert(
            plan.task_type,
            ManagedProcess { child: process.child, command: plan.command, args: plan.args },
        );
        Ok(StartServiceResponse { pid, command, args })
    }

    /// Takes the process of the category that `request` names off
    /// `processes` and hands it to the host for termination.
    pub fn begin_stop<H>(&self, processes: &mut ProcessTable<H>, request: StopServiceRequest) -> (taken:
        Result<ManagedProcess<H>, PluginError>)
        ensures
            final(processes)@ == old(processes)@.remove(request.task_type),
            match stop_refusal(old(processes)@.dom(), request.task_type) {
                Some(error) => taken is Err && taken->Err_0@ == error,
                None => taken == Ok::<ManagedProcess<H>, PluginError>(
                    old(processes)@[request.task_type],
                ),
            },
    {
        match processes.remove(request.task_type) {
            Some(process) => Ok(process),
            None => Err(PluginError::ProcessNotRunning(request.task_type)),
        }
    }

    /// Answers a stop once the host has tried to terminate the process. A
    /// termination that failed is reported as a process failure; the entry
    /// stays off the table either way.
    pub fn finish_stop(&self, task_type: PluginTaskType, terminated: Result<(), String>) -> (answer:
        Result<StopServiceResponse, PluginError>)
        ensures
            match stop_outcome(task_type, terminated) {
                Ok(response) => answer == Ok::<StopServiceResponse, PluginError>(response),
                Err(error) => answer is Err && answer->Err_0@ == error,
            },
    {
        match terminated {
            Ok(_) => Ok(StopServiceResponse { task_type, terminated: true }),
            Err(message) => Err(PluginError::ProcessStart(message)),
        }
    }
}

/// A download request with a blank model identifier or a blank file name is
/// refused as invalid, so no plan, and with it no connection, comes of it.
pub proof fn lemma_blank_download_refused(request: DownloadModelRequest)
    requires
        is_blank(request.model_id@) || is_blank(request.filename@),
    ensures
        download_refusal(request) is Some,
        download_refusal(request)->0 is InvalidRequest,
{
}

} // verus!
