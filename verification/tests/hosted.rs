use goose_plugins::download::{check_status, finish_download, DownloadProgress};
use goose_plugins::error::PluginError;
use goose_plugins::lifecycle::Spawned;
use goose_plugins::llmserver::LlmServerPlugin;
use goose_plugins::model::{
    DownloadModelRequest, DownloadModelResponse, PluginMetadata, PluginTaskType,
    StartServiceRequest, StartServiceResponse, StopServiceRequest, StopServiceResponse,
};
use goose_plugins::process::ProcessTable;
use goose_plugins::registry::{PluginManager, ServerPlugin, SharedPluginManager};
use goose_plugins::routes::{
    download_model, list_plugins, start_service, stop_service, PluginErrorResponse,
};
use std::sync::Mutex;

/// The plugin with a host that launches nothing and fetches nothing: it
/// hands out process identifiers in order and serves a fixed body.
struct Hosted {
    core: LlmServerPlugin,
    processes: Mutex<ProcessTable<u32>>,
    launched: Mutex<u32>,
    fetched: Mutex<Vec<String>>,
    body: Vec<Vec<u8>>,
}

impl Hosted {
    fn new() -> Self {
        Hosted {
            core: LlmServerPlugin::new("/var/models".to_string(), Some("llmserver".to_string())),
            processes: Mutex::new(ProcessTable::new()),
            launched: Mutex::new(0),
            fetched: Mutex::new(Vec::new()),
            body: vec![b"GGUF".to_vec(), Vec::new(), b"weights".to_vec()],
        }
    }
}

impl ServerPlugin for Hosted {
    fn metadata(&self) -> PluginMetadata {
        self.core.metadata()
    }

    fn download_model(
        &self,
        request: DownloadModelRequest,
    ) -> Result<DownloadModelResponse, PluginError> {
        let plan = self.core.plan_download(request)?;
        self.fetched.lock().unwrap().push(plan.url.clone());
        check_status(200)?;
        let mut progress = DownloadProgress::new();
        for chunk in &self.body {
            assert!(progress.can_record(chunk.len()));
            progress.record_chunk(chunk.len());
        }
        Ok(finish_download(plan, progress))
    }

    fn start_service(
        &self,
        request: StartServiceRequest,
    ) -> Result<StartServiceResponse, PluginError> {
        let mut processes = self.processes.lock().unwrap();
        let plan = self.core.plan_start(&processes, request)?;
        let mut launched = self.launched.lock().unwrap();
        *launched += 1;
        let pid = 7000 + *launched;
        self.core.finish_start(&mut processes, plan, Ok(Spawned { child: pid, pid: Some(pid) }))
    }

    fn stop_service(&self, request: StopServiceRequest) -> Result<StopServiceResponse, PluginError> {
        self.core.begin_stop(&mut self.processes.lock().unwrap(), request)?;
        self.core.finish_stop(request.task_type, Ok(()))
    }
}

fn shared() -> SharedPluginManager<Hosted> {
    let mut manager = PluginManager::new();
    manager.register(Hosted::new());
    SharedPluginManager::new(manager)
}

fn start_request(task_type: PluginTaskType) -> StartServiceRequest {
    StartServiceRequest {
        task_type,
        model_path: "model.bin".to_string(),
        binary_path: None,
        args: None,
        environment: None,
    }
}

fn download_request(model_id: &str, filename: &str) -> DownloadModelRequest {
    DownloadModelRequest {
        model_id: model_id.to_string(),
        filename: filename.to_string(),
        revision: "main".to_string(),
        destination_dir: Some("downloads".to_string()),
        auth_token: None,
        task_type: PluginTaskType::Text,
    }
}

fn conflict(message: &str) -> (u16, PluginErrorResponse) {
    (409, PluginErrorResponse { message: message.to_string() })
}

#[test]
fn hosted_plugin_registers_under_its_descriptor() {
    let shared = shared();
    let listed = list_plugins(&shared);
    assert_eq!(listed.len(), 1);
    assert_eq!(listed[0].id, "llmserver-rs");
    assert!(shared.plugin("llmserver-rs").is_some());
}

#[test]
fn hosted_start_twice_is_a_conflict() {
    for task in [PluginTaskType::Text, PluginTaskType::Tts] {
        let shared = shared();
        let first = start_service(&shared, "llmserver-rs", start_request(task)).unwrap();
        assert_eq!(first.pid, 7001);
        assert_eq!(first.command, "llmserver");
        let name = if task == PluginTaskType::Text { "Text" } else { "Tts" };
        assert_eq!(
            start_service(&shared, "llmserver-rs", start_request(task)),
            Err(conflict(&format!("process already running for {}", name)))
        );
    }
}

#[test]
fn hosted_stop_before_start_is_a_conflict() {
    let shared = shared();
    assert_eq!(
        stop_service(&shared, "llmserver-rs", StopServiceRequest { task_type: PluginTaskType::Tts }),
        Err(conflict("process not running for Tts"))
    );
}

#[test]
fn hosted_start_stop_start_gets_a_fresh_pid() {
    let shared = shared();
    let task = PluginTaskType::Text;
    let first = start_service(&shared, "llmserver-rs", start_request(task)).unwrap();
    let stopped =
        stop_service(&shared, "llmserver-rs", StopServiceRequest { task_type: task }).unwrap();
    assert_eq!(stopped, StopServiceResponse { task_type: task, terminated: true });
    let second = start_service(&shared, "llmserver-rs", start_request(task)).unwrap();
    assert_eq!(first.pid, 7001);
    assert_eq!(second.pid, 7002);
}

#[test]
fn hosted_invalid_download_fetches_nothing() {
    let shared = shared();
    let invalid = (400u16, PluginErrorResponse {
        message: "invalid request: model_id is required".to_string(),
    });
    assert_eq!(download_model(&shared, "llmserver-rs", download_request("", "f.bin")), Err(invalid));
    let answer = download_model(&shared, "llmserver-rs", download_request("org/name", "  "));
    assert_eq!(answer.unwrap_err().0, 400);
    assert!(shared.plugin("llmserver-rs").unwrap().fetched.lock().unwrap().is_empty());
}

#[test]
fn hosted_download_counts_the_body() {
    let shared = shared();
    let response =
        download_model(&shared, "llmserver-rs", download_request("org/name", "f.bin")).unwrap();
    assert_eq!(response.bytes_written, 11);
    assert!(response.saved_path.ends_with("f.bin"));
    assert!(response.saved_path.starts_with("downloads"));
    let fetched = shared.plugin("llmserver-rs").unwrap().fetched.lock().unwrap().clone();
    assert_eq!(fetched, vec!["https://huggingface.co/org/name/resolve/main/f.bin?download=1"]);
}

#[test]
fn hosted_starts_from_many_handles_have_one_winner() {
    let shared = shared();
    let handles: Vec<SharedPluginManager<Hosted>> = (0..12).map(|_| shared.clone()).collect();
    let outcomes: Vec<Result<StartServiceResponse, (u16, PluginErrorResponse)>> = handles
        .iter()
        .map(|handle| start_service(handle, "llmserver-rs", start_request(PluginTaskType::Text)))
        .collect();
    assert_eq!(outcomes.len(), 12);
    assert_eq!(outcomes.iter().filter(|outcome| outcome.is_ok()).count(), 1);
    for outcome in &outcomes {
        if let Err(failure) = outcome {
            assert_eq!(*failure, conflict("process already running for Text"));
        }
    }
    assert_eq!(*shared.plugin("llmserver-rs").unwrap().launched.lock().unwrap(), 1);
}
