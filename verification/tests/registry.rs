use goose_plugins::error::PluginError;
use goose_plugins::model::{
    DownloadModelRequest, DownloadModelResponse, PluginCapability, PluginMetadata, PluginTaskType,
    StartServiceRequest, StopServiceRequest, StopServiceResponse,
};
use goose_plugins::registry::{PluginManager, ServerPlugin, SharedPluginManager};
use goose_plugins::routes::{
    download_model, find_plugin, list_plugins, map_error, respond, start_service, status_code,
    stop_service, PluginErrorResponse,
};
use goose_plugins::error::ErrorKind;

struct Described {
    id: &'static str,
    note: &'static str,
}

impl ServerPlugin for Described {
    fn metadata(&self) -> PluginMetadata {
        PluginMetadata {
            id: self.id.to_string(),
            name: self.id.to_string(),
            description: self.note.to_string(),
            capabilities: vec![PluginCapability::ServiceStop],
        }
    }

    fn stop_service(&self, request: StopServiceRequest) -> Result<StopServiceResponse, PluginError> {
        match request.task_type {
            PluginTaskType::Text => {
                Ok(StopServiceResponse { task_type: request.task_type, terminated: true })
            }
            PluginTaskType::Tts => Err(PluginError::ProcessNotRunning(request.task_type)),
        }
    }

    fn download_model(
        &self,
        request: DownloadModelRequest,
    ) -> Result<DownloadModelResponse, PluginError> {
        if self.note == "downloads" {
            Ok(DownloadModelResponse { saved_path: request.filename, bytes_written: 3 })
        } else {
            Err(PluginError::UnsupportedOperation)
        }
    }
}

fn descriptor(id: &str, note: &str) -> PluginMetadata {
    PluginMetadata {
        id: id.to_string(),
        name: id.to_string(),
        description: note.to_string(),
        capabilities: Vec::new(),
    }
}

fn download_request() -> DownloadModelRequest {
    DownloadModelRequest {
        model_id: "org/name".to_string(),
        filename: "model.bin".to_string(),
        revision: "main".to_string(),
        destination_dir: None,
        auth_token: None,
        task_type: PluginTaskType::Text,
    }
}

fn start_request() -> StartServiceRequest {
    StartServiceRequest {
        task_type: PluginTaskType::Text,
        model_path: "m".to_string(),
        binary_path: None,
        args: None,
        environment: None,
    }
}

#[test]
fn new_registry_is_empty() {
    let manager: PluginManager<u8> = PluginManager::new();
    assert_eq!(manager.len(), 0);
    assert!(manager.all_metadata().is_empty());
    assert!(manager.plugin("anything").is_none());
    assert!(!manager.contains("anything"));
}

#[test]
fn default_registry_is_empty() {
    let manager: PluginManager<u8> = PluginManager::default();
    assert_eq!(manager.len(), 0);
    assert!(manager.plugin("llmserver-rs").is_none());
}

#[test]
fn registering_one_plugin_adds_one_descriptor() {
    let mut manager = PluginManager::new();
    manager.register(Described { id: "first", note: "" });
    let before = manager.all_metadata();
    manager.register(Described { id: "second", note: "" });
    let after = manager.all_metadata();
    assert_eq!(after.len(), before.len() + 1);
    assert_eq!(after.iter().filter(|m| m.id == "second").count(), 1);
    assert_eq!(after.iter().filter(|m| m.id == "first").count(), 1);
    assert!(before.iter().all(|m| m.id != "second"));
}

#[test]
fn registered_plugin_is_found_under_its_own_id() {
    let mut manager = PluginManager::new();
    manager.register(Described { id: "alpha", note: "a" });
    manager.register(Described { id: "beta", note: "b" });
    assert_eq!(manager.plugin("alpha").unwrap().note, "a");
    assert_eq!(manager.plugin("beta").unwrap().note, "b");
    assert!(manager.plugin("gamma").is_none());
    assert!(manager.plugin("").is_none());
    assert!(manager.plugin("alph").is_none());
    assert!(manager.contains("beta"));
}

#[test]
fn registering_again_replaces_plugin_and_descriptor() {
    let mut manager = PluginManager::new();
    manager.register(Described { id: "alpha", note: "old" });
    manager.register(Described { id: "beta", note: "b" });
    manager.register(Described { id: "alpha", note: "new" });
    assert_eq!(manager.len(), 2);
    assert_eq!(manager.plugin("alpha").unwrap().note, "new");
    let all = manager.all_metadata();
    assert_eq!(all.len(), 2);
    assert_eq!(all.iter().filter(|m| m.id == "alpha").count(), 1);
    assert_eq!(all.iter().find(|m| m.id == "alpha").unwrap().description, "new");
    assert_eq!(all.iter().find(|m| m.id == "beta").unwrap().description, "b");
}

#[test]
fn insert_registers_under_the_given_descriptor() {
    let mut manager: PluginManager<u32> = PluginManager::new();
    manager.insert(descriptor("one", "first"), 1);
    manager.insert(descriptor("two", "second"), 2);
    manager.insert(descriptor("one", "third"), 3);
    assert_eq!(manager.plugin("one"), Some(&3));
    assert_eq!(manager.plugin("two"), Some(&2));
    let ids: Vec<String> = manager.all_metadata().into_iter().map(|m| m.id).collect();
    assert_eq!(ids, vec!["one", "two"]);
}

#[test]
fn descriptor_copy_is_equal_in_every_field() {
    let source = PluginMetadata {
        id: "id".to_string(),
        name: "name".to_string(),
        description: "text".to_string(),
        capabilities: vec![PluginCapability::ModelDownload, PluginCapability::ServiceStart],
    };
    let copy = source.clone();
    assert_eq!(copy.id, source.id);
    assert_eq!(copy.name, source.name);
    assert_eq!(copy.description, source.description);
    assert_eq!(copy.capabilities, source.capabilities);
}

#[test]
fn shared_registry_answers_like_the_registry() {
    let mut manager = PluginManager::new();
    manager.register(Described { id: "alpha", note: "a" });
    let shared = SharedPluginManager::new(manager);
    let other = shared.clone();
    assert_eq!(shared.list_metadata().len(), 1);
    assert_eq!(other.list_metadata()[0].id, "alpha");
    assert_eq!(other.plugin("alpha").unwrap().note, "a");
    assert!(shared.plugin("beta").is_none());
    assert_eq!(list_plugins(&shared).len(), 1);
}

#[test]
fn unknown_plugin_is_not_found() {
    let mut manager = PluginManager::new();
    manager.register(Described { id: "alpha", note: "" });
    let shared = SharedPluginManager::new(manager);
    let not_found = (404u16, PluginErrorResponse { message: "plugin not found".to_string() });
    assert_eq!(download_model(&shared, "ghost", download_request()), Err(not_found.clone()));
    assert_eq!(start_service(&shared, "ghost", start_request()), Err(not_found.clone()));
    assert_eq!(
        stop_service(&shared, "ghost", StopServiceRequest { task_type: PluginTaskType::Text }),
        Err(not_found.clone())
    );
    assert_eq!(find_plugin(&shared, "ghost").err(), Some(not_found));
    assert!(find_plugin(&shared, "alpha").is_ok());
}

#[test]
fn missing_operation_is_unsupported_not_not_found() {
    let mut manager = PluginManager::new();
    manager.register(Described { id: "alpha", note: "" });
    let shared = SharedPluginManager::new(manager);
    let unsupported =
        (400u16, PluginErrorResponse { message: "operation not supported".to_string() });
    assert_eq!(start_service(&shared, "alpha", start_request()), Err(unsupported.clone()));
    assert_eq!(download_model(&shared, "alpha", download_request()), Err(unsupported));
}

#[test]
fn answers_of_the_plugin_pass_through() {
    let mut manager = PluginManager::new();
    manager.register(Described { id: "alpha", note: "downloads" });
    let shared = SharedPluginManager::new(manager);
    assert_eq!(
        download_model(&shared, "alpha", download_request()),
        Ok(DownloadModelResponse { saved_path: "model.bin".to_string(), bytes_written: 3 })
    );
    assert_eq!(
        stop_service(&shared, "alpha", StopServiceRequest { task_type: PluginTaskType::Text }),
        Ok(StopServiceResponse { task_type: PluginTaskType::Text, terminated: true })
    );
    assert_eq!(
        stop_service(&shared, "alpha", StopServiceRequest { task_type: PluginTaskType::Tts }),
        Err((409, PluginErrorResponse { message: "process not running for Tts".to_string() }))
    );
}

#[test]
fn status_of_every_kind() {
    assert_eq!(status_code(ErrorKind::UnsupportedOperation), 400);
    assert_eq!(status_code(ErrorKind::InvalidRequest), 400);
    assert_eq!(status_code(ErrorKind::NotFound), 404);
    assert_eq!(status_code(ErrorKind::AlreadyRunning), 409);
    assert_eq!(status_code(ErrorKind::NotRunning), 409);
    assert_eq!(status_code(ErrorKind::Filesystem), 500);
    assert_eq!(status_code(ErrorKind::Network), 502);
    assert_eq!(status_code(ErrorKind::ProcessStart), 500);
}

#[test]
fn failures_as_a_caller_sees_them() {
    assert_eq!(
        map_error(PluginError::InvalidRequest("filename is required".to_string())),
        (400, PluginErrorResponse::new("invalid request: filename is required".to_string()))
    );
    assert_eq!(
        map_error(PluginError::ProcessAlreadyRunning(PluginTaskType::Text)),
        (409, PluginErrorResponse::new("process already running for Text".to_string()))
    );
    assert_eq!(
        map_error(PluginError::Network { status: Some(404), message: "gone".to_string() }),
        (502, PluginErrorResponse::new("gone".to_string()))
    );
    assert_eq!(
        map_error(PluginError::Io("disk full".to_string())),
        (500, PluginErrorResponse::new("disk full".to_string()))
    );
    assert_eq!(
        map_error(PluginError::ProcessStart("boom".to_string())),
        (500, PluginErrorResponse::new("failed to start process: boom".to_string()))
    );
    assert_eq!(
        map_error(PluginError::NotFound("x".to_string())),
        (404, PluginErrorResponse::new("plugin not found".to_string()))
    );
}

#[test]
fn respond_keeps_successes_and_maps_failures() {
    assert_eq!(respond::<u8>(Ok(7)), Ok(7));
    assert_eq!(
        respond::<u8>(Err(PluginError::UnsupportedOperation)),
        Err((400, PluginErrorResponse::new("operation not supported".to_string())))
    );
}
