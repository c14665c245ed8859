//! The four plugin operations as a caller reaches them: by plugin identifier,
//! with every failure turned into a status code and a message.

use crate::error::{ErrorKind, PluginError, PluginErrorView};
use crate::model::{
    DownloadModelRequest,
    DownloadModelResponse,
    PluginMetadata,
    PluginMetadataView,
    StartServiceRequest,
    StartServiceResponse,
    StopServiceRequest,
    StopServiceResponse,
};
use crate::registry::{distinct_ids, lists_id, ServerPlugin, SharedPluginManager};
use vstd::prelude::*;

verus! {

/// The body of a failed call.
#[derive(Debug, Clone, PartialEq, Eq)]
pub struct PluginErrorResponse {
    pub message: String,
}

impl PluginErrorResponse {
    pub fn new(message: String) -> (response: Self)
        ensures
            response.message == message,
    {
        PluginErrorResponse { message }
    }
}

/// The status code that stands for a kind of failure.
pub open spec fn status_of(kind: ErrorKind) -> u16 {
    match kind {
        ErrorKind::UnsupportedOperation => 400,
        ErrorKind::InvalidRequest => 400,
        ErrorKind::NotFound => 404,
        ErrorKind::AlreadyRunning => 409,
        ErrorKind::NotRunning => 409,
        ErrorKind::Filesystem => 500,
        ErrorKind::Network => 502,
        ErrorKind::ProcessStart => 500,
    }
}

/// Computes [`status_of`].
pub fn status_code(kind: ErrorKind) -> (status: u16)
    ensures
        status == status_of(kind),
{
    match kind {
        ErrorKind::UnsupportedOperation => 400,
        ErrorKind::InvalidRequest => 400,
        ErrorKind::NotFound => 404,
        ErrorKind::AlreadyRunning => 409,
        ErrorKind::NotRunning => 409,
        ErrorKind::Filesystem => 500,
        ErrorKind::Network => 502,
        ErrorKind::ProcessStart => 500,
    }
}

/// A failure as a caller sees it: the status of its kind, and its message.
pub fn map_error(error: PluginError) -> (mapped: (u16, PluginErrorResponse))
    ensures
        mapped.0 == status_of(error@.kind()),
        mapped.1.message@ == error@.message(),
{
    let status = status_code(error.kind());
    (status, PluginErrorResponse::new(error.message()))
}

/// Whether `mapped` is the answer `answer` of a plugin as a caller sees it: a
/// success as it is, a failure as the status of its kind and its message.
pub open spec fn responds<T>(
    answer: Result<T, PluginError>,
    mapped: Result<T, (u16, PluginErrorResponse)>,
) -> bool {
    match answer {
        Ok(value) => mapped == Ok::<T, (u16, PluginErrorResponse)>(value),
        Err(error) => {
            &&& mapped is Err
            &&& mapped->Err_0.0 == status_of(error@.kind())
            &&& mapped->Err_0.1.message@ == error@.message()
        },
    }
}

/// The answer of a plugin as a caller sees it.
pub fn respond<T>(answer: Result<T, PluginError>) -> (mapped: Result<T, (u16, PluginErrorResponse)>)
    ensures
        responds(answer, mapped),
{
    match answer {
        Ok(value) => Ok(value),
        Err(error) => Err(map_error(error)),
    }
}

/// Whether a failed call reports that no plugin has the identifier asked for.
pub open spec fn is_not_found(failure: (u16, PluginErrorResponse)) -> bool {
    failure.0 == 404 && failure.1.message@ == "plugin not found"@
}

/// The plugin registered under `plugin_id`, or the not-found failure.
pub fn find_plugin<'a, P>(manager: &'a SharedPluginManager<P>, plugin_id: &str) -> (found: Result<
    &'a P,
    (u16, PluginErrorResponse),
>)
    ensures
        match found {
            Ok(plugin) => manager.plugins().dom().contains(plugin_id@) && *plugin
                == manager.plugins()[plugin_id@],
            Err(failure) => !manager.plugins().dom().contains(plugin_id@) && is_not_found(failure),
        },
{
    match manager.plugin(plugin_id) {
        Some(plugin) => Ok(plugin),
        None => Err(map_error(PluginError::NotFound(plugin_id.to_owned()))),
    }
}

/// The descriptors of all registered plugins.
pub fn list_plugins<P>(manager: &SharedPluginManager<P>) -> (all: Vec<PluginMetadata>)
    ensures
        all@.map_values(|m: PluginMetadata| m@) == manager.listing(),
        distinct_ids(manager.listing()),
        forall|id: Seq<char>|
            manager.plugins().dom().contains(id) <==> lists_id(manager.listing(), id),
{
    manager.list_metadata()
}

/// Asks the plugin registered under `plugin_id` to download a model file.
/// Without such a plugin the call fails as not found and no plugin is asked.
pub fn download_model<P: ServerPlugin>(
    manager: &SharedPluginManager<P>,
    plugin_id: &str,
    payload: DownloadModelRequest,
) -> (answer: Result<DownloadModelResponse, (u16, PluginErrorResponse)>)
    ensures
        !manager.plugins().dom().contains(plugin_id@) ==> answer is Err && is_not_found(
            answer->Err_0,
        ),
        manager.plugins().dom().contains(plugin_id@) ==> exists|given: Result<
            DownloadModelResponse,
            PluginError,
        >|
            P::download_model.ensures((&manager.plugins()[plugin_id@], payload), given) && #[trigger] responds(
                given,
                answer,
            ),
{
    match find_plugin(manager, plugin_id) {
        Ok(plugin) => respond(plugin.download_model(payload)),
        Err(failure) => Err(failure),
    }
}

/// Asks the plugin registered under `plugin_id` to start a service.
/// Without such a plugin the call fails as not found and no plugin is asked.
pub fn start_service<P: ServerPlugin>(
    manager: &SharedPluginManager<P>,
    plugin_id: &str,
    payload: StartServiceRequest,
) -> (answer: Result<StartServiceResponse, (u16, PluginErrorResponse)>)
    ensures
        !manager.plugins().dom().contains(plugin_id@) ==> answer is Err && is_not_found(
            answer->Err_0,
        ),
        manager.plugins().dom().contains(plugin_id@) ==> exists|given: Result<
            StartServiceResponse,
            PluginError,
        >|
            P::start_service.ensures((&manager.plugins()[plugin_id@], payload), given) && #[trigger] responds(
                given,
                answer,
            ),
{
    match find_plugin(manager, plugin_id) {
        Ok(plugin) => respond(plugin.start_service(payload)),
        Err(failure) => Err(failure),
    }
}

/// Asks the plugin registered under `plugin_id` to stop a service.
/// Without such a plugin the call fails as not found and no plugin is asked.
pub fn stop_service<P: ServerPlugin>(
    manager: &SharedPluginManager<P>,
    plugin_id: &str,
    payload: StopServiceRequest,
) -> (answer: Result<StopServiceResponse, (u16, PluginErrorResponse)>)
    ensures
        !manager.plugins().dom().contains(plugin_id@) ==> answer is Err && is_not_found(
            answer->Err_0,
        ),
        manager.plugins().dom().contains(plugin_id@) ==> exists|given: Result<
            StopServiceResponse,
            PluginError,
        >|
            P::stop_service.ensures((&manager.plugins()[plugin_id@], payload), given) && #[trigger] responds(
                given,
                answer,
            ),
{
    match find_plugin(manager, plugin_id) {
        Ok(plugin) => respond(plugin.stop_service(payload)),
        Err(failure) => Err(failure),
    }
}

/// Only a failure of the not-found kind is reported with status 404: a
/// plugin that lacks an operation, or fails in it, is never taken for a
/// missing plugin.
pub proof fn lemma_status_404_means_not_found(error: PluginErrorView)
    ensures
        status_of(error.kind()) == 404 <==> error.kind() == ErrorKind::NotFound,
        error.kind() == ErrorKind::UnsupportedOperation ==> status_of(error.kind()) == 400
            && error.message() != "plugin not found"@,
{
    reveal_strlit("plugin not found");
    reveal_strlit("operation not supported");
    if error.kind() == ErrorKind::UnsupportedOperation {
        assert(error.message().len() != "plugin not found"@.len());
    }
}

} // verus!
