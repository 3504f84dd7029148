//! The daemon operations as steps: which request each one sends first, and,
//! for the operations that change the installed models, what follows the
//! client's answer. The caller runs each request and hands back its output.
use vstd::prelude::*;
use crate::decode::{output_text, take_output_text, RawOutput, RawOutputView, EXIT_FAILURE_PREFIX};
use crate::text::lossy_text;
use crate::request::{
    delete_request, generate_body_text, generate_request, list_request, list_request_view,
    name_body_text, pull_request, BridgeConfig, HttpMethod, HttpRequest, HttpRequestView,
    DELETE_PATH, GENERATE_PATH, PULL_PATH,
};

verus! {

/// A request to the daemon, as the front end asks for it.
pub enum DaemonRequest {
    ListModels,
    Generate { model: String, prompt: String },
    Pull { name: String },
    Delete { name: String },
}

/// The HTTP request that starts each operation.
pub open spec fn opening_request_view(config: BridgeConfig, req: DaemonRequest) -> HttpRequestView {
    match req {
        DaemonRequest::ListModels => list_request_view(config),
        DaemonRequest::Generate { model, prompt } => HttpRequestView {
            method: HttpMethod::Post,
            url: config.daemon_base_url@ + GENERATE_PATH@,
            body: Some(generate_body_text(model@, prompt@)),
        },
        DaemonRequest::Pull { name } => HttpRequestView {
            method: HttpMethod::Post,
            url: config.daemon_base_url@ + PULL_PATH@,
            body: Some(name_body_text(name@)),
        },
        DaemonRequest::Delete { name } => HttpRequestView {
            method: HttpMethod::Delete,
            url: config.daemon_base_url@ + DELETE_PATH@,
            body: Some(name_body_text(name@)),
        },
    }
}

/// The HTTP request that starts the operation `req`.
pub fn opening_request(config: &BridgeConfig, req: &DaemonRequest) -> (r: HttpRequest)
    ensures
        r@ == opening_request_view(*config, *req),
{
    match req {
        DaemonRequest::ListModels => list_request(config),
        DaemonRequest::Generate { model, prompt } => generate_request(
            config,
            model.as_str(),
            prompt.as_str(),
        ),
        DaemonRequest::Pull { name } => pull_request(config, name.as_str()),
        DaemonRequest::Delete { name } => delete_request(config, name.as_str()),
    }
}

/// What follows a pull or a delete.
pub enum ChangeStep {
    /// Run this listing request; its envelope is the operation's result.
    Relist(HttpRequest),
    /// The operation fails with this error.
    Fail(String),
}

pub enum ChangeStepView {
    Relist(HttpRequestView),
    Fail(Seq<char>),
}

impl View for ChangeStep {
    type V = ChangeStepView;

    open spec fn view(&self) -> ChangeStepView {
        match self {
            ChangeStep::Relist(r) => ChangeStepView::Relist(r@),
            ChangeStep::Fail(e) => ChangeStepView::Fail(e@),
        }
    }
}

/// After a pull or delete: a fresh listing when the client succeeded and
/// its output is text (the output itself is not used), else its error.
pub open spec fn change_step_of(config: BridgeConfig, raw: RawOutputView) -> ChangeStepView {
    match output_text(raw) {
        Ok(_) => ChangeStepView::Relist(list_request_view(config)),
        Err(e) => ChangeStepView::Fail(e),
    }
}

/// Decides what follows the client's answer to a pull or a delete.
pub fn after_change(config: &BridgeConfig, raw: RawOutput) -> (r: ChangeStep)
    ensures
        r@ == change_step_of(*config, raw@),
{
    match take_output_text(raw) {
        Ok(_) => ChangeStep::Relist(list_request(config)),
        Err(e) => ChangeStep::Fail(e),
    }
}

/// Pull and delete, when the client succeeds, both go on to exactly the
/// request that lists the models, so both return what listing returns then.
pub proof fn lemma_change_forwards_listing(
    config: BridgeConfig,
    pulled: RawOutputView,
    deleted: RawOutputView,
)
    requires
        output_text(pulled) is Ok,
        output_text(deleted) is Ok,
    ensures
        change_step_of(config, pulled) == change_step_of(config, deleted),
        change_step_of(config, pulled) == ChangeStepView::Relist(
            opening_request_view(config, DaemonRequest::ListModels),
        ),
{
}

/// A pull or delete whose client exited with a failure status fails with an
/// error that quotes the captured standard error, whatever it printed else.
pub proof fn lemma_change_failure_reports_stderr(config: BridgeConfig, raw: RawOutputView)
    requires
        !raw.success,
    ensures
        change_step_of(config, raw) == ChangeStepView::Fail(EXIT_FAILURE_PREFIX@ + lossy_text(raw.stderr)),
{
}

} // verus!
