//! The tool that runs `cargo check` in a project.

use vstd::prelude::*;
use vstd::string::*;
use crate::project::{Platform, Project, opt_view};
use crate::mcp::utils::{
    ArgValue, CallToolRequest, CanonicalForms, ToolResponse, ToolResponseView, error_response,
    error_view, get_info_from_request, project_value, request_info, text_response, text_view,
};

verus! {

/// One parameter that a tool takes.
#[derive(Debug, Clone)]
pub struct ToolParameter {
    pub name: String,
    /// The JSON type of the parameter.
    pub kind: String,
    pub description: String,
}

/// A tool as it is announced to the client. Every parameter is required.
#[derive(Debug, Clone)]
pub struct Tool {
    pub name: String,
    pub description: Option<String>,
    pub parameters: Vec<ToolParameter>,
}

/// What to do with a call of the tool.
#[derive(Debug)]
pub enum CallPlan {
    /// Answer at once, without running anything.
    Reply(ToolResponse),
    /// Run the check and answer with what `handle_request` makes of the
    /// outcome, announcing request and answer as `steps` orders them.
    Check { relative_file: String, absolute_file: String, only_errors: bool },
}

pub enum CallPlanView {
    Reply(ToolResponseView),
    Check { relative_file: Seq<char>, absolute_file: Seq<char>, only_errors: bool },
}

impl View for CallPlan {
    type V = CallPlanView;

    open spec fn view(&self) -> CallPlanView {
        match *self {
            CallPlan::Reply(response) => CallPlanView::Reply(response@),
            CallPlan::Check { relative_file, absolute_file, only_errors } => CallPlanView::Check {
                relative_file: relative_file@,
                absolute_file: absolute_file@,
                only_errors,
            },
        }
    }
}

/// One thing to do for a call, in the order in which it is done.
#[derive(Clone, Copy, PartialEq, Eq, Structural, Debug)]
pub enum CallStep {
    /// Tell listeners that the request came in.
    AnnounceRequest,
    /// Run the check and build the answer from its outcome.
    RunCheck,
    /// Tell listeners what is answered.
    AnnounceAnswer,
    /// Hand the answer to the client.
    Answer,
}

/// The steps of a plan, in order: an answer at once is only answered; a
/// check is announced, run, and its answer announced before it is handed
/// over.
pub open spec fn plan_steps(plan: CallPlanView) -> Seq<CallStep> {
    match plan {
        CallPlanView::Reply(_) => seq![CallStep::Answer],
        CallPlanView::Check { .. } => seq![
            CallStep::AnnounceRequest,
            CallStep::RunCheck,
            CallStep::AnnounceAnswer,
            CallStep::Answer,
        ],
    }
}

impl CallPlan {
    /// The steps of the plan, in order.
    pub fn steps(&self) -> (r: Vec<CallStep>)
        ensures
            r@ == plan_steps(self@),
    {
        let mut steps: Vec<CallStep> = Vec::new();
        match self {
            CallPlan::Reply(_) => {},
            CallPlan::Check { .. } => {
                steps.push(CallStep::AnnounceRequest);
                steps.push(CallStep::RunCheck);
                steps.push(CallStep::AnnounceAnswer);
            },
        }
        steps.push(CallStep::Answer);
        steps
    }
}

/// How a run of `cargo check` ended.
#[derive(Debug)]
pub enum CheckOutcome {
    /// The check ran; `json` is its messages, serialised.
    Report { json: String },
    /// The check could not be run.
    CheckFailed { cause: String },
    /// The check ran but its messages could not be serialised.
    NotSerialized { cause: String },
}

/// Whether a request asks for errors only: its `only_errors` argument where
/// that is a boolean, else no.
pub open spec fn wants_only_errors(request: CallToolRequest) -> bool {
    match request.argument("only_errors"@) {
        Some(ArgValue::Bool(flag)) => flag,
        _ => false,
    }
}

/// Whether a request asks for errors only.
pub fn only_errors(request: &CallToolRequest) -> (r: bool)
    ensures
        r == wants_only_errors(*request),
{
    match request.get_argument("only_errors") {
        Some(ArgValue::Bool(flag)) => *flag,
        _ => false,
    }
}

/// The answer for each outcome of the check.
pub open spec fn check_answer(outcome: CheckOutcome) -> Result<ToolResponseView, ToolResponseView> {
    match outcome {
        CheckOutcome::Report { json } => Ok(text_view(json@)),
        CheckOutcome::CheckFailed { cause } => Err(error_view("Cargo check failed: "@ + cause@)),
        CheckOutcome::NotSerialized { cause } => Err(
            error_view("Failed to serialize cargo check results: "@ + cause@),
        ),
    }
}

/// The view of an answer, whichever side it is on.
pub open spec fn answer_view(r: Result<ToolResponse, ToolResponse>) -> Result<
    ToolResponseView,
    ToolResponseView,
> {
    match r {
        Ok(response) => Ok(response@),
        Err(response) => Err(response@),
    }
}

/// Builds the answer from the outcome of the check: the serialised messages
/// on success, an error answer that names the cause otherwise.
pub fn handle_request(outcome: CheckOutcome) -> (r: Result<ToolResponse, ToolResponse>)
    ensures
        answer_view(r) == check_answer(outcome),
{
    match outcome {
        CheckOutcome::Report { json } => Ok(text_response(json)),
        CheckOutcome::CheckFailed { cause } => {
            let message = String::from_str("Cargo check failed: ").concat(cause.as_str());
            Err(error_response(message.as_str()))
        },
        CheckOutcome::NotSerialized { cause } => {
            let message = String::from_str("Failed to serialize cargo check results: ").concat(
                cause.as_str(),
            );
            Err(error_response(message.as_str()))
        },
    }
}

/// The plan for a request, given the project that holds its file and the
/// canonical forms of root and file.
pub open spec fn call_plan(
    request: CallToolRequest,
    project: Option<Project>,
    platform: Platform,
    canonical_root: Option<Seq<char>>,
    canonical_path: Option<Seq<char>>,
) -> CallPlanView {
    match request_info(request, project, platform, canonical_root, canonical_path) {
        Err(response) => CallPlanView::Reply(response),
        Ok(info) => CallPlanView::Check {
            relative_file: info.relative_path,
            absolute_file: info.absolute_path,
            only_errors: wants_only_errors(request),
        },
    }
}

/// The `cargo check` tool.
#[derive(Debug, Clone, Copy)]
pub struct CargoCheck;

impl CargoCheck {
    /// The tool as it is announced: its name, what it does, and its two
    /// required parameters.
    pub fn tool() -> (r: Tool)
        ensures
            r.name@ == "cargo_check"@,
            r.description matches Some(text) && text@
                == "Run the cargo check command in this project. Returns the response in JSON format"@,
            r.parameters@.len() == 2,
            r.parameters@[0].name@ == "file"@,
            r.parameters@[0].kind@ == "string"@,
            r.parameters@[0].description@
                == "The absolute path to the `Cargo.toml` file of the project to check"@,
            r.parameters@[1].name@ == "only_errors"@,
            r.parameters@[1].kind@ == "boolean"@,
            r.parameters@[1].description@
                == "If true, only errors will be returned. If false, errors and warnings will be returned."@,
    {
        let mut parameters: Vec<ToolParameter> = Vec::new();
        parameters.push(
            ToolParameter {
                name: String::from_str("file"),
                kind: String::from_str("string"),
                description: String::from_str(
                    "The absolute path to the `Cargo.toml` file of the project to check",
                ),
            },
        );
        parameters.push(
            ToolParameter {
                name: String::from_str("only_errors"),
                kind: String::from_str("boolean"),
                description: String::from_str(
                    "If true, only errors will be returned. If false, errors and warnings will be returned.",
                ),
            },
        );
        Tool {
            name: String::from_str("cargo_check"),
            description: Some(
                String::from_str(
                    "Run the cargo check command in this project. Returns the response in JSON format",
                ),
            ),
            parameters,
        }
    }

    /// Decides what to do with a call. `project` is the project that holds
    /// the file named by the request, if one is known. Where the file cannot
    /// be placed the error is the answer and nothing is run.
    pub fn call(
        request: &CallToolRequest,
        project: Option<&Project>,
        platform: Platform,
        canonical: CanonicalForms,
    ) -> (r: CallPlan)
        ensures
            r@ == call_plan(
                *request,
                project_value(project),
                platform,
                opt_view(canonical.root),
                opt_view(canonical.path),
            ),
    {
        let wanted = only_errors(request);
        match get_info_from_request(request, project, platform, canonical) {
            Err(response) => CallPlan::Reply(response),
            Ok(info) => CallPlan::Check {
                relative_file: info.relative_path,
                absolute_file: info.absolute_path,
                only_errors: wanted,
            },
        }
    }
}

} // verus!
