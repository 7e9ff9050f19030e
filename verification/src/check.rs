//! Sequences resolution and status check, and maps what was learned to the
//! outcome that the caller reports. The one request is left to the caller:
//! `begin` says whether to make it, `conclude` takes what came back.

use crate::model::{text_of, Endpoint, ParseError};
use crate::pattern::{parse_issue_pattern, resolve_pattern};
use crate::remote::{workspace_view, Remotes};
use crate::status::{
    classify_response, status_of, IssueState, IssueStatus, ResponseBody, StateModel, StatusModel,
};
use vstd::prelude::*;
use vstd::string::*;

verus! {

/// The reason of a warning where the caller gave none.
pub const DEFAULT_REASON: &'static str = "Issue was closed.";

pub const UNRECOGNIZED_STATE: &'static str = "unrecognized state: ";

pub const MALFORMED_RESPONSE: &'static str = "response holds neither a state nor a message";

/// The marker by which every request identifies this client.
pub const USER_AGENT: &'static str = "blocked-rs";

/// The final classification of one check.
#[derive(Clone, Debug, PartialEq, Eq)]
pub enum CheckOutcome {
    /// The issue is open, or the check was not due.
    Pass,
    /// The issue is closed.
    Warn(String),
    /// The pattern could not be resolved.
    ParseError(String),
    /// The service could not be asked, or its answer could not be used.
    RuntimeError(String),
}

/// `CheckOutcome` over plain text.
pub enum OutcomeModel {
    Pass,
    Warn(Seq<char>),
    ParseError(Seq<char>),
    RuntimeError(Seq<char>),
}

impl View for CheckOutcome {
    type V = OutcomeModel;

    open spec fn view(&self) -> OutcomeModel {
        match self {
            CheckOutcome::Pass => OutcomeModel::Pass,
            CheckOutcome::Warn(reason) => OutcomeModel::Warn(reason@),
            CheckOutcome::ParseError(message) => OutcomeModel::ParseError(message@),
            CheckOutcome::RuntimeError(message) => OutcomeModel::RuntimeError(message@),
        }
    }
}

/// The one request of a check: where it goes and what it carries.
#[derive(Clone, Debug, PartialEq, Eq)]
pub struct Request {
    pub endpoint: Endpoint,
    pub user_agent: String,
    pub authorization: Option<String>,
}

/// `Request` over plain text.
pub struct RequestModel {
    pub endpoint: Seq<char>,
    pub user_agent: Seq<char>,
    pub authorization: Option<Seq<char>>,
}

impl View for Request {
    type V = RequestModel;

    open spec fn view(&self) -> RequestModel {
        RequestModel {
            endpoint: self.endpoint@,
            user_agent: self.user_agent@,
            authorization: text_of(self.authorization),
        }
    }
}

/// What the caller does next: report an outcome, or make the request and
/// come back with the reply.
#[derive(Clone, Debug, PartialEq, Eq)]
pub enum Step {
    Done(CheckOutcome),
    Fetch(Request),
}

/// `Step` over plain text.
pub enum StepModel {
    Done(OutcomeModel),
    Fetch(RequestModel),
}

impl View for Step {
    type V = StepModel;

    open spec fn view(&self) -> StepModel {
        match self {
            Step::Done(outcome) => StepModel::Done(outcome@),
            Step::Fetch(request) => StepModel::Fetch(request@),
        }
    }
}

/// What came back from the request.
#[derive(Clone, Debug, PartialEq, Eq)]
pub enum Reply {
    /// The request failed, or its body could not be decoded; the text says how.
    Failed(String),
    /// A decoded body.
    Body(ResponseBody),
}

impl View for Reply {
    type V = Result<(Option<Seq<char>>, Option<Seq<char>>), Seq<char>>;

    open spec fn view(&self) -> Result<(Option<Seq<char>>, Option<Seq<char>>), Seq<char>> {
        match self {
            Reply::Failed(message) => Err(message@),
            Reply::Body(body) => Ok(body@),
        }
    }
}

/// The request for an address: the client marker always, an authorization
/// only where a credential was supplied.
pub open spec fn request_for(endpoint: Seq<char>, credential: Option<Seq<char>>) -> RequestModel {
    RequestModel { endpoint, user_agent: USER_AGENT@, authorization: credential }
}

/// The first step of a check, from the resolution of its pattern and the two
/// signals that gate the request.
pub open spec fn first_step(
    resolution: Result<Seq<char>, Seq<char>>,
    credential: Option<Seq<char>>,
    automated: bool,
) -> StepModel {
    match resolution {
        Err(message) => StepModel::Done(OutcomeModel::ParseError(message)),
        Ok(endpoint) => if credential is None && !automated {
            StepModel::Done(OutcomeModel::Pass)
        } else {
            StepModel::Fetch(request_for(endpoint, credential))
        },
    }
}

/// The outcome for a classified status and the caller's reason.
pub open spec fn outcome_of(status: StatusModel, reason: Option<Seq<char>>) -> OutcomeModel {
    match status {
        StatusModel::Failure(message) => OutcomeModel::RuntimeError(message),
        StatusModel::Known(StateModel::Open) => OutcomeModel::Pass,
        StatusModel::Known(StateModel::Closed) => OutcomeModel::Warn(
            match reason {
                Some(text) => text,
                None => DEFAULT_REASON@,
            },
        ),
        StatusModel::Known(StateModel::Other(state)) => OutcomeModel::RuntimeError(
            UNRECOGNIZED_STATE@ + state,
        ),
    }
}

/// The outcome for a reply and the caller's reason.
pub open spec fn verdict(
    reply: Result<(Option<Seq<char>>, Option<Seq<char>>), Seq<char>>,
    reason: Option<Seq<char>>,
) -> OutcomeModel {
    match reply {
        Err(message) => OutcomeModel::RuntimeError(message),
        Ok(body) => match status_of(body) {
            None => OutcomeModel::RuntimeError(MALFORMED_RESPONSE@),
            Some(status) => outcome_of(status, reason),
        },
    }
}

/// Describes the request for an address.
pub fn github_request(endpoint: Endpoint, credential: Option<String>) -> (r: Request)
    ensures
        r@ == request_for(endpoint@, text_of(credential)),
{
    Request { endpoint, user_agent: String::from_str(USER_AGENT), authorization: credential }
}

/// Decides the first step from the resolution of the pattern and the gating
/// signals: an unresolved pattern ends the check; without a credential and
/// outside an automated environment the check is not due.
pub fn begin(
    resolution: Result<Endpoint, ParseError>,
    credential: Option<String>,
    automated: bool,
) -> (r: Step)
    ensures
        r@ == first_step(
            match resolution {
                Ok(endpoint) => Ok(endpoint@),
                Err(e) => Err(e@),
            },
            text_of(credential),
            automated,
        ),
{
    match resolution {
        Err(e) => Step::Done(CheckOutcome::ParseError(e.message)),
        Ok(endpoint) => {
            if credential.is_none() && !automated {
                Step::Done(CheckOutcome::Pass)
            } else {
                Step::Fetch(github_request(endpoint, credential))
            }
        },
    }
}

/// Resolves the pattern in the workspace and decides the first step.
pub fn start(
    pattern: &str,
    workspace: &Option<Remotes>,
    credential: Option<String>,
    automated: bool,
) -> (r: Step)
    ensures
        r@ == first_step(
            resolve_pattern(pattern@, workspace_view(*workspace)),
            text_of(credential),
            automated,
        ),
{
    let resolution = parse_issue_pattern(pattern, workspace);
    begin(resolution, credential, automated)
}

/// Maps a classified status to the outcome.
pub fn outcome(status: IssueStatus, reason: Option<String>) -> (r: CheckOutcome)
    ensures
        r@ == outcome_of(status@, text_of(reason)),
{
    match status {
        IssueStatus::Failure { message } => CheckOutcome::RuntimeError(message),
        IssueStatus::Known { state } => match state {
            IssueState::Open => CheckOutcome::Pass,
            IssueState::Closed => match reason {
                Some(text) => CheckOutcome::Warn(text),
                None => CheckOutcome::Warn(String::from_str(DEFAULT_REASON)),
            },
            IssueState::Other(state) => CheckOutcome::RuntimeError(
                String::from_str(UNRECOGNIZED_STATE).concat(state.as_str()),
            ),
        },
    }
}

/// Decides the outcome from what came back from the request.
pub fn conclude(reply: Reply, reason: Option<String>) -> (r: CheckOutcome)
    ensures
        r@ == verdict(reply@, text_of(reason)),
{
    match reply {
        Reply::Failed(message) => CheckOutcome::RuntimeError(message),
        Reply::Body(body) => match classify_response(body) {
            None => CheckOutcome::RuntimeError(String::from_str(MALFORMED_RESPONSE)),
            Some(status) => outcome(status, reason),
        },
    }
}

/// Without a credential and outside an automated environment no request is
/// made: a pattern that resolves passes, one that does not is a parse error.
pub proof fn lemma_no_request_without_prerequisites(resolution: Result<Seq<char>, Seq<char>>)
    ensures
        first_step(resolution, None, false) is Done,
        resolution is Ok ==> first_step(resolution, None, false) == StepModel::Done(
            OutcomeModel::Pass,
        ),
        resolution matches Err(message) ==> first_step(resolution, None, false) == StepModel::Done(
            OutcomeModel::ParseError(message),
        ),
{
}

/// A pattern that does not resolve never leads to a request, whatever the
/// gating signals say.
pub proof fn lemma_parse_error_ends_check(
    message: Seq<char>,
    credential: Option<Seq<char>>,
    automated: bool,
)
    ensures
        first_step(Err(message), credential, automated) == StepModel::Done(
            OutcomeModel::ParseError(message),
        ),
{
}

/// A request carries the client marker always, and an authorization exactly
/// where a credential was supplied.
pub proof fn lemma_request_headers(
    endpoint: Seq<char>,
    credential: Option<Seq<char>>,
    automated: bool,
)
    requires
        credential is Some || automated,
    ensures
        first_step(Ok(endpoint), credential, automated) matches StepModel::Fetch(request)
            && request.endpoint == endpoint && request.user_agent == USER_AGENT@
            && request.authorization == credential,
{
}

/// A closed issue warns with the caller's reason, or the default one.
pub proof fn lemma_closed_warns(reason: Option<Seq<char>>, message: Option<Seq<char>>)
    ensures
        verdict(Ok((Some(crate::status::CLOSED@), message)), reason) == OutcomeModel::Warn(
            match reason {
                Some(text) => text,
                None => DEFAULT_REASON@,
            },
        ),
{
    crate::status::lemma_known_states();
}

/// An open issue passes.
pub proof fn lemma_open_passes(reason: Option<Seq<char>>, message: Option<Seq<char>>)
    ensures
        verdict(Ok((Some(crate::status::OPEN@), message)), reason) == OutcomeModel::Pass,
{
    crate::status::lemma_known_states();
}

/// A failure that the service reported is a runtime error with its message,
/// never a warning.
pub proof fn lemma_reported_failure(message: Seq<char>, reason: Option<Seq<char>>)
    ensures
        verdict(Ok((None, Some(message))), reason) == OutcomeModel::RuntimeError(message),
        !(verdict(Ok((None, Some(message))), reason) is Warn),
{
}

/// A state that is neither "open" nor "closed" is a runtime error that names
/// it, never a pass and never a warning.
pub proof fn lemma_unrecognized_state(
    state: Seq<char>,
    message: Option<Seq<char>>,
    reason: Option<Seq<char>>,
)
    requires
        state != crate::status::OPEN@,
        state != crate::status::CLOSED@,
    ensures
        verdict(Ok((Some(state), message)), reason) == OutcomeModel::RuntimeError(
            UNRECOGNIZED_STATE@ + state,
        ),
{
}

/// Only an answer with state "open" passes, and only one with state "closed"
/// warns.
pub proof fn lemma_pass_and_warn_need_a_known_state(
    reply: Result<(Option<Seq<char>>, Option<Seq<char>>), Seq<char>>,
    reason: Option<Seq<char>>,
)
    ensures
        verdict(reply, reason) is Pass ==> (reply matches Ok(body) && body.0 == Some(
            crate::status::OPEN@,
        )),
        verdict(reply, reason) is Warn ==> (reply matches Ok(body) && body.0 == Some(
            crate::status::CLOSED@,
        )),
{
    crate::status::lemma_known_states();
}

} // verus!
