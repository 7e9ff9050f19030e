//! Classifies what the hosting service answered about one issue.

use vstd::prelude::*;
use vstd::string::*;

verus! {

pub const OPEN: &'static str = "open";

pub const CLOSED: &'static str = "closed";

/// The state of an issue as the service reports it.
#[derive(Clone, Debug, PartialEq, Eq)]
pub enum IssueState {
    Open,
    Closed,
    /// A state that is neither "open" nor "closed", kept as it came.
    Other(String),
}

/// `IssueState` over plain text.
pub enum StateModel {
    Open,
    Closed,
    Other(Seq<char>),
}

impl View for IssueState {
    type V = StateModel;

    open spec fn view(&self) -> StateModel {
        match self {
            IssueState::Open => StateModel::Open,
            IssueState::Closed => StateModel::Closed,
            IssueState::Other(text) => StateModel::Other(text@),
        }
    }
}

/// What the service said: the issue's state, or its own error message.
#[derive(Clone, Debug, PartialEq, Eq)]
pub enum IssueStatus {
    Known { state: IssueState },
    Failure { message: String },
}

/// `IssueStatus` over plain text.
pub enum StatusModel {
    Known(StateModel),
    Failure(Seq<char>),
}

impl View for IssueStatus {
    type V = StatusModel;

    open spec fn view(&self) -> StatusModel {
        match self {
            IssueStatus::Known { state } => StatusModel::Known(state@),
            IssueStatus::Failure { message } => StatusModel::Failure(message@),
        }
    }
}

/// The two fields that a response body may carry, each as found.
#[derive(Clone, Debug, PartialEq, Eq)]
pub struct ResponseBody {
    pub state: Option<String>,
    pub message: Option<String>,
}

impl View for ResponseBody {
    type V = (Option<Seq<char>>, Option<Seq<char>>);

    open spec fn view(&self) -> (Option<Seq<char>>, Option<Seq<char>>) {
        (crate::model::text_of(self.state), crate::model::text_of(self.message))
    }
}

/// How a state string is read: only "open" and "closed" are recognised.
pub open spec fn state_of(text: Seq<char>) -> StateModel {
    if text == OPEN@ {
        StateModel::Open
    } else if text == CLOSED@ {
        StateModel::Closed
    } else {
        StateModel::Other(text)
    }
}

/// Which shape a body has: a state makes it an answer, else a message makes
/// it a failure that the service reported; with neither it has no shape.
pub open spec fn status_of(body: (Option<Seq<char>>, Option<Seq<char>>)) -> Option<StatusModel> {
    match body {
        (Some(state), _) => Some(StatusModel::Known(state_of(state))),
        (None, Some(message)) => Some(StatusModel::Failure(message)),
        (None, None) => None,
    }
}

/// Reads a state string.
pub fn interpret_state(text: String) -> (r: IssueState)
    ensures
        r@ == state_of(text@),
{
    if text == String::from_str(OPEN) {
        IssueState::Open
    } else if text == String::from_str(CLOSED) {
        IssueState::Closed
    } else {
        IssueState::Other(text)
    }
}

/// Classifies a response body; `None` where it has neither shape.
pub fn classify_response(body: ResponseBody) -> (r: Option<IssueStatus>)
    ensures
        r.is_some() == status_of(body@).is_some(),
        r matches Some(status) ==> status@ == status_of(body@).unwrap(),
{
    match body.state {
        Some(state) => Some(IssueStatus::Known { state: interpret_state(state) }),
        None => match body.message {
            Some(message) => Some(IssueStatus::Failure { message }),
            None => None,
        },
    }
}

/// "open" and "closed" are read as the two known states, and nothing else is.
pub proof fn lemma_known_states()
    ensures
        state_of(OPEN@) == StateModel::Open,
        state_of(CLOSED@) == StateModel::Closed,
        forall|text: Seq<char>|
            text != OPEN@ && text != CLOSED@ ==> #[trigger] state_of(text) == StateModel::Other(
                text,
            ),
{
    reveal_strlit("open");
    reveal_strlit("closed");
    assert(OPEN@.len() != CLOSED@.len());
}

} // verus!
