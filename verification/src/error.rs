//! What can go wrong when talking to a remote agent.

use crate::json::{Json, JsonValue};
use crate::model::opt_view;
use crate::text::{concat, decimal, push_decimal};
use std::time::Duration;
use vstd::prelude::*;

verus! {

/// `Clone::clone` of std's `Duration`, which is `Copy`: the same duration.
pub assume_specification[ <Duration as Clone>::clone ](d: &Duration) -> (r: Duration)
    ensures
        r == *d,
;

/// An error of the A2A layer. Every operation hands its failure back as one
/// of these; none is retried or repaired here.
#[derive(Debug, Clone, PartialEq)]
pub enum A2AError {
    /// The agent card could not be fetched.
    DiscoveryFailed(String),
    /// The agent card was fetched but is not a valid card.
    InvalidAgentCard(String),
    /// The HTTP exchange failed.
    Transport(String),
    /// A body could not be written as JSON or did not have the expected
    /// shape.
    Serialization(String),
    /// The remote agent answered with a JSON-RPC error.
    JsonRpc { code: i64, message: String, data: Option<Json> },
    /// There is no such task.
    TaskNotFound(String),
    /// The remote agent refused the task.
    TaskRejected(String),
    /// The task failed.
    TaskFailed(String),
    /// The task needs authentication.
    AuthRequired(String),
    /// An event stream could not be read.
    StreamingError(String),
    /// A push notification configuration was refused.
    PushNotificationError(String),
    /// A URL could not be read.
    InvalidUrl(String),
    /// Waiting for a task took too long.
    Timeout(Duration),
    /// The remote agent does not offer the operation.
    Unsupported(String),
}

/// The model of an [`A2AError`].
pub enum A2AErrorView {
    DiscoveryFailed(Seq<char>),
    InvalidAgentCard(Seq<char>),
    Transport(Seq<char>),
    Serialization(Seq<char>),
    JsonRpc { code: i64, message: Seq<char>, data: Option<JsonValue> },
    TaskNotFound(Seq<char>),
    TaskRejected(Seq<char>),
    TaskFailed(Seq<char>),
    AuthRequired(Seq<char>),
    StreamingError(Seq<char>),
    PushNotificationError(Seq<char>),
    InvalidUrl(Seq<char>),
    Timeout(Duration),
    Unsupported(Seq<char>),
}

impl View for A2AError {
    type V = A2AErrorView;

    open spec fn view(&self) -> A2AErrorView {
        match self {
            A2AError::DiscoveryFailed(s) => A2AErrorView::DiscoveryFailed(s@),
            A2AError::InvalidAgentCard(s) => A2AErrorView::InvalidAgentCard(s@),
            A2AError::Transport(s) => A2AErrorView::Transport(s@),
            A2AError::Serialization(s) => A2AErrorView::Serialization(s@),
            A2AError::JsonRpc { code, message, data } => A2AErrorView::JsonRpc {
                code: *code,
                message: message@,
                data: opt_view(*data),
            },
            A2AError::TaskNotFound(s) => A2AErrorView::TaskNotFound(s@),
            A2AError::TaskRejected(s) => A2AErrorView::TaskRejected(s@),
            A2AError::TaskFailed(s) => A2AErrorView::TaskFailed(s@),
            A2AError::AuthRequired(s) => A2AErrorView::AuthRequired(s@),
            A2AError::StreamingError(s) => A2AErrorView::StreamingError(s@),
            A2AError::PushNotificationError(s) => A2AErrorView::PushNotificationError(s@),
            A2AError::InvalidUrl(s) => A2AErrorView::InvalidUrl(s@),
            A2AError::Timeout(d) => A2AErrorView::Timeout(*d),
            A2AError::Unsupported(s) => A2AErrorView::Unsupported(s@),
        }
    }
}

/// How std writes a duration for debugging, such as `1.5s`.
pub uninterp spec fn duration_debug(d: Duration) -> Seq<char>;

/// The `Debug` form of std's `Duration`.
#[verifier::external_body]
fn duration_text(d: &Duration) -> (r: String)
    ensures
        r@ == duration_debug(*d),
{
    format!("{:?}", d)
}

impl A2AErrorView {
    /// The error in words.
    pub open spec fn message(self) -> Seq<char> {
        match self {
            A2AErrorView::DiscoveryFailed(s) => "agent discovery failed: "@ + s,
            A2AErrorView::InvalidAgentCard(s) => "invalid agent card: "@ + s,
            A2AErrorView::Transport(s) => "transport error: "@ + s,
            A2AErrorView::Serialization(s) => "serialization error: "@ + s,
            A2AErrorView::JsonRpc { code, message, .. } => "JSON-RPC error "@ + decimal(
                code as int,
            ) + ": "@ + message,
            A2AErrorView::TaskNotFound(s) => "task not found: "@ + s,
            A2AErrorView::TaskRejected(s) => "task rejected: "@ + s,
            A2AErrorView::TaskFailed(s) => "task failed: "@ + s,
            A2AErrorView::AuthRequired(s) => "authentication required: "@ + s,
            A2AErrorView::StreamingError(s) => "streaming error: "@ + s,
            A2AErrorView::PushNotificationError(s) => "push notification error: "@ + s,
            A2AErrorView::InvalidUrl(s) => "invalid URL: "@ + s,
            A2AErrorView::Timeout(d) => "timeout after "@ + duration_debug(d),
            A2AErrorView::Unsupported(s) => "unsupported operation: "@ + s,
        }
    }
}

impl A2AError {
    /// The error in words.
    pub fn to_text(&self) -> (r: String)
        ensures
            r@ == self@.message(),
    {
        match self {
            A2AError::DiscoveryFailed(s) => concat("agent discovery failed: ", s.as_str()),
            A2AError::InvalidAgentCard(s) => concat("invalid agent card: ", s.as_str()),
            A2AError::Transport(s) => concat("transport error: ", s.as_str()),
            A2AError::Serialization(s) => concat("serialization error: ", s.as_str()),
            A2AError::JsonRpc { code, message, .. } => {
                let mut out = "JSON-RPC error ".to_owned();
                push_decimal(&mut out, *code);
                out.append(": ");
                out.append(message.as_str());
                out
            },
            A2AError::TaskNotFound(s) => concat("task not found: ", s.as_str()),
            A2AError::TaskRejected(s) => concat("task rejected: ", s.as_str()),
            A2AError::TaskFailed(s) => concat("task failed: ", s.as_str()),
            A2AError::AuthRequired(s) => concat("authentication required: ", s.as_str()),
            A2AError::StreamingError(s) => concat("streaming error: ", s.as_str()),
            A2AError::PushNotificationError(s) => concat(
                "push notification error: ",
                s.as_str(),
            ),
            A2AError::InvalidUrl(s) => concat("invalid URL: ", s.as_str()),
            A2AError::Timeout(d) => {
                let text = duration_text(d);
                concat("timeout after ", text.as_str())
            },
            A2AError::Unsupported(s) => concat("unsupported operation: ", s.as_str()),
        }
    }
}

} // verus!
