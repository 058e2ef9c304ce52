//! The names of the A2A JSON-RPC methods. They are fixed by the protocol.

use vstd::prelude::*;

verus! {

/// Send a message to the agent: this starts a task or continues one.
pub const SEND_MESSAGE: &'static str = "message/send";

/// Send a message and get the answer as a stream of events.
pub const SEND_STREAMING_MESSAGE: &'static str = "message/stream";

/// Get a task by its identifier.
pub const GET_TASK: &'static str = "tasks/get";

/// List the tasks that match a query.
pub const LIST_TASKS: &'static str = "tasks/list";

/// Cancel a task.
pub const CANCEL_TASK: &'static str = "tasks/cancel";

/// Follow a task's updates as a stream of events.
pub const SUBSCRIBE_TASK: &'static str = "tasks/subscribe";

/// Register a push notification configuration.
pub const CREATE_PUSH_NOTIFICATION: &'static str = "tasks/pushNotification/create";

/// Get a push notification configuration.
pub const GET_PUSH_NOTIFICATION: &'static str = "tasks/pushNotification/get";

/// List the push notification configurations of a task.
pub const LIST_PUSH_NOTIFICATIONS: &'static str = "tasks/pushNotification/list";

/// Delete a push notification configuration.
pub const DELETE_PUSH_NOTIFICATION: &'static str = "tasks/pushNotification/delete";

/// Get the extended agent card, after authentication.
pub const GET_EXTENDED_AGENT_CARD: &'static str = "agent/authenticatedExtendedCard";

} // verus!
