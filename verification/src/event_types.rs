//! The names of the kinds of events that a stream carries.

use vstd::prelude::*;

verus! {

/// A task changed its state.
pub const STATE_CHANGED: &'static str = "state_changed";

/// A message was added to a task.
pub const MESSAGE_ADDED: &'static str = "message_added";

/// A task delivered an artifact.
pub const ARTIFACT_ADDED: &'static str = "artifact_added";

/// One more piece of an artifact.
pub const ARTIFACT_CHUNK: &'static str = "artifact_chunk";

/// The stream has ended.
pub const DONE: &'static str = "done";

} // verus!
