//! Tasks: the stateful units of work, and the states they move through.
//!
//! ```text
//! SUBMITTED -> WORKING -> COMPLETED | FAILED | CANCELED | REJECTED   (terminal)
//! WORKING  <-> INPUT_REQUIRED                                        (interrupted)
//! WORKING  <-> AUTH_REQUIRED                                         (interrupted)
//! ```

use crate::artifact::{Artifact, ArtifactView};
use crate::ident::fresh_id;
use crate::json::{
    get_opt_text, get_text, key_mark, lemma_object_view, members_view, put_opt_text, put_text,
    read_opt_text, read_text, with_opt_text, Json, JsonValue,
};
use crate::message::{Message, MessageView};
use crate::model::{lemma_seq_view_push, opt_view, seq_view};
use crate::text::{opt_text, text_eq};
use crate::time::{Instant, Timestamp};
use crate::wire::{
    each_survives, get_list_or_empty, get_opt_value, get_value, group_lookup, lemma_each_round_trip,
    put_filled_list, put_opt_value, put_value, read_list_or_empty, read_opt_value, read_value,
    with_filled_list, with_opt_value, with_value, Wire,
};
use vstd::prelude::*;

verus! {

/// The state of a task.
#[derive(Debug, Clone, Copy, PartialEq, Eq, Structural)]
pub enum TaskState {
    /// Handed in, not yet started.
    Submitted,
    /// Being worked on.
    Working,
    /// Done (terminal).
    Completed,
    /// Failed (terminal).
    Failed,
    /// Canceled by the client (terminal).
    Canceled,
    /// Refused by the remote agent (terminal).
    Rejected,
    /// Paused until the client sends more input.
    InputRequired,
    /// Paused until the client has authenticated.
    AuthRequired,
}

impl View for TaskState {
    type V = TaskState;

    open spec fn view(&self) -> TaskState {
        *self
    }
}

impl TaskState {
    /// Whether no state follows this one.
    pub open spec fn terminal(self) -> bool {
        self is Completed || self is Failed || self is Canceled || self is Rejected
    }

    /// Whether work is paused in this state and can be taken up again.
    pub open spec fn interrupted(self) -> bool {
        self is InputRequired || self is AuthRequired
    }

    /// The name of the state, as it is written on the wire and shown to
    /// readers.
    pub open spec fn name(self) -> Seq<char> {
        match self {
            TaskState::Submitted => "SUBMITTED"@,
            TaskState::Working => "WORKING"@,
            TaskState::Completed => "COMPLETED"@,
            TaskState::Failed => "FAILED"@,
            TaskState::Canceled => "CANCELED"@,
            TaskState::Rejected => "REJECTED"@,
            TaskState::InputRequired => "INPUT_REQUIRED"@,
            TaskState::AuthRequired => "AUTH_REQUIRED"@,
        }
    }

    /// The state with a given name.
    pub open spec fn named(name: Seq<char>) -> Option<TaskState> {
        if name == "SUBMITTED"@ {
            Some(TaskState::Submitted)
        } else if name == "WORKING"@ {
            Some(TaskState::Working)
        } else if name == "COMPLETED"@ {
            Some(TaskState::Completed)
        } else if name == "FAILED"@ {
            Some(TaskState::Failed)
        } else if name == "CANCELED"@ {
            Some(TaskState::Canceled)
        } else if name == "REJECTED"@ {
            Some(TaskState::Rejected)
        } else if name == "INPUT_REQUIRED"@ {
            Some(TaskState::InputRequired)
        } else if name == "AUTH_REQUIRED"@ {
            Some(TaskState::AuthRequired)
        } else {
            None
        }
    }

    /// Whether no state follows this one.
    pub fn is_terminal(&self) -> (r: bool)
        ensures
            r == self.terminal(),
    {
        match self {
            TaskState::Completed | TaskState::Failed | TaskState::Canceled | TaskState::Rejected => true,
            _ => false,
        }
    }

    /// Whether work is paused in this state.
    pub fn is_interrupted(&self) -> (r: bool)
        ensures
            r == self.interrupted(),
    {
        match self {
            TaskState::InputRequired | TaskState::AuthRequired => true,
            _ => false,
        }
    }

    /// The name of the state.
    pub fn as_str(&self) -> (r: &'static str)
        ensures
            r@ == self.name(),
    {
        match self {
            TaskState::Submitted => "SUBMITTED",
            TaskState::Working => "WORKING",
            TaskState::Completed => "COMPLETED",
            TaskState::Failed => "FAILED",
            TaskState::Canceled => "CANCELED",
            TaskState::Rejected => "REJECTED",
            TaskState::InputRequired => "INPUT_REQUIRED",
            TaskState::AuthRequired => "AUTH_REQUIRED",
        }
    }

    /// The name of the state, as an owned string.
    pub fn to_text(&self) -> (r: String)
        ensures
            r@ == self.name(),
    {
        self.as_str().to_owned()
    }

    /// The state with a given name.
    pub fn from_name(name: &str) -> (r: Option<TaskState>)
        ensures
            r == TaskState::named(name@),
    {
        if text_eq(name, "SUBMITTED") {
            Some(TaskState::Submitted)
        } else if text_eq(name, "WORKING") {
            Some(TaskState::Working)
        } else if text_eq(name, "COMPLETED") {
            Some(TaskState::Completed)
        } else if text_eq(name, "FAILED") {
            Some(TaskState::Failed)
        } else if text_eq(name, "CANCELED") {
            Some(TaskState::Canceled)
        } else if text_eq(name, "REJECTED") {
            Some(TaskState::Rejected)
        } else if text_eq(name, "INPUT_REQUIRED") {
            Some(TaskState::InputRequired)
        } else if text_eq(name, "AUTH_REQUIRED") {
            Some(TaskState::AuthRequired)
        } else {
            None
        }
    }

    /// Each state is the one that its name names.
    pub proof fn lemma_name_round_trip(state: TaskState)
        ensures
            TaskState::named(state.name()) == Some(state),
    {
        reveal_strlit("SUBMITTED");
        reveal_strlit("WORKING");
        reveal_strlit("COMPLETED");
        reveal_strlit("FAILED");
        reveal_strlit("CANCELED");
        reveal_strlit("REJECTED");
        reveal_strlit("INPUT_REQUIRED");
        reveal_strlit("AUTH_REQUIRED");
        assert(key_mark("SUBMITTED"@) == (9nat, 'S', 'U'));
        assert(key_mark("WORKING"@) == (7nat, 'W', 'O'));
        assert(key_mark("COMPLETED"@) == (9nat, 'C', 'O'));
        assert(key_mark("FAILED"@) == (6nat, 'F', 'A'));
        assert(key_mark("CANCELED"@) == (8nat, 'C', 'A'));
        assert(key_mark("REJECTED"@) == (8nat, 'R', 'E'));
        assert(key_mark("INPUT_REQUIRED"@) == (14nat, 'I', 'N'));
        assert(key_mark("AUTH_REQUIRED"@) == (13nat, 'A', 'U'));
    }
}

impl Wire for TaskState {
    open spec fn encode(v: TaskState) -> JsonValue {
        JsonValue::String(v.name())
    }

    open spec fn decode(j: JsonValue) -> Option<TaskState> {
        match j {
            JsonValue::String(s) => TaskState::named(s),
            _ => None,
        }
    }

    open spec fn survives(v: TaskState) -> bool {
        true
    }

    fn to_json(&self) -> (j: Json) {
        Json::string(self.as_str())
    }

    fn from_json(j: &Json) -> (r: Option<TaskState>) {
        match j.as_str() {
            Some(s) => TaskState::from_name(s),
            None => None,
        }
    }

    proof fn lemma_round_trip(v: TaskState) {
        TaskState::lemma_name_round_trip(v);
    }
}

/// The refusal of a move out of a terminal state.
#[derive(Debug, Clone, Copy, PartialEq, Eq, Structural)]
pub struct InvalidTransition {
    pub from: TaskState,
    pub to: TaskState,
}

impl InvalidTransition {
    /// The refusal in words.
    pub open spec fn message(self) -> Seq<char> {
        "invalid task transition from "@ + self.from.name() + " to "@ + self.to.name()
    }

    /// The refusal in words.
    pub fn to_text(&self) -> (r: String)
        ensures
            r@ == self.message(),
    {
        let mut out = "invalid task transition from ".to_owned();
        out.append(self.from.as_str());
        out.append(" to ");
        out.append(self.to.as_str());
        out
    }
}

/// A task: one piece of work that a client hands to a remote agent.
#[derive(Debug, Clone, PartialEq)]
pub struct Task {
    /// The task's identifier.
    pub id: String,
    /// The context that groups the task with related ones.
    pub context_id: Option<String>,
    /// Where the task stands.
    pub state: TaskState,
    /// The conversation so far. Messages are only ever added.
    pub messages: Vec<Message>,
    /// What the task has delivered so far. Artifacts are only ever added.
    pub artifacts: Vec<Artifact>,
    /// What is attached to the task.
    pub metadata: Option<Json>,
    /// When the task was made.
    pub created_at: Option<Timestamp>,
    /// When the task last changed.
    pub updated_at: Option<Timestamp>,
}

/// The model of a [`Task`].
pub struct TaskView {
    pub id: Seq<char>,
    pub context_id: Option<Seq<char>>,
    pub state: TaskState,
    pub messages: Seq<MessageView>,
    pub artifacts: Seq<ArtifactView>,
    pub metadata: Option<JsonValue>,
    pub created_at: Option<Instant>,
    pub updated_at: Option<Instant>,
}

impl View for Task {
    type V = TaskView;

    open spec fn view(&self) -> TaskView {
        TaskView {
            id: self.id@,
            context_id: opt_text(self.context_id),
            state: self.state,
            messages: seq_view(self.messages@),
            artifacts: seq_view(self.artifacts@),
            metadata: opt_view(self.metadata),
            created_at: opt_view(self.created_at),
            updated_at: opt_view(self.updated_at),
        }
    }
}

impl TaskView {
    /// A submitted task without messages and artifacts.
    pub open spec fn submitted(
        id: Seq<char>,
        context_id: Option<Seq<char>>,
        created_at: Option<Instant>,
        updated_at: Option<Instant>,
    ) -> TaskView {
        TaskView {
            id,
            context_id,
            state: TaskState::Submitted,
            messages: Seq::empty(),
            artifacts: Seq::empty(),
            metadata: None,
            created_at,
            updated_at,
        }
    }

    /// The task after a move to state `to`, or the refusal of that move: no
    /// state follows a terminal one. `now` is the reading of the clock at
    /// the move, which becomes the time of the task's last change; it is
    /// `None` where the clock gave no reading.
    pub open spec fn transitioned(self, to: TaskState, now: Option<Instant>) -> Result<
        TaskView,
        InvalidTransition,
    > {
        if self.state.terminal() {
            Err(InvalidTransition { from: self.state, to })
        } else {
            Ok(TaskView { state: to, updated_at: now, ..self })
        }
    }

    /// The task after a message was added, with `now` as the time of its
    /// last change.
    pub open spec fn with_message(self, message: MessageView, now: Option<Instant>) -> TaskView {
        TaskView { messages: self.messages.push(message), updated_at: now, ..self }
    }

    /// The task after an artifact was added, with `now` as the time of its
    /// last change.
    pub open spec fn with_artifact(self, artifact: ArtifactView, now: Option<Instant>) -> TaskView {
        TaskView { artifacts: self.artifacts.push(artifact), updated_at: now, ..self }
    }

    /// Whether the task was last changed strictly before `now`, if it has a
    /// time of its last change at all.
    pub open spec fn last_changed_before(self, now: Instant) -> bool {
        match self.updated_at {
            Some(then) => then.before(now),
            None => true,
        }
    }
}

/// From every state that is not terminal, a move to any state succeeds: the
/// task is then in that state, and the time of its last change is the time
/// of the move. That time lies strictly after the one that the task had
/// where the clock has moved on since.
pub proof fn lemma_live_task_moves(task: TaskView, to: TaskState, now: Instant)
    requires
        !task.state.terminal(),
    ensures
        task.transitioned(to, Some(now)) matches Ok(moved) && moved.state == to && moved.updated_at
            == Some(now) && (forall|then: Instant|
            task.updated_at == Some(then) && then.before(now) ==> then.before(
                #[trigger] moved.updated_at.unwrap(),
            )),
{
}

/// From a terminal state no move succeeds, whatever the clock reads: the
/// move is refused, and the refusal names the state that the task is in and
/// the state that was asked for.
pub proof fn lemma_finished_task_stays(task: TaskView, to: TaskState, now: Option<Instant>)
    requires
        task.state.terminal(),
    ensures
        task.transitioned(to, now) == Err::<TaskView, InvalidTransition>(
            InvalidTransition { from: task.state, to },
        ),
{
}

impl Task {
    /// A submitted task with a given identifier and given times.
    pub fn started(id: String, created_at: Timestamp, updated_at: Timestamp) -> (r: Task)
        ensures
            r@ == TaskView::submitted(id@, None, Some(created_at@), Some(updated_at@)),
    {
        Task::submitted(id, None, Some(created_at), Some(updated_at))
    }

    /// A submitted task without messages and artifacts.
    fn submitted(
        id: String,
        context_id: Option<String>,
        created_at: Option<Timestamp>,
        updated_at: Option<Timestamp>,
    ) -> (r: Task)
        ensures
            r@ == TaskView::submitted(
                id@,
                opt_text(context_id),
                opt_view(created_at),
                opt_view(updated_at),
            ),
    {
        let task = Task {
            id,
            context_id,
            state: TaskState::Submitted,
            messages: Vec::new(),
            artifacts: Vec::new(),
            metadata: None,
            created_at,
            updated_at,
        };
        proof {
            assert(seq_view(task.messages@) =~= Seq::empty());
            assert(seq_view(task.artifacts@) =~= Seq::empty());
        }
        task
    }

    /// A submitted task under a fresh identifier. The times of its making
    /// and of its last change are two readings of the clock, one after the
    /// other; each is `None` where the clock gave no reading.
    pub fn new() -> (r: Task)
        ensures
            r@.id.len() == 36,
            r@ == TaskView::submitted(r@.id, None, r@.created_at, r@.updated_at),
    {
        let id = fresh_id();
        let created_at = Timestamp::now();
        let updated_at = Timestamp::now();
        Task::submitted(id, None, created_at, updated_at)
    }

    /// A submitted task in a session, under a fresh identifier, with the
    /// times that a new task has.
    pub fn with_context(context_id: &str) -> (r: Task)
        ensures
            r@.id.len() == 36,
            r@ == TaskView::submitted(r@.id, Some(context_id@), r@.created_at, r@.updated_at),
    {
        let id = fresh_id();
        let created_at = Timestamp::now();
        let updated_at = Timestamp::now();
        Task::submitted(id, Some(context_id.to_owned()), created_at, updated_at)
    }

    /// Whether the task is in a terminal state.
    pub fn is_terminal(&self) -> (r: bool)
        ensures
            r == self@.state.terminal(),
    {
        self.state.is_terminal()
    }

    /// Whether the task waits for input or for authentication.
    pub fn is_interrupted(&self) -> (r: bool)
        ensures
            r == self@.state.interrupted(),
    {
        self.state.is_interrupted()
    }

    /// Moves the task to `new_state`, with `now` as the time of its last
    /// change. A task in a terminal state refuses and stays as it is.
    fn transition_on(&mut self, new_state: TaskState, now: Option<Timestamp>) -> (r: Result<
        (),
        InvalidTransition,
    >)
        ensures
            match old(self)@.transitioned(new_state, opt_view(now)) {
                Ok(moved) => r is Ok && final(self)@ == moved,
                Err(refusal) => r == Err::<(), InvalidTransition>(refusal) && *final(self) == *old(
                    self,
                ),
            },
    {
        if self.state.is_terminal() {
            return Err(InvalidTransition { from: self.state, to: new_state });
        }
        self.state = new_state;
        self.updated_at = now;
        Ok(())
    }

    /// Moves the task to `new_state` at time `now`. A task in a terminal
    /// state refuses and stays as it is.
    pub fn transition_at(&mut self, new_state: TaskState, now: Timestamp) -> (r: Result<
        (),
        InvalidTransition,
    >)
        ensures
            match old(self)@.transitioned(new_state, Some(now@)) {
                Ok(moved) => r is Ok && final(self)@ == moved,
                Err(refusal) => r == Err::<(), InvalidTransition>(refusal) && *final(self) == *old(
                    self,
                ),
            },
    {
        self.transition_on(new_state, Some(now))
    }

    /// Moves the task to `new_state` and records the reading of the clock as
    /// the time of its last change: `None` where the clock gave no reading.
    /// A task in a terminal state refuses and stays as it is, and the clock
    /// is not read.
    pub fn transition(&mut self, new_state: TaskState) -> (r: Result<(), InvalidTransition>)
        ensures
            match old(self)@.transitioned(new_state, final(self)@.updated_at) {
                Ok(moved) => r is Ok && final(self)@ == moved,
                Err(refusal) => r == Err::<(), InvalidTransition>(refusal) && *final(self) == *old(
                    self,
                ),
            },
    {
        if self.state.is_terminal() {
            return Err(InvalidTransition { from: self.state, to: new_state });
        }
        let now = Timestamp::now();
        self.transition_on(new_state, now)
    }

    /// Adds a message at time `now`.
    pub fn add_message_at(&mut self, message: Message, now: Timestamp)
        ensures
            final(self)@ == old(self)@.with_message(message@, Some(now@)),
    {
        proof {
            lemma_seq_view_push(self.messages@, message);
        }
        self.messages.push(message);
        self.updated_at = Some(now);
    }

    /// Adds a message and records the reading of the clock as the time of
    /// the task's last change: `None` where the clock gave no reading.
    pub fn add_message(&mut self, message: Message)
        ensures
            final(self)@ == old(self)@.with_message(message@, final(self)@.updated_at),
    {
        proof {
            lemma_seq_view_push(self.messages@, message);
        }
        self.messages.push(message);
        self.updated_at = Timestamp::now();
    }

    /// Adds an artifact at time `now`.
    pub fn add_artifact_at(&mut self, artifact: Artifact, now: Timestamp)
        ensures
            final(self)@ == old(self)@.with_artifact(artifact@, Some(now@)),
    {
        proof {
            lemma_seq_view_push(self.artifacts@, artifact);
        }
        self.artifacts.push(artifact);
        self.updated_at = Some(now);
    }

    /// Adds an artifact and records the reading of the clock as the time of
    /// the task's last change: `None` where the clock gave no reading.
    pub fn add_artifact(&mut self, artifact: Artifact)
        ensures
            final(self)@ == old(self)@.with_artifact(artifact@, final(self)@.updated_at),
    {
        proof {
            lemma_seq_view_push(self.artifacts@, artifact);
        }
        self.artifacts.push(artifact);
        self.updated_at = Timestamp::now();
    }
}

impl Default for Task {
    fn default() -> (r: Task)
        ensures
            r@.id.len() == 36,
            r@ == TaskView::submitted(r@.id, None, r@.created_at, r@.updated_at),
    {
        Task::new()
    }
}

impl Wire for Task {
    open spec fn encode(v: TaskView) -> JsonValue {
        let m = Seq::empty();
        let m = m.push(("id"@, JsonValue::String(v.id)));
        let m = with_opt_text(m, "contextId"@, v.context_id);
        let m = with_value::<TaskState>(m, "state"@, v.state);
        let m = with_filled_list::<Message>(m, "messages"@, v.messages);
        let m = with_filled_list::<Artifact>(m, "artifacts"@, v.artifacts);
        let m = with_opt_value::<Json>(m, "metadata"@, v.metadata);
        let m = with_opt_value::<Timestamp>(m, "createdAt"@, v.created_at);
        JsonValue::Object(with_opt_value::<Timestamp>(m, "updatedAt"@, v.updated_at))
    }

    open spec fn decode(j: JsonValue) -> Option<TaskView> {
        match j {
            JsonValue::Object(m) => match (
                read_text(m, "id"@),
                read_opt_text(m, "contextId"@),
                read_value::<TaskState>(m, "state"@),
                read_list_or_empty::<Message>(m, "messages"@),
                read_list_or_empty::<Artifact>(m, "artifacts"@),
                read_opt_value::<Json>(m, "metadata"@),
                read_opt_value::<Timestamp>(m, "createdAt"@),
                read_opt_value::<Timestamp>(m, "updatedAt"@),
            ) {
                (
                    Some(id),
                    Some(context_id),
                    Some(state),
                    Some(messages),
                    Some(artifacts),
                    Some(metadata),
                    Some(created_at),
                    Some(updated_at),
                ) => Some(
                    TaskView {
                        id,
                        context_id,
                        state,
                        messages,
                        artifacts,
                        metadata,
                        created_at,
                        updated_at,
                    },
                ),
                _ => None,
            },
            _ => None,
        }
    }

    /// A task survives where its messages and artifacts do, where no `null`
    /// is attached as metadata, and where its times are read back from their
    /// own text.
    open spec fn survives(v: TaskView) -> bool {
        &&& v.metadata != Some(JsonValue::Null)
        &&& each_survives::<Message>(v.messages)
        &&& each_survives::<Artifact>(v.artifacts)
        &&& (v.created_at matches Some(t) ==> Timestamp::survives(t))
        &&& (v.updated_at matches Some(t) ==> Timestamp::survives(t))
    }

    fn to_json(&self) -> (j: Json) {
        let mut members: Vec<(String, Json)> = Vec::new();
        proof {
            assert(members_view(members@) =~= Seq::empty());
        }
        put_text(&mut members, "id", self.id.as_str());
        put_opt_text(&mut members, "contextId", &self.context_id);
        put_value(&mut members, "state", &self.state);
        put_filled_list(&mut members, "messages", &self.messages);
        put_filled_list(&mut members, "artifacts", &self.artifacts);
        put_opt_value(&mut members, "metadata", &self.metadata);
        put_opt_value(&mut members, "createdAt", &self.created_at);
        put_opt_value(&mut members, "updatedAt", &self.updated_at);
        proof {
            lemma_object_view(members);
        }
        Json::Object(members)
    }

    fn from_json(j: &Json) -> (r: Option<Task>) {
        let members = j.as_object()?;
        let id = get_text(members, "id")?;
        let context_id = get_opt_text(members, "contextId")?;
        let state = get_value::<TaskState>(members, "state")?;
        let messages = get_list_or_empty::<Message>(members, "messages")?;
        let artifacts = get_list_or_empty::<Artifact>(members, "artifacts")?;
        let metadata = get_opt_value::<Json>(members, "metadata")?;
        let created_at = get_opt_value::<Timestamp>(members, "createdAt")?;
        let updated_at = get_opt_value::<Timestamp>(members, "updatedAt")?;
        Some(Task { id, context_id, state, messages, artifacts, metadata, created_at, updated_at })
    }

    proof fn lemma_round_trip(v: TaskView) {
        broadcast use group_lookup;

        reveal_strlit("id");
        reveal_strlit("contextId");
        reveal_strlit("state");
        reveal_strlit("messages");
        reveal_strlit("artifacts");
        reveal_strlit("metadata");
        reveal_strlit("createdAt");
        reveal_strlit("updatedAt");
        assert(key_mark("id"@) == (2nat, 'i', 'd'));
        assert(key_mark("contextId"@) == (9nat, 'c', 'o'));
        assert(key_mark("state"@) == (5nat, 's', 't'));
        assert(key_mark("messages"@) == (8nat, 'm', 'e'));
        assert("messages"@[2] == 's');
        assert(key_mark("artifacts"@) == (9nat, 'a', 'r'));
        assert(key_mark("metadata"@) == (8nat, 'm', 'e'));
        assert("metadata"@[2] == 't');
        assert(key_mark("createdAt"@) == (9nat, 'c', 'r'));
        assert(key_mark("updatedAt"@) == (9nat, 'u', 'p'));
        TaskState::lemma_round_trip(v.state);
        lemma_each_round_trip::<Message>(v.messages);
        lemma_each_round_trip::<Artifact>(v.artifacts);
        if v.created_at is Some {
            Timestamp::lemma_round_trip(v.created_at.unwrap());
        }
        if v.updated_at is Some {
            Timestamp::lemma_round_trip(v.updated_at.unwrap());
        }
        let m = Self::encode(v)->Object_0;
        assert(read_text(m, "id"@) == Some(v.id));
        assert(read_opt_text(m, "contextId"@) == Some(v.context_id));
        assert(read_value::<TaskState>(m, "state"@) == Some(v.state));
        assert(read_list_or_empty::<Message>(m, "messages"@) == Some(v.messages));
        assert(read_list_or_empty::<Artifact>(m, "artifacts"@) == Some(v.artifacts));
        assert(read_opt_value::<Json>(m, "metadata"@) == Some(v.metadata));
        assert(read_opt_value::<Timestamp>(m, "createdAt"@) == Some(v.created_at));
        assert(read_opt_value::<Timestamp>(m, "updatedAt"@) == Some(v.updated_at));
    }
}

/// What to ask for when tasks are listed.
#[derive(Debug, Clone, PartialEq)]
pub struct TaskQueryParams {
    /// Only tasks of this session.
    pub context_id: Option<String>,
    /// Only tasks in this state.
    pub state: Option<TaskState>,
    /// At most this many tasks.
    pub limit: Option<u32>,
    /// Where the last page ended.
    pub cursor: Option<String>,
}

/// The model of [`TaskQueryParams`].
pub struct TaskQueryParamsView {
    pub context_id: Option<Seq<char>>,
    pub state: Option<TaskState>,
    pub limit: Option<u32>,
    pub cursor: Option<Seq<char>>,
}

impl View for TaskQueryParams {
    type V = TaskQueryParamsView;

    open spec fn view(&self) -> TaskQueryParamsView {
        TaskQueryParamsView {
            context_id: opt_text(self.context_id),
            state: self.state,
            limit: self.limit,
            cursor: opt_text(self.cursor),
        }
    }
}

impl Default for TaskQueryParams {
    fn default() -> (r: TaskQueryParams)
        ensures
            r@ == (TaskQueryParamsView { context_id: None, state: None, limit: None, cursor: None }),
    {
        TaskQueryParams { context_id: None, state: None, limit: None, cursor: None }
    }
}

impl Wire for TaskQueryParams {
    open spec fn encode(v: TaskQueryParamsView) -> JsonValue {
        let m = Seq::empty();
        let m = with_opt_text(m, "contextId"@, v.context_id);
        let m = with_opt_value::<TaskState>(m, "state"@, v.state);
        let m = with_opt_value::<u32>(m, "limit"@, v.limit);
        JsonValue::Object(with_opt_text(m, "cursor"@, v.cursor))
    }

    open spec fn decode(j: JsonValue) -> Option<TaskQueryParamsView> {
        match j {
            JsonValue::Object(m) => match (
                read_opt_text(m, "contextId"@),
                read_opt_value::<TaskState>(m, "state"@),
                read_opt_value::<u32>(m, "limit"@),
                read_opt_text(m, "cursor"@),
            ) {
                (Some(context_id), Some(state), Some(limit), Some(cursor)) => Some(
                    TaskQueryParamsView { context_id, state, limit, cursor },
                ),
                _ => None,
            },
            _ => None,
        }
    }

    open spec fn survives(v: TaskQueryParamsView) -> bool {
        v.limit matches Some(n) ==> u32::survives(n)
    }

    fn to_json(&self) -> (j: Json) {
        let mut members: Vec<(String, Json)> = Vec::new();
        proof {
            assert(members_view(members@) =~= Seq::empty());
        }
        put_opt_text(&mut members, "contextId", &self.context_id);
        put_opt_value(&mut members, "state", &self.state);
        put_opt_value(&mut members, "limit", &self.limit);
        put_opt_text(&mut members, "cursor", &self.cursor);
        proof {
            lemma_object_view(members);
        }
        Json::Object(members)
    }

    fn from_json(j: &Json) -> (r: Option<TaskQueryParams>) {
        let members = j.as_object()?;
        let context_id = get_opt_text(members, "contextId")?;
        let state = get_opt_value::<TaskState>(members, "state")?;
        let limit = get_opt_value::<u32>(members, "limit")?;
        let cursor = get_opt_text(members, "cursor")?;
        Some(TaskQueryParams { context_id, state, limit, cursor })
    }

    proof fn lemma_round_trip(v: TaskQueryParamsView) {
        broadcast use group_lookup;

        reveal_strlit("contextId");
        reveal_strlit("state");
        reveal_strlit("limit");
        reveal_strlit("cursor");
        assert(key_mark("contextId"@) == (9nat, 'c', 'o'));
        assert(key_mark("state"@) == (5nat, 's', 't'));
        assert(key_mark("limit"@) == (5nat, 'l', 'i'));
        assert(key_mark("cursor"@) == (6nat, 'c', 'u'));
        if v.state is Some {
            TaskState::lemma_round_trip(v.state.unwrap());
        }
        let m = Self::encode(v)->Object_0;
        assert(read_opt_text(m, "contextId"@) == Some(v.context_id));
        assert(read_opt_value::<TaskState>(m, "state"@) == Some(v.state));
        assert(read_opt_value::<u32>(m, "limit"@) == Some(v.limit));
        assert(read_opt_text(m, "cursor"@) == Some(v.cursor));
    }
}

/// A notification about a task, as a stream delivers it.
#[derive(Debug, Clone, PartialEq)]
pub enum TaskEvent {
    /// The task changed its state.
    StateChanged { task_id: String, state: TaskState },
    /// A message was added to the task.
    MessageAdded { task_id: String, message: Message },
    /// The task delivered an artifact.
    ArtifactAdded { task_id: String, artifact: Artifact },
    /// One more piece of an artifact that is delivered in pieces. The pieces
    /// of one artifact belong together in the order of their arrival.
    ArtifactChunk { task_id: String, artifact_id: String, chunk: String },
}

/// The model of a [`TaskEvent`].
pub enum TaskEventView {
    StateChanged { task_id: Seq<char>, state: TaskState },
    MessageAdded { task_id: Seq<char>, message: MessageView },
    ArtifactAdded { task_id: Seq<char>, artifact: ArtifactView },
    ArtifactChunk { task_id: Seq<char>, artifact_id: Seq<char>, chunk: Seq<char> },
}

impl View for TaskEvent {
    type V = TaskEventView;

    open spec fn view(&self) -> TaskEventView {
        match self {
            TaskEvent::StateChanged { task_id, state } => TaskEventView::StateChanged {
                task_id: task_id@,
                state: *state,
            },
            TaskEvent::MessageAdded { task_id, message } => TaskEventView::MessageAdded {
                task_id: task_id@,
                message: message@,
            },
            TaskEvent::ArtifactAdded { task_id, artifact } => TaskEventView::ArtifactAdded {
                task_id: task_id@,
                artifact: artifact@,
            },
            TaskEvent::ArtifactChunk { task_id, artifact_id, chunk } => TaskEventView::ArtifactChunk {
                task_id: task_id@,
                artifact_id: artifact_id@,
                chunk: chunk@,
            },
        }
    }
}

impl TaskEventView {
    /// The task that the event is about.
    pub open spec fn task_id(self) -> Seq<char> {
        match self {
            TaskEventView::StateChanged { task_id, .. } => task_id,
            TaskEventView::MessageAdded { task_id, .. } => task_id,
            TaskEventView::ArtifactAdded { task_id, .. } => task_id,
            TaskEventView::ArtifactChunk { task_id, .. } => task_id,
        }
    }
}

impl TaskEvent {
    /// The task that the event is about.
    pub fn task_id(&self) -> (r: &str)
        ensures
            r@ == self@.task_id(),
    {
        match self {
            TaskEvent::StateChanged { task_id, .. } => task_id.as_str(),
            TaskEvent::MessageAdded { task_id, .. } => task_id.as_str(),
            TaskEvent::ArtifactAdded { task_id, .. } => task_id.as_str(),
            TaskEvent::ArtifactChunk { task_id, .. } => task_id.as_str(),
        }
    }
}

impl Wire for TaskEvent {
    open spec fn encode(v: TaskEventView) -> JsonValue {
        let m = Seq::empty();
        match v {
            TaskEventView::StateChanged { task_id, state } => {
                let m = m.push(("type"@, JsonValue::String("stateChanged"@)));
                let m = m.push(("task_id"@, JsonValue::String(task_id)));
                JsonValue::Object(with_value::<TaskState>(m, "state"@, state))
            },
            TaskEventView::MessageAdded { task_id, message } => {
                let m = m.push(("type"@, JsonValue::String("messageAdded"@)));
                let m = m.push(("task_id"@, JsonValue::String(task_id)));
                JsonValue::Object(with_value::<Message>(m, "message"@, message))
            },
            TaskEventView::ArtifactAdded { task_id, artifact } => {
                let m = m.push(("type"@, JsonValue::String("artifactAdded"@)));
                let m = m.push(("task_id"@, JsonValue::String(task_id)));
                JsonValue::Object(with_value::<Artifact>(m, "artifact"@, artifact))
            },
            TaskEventView::ArtifactChunk { task_id, artifact_id, chunk } => {
                let m = m.push(("type"@, JsonValue::String("artifactChunk"@)));
                let m = m.push(("task_id"@, JsonValue::String(task_id)));
                let m = m.push(("artifact_id"@, JsonValue::String(artifact_id)));
                JsonValue::Object(m.push(("chunk"@, JsonValue::String(chunk))))
            },
        }
    }

    open spec fn decode(j: JsonValue) -> Option<TaskEventView> {
        match j {
            JsonValue::Object(m) => match (read_text(m, "type"@), read_text(m, "task_id"@)) {
                (Some(tag), Some(task_id)) => if tag == "stateChanged"@ {
                    match read_value::<TaskState>(m, "state"@) {
                        Some(state) => Some(TaskEventView::StateChanged { task_id, state }),
                        None => None,
                    }
                } else if tag == "messageAdded"@ {
                    match read_value::<Message>(m, "message"@) {
                        Some(message) => Some(TaskEventView::MessageAdded { task_id, message }),
                        None => None,
                    }
                } else if tag == "artifactAdded"@ {
                    match read_value::<Artifact>(m, "artifact"@) {
                        Some(artifact) => Some(TaskEventView::ArtifactAdded { task_id, artifact }),
                        None => None,
                    }
                } else if tag == "artifactChunk"@ {
                    match (read_text(m, "artifact_id"@), read_text(m, "chunk"@)) {
                        (Some(artifact_id), Some(chunk)) => Some(
                            TaskEventView::ArtifactChunk { task_id, artifact_id, chunk },
                        ),
                        _ => None,
                    }
                } else {
                    None
                },
                _ => None,
            },
            _ => None,
        }
    }

    open spec fn survives(v: TaskEventView) -> bool {
        match v {
            TaskEventView::MessageAdded { message, .. } => Message::survives(message),
            TaskEventView::ArtifactAdded { artifact, .. } => Artifact::survives(artifact),
            _ => true,
        }
    }

    fn to_json(&self) -> (j: Json) {
        let mut members: Vec<(String, Json)> = Vec::new();
        proof {
            assert(members_view(members@) =~= Seq::empty());
        }
        match self {
            TaskEvent::StateChanged { task_id, state } => {
                put_text(&mut members, "type", "stateChanged");
                put_text(&mut members, "task_id", task_id.as_str());
                put_value(&mut members, "state", state);
            },
            TaskEvent::MessageAdded { task_id, message } => {
                put_text(&mut members, "type", "messageAdded");
                put_text(&mut members, "task_id", task_id.as_str());
                put_value(&mut members, "message", message);
            },
            TaskEvent::ArtifactAdded { task_id, artifact } => {
                put_text(&mut members, "type", "artifactAdded");
                put_text(&mut members, "task_id", task_id.as_str());
                put_value(&mut members, "artifact", artifact);
            },
            TaskEvent::ArtifactChunk { task_id, artifact_id, chunk } => {
                put_text(&mut members, "type", "artifactChunk");
                put_text(&mut members, "task_id", task_id.as_str());
                put_text(&mut members, "artifact_id", artifact_id.as_str());
                put_text(&mut members, "chunk", chunk.as_str());
            },
        }
        proof {
            lemma_object_view(members);
        }
        Json::Object(members)
    }

    fn from_json(j: &Json) -> (r: Option<TaskEvent>) {
        let members = j.as_object()?;
        let tag = get_text(members, "type")?;
        let task_id = get_text(members, "task_id")?;
        if text_eq(tag.as_str(), "stateChanged") {
            let state = get_value::<TaskState>(members, "state")?;
            Some(TaskEvent::StateChanged { task_id, state })
        } else if text_eq(tag.as_str(), "messageAdded") {
            let message = get_value::<Message>(members, "message")?;
            Some(TaskEvent::MessageAdded { task_id, message })
        } else if text_eq(tag.as_str(), "artifactAdded") {
            let artifact = get_value::<Artifact>(members, "artifact")?;
            Some(TaskEvent::ArtifactAdded { task_id, artifact })
        } else if text_eq(tag.as_str(), "artifactChunk") {
            let artifact_id = get_text(members, "artifact_id")?;
            let chunk = get_text(members, "chunk")?;
            Some(TaskEvent::ArtifactChunk { task_id, artifact_id, chunk })
        } else {
            None
        }
    }

    proof fn lemma_round_trip(v: TaskEventView) {
        broadcast use group_lookup;

        reveal_strlit("type");
        reveal_strlit("task_id");
        reveal_strlit("state");
        reveal_strlit("message");
        reveal_strlit("artifact");
        reveal_strlit("artifact_id");
        reveal_strlit("chunk");
        reveal_strlit("stateChanged");
        reveal_strlit("messageAdded");
        reveal_strlit("artifactAdded");
        reveal_strlit("artifactChunk");
        assert(key_mark("type"@) == (4nat, 't', 'y'));
        assert(key_mark("task_id"@) == (7nat, 't', 'a'));
        assert(key_mark("state"@) == (5nat, 's', 't'));
        assert(key_mark("message"@) == (7nat, 'm', 'e'));
        assert(key_mark("artifact"@) == (8nat, 'a', 'r'));
        assert(key_mark("artifact_id"@) == (11nat, 'a', 'r'));
        assert(key_mark("chunk"@) == (5nat, 'c', 'h'));
        assert(key_mark("stateChanged"@) == (12nat, 's', 't'));
        assert(key_mark("messageAdded"@) == (12nat, 'm', 'e'));
        assert(key_mark("artifactAdded"@) == (13nat, 'a', 'r'));
        assert(key_mark("artifactChunk"@) == (13nat, 'a', 'r'));
        assert("artifactAdded"@[8] == 'A');
        assert("artifactChunk"@[8] == 'C');
        let m = Self::encode(v)->Object_0;
        assert(read_text(m, "task_id"@) == Some(v.task_id()));
        match v {
            TaskEventView::StateChanged { task_id, state } => {
                TaskState::lemma_round_trip(state);
                assert(read_text(m, "type"@) == Some("stateChanged"@));
            },
            TaskEventView::MessageAdded { task_id, message } => {
                Message::lemma_round_trip(message);
                assert(read_text(m, "type"@) == Some("messageAdded"@));
            },
            TaskEventView::ArtifactAdded { task_id, artifact } => {
                Artifact::lemma_round_trip(artifact);
                assert(read_text(m, "type"@) == Some("artifactAdded"@));
            },
            TaskEventView::ArtifactChunk { task_id, artifact_id, chunk } => {
                assert(read_text(m, "type"@) == Some("artifactChunk"@));
                assert(read_text(m, "artifact_id"@) == Some(artifact_id));
                assert(read_text(m, "chunk"@) == Some(chunk));
            },
        }
    }
}

} // verus!
