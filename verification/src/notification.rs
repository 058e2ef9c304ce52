//! Push notifications: task updates that the remote agent posts to a
//! webhook, so that no stream has to stay open.

use crate::json::{
    get_text, key_mark, lemma_object_view, members_view, put_text, read_text, Json, JsonValue,
};
use crate::model::{opt_view, seq_view};
use crate::task::{TaskEvent, TaskEventView};
use crate::text::text_eq;
use crate::url::WebUrl;
use crate::wire::{
    each_survives, get_list_or_empty, get_opt_value, get_value, group_lookup, lemma_each_round_trip,
    put_filled_list, put_opt_value, put_value, read_list_or_empty, read_opt_value, read_value,
    with_filled_list, with_opt_value, with_value, Wire,
};
use vstd::prelude::*;

verus! {

/// How the remote agent authenticates at the webhook.
#[derive(Debug, Clone, PartialEq)]
pub enum PushNotificationAuth {
    /// With a bearer token.
    Bearer { token: String },
    /// With a header field of the client's choice.
    Header { name: String, value: String },
}

/// The model of a [`PushNotificationAuth`].
pub enum PushNotificationAuthView {
    Bearer { token: Seq<char> },
    Header { name: Seq<char>, value: Seq<char> },
}

impl View for PushNotificationAuth {
    type V = PushNotificationAuthView;

    open spec fn view(&self) -> PushNotificationAuthView {
        match self {
            PushNotificationAuth::Bearer { token } => PushNotificationAuthView::Bearer {
                token: token@,
            },
            PushNotificationAuth::Header { name, value } => PushNotificationAuthView::Header {
                name: name@,
                value: value@,
            },
        }
    }
}

impl Wire for PushNotificationAuth {
    open spec fn encode(v: PushNotificationAuthView) -> JsonValue {
        let m = Seq::empty();
        match v {
            PushNotificationAuthView::Bearer { token } => {
                let m = m.push(("type"@, JsonValue::String("bearer"@)));
                JsonValue::Object(m.push(("token"@, JsonValue::String(token))))
            },
            PushNotificationAuthView::Header { name, value } => {
                let m = m.push(("type"@, JsonValue::String("header"@)));
                let m = m.push(("name"@, JsonValue::String(name)));
                JsonValue::Object(m.push(("value"@, JsonValue::String(value))))
            },
        }
    }

    open spec fn decode(j: JsonValue) -> Option<PushNotificationAuthView> {
        match j {
            JsonValue::Object(m) => match read_text(m, "type"@) {
                Some(tag) => if tag == "bearer"@ {
                    match read_text(m, "token"@) {
                        Some(token) => Some(PushNotificationAuthView::Bearer { token }),
                        None => None,
                    }
                } else if tag == "header"@ {
                    match (read_text(m, "name"@), read_text(m, "value"@)) {
                        (Some(name), Some(value)) => Some(
                            PushNotificationAuthView::Header { name, value },
                        ),
                        _ => None,
                    }
                } else {
                    None
                },
                None => None,
            },
            _ => None,
        }
    }

    open spec fn survives(v: PushNotificationAuthView) -> bool {
        true
    }

    fn to_json(&self) -> (j: Json) {
        let mut members: Vec<(String, Json)> = Vec::new();
        proof {
            assert(members_view(members@) =~= Seq::empty());
        }
        match self {
            PushNotificationAuth::Bearer { token } => {
                put_text(&mut members, "type", "bearer");
                put_text(&mut members, "token", token.as_str());
            },
            PushNotificationAuth::Header { name, value } => {
                put_text(&mut members, "type", "header");
                put_text(&mut members, "name", name.as_str());
                put_text(&mut members, "value", value.as_str());
            },
        }
        proof {
            lemma_object_view(members);
        }
        Json::Object(members)
    }

    fn from_json(j: &Json) -> (r: Option<PushNotificationAuth>) {
        let members = j.as_object()?;
        let tag = get_text(members, "type")?;
        if text_eq(tag.as_str(), "bearer") {
            let token = get_text(members, "token")?;
            Some(PushNotificationAuth::Bearer { token })
        } else if text_eq(tag.as_str(), "header") {
            let name = get_text(members, "name")?;
            let value = get_text(members, "value")?;
            Some(PushNotificationAuth::Header { name, value })
        } else {
            None
        }
    }

    proof fn lemma_round_trip(v: PushNotificationAuthView) {
        broadcast use group_lookup;

        reveal_strlit("type");
        reveal_strlit("token");
        reveal_strlit("name");
        reveal_strlit("value");
        reveal_strlit("bearer");
        reveal_strlit("header");
        assert(key_mark("type"@) == (4nat, 't', 'y'));
        assert(key_mark("token"@) == (5nat, 't', 'o'));
        assert(key_mark("name"@) == (4nat, 'n', 'a'));
        assert(key_mark("value"@) == (5nat, 'v', 'a'));
        assert(key_mark("bearer"@) == (6nat, 'b', 'e'));
        assert(key_mark("header"@) == (6nat, 'h', 'e'));
        let m = Self::encode(v)->Object_0;
        match v {
            PushNotificationAuthView::Bearer { token } => {
                assert(read_text(m, "type"@) == Some("bearer"@));
                assert(read_text(m, "token"@) == Some(token));
            },
            PushNotificationAuthView::Header { name, value } => {
                assert(read_text(m, "type"@) == Some("header"@));
                assert(read_text(m, "name"@) == Some(name));
                assert(read_text(m, "value"@) == Some(value));
            },
        }
    }
}

/// A webhook that the remote agent posts a task's updates to.
#[derive(Debug, Clone, PartialEq)]
pub struct PushNotificationConfig {
    /// The configuration's identifier.
    pub id: String,
    /// The task whose updates are sent.
    pub task_id: String,
    /// The address of the webhook.
    pub url: WebUrl,
    /// How the remote agent authenticates at the webhook.
    pub authentication: Option<PushNotificationAuth>,
    /// The kinds of events to send; all kinds where the list is empty.
    pub events: Vec<String>,
}

/// The model of a [`PushNotificationConfig`].
pub struct PushNotificationConfigView {
    pub id: Seq<char>,
    pub task_id: Seq<char>,
    pub url: Seq<char>,
    pub authentication: Option<PushNotificationAuthView>,
    pub events: Seq<Seq<char>>,
}

impl View for PushNotificationConfig {
    type V = PushNotificationConfigView;

    open spec fn view(&self) -> PushNotificationConfigView {
        PushNotificationConfigView {
            id: self.id@,
            task_id: self.task_id@,
            url: self.url@,
            authentication: opt_view(self.authentication),
            events: seq_view(self.events@),
        }
    }
}

impl Wire for PushNotificationConfig {
    open spec fn encode(v: PushNotificationConfigView) -> JsonValue {
        let m = Seq::empty();
        let m = m.push(("id"@, JsonValue::String(v.id)));
        let m = m.push(("taskId"@, JsonValue::String(v.task_id)));
        let m = with_value::<WebUrl>(m, "url"@, v.url);
        let m = with_opt_value::<PushNotificationAuth>(m, "authentication"@, v.authentication);
        JsonValue::Object(with_filled_list::<String>(m, "events"@, v.events))
    }

    open spec fn decode(j: JsonValue) -> Option<PushNotificationConfigView> {
        match j {
            JsonValue::Object(m) => match (
                read_text(m, "id"@),
                read_text(m, "taskId"@),
                read_value::<WebUrl>(m, "url"@),
                read_opt_value::<PushNotificationAuth>(m, "authentication"@),
                read_list_or_empty::<String>(m, "events"@),
            ) {
                (Some(id), Some(task_id), Some(url), Some(authentication), Some(events)) => Some(
                    PushNotificationConfigView { id, task_id, url, authentication, events },
                ),
                _ => None,
            },
            _ => None,
        }
    }

    open spec fn survives(v: PushNotificationConfigView) -> bool {
        WebUrl::survives(v.url)
    }

    fn to_json(&self) -> (j: Json) {
        let mut members: Vec<(String, Json)> = Vec::new();
        proof {
            assert(members_view(members@) =~= Seq::empty());
        }
        put_text(&mut members, "id", self.id.as_str());
        put_text(&mut members, "taskId", self.task_id.as_str());
        put_value(&mut members, "url", &self.url);
        put_opt_value(&mut members, "authentication", &self.authentication);
        put_filled_list(&mut members, "events", &self.events);
        proof {
            lemma_object_view(members);
        }
        Json::Object(members)
    }

    fn from_json(j: &Json) -> (r: Option<PushNotificationConfig>) {
        let members = j.as_object()?;
        let id = get_text(members, "id")?;
        let task_id = get_text(members, "taskId")?;
        let url = get_value::<WebUrl>(members, "url")?;
        let authentication = get_opt_value::<PushNotificationAuth>(members, "authentication")?;
        let events = get_list_or_empty::<String>(members, "events")?;
        Some(PushNotificationConfig { id, task_id, url, authentication, events })
    }

    proof fn lemma_round_trip(v: PushNotificationConfigView) {
        broadcast use group_lookup;

        reveal_strlit("id");
        reveal_strlit("taskId");
        reveal_strlit("url");
        reveal_strlit("authentication");
        reveal_strlit("events");
        assert(key_mark("id"@) == (2nat, 'i', 'd'));
        assert(key_mark("taskId"@) == (6nat, 't', 'a'));
        assert(key_mark("url"@) == (3nat, 'u', 'r'));
        assert(key_mark("authentication"@) == (14nat, 'a', 'u'));
        assert(key_mark("events"@) == (6nat, 'e', 'v'));
        WebUrl::lemma_round_trip(v.url);
        if v.authentication is Some {
            PushNotificationAuth::lemma_round_trip(v.authentication.unwrap());
        }
        assert(each_survives::<String>(v.events));
        lemma_each_round_trip::<String>(v.events);
        let m = Self::encode(v)->Object_0;
        assert(read_text(m, "id"@) == Some(v.id));
        assert(read_text(m, "taskId"@) == Some(v.task_id));
        assert(read_value::<WebUrl>(m, "url"@) == Some(v.url));
        assert(read_opt_value::<PushNotificationAuth>(m, "authentication"@) == Some(
            v.authentication,
        ));
        assert(read_list_or_empty::<String>(m, "events"@) == Some(v.events));
    }
}

/// One update, as the remote agent posts it to the webhook.
#[derive(Debug, Clone, PartialEq)]
pub struct PushNotificationEvent {
    /// The configuration that asked for the update.
    pub config_id: String,
    /// The update.
    pub event: TaskEvent,
    /// When the update was sent, as ISO 8601 text.
    pub timestamp: String,
}

/// The model of a [`PushNotificationEvent`].
pub struct PushNotificationEventView {
    pub config_id: Seq<char>,
    pub event: TaskEventView,
    pub timestamp: Seq<char>,
}

impl View for PushNotificationEvent {
    type V = PushNotificationEventView;

    open spec fn view(&self) -> PushNotificationEventView {
        PushNotificationEventView {
            config_id: self.config_id@,
            event: self.event@,
            timestamp: self.timestamp@,
        }
    }
}

impl Wire for PushNotificationEvent {
    open spec fn encode(v: PushNotificationEventView) -> JsonValue {
        let m = Seq::empty();
        let m = m.push(("configId"@, JsonValue::String(v.config_id)));
        let m = with_value::<TaskEvent>(m, "event"@, v.event);
        JsonValue::Object(m.push(("timestamp"@, JsonValue::String(v.timestamp))))
    }

    open spec fn decode(j: JsonValue) -> Option<PushNotificationEventView> {
        match j {
            JsonValue::Object(m) => match (
                read_text(m, "configId"@),
                read_value::<TaskEvent>(m, "event"@),
                read_text(m, "timestamp"@),
            ) {
                (Some(config_id), Some(event), Some(timestamp)) => Some(
                    PushNotificationEventView { config_id, event, timestamp },
                ),
                _ => None,
            },
            _ => None,
        }
    }

    open spec fn survives(v: PushNotificationEventView) -> bool {
        TaskEvent::survives(v.event)
    }

    fn to_json(&self) -> (j: Json) {
        let mut members: Vec<(String, Json)> = Vec::new();
        proof {
            assert(members_view(members@) =~= Seq::empty());
        }
        put_text(&mut members, "configId", self.config_id.as_str());
        put_value(&mut members, "event", &self.event);
        put_text(&mut members, "timestamp", self.timestamp.as_str());
        proof {
            lemma_object_view(members);
        }
        Json::Object(members)
    }

    fn from_json(j: &Json) -> (r: Option<PushNotificationEvent>) {
        let members = j.as_object()?;
        let config_id = get_text(members, "configId")?;
        let event = get_value::<TaskEvent>(members, "event")?;
        let timestamp = get_text(members, "timestamp")?;
        Some(PushNotificationEvent { config_id, event, timestamp })
    }

    proof fn lemma_round_trip(v: PushNotificationEventView) {
        broadcast use group_lookup;

        reveal_strlit("configId");
        reveal_strlit("event");
        reveal_strlit("timestamp");
        assert(key_mark("configId"@) == (8nat, 'c', 'o'));
        assert(key_mark("event"@) == (5nat, 'e', 'v'));
        assert(key_mark("timestamp"@) == (9nat, 't', 'i'));
        TaskEvent::lemma_round_trip(v.event);
        let m = Self::encode(v)->Object_0;
        assert(read_text(m, "configId"@) == Some(v.config_id));
        assert(read_value::<TaskEvent>(m, "event"@) == Some(v.event));
        assert(read_text(m, "timestamp"@) == Some(v.timestamp));
    }
}

} // verus!
