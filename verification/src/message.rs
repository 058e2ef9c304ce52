//! Messages: the units of conversation between a client and a remote agent.

use crate::ident::fresh_id;
use crate::json::{
    get_opt_text, get_text, key_mark, lemma_object_view, members_view, put_opt_text, put_text,
    read_opt_text, read_text, with_opt_text, Json, JsonValue, Members,
};
use crate::model::{opt_view, seq_view};
use crate::text::{opt_text, text_eq};
use crate::wire::{
    each_survives, get_list, get_opt_value, get_value, group_lookup, lemma_each_round_trip,
    put_list, put_opt_value, put_value, read_list, read_opt_value, read_value, with_list,
    with_opt_value, with_value, Wire,
};
use vstd::prelude::*;

verus! {

/// Who sent a message.
#[derive(Debug, Clone, Copy, PartialEq, Eq, Structural)]
pub enum MessageRole {
    /// The client agent.
    User,
    /// The remote agent.
    Agent,
}

impl View for MessageRole {
    type V = MessageRole;

    open spec fn view(&self) -> MessageRole {
        *self
    }
}

impl Wire for MessageRole {
    open spec fn encode(v: MessageRole) -> JsonValue {
        match v {
            MessageRole::User => JsonValue::String("user"@),
            MessageRole::Agent => JsonValue::String("agent"@),
        }
    }

    open spec fn decode(j: JsonValue) -> Option<MessageRole> {
        match j {
            JsonValue::String(s) => if s == "user"@ {
                Some(MessageRole::User)
            } else if s == "agent"@ {
                Some(MessageRole::Agent)
            } else {
                None
            },
            _ => None,
        }
    }

    open spec fn survives(v: MessageRole) -> bool {
        true
    }

    fn to_json(&self) -> (j: Json) {
        match self {
            MessageRole::User => Json::string("user"),
            MessageRole::Agent => Json::string("agent"),
        }
    }

    fn from_json(j: &Json) -> (r: Option<MessageRole>) {
        match j.as_str() {
            Some(s) => if text_eq(s, "user") {
                Some(MessageRole::User)
            } else if text_eq(s, "agent") {
                Some(MessageRole::Agent)
            } else {
                None
            },
            None => None,
        }
    }

    proof fn lemma_round_trip(v: MessageRole) {
        reveal_strlit("user");
        reveal_strlit("agent");
        assert(key_mark("user"@) == (4nat, 'u', 's'));
        assert(key_mark("agent"@) == (5nat, 'a', 'g'));
    }
}

/// A file, held inline as base64 text or named by a URL. One of `data` and
/// `url` is expected; the type does not enforce it.
#[derive(Debug, Clone, PartialEq)]
pub struct FilePart {
    pub name: Option<String>,
    pub media_type: Option<String>,
    pub data: Option<String>,
    pub url: Option<String>,
}

/// The model of a [`FilePart`].
pub struct FilePartView {
    pub name: Option<Seq<char>>,
    pub media_type: Option<Seq<char>>,
    pub data: Option<Seq<char>>,
    pub url: Option<Seq<char>>,
}

impl View for FilePart {
    type V = FilePartView;

    open spec fn view(&self) -> FilePartView {
        FilePartView {
            name: opt_text(self.name),
            media_type: opt_text(self.media_type),
            data: opt_text(self.data),
            url: opt_text(self.url),
        }
    }
}

impl FilePartView {
    /// The members of the file's JSON object.
    pub open spec fn members(self) -> Members {
        let m = Seq::empty();
        let m = with_opt_text(m, "name"@, self.name);
        let m = with_opt_text(m, "mediaType"@, self.media_type);
        let m = with_opt_text(m, "data"@, self.data);
        with_opt_text(m, "url"@, self.url)
    }
}

impl Wire for FilePart {
    open spec fn encode(v: FilePartView) -> JsonValue {
        JsonValue::Object(v.members())
    }

    open spec fn decode(j: JsonValue) -> Option<FilePartView> {
        match j {
            JsonValue::Object(m) => match (
                read_opt_text(m, "name"@),
                read_opt_text(m, "mediaType"@),
                read_opt_text(m, "data"@),
                read_opt_text(m, "url"@),
            ) {
                (Some(name), Some(media_type), Some(data), Some(url)) => Some(
                    FilePartView { name, media_type, data, url },
                ),
                _ => None,
            },
            _ => None,
        }
    }

    open spec fn survives(v: FilePartView) -> bool {
        true
    }

    fn to_json(&self) -> (j: Json) {
        let mut members: Vec<(String, Json)> = Vec::new();
        proof {
            assert(members_view(members@) =~= Seq::empty());
        }
        put_opt_text(&mut members, "name", &self.name);
        put_opt_text(&mut members, "mediaType", &self.media_type);
        put_opt_text(&mut members, "data", &self.data);
        put_opt_text(&mut members, "url", &self.url);
        proof {
            lemma_object_view(members);
        }
        Json::Object(members)
    }

    fn from_json(j: &Json) -> (r: Option<FilePart>) {
        let members = j.as_object()?;
        let name = get_opt_text(members, "name")?;
        let media_type = get_opt_text(members, "mediaType")?;
        let data = get_opt_text(members, "data")?;
        let url = get_opt_text(members, "url")?;
        Some(FilePart { name, media_type, data, url })
    }

    proof fn lemma_round_trip(v: FilePartView) {
        broadcast use group_lookup;

        reveal_strlit("name");
        reveal_strlit("mediaType");
        reveal_strlit("data");
        reveal_strlit("url");
        assert(key_mark("name"@) == (4nat, 'n', 'a'));
        assert(key_mark("mediaType"@) == (9nat, 'm', 'e'));
        assert(key_mark("data"@) == (4nat, 'd', 'a'));
        assert(key_mark("url"@) == (3nat, 'u', 'r'));
    }
}

/// Structured data carried by a message.
#[derive(Debug, Clone, PartialEq)]
pub struct DataPart {
    pub value: Json,
    pub media_type: Option<String>,
}

/// The model of a [`DataPart`].
pub struct DataPartView {
    pub value: JsonValue,
    pub media_type: Option<Seq<char>>,
}

impl View for DataPart {
    type V = DataPartView;

    open spec fn view(&self) -> DataPartView {
        DataPartView { value: self.value@, media_type: opt_text(self.media_type) }
    }
}

impl Wire for DataPart {
    open spec fn encode(v: DataPartView) -> JsonValue {
        let m = Seq::empty();
        let m = with_value::<Json>(m, "value"@, v.value);
        JsonValue::Object(with_opt_text(m, "mediaType"@, v.media_type))
    }

    open spec fn decode(j: JsonValue) -> Option<DataPartView> {
        match j {
            JsonValue::Object(m) => match (
                read_value::<Json>(m, "value"@),
                read_opt_text(m, "mediaType"@),
            ) {
                (Some(value), Some(media_type)) => Some(DataPartView { value, media_type }),
                _ => None,
            },
            _ => None,
        }
    }

    open spec fn survives(v: DataPartView) -> bool {
        true
    }

    fn to_json(&self) -> (j: Json) {
        let mut members: Vec<(String, Json)> = Vec::new();
        proof {
            assert(members_view(members@) =~= Seq::empty());
        }
        put_value(&mut members, "value", &self.value);
        put_opt_text(&mut members, "mediaType", &self.media_type);
        proof {
            lemma_object_view(members);
        }
        Json::Object(members)
    }

    fn from_json(j: &Json) -> (r: Option<DataPart>) {
        let members = j.as_object()?;
        let value = get_value::<Json>(members, "value")?;
        let media_type = get_opt_text(members, "mediaType")?;
        Some(DataPart { value, media_type })
    }

    proof fn lemma_round_trip(v: DataPartView) {
        broadcast use group_lookup;

        reveal_strlit("value");
        reveal_strlit("mediaType");
        assert(key_mark("value"@) == (5nat, 'v', 'a'));
        assert(key_mark("mediaType"@) == (9nat, 'm', 'e'));
    }
}

/// One piece of content of a message or an artifact.
#[derive(Debug, Clone, PartialEq)]
pub enum MessagePart {
    /// Plain text.
    Text { text: String, media_type: Option<String> },
    /// A file, inline or by reference.
    File { file: FilePart },
    /// Structured data.
    Data { data: DataPart },
}

/// The model of a [`MessagePart`].
pub enum MessagePartView {
    Text { text: Seq<char>, media_type: Option<Seq<char>> },
    File { file: FilePartView },
    Data { data: DataPartView },
}

impl View for MessagePart {
    type V = MessagePartView;

    open spec fn view(&self) -> MessagePartView {
        match self {
            MessagePart::Text { text, media_type } => MessagePartView::Text {
                text: text@,
                media_type: opt_text(*media_type),
            },
            MessagePart::File { file } => MessagePartView::File { file: file@ },
            MessagePart::Data { data } => MessagePartView::Data { data: data@ },
        }
    }
}

impl Wire for MessagePart {
    open spec fn encode(v: MessagePartView) -> JsonValue {
        let m = Seq::empty();
        match v {
            MessagePartView::Text { text, media_type } => {
                let m = m.push(("type"@, JsonValue::String("text"@)));
                let m = m.push(("text"@, JsonValue::String(text)));
                JsonValue::Object(with_opt_text(m, "media_type"@, media_type))
            },
            MessagePartView::File { file } => {
                let m = m.push(("type"@, JsonValue::String("file"@)));
                JsonValue::Object(with_value::<FilePart>(m, "file"@, file))
            },
            MessagePartView::Data { data } => {
                let m = m.push(("type"@, JsonValue::String("data"@)));
                JsonValue::Object(with_value::<DataPart>(m, "data"@, data))
            },
        }
    }

    open spec fn decode(j: JsonValue) -> Option<MessagePartView> {
        match j {
            JsonValue::Object(m) => match read_text(m, "type"@) {
                Some(tag) => if tag == "text"@ {
                    match (read_text(m, "text"@), read_opt_text(m, "media_type"@)) {
                        (Some(text), Some(media_type)) => Some(
                            MessagePartView::Text { text, media_type },
                        ),
                        _ => None,
                    }
                } else if tag == "file"@ {
                    match read_value::<FilePart>(m, "file"@) {
                        Some(file) => Some(MessagePartView::File { file }),
                        None => None,
                    }
                } else if tag == "data"@ {
                    match read_value::<DataPart>(m, "data"@) {
                        Some(data) => Some(MessagePartView::Data { data }),
                        None => None,
                    }
                } else {
                    None
                },
                None => None,
            },
            _ => None,
        }
    }

    open spec fn survives(v: MessagePartView) -> bool {
        true
    }

    fn to_json(&self) -> (j: Json) {
        let mut members: Vec<(String, Json)> = Vec::new();
        proof {
            assert(members_view(members@) =~= Seq::empty());
        }
        match self {
            MessagePart::Text { text, media_type } => {
                put_text(&mut members, "type", "text");
                put_text(&mut members, "text", text.as_str());
                put_opt_text(&mut members, "media_type", media_type);
            },
            MessagePart::File { file } => {
                put_text(&mut members, "type", "file");
                put_value(&mut members, "file", file);
            },
            MessagePart::Data { data } => {
                put_text(&mut members, "type", "data");
                put_value(&mut members, "data", data);
            },
        }
        proof {
            lemma_object_view(members);
        }
        Json::Object(members)
    }

    fn from_json(j: &Json) -> (r: Option<MessagePart>) {
        let members = j.as_object()?;
        let tag = get_text(members, "type")?;
        if text_eq(tag.as_str(), "text") {
            let text = get_text(members, "text")?;
            let media_type = get_opt_text(members, "media_type")?;
            Some(MessagePart::Text { text, media_type })
        } else if text_eq(tag.as_str(), "file") {
            let file = get_value::<FilePart>(members, "file")?;
            Some(MessagePart::File { file })
        } else if text_eq(tag.as_str(), "data") {
            let data = get_value::<DataPart>(members, "data")?;
            Some(MessagePart::Data { data })
        } else {
            None
        }
    }

    proof fn lemma_round_trip(v: MessagePartView) {
        broadcast use group_lookup;

        reveal_strlit("type");
        reveal_strlit("text");
        reveal_strlit("file");
        reveal_strlit("data");
        reveal_strlit("media_type");
        assert(key_mark("type"@) == (4nat, 't', 'y'));
        assert(key_mark("text"@) == (4nat, 't', 'e'));
        assert(key_mark("file"@) == (4nat, 'f', 'i'));
        assert(key_mark("data"@) == (4nat, 'd', 'a'));
        assert(key_mark("media_type"@) == (10nat, 'm', 'e'));
        match v {
            MessagePartView::Text { text, media_type } => {},
            MessagePartView::File { file } => {
                FilePart::lemma_round_trip(file);
            },
            MessagePartView::Data { data } => {
                DataPart::lemma_round_trip(data);
            },
        }
    }
}

impl MessagePart {
    /// A text part without a media type.
    pub fn text(text: &str) -> (r: MessagePart)
        ensures
            r@ == (MessagePartView::Text { text: text@, media_type: None }),
    {
        MessagePart::Text { text: text.to_owned(), media_type: None }
    }

    /// A text part with a media type.
    pub fn text_with_type(text: &str, media_type: &str) -> (r: MessagePart)
        ensures
            r@ == (MessagePartView::Text { text: text@, media_type: Some(media_type@) }),
    {
        MessagePart::Text { text: text.to_owned(), media_type: Some(media_type.to_owned()) }
    }

    /// A file part that holds the file's bytes inline, as standard base64.
    pub fn file_inline(name: &str, media_type: &str, data: Vec<u8>) -> (r: MessagePart)
        requires
            data@.len() / 3 * 4 + 4 <= usize::MAX,
        ensures
            r@ == (MessagePartView::File {
                file: FilePartView {
                    name: Some(name@),
                    media_type: Some(media_type@),
                    data: Some(base64_standard(data@)),
                    url: None,
                },
            }),
    {
        let encoded = base64_encode(data.as_slice());
        MessagePart::file_encoded(name, media_type, encoded)
    }

    /// A file part that holds the file inline, given its base64 text.
    pub fn file_encoded(name: &str, media_type: &str, encoded: String) -> (r: MessagePart)
        ensures
            r@ == (MessagePartView::File {
                file: FilePartView {
                    name: Some(name@),
                    media_type: Some(media_type@),
                    data: Some(encoded@),
                    url: None,
                },
            }),
    {
        MessagePart::File {
            file: FilePart {
                name: Some(name.to_owned()),
                media_type: Some(media_type.to_owned()),
                data: Some(encoded),
                url: None,
            },
        }
    }

    /// A file part that names the file by a URL.
    pub fn file_url(url: &str, name: Option<String>) -> (r: MessagePart)
        ensures
            r@ == (MessagePartView::File {
                file: FilePartView {
                    name: opt_text(name),
                    media_type: None,
                    data: None,
                    url: Some(url@),
                },
            }),
    {
        MessagePart::File {
            file: FilePart { name, media_type: None, data: None, url: Some(url.to_owned()) },
        }
    }

    /// A part of structured data.
    pub fn data(value: Json, media_type: Option<String>) -> (r: MessagePart)
        ensures
            r@ == (MessagePartView::Data {
                data: DataPartView { value: value@, media_type: opt_text(media_type) },
            }),
    {
        MessagePart::Data { data: DataPart { value, media_type } }
    }
}

/// The standard base64 text of some bytes, with padding.
pub uninterp spec fn base64_standard(data: Seq<u8>) -> Seq<char>;

/// `Engine::encode` of `base64`, with the `STANDARD` engine: the base64 text
/// of the bytes, with padding.
#[verifier::external_body]
fn base64_encode(data: &[u8]) -> (r: String)
    requires
        data@.len() / 3 * 4 + 4 <= usize::MAX,
    ensures
        r@ == base64_standard(data@),
{
    base64::Engine::encode(&base64::engine::general_purpose::STANDARD, data)
}

/// The texts of the text parts, in their order.
pub open spec fn text_lines(parts: Seq<MessagePartView>) -> Seq<Seq<char>>
    decreases parts.len(),
{
    if parts.len() == 0 {
        Seq::empty()
    } else {
        let before = text_lines(parts.drop_last());
        match parts.last() {
            MessagePartView::Text { text, .. } => before.push(text),
            _ => before,
        }
    }
}

/// The lines joined by single line feeds.
pub open spec fn joined_lines(lines: Seq<Seq<char>>) -> Seq<char>
    decreases lines.len(),
{
    if lines.len() == 0 {
        Seq::empty()
    } else if lines.len() == 1 {
        lines[0]
    } else {
        joined_lines(lines.drop_last()) + seq!['\n'] + lines.last()
    }
}

/// Joins lines by single line feeds.
pub fn join_lines(lines: &Vec<String>) -> (r: String)
    ensures
        r@ == joined_lines(crate::text::texts(lines@)),
{
    let ghost all = crate::text::texts(lines@);
    let mut out = String::new();
    let mut i: usize = 0;
    proof {
        reveal_strlit("\n");
        assert(all.take(0) =~= Seq::empty());
    }
    while i < lines.len()
        invariant
            i <= lines.len(),
            all == crate::text::texts(lines@),
            out@ == joined_lines(all.take(i as int)),
            "\n"@ == seq!['\n'],
        decreases lines.len() - i,
    {
        proof {
            assert(all.take(i + 1).drop_last() =~= all.take(i as int));
            assert(all.take(i + 1).last() == lines[i as int]@);
        }
        if i > 0 {
            out.append("\n");
        } else {
            assert(out@ + lines[i as int]@ =~= lines[i as int]@);
        }
        out.append(lines[i].as_str());
        i = i + 1;
    }
    proof {
        assert(all.take(lines.len() as int) =~= all);
    }
    out
}

/// The text of some parts: their text parts joined by line feeds; parts of
/// other kinds leave no trace.
pub open spec fn text_of_parts(parts: Seq<MessagePartView>) -> Seq<char> {
    joined_lines(text_lines(parts))
}

/// The text of some parts: their text parts joined by line feeds.
pub fn parts_text(parts: &Vec<MessagePart>) -> (r: String)
    ensures
        r@ == text_of_parts(seq_view(parts@)),
{
    let ghost all = seq_view(parts@);
    let mut out = String::new();
    let mut any = false;
    let mut i: usize = 0;
    proof {
        reveal_strlit("\n");
        assert(all.take(0) =~= Seq::empty());
    }
    while i < parts.len()
        invariant
            i <= parts.len(),
            all == seq_view(parts@),
            any == (text_lines(all.take(i as int)).len() > 0),
            out@ == joined_lines(text_lines(all.take(i as int))),
            "\n"@ == seq!['\n'],
        decreases parts.len() - i,
    {
        proof {
            assert(all.take(i + 1).drop_last() =~= all.take(i as int));
            assert(all.take(i + 1).last() == parts[i as int]@);
        }
        let ghost before = text_lines(all.take(i as int));
        match &parts[i] {
            MessagePart::Text { text, .. } => {
                proof {
                    assert(before.push(text@).drop_last() =~= before);
                }
                if any {
                    out.append("\n");
                } else {
                    assert(out@ + text@ =~= text@);
                }
                out.append(text.as_str());
                any = true;
            },
            _ => {},
        }
        i = i + 1;
    }
    proof {
        assert(all.take(parts.len() as int) =~= all);
    }
    out
}

/// One turn of a conversation.
#[derive(Debug, Clone, PartialEq)]
pub struct Message {
    /// The message's identifier.
    pub id: String,
    /// Who sent it.
    pub role: MessageRole,
    /// Its content, in order.
    pub parts: Vec<MessagePart>,
    /// What the sender attached to it.
    pub metadata: Option<Json>,
}

/// The model of a [`Message`].
pub struct MessageView {
    pub id: Seq<char>,
    pub role: MessageRole,
    pub parts: Seq<MessagePartView>,
    pub metadata: Option<JsonValue>,
}

impl View for Message {
    type V = MessageView;

    open spec fn view(&self) -> MessageView {
        MessageView {
            id: self.id@,
            role: self.role,
            parts: seq_view(self.parts@),
            metadata: opt_view(self.metadata),
        }
    }
}

impl Wire for Message {
    open spec fn encode(v: MessageView) -> JsonValue {
        let m = Seq::empty();
        let m = m.push(("id"@, JsonValue::String(v.id)));
        let m = with_value::<MessageRole>(m, "role"@, v.role);
        let m = with_list::<MessagePart>(m, "parts"@, v.parts);
        JsonValue::Object(with_opt_value::<Json>(m, "metadata"@, v.metadata))
    }

    open spec fn decode(j: JsonValue) -> Option<MessageView> {
        match j {
            JsonValue::Object(m) => match (
                read_text(m, "id"@),
                read_value::<MessageRole>(m, "role"@),
                read_list::<MessagePart>(m, "parts"@),
                read_opt_value::<Json>(m, "metadata"@),
            ) {
                (Some(id), Some(role), Some(parts), Some(metadata)) => Some(
                    MessageView { id, role, parts, metadata },
                ),
                _ => None,
            },
            _ => None,
        }
    }

    /// A `null` that is attached as metadata is read back as no metadata.
    open spec fn survives(v: MessageView) -> bool {
        v.metadata != Some(JsonValue::Null)
    }

    fn to_json(&self) -> (j: Json) {
        let mut members: Vec<(String, Json)> = Vec::new();
        proof {
            assert(members_view(members@) =~= Seq::empty());
        }
        put_text(&mut members, "id", self.id.as_str());
        put_value(&mut members, "role", &self.role);
        put_list(&mut members, "parts", &self.parts);
        put_opt_value(&mut members, "metadata", &self.metadata);
        proof {
            lemma_object_view(members);
        }
        Json::Object(members)
    }

    fn from_json(j: &Json) -> (r: Option<Message>) {
        let members = j.as_object()?;
        let id = get_text(members, "id")?;
        let role = get_value::<MessageRole>(members, "role")?;
        let parts = get_list::<MessagePart>(members, "parts")?;
        let metadata = get_opt_value::<Json>(members, "metadata")?;
        Some(Message { id, role, parts, metadata })
    }

    proof fn lemma_round_trip(v: MessageView) {
        broadcast use group_lookup;

        reveal_strlit("id");
        reveal_strlit("role");
        reveal_strlit("parts");
        reveal_strlit("metadata");
        assert(key_mark("id"@) == (2nat, 'i', 'd'));
        assert(key_mark("role"@) == (4nat, 'r', 'o'));
        assert(key_mark("parts"@) == (5nat, 'p', 'a'));
        assert(key_mark("metadata"@) == (8nat, 'm', 'e'));
        MessageRole::lemma_round_trip(v.role);
        assert(each_survives::<MessagePart>(v.parts));
        lemma_each_round_trip::<MessagePart>(v.parts);
    }
}

impl Message {
    /// A message with a given identifier.
    pub fn with_id(id: String, role: MessageRole, parts: Vec<MessagePart>) -> (r: Message)
        ensures
            r@ == (MessageView { id: id@, role, parts: seq_view(parts@), metadata: None }),
    {
        Message { id, role, parts, metadata: None }
    }

    /// A message from the client agent, under a fresh identifier.
    pub fn user(parts: Vec<MessagePart>) -> (r: Message)
        ensures
            r@.role == MessageRole::User,
            r@.parts == seq_view(parts@),
            r@.metadata is None,
            r@.id.len() == 36,
    {
        Message::with_id(fresh_id(), MessageRole::User, parts)
    }

    /// A message from the remote agent, under a fresh identifier.
    pub fn agent(parts: Vec<MessagePart>) -> (r: Message)
        ensures
            r@.role == MessageRole::Agent,
            r@.parts == seq_view(parts@),
            r@.metadata is None,
            r@.id.len() == 36,
    {
        Message::with_id(fresh_id(), MessageRole::Agent, parts)
    }

    /// A message from the client agent that holds one text part.
    pub fn user_text(text: &str) -> (r: Message)
        ensures
            r@.role == MessageRole::User,
            r@.parts == seq![MessagePartView::Text { text: text@, media_type: None }],
            r@.metadata is None,
            r@.id.len() == 36,
    {
        let mut parts: Vec<MessagePart> = Vec::new();
        parts.push(MessagePart::text(text));
        proof {
            assert(seq_view(parts@) =~= seq![
                MessagePartView::Text { text: text@, media_type: None },
            ]);
        }
        Message::user(parts)
    }

    /// A message from the remote agent that holds one text part.
    pub fn agent_text(text: &str) -> (r: Message)
        ensures
            r@.role == MessageRole::Agent,
            r@.parts == seq![MessagePartView::Text { text: text@, media_type: None }],
            r@.metadata is None,
            r@.id.len() == 36,
    {
        let mut parts: Vec<MessagePart> = Vec::new();
        parts.push(MessagePart::text(text));
        proof {
            assert(seq_view(parts@) =~= seq![
                MessagePartView::Text { text: text@, media_type: None },
            ]);
        }
        Message::agent(parts)
    }

    /// The text of the message: its text parts joined by line feeds.
    pub fn text_content(&self) -> (r: String)
        ensures
            r@ == text_of_parts(self@.parts),
    {
        parts_text(&self.parts)
    }
}

} // verus!
