//! Artifacts: what a task delivers.

use crate::ident::fresh_id;
use crate::json::{
    get_opt_text, get_text, key_mark, lemma_object_view, members_view, put_opt_text, put_text,
    read_opt_text, read_text, with_opt_text, Json, JsonValue,
};
use crate::message::{parts_text, text_of_parts, DataPartView, MessagePart, MessagePartView};
use crate::model::{opt_view, seq_view};
use crate::text::opt_text;
use crate::wire::{
    each_survives, get_list, get_opt_value, group_lookup, lemma_each_round_trip, put_list,
    put_opt_value, read_list, read_opt_value, with_list, with_opt_value, Wire,
};
use vstd::prelude::*;

verus! {

/// A deliverable of a task. Artifacts are added to a task, never changed in
/// place.
#[derive(Debug, Clone, PartialEq)]
pub struct Artifact {
    /// The artifact's identifier.
    pub id: String,
    /// A title for readers.
    pub name: Option<String>,
    /// What the artifact holds.
    pub description: Option<String>,
    /// Its content, in order.
    pub parts: Vec<MessagePart>,
    /// What the producer attached to it.
    pub metadata: Option<Json>,
}

/// The model of an [`Artifact`].
pub struct ArtifactView {
    pub id: Seq<char>,
    pub name: Option<Seq<char>>,
    pub description: Option<Seq<char>>,
    pub parts: Seq<MessagePartView>,
    pub metadata: Option<JsonValue>,
}

impl View for Artifact {
    type V = ArtifactView;

    open spec fn view(&self) -> ArtifactView {
        ArtifactView {
            id: self.id@,
            name: opt_text(self.name),
            description: opt_text(self.description),
            parts: seq_view(self.parts@),
            metadata: opt_view(self.metadata),
        }
    }
}

impl Wire for Artifact {
    open spec fn encode(v: ArtifactView) -> JsonValue {
        let m = Seq::empty();
        let m = m.push(("id"@, JsonValue::String(v.id)));
        let m = with_opt_text(m, "name"@, v.name);
        let m = with_opt_text(m, "description"@, v.description);
        let m = with_list::<MessagePart>(m, "parts"@, v.parts);
        JsonValue::Object(with_opt_value::<Json>(m, "metadata"@, v.metadata))
    }

    open spec fn decode(j: JsonValue) -> Option<ArtifactView> {
        match j {
            JsonValue::Object(m) => match (
                read_text(m, "id"@),
                read_opt_text(m, "name"@),
                read_opt_text(m, "description"@),
                read_list::<MessagePart>(m, "parts"@),
                read_opt_value::<Json>(m, "metadata"@),
            ) {
                (Some(id), Some(name), Some(description), Some(parts), Some(metadata)) => Some(
                    ArtifactView { id, name, description, parts, metadata },
                ),
                _ => None,
            },
            _ => None,
        }
    }

    /// A `null` that is attached as metadata is read back as no metadata.
    open spec fn survives(v: ArtifactView) -> bool {
        v.metadata != Some(JsonValue::Null)
    }

    fn to_json(&self) -> (j: Json) {
        let mut members: Vec<(String, Json)> = Vec::new();
        proof {
            assert(members_view(members@) =~= Seq::empty());
        }
        put_text(&mut members, "id", self.id.as_str());
        put_opt_text(&mut members, "name", &self.name);
        put_opt_text(&mut members, "description", &self.description);
        put_list(&mut members, "parts", &self.parts);
        put_opt_value(&mut members, "metadata", &self.metadata);
        proof {
            lemma_object_view(members);
        }
        Json::Object(members)
    }

    fn from_json(j: &Json) -> (r: Option<Artifact>) {
        let members = j.as_object()?;
        let id = get_text(members, "id")?;
        let name = get_opt_text(members, "name")?;
        let description = get_opt_text(members, "description")?;
        let parts = get_list::<MessagePart>(members, "parts")?;
        let metadata = get_opt_value::<Json>(members, "metadata")?;
        Some(Artifact { id, name, description, parts, metadata })
    }

    proof fn lemma_round_trip(v: ArtifactView) {
        broadcast use group_lookup;

        reveal_strlit("id");
        reveal_strlit("name");
        reveal_strlit("description");
        reveal_strlit("parts");
        reveal_strlit("metadata");
        assert(key_mark("id"@) == (2nat, 'i', 'd'));
        assert(key_mark("name"@) == (4nat, 'n', 'a'));
        assert(key_mark("description"@) == (11nat, 'd', 'e'));
        assert(key_mark("parts"@) == (5nat, 'p', 'a'));
        assert(key_mark("metadata"@) == (8nat, 'm', 'e'));
        assert(each_survives::<MessagePart>(v.parts));
        lemma_each_round_trip::<MessagePart>(v.parts);
    }
}

impl Artifact {
    /// An artifact with a given identifier, a name and its parts.
    pub fn with_id(id: String, name: &str, parts: Vec<MessagePart>) -> (r: Artifact)
        ensures
            r@ == (ArtifactView {
                id: id@,
                name: Some(name@),
                description: None,
                parts: seq_view(parts@),
                metadata: None,
            }),
    {
        Artifact { id, name: Some(name.to_owned()), description: None, parts, metadata: None }
    }

    /// An artifact that holds one text part, under a fresh identifier.
    pub fn text(name: &str, content: &str) -> (r: Artifact)
        ensures
            r@.name == Some(name@),
            r@.description is None,
            r@.parts == seq![MessagePartView::Text { text: content@, media_type: None }],
            r@.metadata is None,
            r@.id.len() == 36,
    {
        let mut parts: Vec<MessagePart> = Vec::new();
        parts.push(MessagePart::text(content));
        proof {
            assert(seq_view(parts@) =~= seq![
                MessagePartView::Text { text: content@, media_type: None },
            ]);
        }
        Artifact::with_id(fresh_id(), name, parts)
    }

    /// An artifact that holds one part of structured data, marked as
    /// `application/json`, under a fresh identifier.
    pub fn data(name: &str, value: Json) -> (r: Artifact)
        ensures
            r@.name == Some(name@),
            r@.description is None,
            r@.parts == seq![
                MessagePartView::Data {
                    data: DataPartView { value: value@, media_type: Some("application/json"@) },
                },
            ],
            r@.metadata is None,
            r@.id.len() == 36,
    {
        let mut parts: Vec<MessagePart> = Vec::new();
        parts.push(MessagePart::data(value, Some("application/json".to_owned())));
        proof {
            assert(seq_view(parts@) =~= seq![
                MessagePartView::Data {
                    data: DataPartView { value: value@, media_type: Some("application/json"@) },
                },
            ]);
        }
        Artifact::with_id(fresh_id(), name, parts)
    }

    /// The text of the artifact: its text parts joined by line feeds.
    pub fn text_content(&self) -> (r: String)
        ensures
            r@ == text_of_parts(self@.parts),
    {
        parts_text(&self.parts)
    }
}

} // verus!
