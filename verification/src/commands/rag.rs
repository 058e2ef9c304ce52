//! `agentoven rag`: what the command takes, and what it makes of it.

use crate::json::{
    items_at, items_view, json_u64, key_mark, lemma_object_view, member, members_view, put_text,
    text_at, Json, JsonValue, Members,
};
use crate::oven::opt_str;
use crate::model::seq_view;
use crate::text::{shorten, shortened};
use crate::wire::{put_list, put_value, with_list, with_value, Wire};
use vstd::prelude::*;

verus! {

/// What can be done with the retrieval pipeline.
#[derive(Debug, Clone, PartialEq)]
pub enum RagCommands {
    /// Asks the pipeline.
    Query(QueryArgs),
    /// Hands documents to the pipeline.
    Ingest(IngestArgs),
}

/// What `rag query` takes.
#[derive(Debug, Clone, PartialEq)]
pub struct QueryArgs {
    /// The question.
    pub query: String,
    /// The strategy, such as `naive` or `hyde`.
    pub strategy: String,
    /// How many results to give at most.
    pub top_k: u32,
    /// Whether to show the sources.
    pub sources: bool,
}

/// The model of [`QueryArgs`].
pub struct QueryArgsView {
    pub query: Seq<char>,
    pub strategy: Seq<char>,
    pub top_k: u32,
    pub sources: bool,
}

impl View for QueryArgs {
    type V = QueryArgsView;

    open spec fn view(&self) -> QueryArgsView {
        QueryArgsView {
            query: self.query@,
            strategy: self.strategy@,
            top_k: self.top_k,
            sources: self.sources,
        }
    }
}

/// What `rag ingest` takes.
#[derive(Debug, Clone, PartialEq)]
pub struct IngestArgs {
    /// The path of a file or of a directory.
    pub path: String,
    /// The size of a chunk, in characters.
    pub chunk_size: u32,
    /// How far two chunks overlap, in characters.
    pub chunk_overlap: u32,
    /// The name of the collection.
    pub collection: String,
}

/// The model of [`IngestArgs`].
pub struct IngestArgsView {
    pub path: Seq<char>,
    pub chunk_size: u32,
    pub chunk_overlap: u32,
    pub collection: Seq<char>,
}

impl View for IngestArgs {
    type V = IngestArgsView;

    open spec fn view(&self) -> IngestArgsView {
        IngestArgsView {
            path: self.path@,
            chunk_size: self.chunk_size,
            chunk_overlap: self.chunk_overlap,
            collection: self.collection@,
        }
    }
}

impl QueryArgsView {
    /// The members of the body that the flags give.
    pub open spec fn body_members(self) -> Members {
        let m = Seq::empty();
        let m = m.push(("query"@, JsonValue::String(self.query)));
        let m = m.push(("strategy"@, JsonValue::String(self.strategy)));
        let m = with_value::<u32>(m, "top_k"@, self.top_k);
        m
    }

    /// The body that asks the pipeline.
    pub open spec fn body(self) -> JsonValue {
        JsonValue::Object(self.body_members())
    }
}

impl QueryArgs {
    /// The members of the body that the flags give.
    pub fn body_members(&self) -> (r: Vec<(String, Json)>)
        ensures
            members_view(r@) == self@.body_members(),
    {
        let mut members: Vec<(String, Json)> = Vec::new();
        proof {
            assert(members_view(members@) =~= Seq::empty());
        }
        put_text(&mut members, "query", self.query.as_str());
        put_text(&mut members, "strategy", self.strategy.as_str());
        put_value(&mut members, "top_k", &self.top_k);
        members
    }

    /// The body that asks the pipeline.
    pub fn body(&self) -> (r: Json)
        ensures
            r@ == self@.body(),
    {
        let members = self.body_members();
        proof {
            lemma_object_view(members);
        }
        Json::Object(members)
    }
}

/// A document to ingest.
#[derive(Debug, Clone, PartialEq)]
pub struct Document {
    /// The title: the name of the file.
    pub title: String,
    /// What the file holds.
    pub content: String,
}

/// The model of a [`Document`].
pub struct DocumentView {
    pub title: Seq<char>,
    pub content: Seq<char>,
}

impl View for Document {
    type V = DocumentView;

    open spec fn view(&self) -> DocumentView {
        DocumentView { title: self.title@, content: self.content@ }
    }
}

impl Wire for Document {
    open spec fn encode(v: DocumentView) -> JsonValue {
        JsonValue::Object(
            seq![
                ("title"@, JsonValue::String(v.title)),
                ("content"@, JsonValue::String(v.content)),
            ],
        )
    }

    open spec fn decode(j: JsonValue) -> Option<DocumentView> {
        match (text_at(j, "title"@), text_at(j, "content"@)) {
            (Some(title), Some(content)) => Some(DocumentView { title, content }),
            _ => None,
        }
    }

    open spec fn survives(v: DocumentView) -> bool {
        true
    }

    fn to_json(&self) -> (j: Json) {
        let mut members: Vec<(String, Json)> = Vec::new();
        put_text(&mut members, "title", self.title.as_str());
        put_text(&mut members, "content", self.content.as_str());
        proof {
            lemma_object_view(members);
            assert(members_view(members@) =~= seq![
                ("title"@, JsonValue::String(self.title@)),
                ("content"@, JsonValue::String(self.content@)),
            ]);
        }
        Json::Object(members)
    }

    fn from_json(j: &Json) -> (r: Option<Document>) {
        let title = j.str_at("title")?;
        let content = j.str_at("content")?;
        Some(Document { title: title.to_owned(), content: content.to_owned() })
    }

    proof fn lemma_round_trip(v: DocumentView) {
        broadcast use crate::wire::group_lookup;

        reveal_strlit("title");
        reveal_strlit("content");
        assert(key_mark("title"@) == (5nat, 't', 'i'));
        assert(key_mark("content"@) == (7nat, 'c', 'o'));
        let m = Seq::<(Seq<char>, JsonValue)>::empty().push(
            ("title"@, JsonValue::String(v.title)),
        ).push(("content"@, JsonValue::String(v.content)));
        assert(m =~= seq![
            ("title"@, JsonValue::String(v.title)),
            ("content"@, JsonValue::String(v.content)),
        ]);
        assert(text_at(JsonValue::Object(m), "title"@) == Some(v.title));
        assert(text_at(JsonValue::Object(m), "content"@) == Some(v.content));
    }
}

/// The title of a document: the name of its file, or `file` where the file
/// has no name that is text.
pub fn document(file_name: Option<&str>, content: &str) -> (r: Document)
    ensures
        r@ == (DocumentView {
            title: match file_name {
                Some(n) => n@,
                None => "file"@,
            },
            content: content@,
        }),
{
    let title = match file_name {
        Some(n) => n,
        None => "file",
    };
    Document { title: title.to_owned(), content: content.to_owned() }
}

impl IngestArgsView {
    /// The body that hands documents to the pipeline.
    pub open spec fn body(self, documents: Seq<DocumentView>) -> JsonValue {
        let m = Seq::empty();
        let m = with_list::<Document>(m, "documents"@, documents);
        let m = with_value::<u32>(m, "chunk_size"@, self.chunk_size);
        let m = with_value::<u32>(m, "chunk_overlap"@, self.chunk_overlap);
        JsonValue::Object(m.push(("collection"@, JsonValue::String(self.collection))))
    }
}

impl IngestArgs {
    /// The body that hands documents to the pipeline.
    pub fn body(&self, documents: &Vec<Document>) -> (r: Json)
        ensures
            r@ == self@.body(seq_view(documents@)),
    {
        let mut members: Vec<(String, Json)> = Vec::new();
        proof {
            assert(members_view(members@) =~= Seq::empty());
        }
        put_list(&mut members, "documents", documents);
        put_value(&mut members, "chunk_size", &self.chunk_size);
        put_value(&mut members, "chunk_overlap", &self.chunk_overlap);
        put_text(&mut members, "collection", self.collection.as_str());
        proof {
            lemma_object_view(members);
        }
        Json::Object(members)
    }
}

/// The start of a chunk as a result shows it: its first 120 characters and
/// three dots where it has more.
pub fn chunk_preview(chunk: &str) -> (r: String)
    ensures
        r@ == shortened(chunk@, 120, 120, "..."@),
{
    shorten(chunk, 120, 120, "...")
}

/// The string that a reply holds under the first of two keys, or else under
/// the second.
pub open spec fn text_either(reply: JsonValue, first: Seq<char>, second: Seq<char>) -> Option<
    Seq<char>,
> {
    match text_at(reply, first) {
        Some(s) => Some(s),
        None => text_at(reply, second),
    }
}

/// The string that a reply holds under the first of two keys, or else under
/// the second.
pub fn str_either<'a>(reply: &'a Json, first: &str, second: &str) -> (r: Option<&'a str>)
    ensures
        opt_str(r) == text_either(reply@, first@, second@),
{
    match reply.str_at(first) {
        Some(s) => Some(s),
        None => reply.str_at(second),
    }
}

/// The answer that the reply to a query holds: under `answer`, or else
/// under `response`.
pub fn query_answer(reply: &Json) -> (r: Option<&str>)
    ensures
        opt_str(r) == text_either(reply@, "answer"@, "response"@),
{
    str_either(reply, "answer", "response")
}

/// The sources that the reply to a query names: the array under `sources`,
/// or else under `documents`, or else under `context`.
pub open spec fn sources_view(reply: JsonValue) -> Option<Seq<JsonValue>> {
    match items_at(reply, "sources"@) {
        Some(items) => Some(items),
        None => match items_at(reply, "documents"@) {
            Some(items) => Some(items),
            None => items_at(reply, "context"@),
        },
    }
}

/// The sources that the reply to a query names.
pub fn query_sources(reply: &Json) -> (r: Option<&Vec<Json>>)
    ensures
        match r {
            Some(items) => sources_view(reply@) == Some(items_view(items@)),
            None => sources_view(reply@) is None,
        },
{
    match reply.array_at("sources") {
        Some(items) => Some(items),
        None => match reply.array_at("documents") {
            Some(items) => Some(items),
            None => reply.array_at("context"),
        },
    }
}

/// The title of a source: the string under `title`, or else under `source`,
/// or else `(untitled)`.
pub open spec fn title_view(source: JsonValue) -> Seq<char> {
    match text_either(source, "title"@, "source"@) {
        Some(s) => s,
        None => "(untitled)"@,
    }
}

/// The title of a source.
pub fn source_title(source: &Json) -> (r: &str)
    ensures
        r@ == title_view(source@),
{
    match str_either(source, "title", "source") {
        Some(s) => s,
        None => "(untitled)",
    }
}

/// The text of a source: the string under `content`, or else under `text`.
pub fn source_chunk(source: &Json) -> (r: Option<&str>)
    ensures
        opt_str(r) == text_either(source@, "content"@, "text"@),
{
    str_either(source, "content", "text")
}

/// The count that a reply holds under `key`.
pub open spec fn count_at(reply: JsonValue, key: Seq<char>) -> Option<u64> {
    match member(reply, key) {
        Some(n) => json_u64(n),
        None => None,
    }
}

/// The count that a reply holds under `key`.
pub fn read_count(reply: &Json, key: &str) -> (r: Option<u64>)
    ensures
        r == count_at(reply@, key@),
{
    match reply.get(key) {
        Some(n) => n.as_u64(),
        None => None,
    }
}

/// The number of chunks that an ingestion made: the count under
/// `chunks_created`, or else under `total_chunks`, or else none.
pub open spec fn chunks_view(reply: JsonValue) -> u64 {
    match count_at(reply, "chunks_created"@) {
        Some(n) => n,
        None => match count_at(reply, "total_chunks"@) {
            Some(n) => n,
            None => 0,
        },
    }
}

/// The number of chunks that an ingestion made.
pub fn chunks_made(reply: &Json) -> (r: u64)
    ensures
        r == chunks_view(reply@),
{
    match read_count(reply, "chunks_created") {
        Some(n) => n,
        None => match read_count(reply, "total_chunks") {
            Some(n) => n,
            None => 0,
        },
    }
}

/// The number of documents that an ingestion took: the count under
/// `documents_processed`, or else the number that was handed in.
pub fn documents_taken(reply: &Json, handed_in: u64) -> (r: u64)
    ensures
        r == match count_at(reply@, "documents_processed"@) {
            Some(n) => n,
            None => handed_in,
        },
{
    match read_count(reply, "documents_processed") {
        Some(n) => n,
        None => handed_in,
    }
}


} // verus!
