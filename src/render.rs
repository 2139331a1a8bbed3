use std::collections::HashMap;
use vstd::prelude::*;

verus! {

#[verifier::external_type_specification]
#[verifier::external_body]
pub struct ExJsonValue(serde_json::Value);

/// What `serde_json::to_string_pretty` makes of a JSON value: `None` where it
/// reports an error.
pub uninterp spec fn pretty_json(v: serde_json::Value) -> Option<Seq<char>>;

/// What `Display` of `serde_json::Value` writes: the compact JSON text.
pub uninterp spec fn compact_json(v: serde_json::Value) -> Seq<char>;

/// Relies on serde_json::to_string_pretty: the indented JSON text of `v`, or
/// an error; both depend on the value alone.
#[verifier::external_body]
fn to_pretty_text(v: &serde_json::Value) -> (r: Option<String>)
    ensures
        r is Some <==> pretty_json(*v) is Some,
        r matches Some(s) ==> pretty_json(*v) == Some(s@),
{
    serde_json::to_string_pretty(v).ok()
}

/// Relies on `Display` of serde_json::Value: the compact JSON text of `v`.
#[verifier::external_body]
fn to_compact_text(v: &serde_json::Value) -> (r: String)
    ensures
        r@ == compact_json(*v),
{
    v.to_string()
}

/// The readable text of a payload: its indented JSON where that can be
/// written, else its compact JSON.
pub open spec fn rendered_text(v: serde_json::Value) -> Seq<char> {
    match pretty_json(v) {
        Some(s) => s,
        None => compact_json(v),
    }
}

/// Renders a payload for a reader: indented JSON, falling back on the compact
/// form where indenting fails.
pub fn render_payload(v: &serde_json::Value) -> (r: String)
    ensures
        r@ == rendered_text(*v),
{
    match to_pretty_text(v) {
        Some(s) => s,
        None => to_compact_text(v),
    }
}

/// One item of a retrieval index's answer, without its score.
#[derive(Debug)]
pub struct RetrievedItem {
    pub id: String,
    pub payload: serde_json::Value,
}

/// A context document handed to the model.
#[derive(Clone, Debug)]
pub struct ContextDocument {
    pub id: String,
    pub text: String,
    pub additional_props: HashMap<String, String>,
}

/// The mathematical form of a context document.
pub struct DocumentView {
    pub id: Seq<char>,
    pub text: Seq<char>,
    pub additional_props: Map<String, String>,
}

impl View for ContextDocument {
    type V = DocumentView;

    open spec fn view(&self) -> DocumentView {
        DocumentView {
            id: self.id@,
            text: self.text@,
            additional_props: self.additional_props@,
        }
    }
}

/// The document that a retrieved item becomes.
pub open spec fn document_of(item: RetrievedItem) -> DocumentView {
    DocumentView {
        id: item.id@,
        text: rendered_text(item.payload),
        additional_props: Map::empty(),
    }
}

/// Turns a retrieved item into a context document: same identifier, the
/// payload rendered as text, no extra properties.
pub fn to_document(item: &RetrievedItem) -> (r: ContextDocument)
    ensures
        r@ == document_of(*item),
{
    ContextDocument {
        id: item.id.clone(),
        text: render_payload(&item.payload),
        additional_props: HashMap::new(),
    }
}

} // verus!
