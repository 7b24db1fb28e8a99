//! From what the tool wrote to a document: bytes to text, and JSON text to
//! a tree of values. The JSON is read by `serde_json`; what is believed of
//! it, and of std's UTF-8 check, stands in this file and nowhere else.

use crate::document::{Json, JsonView};
use crate::errors::FetchError;
use vstd::prelude::*;
use vstd::utf8::{decode_utf8, valid_utf8};

verus! {

/// `serde_json::Value`, a JSON value as `serde_json` holds it. Nothing of
/// its inside is visible here; `unfold` takes it apart.
#[verifier::external_type_specification]
#[verifier::external_body]
pub struct ExValue(serde_json::Value);

/// `serde_json::Error`, why `serde_json` refused a text. It is carried and
/// never looked into.
#[verifier::external_type_specification]
#[verifier::external_body]
pub struct ExError(serde_json::Error);

/// The tree that a `serde_json::Value` holds: its kind, and below it the
/// trees of what it holds, the members of an object in the order in which
/// the value hands them out. A number is kept without its digits.
pub uninterp spec fn value_tree(v: serde_json::Value) -> JsonView;

/// What `serde_json` makes of a text: the tree of the value that it reads,
/// or nothing where it refuses the text.
pub uninterp spec fn read_json(text: Seq<char>) -> Option<JsonView>;

/// `serde_json::from_str` at the type `serde_json::Value`. Believed: what
/// it returns depends on the text alone. The grammar that it accepts and
/// the value that it builds are named by `read_json`, not described.
#[verifier::external_body]
fn parse_value(text: &str) -> (r: Result<serde_json::Value, serde_json::Error>)
    ensures
        match r {
            Ok(v) => read_json(text@) == Some(value_tree(v)),
            Err(_) => read_json(text@) is None,
        },
{
    serde_json::from_str::<serde_json::Value>(text)
}

/// The top of a `serde_json::Value`: its kind, and what it holds one level
/// down.
enum Node {
    Null,
    Bool(bool),
    Number,
    Text(String),
    List(Vec<serde_json::Value>),
    Object(Vec<(String, serde_json::Value)>),
}

impl Node {
    /// The node is the top of `tree`, and its children hold the children of
    /// `tree` in the same order.
    spec fn tops(&self, tree: JsonView) -> bool {
        match self {
            Node::Null => tree == JsonView::Null,
            Node::Bool(b) => tree == JsonView::Bool(*b),
            Node::Number => tree == JsonView::Number,
            Node::Text(s) => tree == JsonView::Text(s@),
            Node::List(items) => tree == JsonView::List(
                Seq::new(items@.len(), |i: int| value_tree(items@[i])),
            ),
            Node::Object(members) => tree == JsonView::Object(
                Seq::new(members@.len(), |i: int| (members@[i].0@, value_tree(members@[i].1))),
            ),
        }
    }
}

/// Takes a `serde_json::Value` apart by its six variants. Believed: the
/// variant, the boolean, the string, the items of an array in their order,
/// and the members of an object in the order of `serde_json::Map`'s
/// `into_iter`, are what `value_tree` says the value holds. The digits of a
/// number are dropped.
#[verifier::external_body]
fn unfold(v: serde_json::Value) -> (n: Node)
    ensures
        n.tops(value_tree(v)),
{
    match v {
        serde_json::Value::Null => Node::Null,
        serde_json::Value::Bool(b) => Node::Bool(b),
        serde_json::Value::Number(_) => Node::Number,
        serde_json::Value::String(s) => Node::Text(s),
        serde_json::Value::Array(a) => Node::List(a),
        serde_json::Value::Object(m) => Node::Object(m.into_iter().collect()),
    }
}

/// The document that a `serde_json::Value` holds.
fn lift(v: serde_json::Value) -> (j: Json)
    ensures
        j@ == value_tree(v),
    decreases value_tree(v),
{
    let ghost tree = value_tree(v);
    match unfold(v) {
        Node::Null => Json::Null,
        Node::Bool(b) => Json::Bool(b),
        Node::Number => Json::Number,
        Node::Text(s) => Json::Text(s),
        Node::List(items) => {
            let ghost all = items@;
            let mut out: Vec<Json> = Vec::new();
            for item in it: items
                invariant
                    tree == value_tree(v),
                    tree == JsonView::List(Seq::new(all.len(), |i: int| value_tree(all[i]))),
                    it.seq() == all,
                    out@.len() == it.index(),
                    forall|k: int|
                        0 <= k < out@.len() ==> (#[trigger] out@[k])@ == value_tree(all[k]),
            {
                proof {
                    let children = Seq::new(all.len(), |i: int| value_tree(all[i]));
                    assert(item == all[it.index() as int]);
                    assert(children[it.index() as int] == value_tree(item));
                    assert(tree->List_0 == children);
                }
                let child = lift(item);
                out.push(child);
            }
            let j = Json::List(out);
            assert(j@->List_0 =~= tree->List_0);
            j
        },
        Node::Object(members) => {
            let ghost all = members@;
            let mut out: Vec<(String, Json)> = Vec::new();
            for member in it: members
                invariant
                    tree == value_tree(v),
                    tree == JsonView::Object(
                        Seq::new(all.len(), |i: int| (all[i].0@, value_tree(all[i].1))),
                    ),
                    it.seq() == all,
                    out@.len() == it.index(),
                    forall|k: int|
                        0 <= k < out@.len() ==> (#[trigger] out@[k]).0@ == all[k].0@
                            && out@[k].1@ == value_tree(all[k].1),
            {
                proof {
                    let children = Seq::new(
                        all.len(),
                        |i: int| (all[i].0@, value_tree(all[i].1)),
                    );
                    assert(member == all[it.index() as int]);
                    assert(children[it.index() as int].1 == value_tree(member.1));
                    assert(tree->Object_0 == children);
                }
                let (key, value) = member;
                let child = lift(value);
                out.push((key, child));
            }
            let j = Json::Object(out);
            assert(j@->Object_0 =~= tree->Object_0);
            j
        },
    }
}

impl Json {
    /// Reads a document from JSON text.
    pub fn read(text: &str) -> (r: Result<Json, FetchError>)
        ensures
            match r {
                Ok(doc) => read_json(text@) == Some(doc@),
                Err(e) => e == FetchError::CatalogParseError && read_json(text@) is None,
            },
    {
        match parse_value(text) {
            Ok(v) => Ok(lift(v)),
            Err(_) => Err(FetchError::CatalogParseError),
        }
    }
}

/// The text that `bytes` spell in UTF-8, where they spell one.
pub open spec fn text_of(bytes: Seq<u8>) -> Option<Seq<char>> {
    if valid_utf8(bytes) {
        Some(decode_utf8(bytes))
    } else {
        None
    }
}

/// `String::from_utf8`. Believed: it gives a string exactly where the
/// bytes are UTF-8, and the string then holds the characters that the
/// bytes spell.
#[verifier::external_body]
fn utf8_string(bytes: Vec<u8>) -> (r: Option<String>)
    ensures
        match r {
            Some(s) => text_of(bytes@) == Some(s@),
            None => text_of(bytes@) is None,
        },
{
    String::from_utf8(bytes).ok()
}

/// How a run of the tool ended, once the tool was started.
#[derive(Debug, PartialEq, Eq)]
pub struct ToolOutput {
    /// Whether the tool ended with the exit status of success.
    pub success: bool,
    /// What the tool wrote to its standard output.
    pub stdout: Vec<u8>,
}

/// How a run of the tool ended, as contracts see it.
pub struct ToolOutputView {
    pub success: bool,
    pub stdout: Seq<u8>,
}

impl View for ToolOutput {
    type V = ToolOutputView;

    open spec fn view(&self) -> ToolOutputView {
        ToolOutputView { success: self.success, stdout: self.stdout@ }
    }
}

/// What comes of asking the tool, as contracts see it: how its run ended,
/// where it could be started.
pub open spec fn output_view(output: Option<ToolOutput>) -> Option<ToolOutputView> {
    match output {
        Some(run) => Some(run@),
        None => None,
    }
}

/// The text that the tool wrote, or why there is none: the tool did not
/// start or did not end well, or what it wrote is not UTF-8.
pub open spec fn text_of_output(output: Option<ToolOutputView>) -> Result<Seq<char>, FetchError> {
    match output {
        None => Err(FetchError::ToolInvocationFailed),
        Some(run) => {
            if !run.success {
                Err(FetchError::ToolInvocationFailed)
            } else {
                match text_of(run.stdout) {
                    None => Err(FetchError::CatalogParseError),
                    Some(text) => Ok(text),
                }
            }
        },
    }
}

/// The text that the tool wrote. `output` is how its run ended, or nothing
/// where it could not be started.
pub fn output_text(output: Option<ToolOutput>) -> (r: Result<String, FetchError>)
    ensures
        match r {
            Ok(text) => text_of_output(output_view(output)) == Ok::<Seq<char>, FetchError>(text@),
            Err(e) => text_of_output(output_view(output)) == Err::<Seq<char>, FetchError>(e),
        },
{
    match output {
        None => Err(FetchError::ToolInvocationFailed),
        Some(run) => {
            if !run.success {
                return Err(FetchError::ToolInvocationFailed);
            }
            match utf8_string(run.stdout) {
                Some(text) => Ok(text),
                None => Err(FetchError::CatalogParseError),
            }
        },
    }
}

} // verus!
