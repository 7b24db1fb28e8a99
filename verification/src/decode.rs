//! How a catalog is read from a document, from JSON text, and from what the
//! tool wrote.

use crate::data::{
    catalog_with, namespace, platforms_view, shells_view, Catalog, NixFlakeData, Platforms,
    ShellInfo, ShellInfoView, Shells, NAMESPACE,
};
use crate::document::{documents_view, Json, JsonView};
use crate::errors::FetchError;
use crate::reader::{
    output_text, output_view, read_json, text_of_output, ToolOutput, ToolOutputView,
};
use crate::table::Table;
use vstd::prelude::*;

verus! {

/// Every entry of `m`, where none of them is missing; nothing where one is.
pub open spec fn all_present<A>(m: Map<Seq<char>, Option<A>>) -> Option<Map<Seq<char>, A>> {
    if forall|k: Seq<char>| m.contains_key(k) ==> (#[trigger] m[k]) is Some {
        Some(m.map_values(|entry: Option<A>| entry->Some_0))
    } else {
        None
    }
}

/// What a document tells of one shell: it is an object whose members `name`
/// and `type` are strings. Other members are passed over.
pub open spec fn shell_of(doc: JsonView) -> Option<ShellInfoView> {
    match doc.object() {
        Some(m) => {
            if m.contains_key("name"@) && m["name"@] is Text && m.contains_key("type"@)
                && m["type"@] is Text {
                Some(ShellInfoView { name: m["name"@]->Text_0, kind: m["type"@]->Text_0 })
            } else {
                None
            }
        },
        None => None,
    }
}

/// The shells of one platform, as a document tells them: it is an object,
/// and each of its members tells of a shell.
pub open spec fn shells_of(doc: JsonView) -> Option<Shells> {
    match doc.object() {
        Some(m) => all_present(m.map_values(|member: JsonView| shell_of(member))),
        None => None,
    }
}

/// The shells of every platform, as a document tells them: it is an object,
/// and each of its members tells the shells of a platform.
pub open spec fn platforms_of(doc: JsonView) -> Option<Platforms> {
    match doc.object() {
        Some(m) => all_present(m.map_values(|member: JsonView| shells_of(member))),
        None => None,
    }
}

/// The catalog that a document holds: it is an object, and its member under
/// the namespace of shells tells the shells of every platform. Its other
/// members are passed over.
pub open spec fn catalog_of(doc: JsonView) -> Option<Catalog> {
    match doc.object() {
        Some(m) => {
            if m.contains_key(namespace()) {
                match platforms_of(m[namespace()]) {
                    Some(platforms) => Some(catalog_with(platforms)),
                    None => None,
                }
            } else {
                None
            }
        },
        None => None,
    }
}

/// The platforms that a document lists, in the document's order: the keys
/// of the object under the namespace of shells, each once, as they first
/// occur. None where the document holds no catalog.
pub open spec fn listed_platforms(doc: JsonView) -> Seq<Seq<char>> {
    if catalog_of(doc) is Some {
        doc.object()->Some_0[namespace()].keys()
    } else {
        Seq::empty()
    }
}

/// The names that a document lists for the platform `archi`, in the
/// document's order: the keys of the platform's object, each once, as they
/// first occur. None where the document holds no catalog, or none for the
/// platform.
pub open spec fn listed_names(doc: JsonView, archi: Seq<char>) -> Seq<Seq<char>> {
    if catalog_of(doc) is Some && doc.object()->Some_0[namespace()].object()->Some_0.contains_key(
        archi,
    ) {
        doc.object()->Some_0[namespace()].object()->Some_0[archi].keys()
    } else {
        Seq::empty()
    }
}

/// The names that a JSON text lists for the platform `archi`, in the order
/// in which the reader hands them out.
pub open spec fn listed_names_of_text(text: Seq<char>, archi: Seq<char>) -> Seq<Seq<char>> {
    match read_json(text) {
        Some(doc) => listed_names(doc, archi),
        None => Seq::empty(),
    }
}

/// The platforms that a JSON text lists, in the order in which the reader
/// hands them out.
pub open spec fn listed_platforms_of_text(text: Seq<char>) -> Seq<Seq<char>> {
    match read_json(text) {
        Some(doc) => listed_platforms(doc),
        None => Seq::empty(),
    }
}

/// The platforms that the tool's answer lists.
pub open spec fn listed_platforms_of_output(output: Option<ToolOutputView>) -> Seq<Seq<char>> {
    match text_of_output(output) {
        Ok(text) => listed_platforms_of_text(text),
        Err(_) => Seq::empty(),
    }
}

/// The names that the tool's answer lists for the platform `archi`.
pub open spec fn listed_names_of_output(output: Option<ToolOutputView>, archi: Seq<char>) -> Seq<
    Seq<char>,
> {
    match text_of_output(output) {
        Ok(text) => listed_names_of_text(text, archi),
        Err(_) => Seq::empty(),
    }
}

/// The catalog that a JSON text holds, if it holds one.
pub open spec fn catalog_of_text(text: Seq<char>) -> Option<Catalog> {
    match read_json(text) {
        Some(doc) => catalog_of(doc),
        None => None,
    }
}

/// The catalog that the tool's answer holds, or why there is none: the tool
/// did not start or did not end well, or what it wrote is not the text of a
/// catalog.
pub open spec fn catalog_of_output(output: Option<ToolOutputView>) -> Result<Catalog, FetchError> {
    match text_of_output(output) {
        Err(e) => Err(e),
        Ok(text) => match catalog_of_text(text) {
            None => Err(FetchError::CatalogParseError),
            Some(catalog) => Ok(catalog),
        },
    }
}

/// What `doc` tells of one shell.
fn read_shell(doc: &Json) -> (r: Option<ShellInfo>)
    ensures
        match r {
            Some(info) => shell_of(doc@) == Some(info@),
            None => shell_of(doc@) is None,
        },
{
    let members = match doc.as_object() {
        Some(members) => members,
        None => { return None; },
    };
    let name = match members.get("name") {
        Some(member) => match member.as_text() {
            Some(name) => name,
            None => { return None; },
        },
        None => { return None; },
    };
    let kind = match members.get("type") {
        Some(member) => match member.as_text() {
            Some(kind) => kind,
            None => { return None; },
        },
        None => { return None; },
    };
    Some(ShellInfo { name: name.clone(), kind: kind.clone() })
}

/// The shells of one platform, as `doc` tells them.
fn read_shells(doc: &Json) -> (r: Option<Table<ShellInfo>>)
    ensures
        match r {
            Some(shells) => shells_of(doc@) == Some(shells_view(shells)) && shells.key_order()
                == doc@.keys(),
            None => shells_of(doc@) is None,
        },
{
    let members = match doc.as_object() {
        Some(members) => members,
        None => { return None; },
    };
    let ghost told = documents_view(members).map_values(|member: JsonView| shell_of(member));
    let mut shells: Table<ShellInfo> = Table::new();
    let n = members.len();
    let mut i: usize = 0;
    while i < n
        invariant
            i <= n,
            n == members.key_order().len(),
            doc@.object() == Some(documents_view(members)),
            told == documents_view(members).map_values(|member: JsonView| shell_of(member)),
            members.key_order().no_duplicates(),
            shells.key_order() == members.key_order().take(i as int),
            forall|k: Seq<char>|
                shells@.contains_key(k) <==> exists|j: int|
                    0 <= j < i && #[trigger] members.key_order()[j] == k,
            forall|k: Seq<char>| #[trigger]
                shells@.contains_key(k) ==> told.contains_key(k) && told[k] == Some(shells@[k]@),
        decreases n - i,
    {
        let (key, member) = members.entry(i);
        match read_shell(member) {
            Some(info) => {
                shells.insert(key.clone(), info);
                assert(shells.key_order() =~= members.key_order().take(i + 1));
            },
            None => {
                assert(told.contains_key(key@) && told[key@] is None);
                return None;
            },
        }
        i += 1;
    }
    proof {
        let keys = members.key_order();
        members.lemma_key_order_covers();
        assert forall|k: Seq<char>| told.contains_key(k) implies shells@.contains_key(k) by {
            assert(keys.to_set().contains(k));
            assert(keys[keys.index_of(k)] == k);
        }
        assert(all_present(told)->Some_0 =~= shells_view(shells));
        assert(keys.take(n as int) =~= keys);
    }
    Some(shells)
}

/// The shells of every platform, as `doc` tells them.
fn read_platforms(doc: &Json) -> (r: Option<Table<Table<ShellInfo>>>)
    ensures
        match r {
            Some(platforms) => {
                &&& platforms_of(doc@) == Some(platforms_view(platforms))
                &&& platforms.key_order() == doc@.keys()
                &&& forall|archi: Seq<char>| #[trigger]
                    platforms@.contains_key(archi) ==> platforms@[archi].key_order()
                        == doc@.object()->Some_0[archi].keys()
            },
            None => platforms_of(doc@) is None,
        },
{
    let members = match doc.as_object() {
        Some(members) => members,
        None => { return None; },
    };
    let ghost told = documents_view(members).map_values(|member: JsonView| shells_of(member));
    let mut platforms: Table<Table<ShellInfo>> = Table::new();
    let n = members.len();
    let mut i: usize = 0;
    while i < n
        invariant
            i <= n,
            n == members.key_order().len(),
            doc@.object() == Some(documents_view(members)),
            told == documents_view(members).map_values(|member: JsonView| shells_of(member)),
            members.key_order().no_duplicates(),
            platforms.key_order() == members.key_order().take(i as int),
            forall|k: Seq<char>|
                platforms@.contains_key(k) <==> exists|j: int|
                    0 <= j < i && #[trigger] members.key_order()[j] == k,
            forall|k: Seq<char>| #[trigger]
                platforms@.contains_key(k) ==> told.contains_key(k) && told[k] == Some(
                    shells_view(platforms@[k]),
                ) && platforms@[k].key_order() == documents_view(members)[k].keys(),
        decreases n - i,
    {
        let (key, member) = members.entry(i);
        match read_shells(member) {
            Some(shells) => {
                platforms.insert(key.clone(), shells);
                assert(platforms.key_order() =~= members.key_order().take(i + 1));
            },
            None => {
                assert(told.contains_key(key@) && told[key@] is None);
                return None;
            },
        }
        i += 1;
    }
    proof {
        let keys = members.key_order();
        members.lemma_key_order_covers();
        assert forall|k: Seq<char>| told.contains_key(k) implies platforms@.contains_key(k) by {
            assert(keys.to_set().contains(k));
            assert(keys[keys.index_of(k)] == k);
        }
        assert(all_present(told)->Some_0 =~= platforms_view(platforms));
        assert(keys.take(n as int) =~= keys);
    }
    Some(platforms)
}

impl NixFlakeData {
    /// The catalog that `doc` holds. A document of another shape is refused:
    /// one that lacks the namespace of shells is no catalog without shells.
    pub fn from_document(doc: &Json) -> (r: Result<Self, FetchError>)
        ensures
            match r {
                Ok(data) => {
                    &&& catalog_of(doc@) == Some(data@)
                    &&& data.platform_order() == listed_platforms(doc@)
                    &&& forall|archi: Seq<char>|
                        data.name_order(archi) == listed_names(doc@, archi)
                },
                Err(e) => e == FetchError::CatalogParseError && catalog_of(doc@) is None,
            },
    {
        let members = match doc.as_object() {
            Some(members) => members,
            None => { return Err(FetchError::CatalogParseError); },
        };
        let listed = match members.get(NAMESPACE) {
            Some(listed) => listed,
            None => { return Err(FetchError::CatalogParseError); },
        };
        match read_platforms(listed) {
            Some(platforms) => {
                let data = Self::with_platforms(platforms);
                proof {
                    let told = platforms_of(listed@)->Some_0;
                    assert(told.dom() == listed@.object()->Some_0.dom());
                    assert(told.dom() == platforms@.dom());
                    assert forall|archi: Seq<char>| data.name_order(archi) == listed_names(
                        doc@,
                        archi,
                    ) by {
                        if platforms@.contains_key(archi) {
                            assert(told.contains_key(archi));
                        }
                    }
                }
                Ok(data)
            },
            None => Err(FetchError::CatalogParseError),
        }
    }

    /// The catalog that the JSON text holds.
    pub fn from_json(text: &str) -> (r: Result<Self, FetchError>)
        ensures
            match r {
                Ok(data) => {
                    &&& catalog_of_text(text@) == Some(data@)
                    &&& data.platform_order() == listed_platforms_of_text(text@)
                    &&& forall|archi: Seq<char>|
                        data.name_order(archi) == listed_names_of_text(text@, archi)
                },
                Err(e) => e == FetchError::CatalogParseError && catalog_of_text(text@) is None,
            },
    {
        match Json::read(text) {
            Ok(doc) => Self::from_document(&doc),
            Err(e) => Err(e),
        }
    }

    /// The catalog that the tool's answer holds. `output` is how the tool's
    /// run ended, or nothing where it could not be started.
    pub fn fetch(output: Option<ToolOutput>) -> (r: Result<Self, FetchError>)
        ensures
            match r {
                Ok(data) => {
                    &&& catalog_of_output(output_view(output)) == Ok::<Catalog, FetchError>(data@)
                    &&& data.platform_order() == listed_platforms_of_output(output_view(output))
                    &&& forall|archi: Seq<char>|
                        data.name_order(archi) == listed_names_of_output(
                            output_view(output),
                            archi,
                        )
                },
                Err(e) => catalog_of_output(output_view(output)) == Err::<Catalog, FetchError>(e),
            },
    {
        match output_text(output) {
            Ok(text) => Self::from_json(text.as_str()),
            Err(e) => Err(e),
        }
    }
}

} // verus!
