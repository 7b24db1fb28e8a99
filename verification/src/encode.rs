//! The document that holds a catalog.

use crate::data::{
    namespace, platforms_view, shells_view, NixFlakeData, ShellInfo, ShellInfoView, NAMESPACE,
};
use crate::decode::{
    catalog_of, listed_names, listed_platforms, platforms_of, shell_of, shells_of,
};
use crate::document::{
    distinct_keys, lemma_distinct_keys_are_last, lemma_first_keys_of_distinct,
    lemma_members_map_keys, lemma_members_map_value, members_map, names_key, Json, JsonView,
};
use crate::order::{lemma_object_unambiguous, unambiguous};
use crate::table::Table;
use vstd::prelude::*;
use vstd::string::StringExecFns;

verus! {

/// The document that tells of a shell: an object with the members `name`
/// and `type`, in that order.
pub open spec fn shell_document(info: ShellInfoView) -> JsonView {
    JsonView::Object(
        seq![("name"@, JsonView::Text(info.name)), ("type"@, JsonView::Text(info.kind))],
    )
}

/// The document that tells the shells of one platform: an object with a
/// member for each shell, in the table's order.
pub open spec fn shells_document(shells: Table<ShellInfo>) -> JsonView {
    JsonView::Object(
        Seq::new(
            shells.key_order().len(),
            |i: int| (shells.key_order()[i], shell_document(shells@[shells.key_order()[i]]@)),
        ),
    )
}

/// The document that tells the shells of every platform: an object with a
/// member for each platform, in the table's order.
pub open spec fn platforms_document(platforms: Table<Table<ShellInfo>>) -> JsonView {
    JsonView::Object(
        Seq::new(
            platforms.key_order().len(),
            |i: int|
                (platforms.key_order()[i], shells_document(platforms@[platforms.key_order()[i]])),
        ),
    )
}

/// The document that holds a catalog: an object whose one member, under the
/// namespace of shells, tells the shells of every platform.
pub open spec fn catalog_document(data: NixFlakeData) -> JsonView {
    JsonView::Object(seq![(namespace(), platforms_document(data.devshells))])
}

impl ShellInfo {
    /// The document that tells of the shell.
    pub fn to_document(&self) -> (doc: Json)
        ensures
            doc@ == shell_document(self@),
            shell_of(doc@) == Some(self@),
            unambiguous(doc@),
    {
        let mut members: Vec<(String, Json)> = Vec::new();
        members.push((String::from_str("name"), Json::Text(self.name.clone())));
        members.push((String::from_str("type"), Json::Text(self.kind.clone())));
        let doc = Json::Object(members);
        proof {
            reveal_with_fuel(<Json as View>::view, 2);
            reveal_strlit("name");
            reveal_strlit("type");
            let ms = doc@->Object_0;
            assert(ms.len() == 2);
            assert(ms[0] == ("name"@, JsonView::Text(self.name@)));
            assert(ms[1] == ("type"@, JsonView::Text(self.kind@)));
            assert("name"@ != "type"@) by {
                assert("name"@[0] == 'n');
                assert("type"@[0] == 't');
            }
            assert(distinct_keys(ms));
            lemma_distinct_keys_are_last(ms, 0);
            lemma_distinct_keys_are_last(ms, 1);
            lemma_members_map_value(ms, 0);
            lemma_members_map_value(ms, 1);
            lemma_object_unambiguous(ms);
            assert(ms =~= shell_document(self@)->Object_0);
        }
        doc
    }
}

/// The document that tells the shells of one platform: an object with a
/// member for each shell, in the table's order.
fn write_shells(shells: &Table<ShellInfo>) -> (doc: Json)
    ensures
        doc@ == shells_document(*shells),
        shells_of(doc@) == Some(shells_view(*shells)),
        doc@.keys() == shells.key_order(),
        unambiguous(doc@),
{
    let n = shells.len();
    let ghost keys = shells.key_order();
    let mut members: Vec<(String, Json)> = Vec::new();
    let mut i: usize = 0;
    while i < n
        invariant
            i <= n,
            n == keys.len(),
            keys == shells.key_order(),
            members@.len() == i,
            forall|k: int|
                0 <= k < i ==> (#[trigger] members@[k]).0@ == keys[k] && shells@.contains_key(
                    keys[k],
                ) && shell_of(members@[k].1@) == Some(shells@[keys[k]]@) && members@[k].1@
                    == shell_document(shells@[keys[k]]@) && unambiguous(members@[k].1@),
        decreases n - i,
    {
        let (key, info) = shells.entry(i);
        members.push((key.clone(), info.to_document()));
        i += 1;
    }
    let doc = Json::Object(members);
    proof {
        reveal_with_fuel(<Json as View>::view, 2);
        let ms = doc@->Object_0;
        assert(ms.len() == n);
        assert forall|k: int| 0 <= k < n implies (#[trigger] ms[k]) == (
            members@[k].0@,
            members@[k].1@,
        ) by {}
        assert(distinct_keys(ms)) by {
            assert forall|a: int, b: int| 0 <= a < b < ms.len() implies (#[trigger] ms[a]).0 != (
            #[trigger] ms[b]).0 by {
                assert(keys[a] != keys[b]);
            }
        }
        lemma_object_unambiguous(ms);
        shells.lemma_key_order_covers();
        let told = members_map(ms).map_values(|member: JsonView| shell_of(member));
        assert forall|key: Seq<char>| #[trigger] shells@.contains_key(key) <==> members_map(
            ms,
        ).contains_key(key) by {
            lemma_members_map_keys(ms, key);
            if shells@.contains_key(key) {
                assert(keys.to_set().contains(key));
                let k = keys.index_of(key);
                assert(ms[k].0 == key);
            }
            if names_key(ms, key) {
                let k = choose|k: int| 0 <= k < ms.len() && (#[trigger] ms[k]).0 == key;
                assert(members@[k].0@ == keys[k]);
            }
        }
        assert forall|key: Seq<char>| #[trigger] told.contains_key(key) implies told[key] == Some(
            shells@[key]@,
        ) by {
            assert(shells@.contains_key(key));
            assert(keys.to_set().contains(key));
            let k = keys.index_of(key);
            assert(ms[k].0 == key);
            lemma_distinct_keys_are_last(ms, k);
            lemma_members_map_value(ms, k);
            assert(members@[k].0@ == keys[k]);
        }
        assert(told.dom() =~= shells_view(*shells).dom());
        assert(shells_of(doc@)->Some_0 =~= shells_view(*shells));
        lemma_first_keys_of_distinct(ms);
        assert(doc@.keys() =~= keys);
        assert(ms =~= shells_document(*shells)->Object_0);
    }
    doc
}

/// The document that tells the shells of every platform: an object with a
/// member for each platform, in the table's order.
fn write_platforms(platforms: &Table<Table<ShellInfo>>) -> (doc: Json)
    ensures
        doc@ == platforms_document(*platforms),
        platforms_of(doc@) == Some(platforms_view(*platforms)),
        doc@.keys() == platforms.key_order(),
        doc@.object() is Some,
        forall|archi: Seq<char>| #[trigger]
            platforms@.contains_key(archi) ==> doc@.object()->Some_0[archi].keys()
                == platforms@[archi].key_order(),
        unambiguous(doc@),
{
    let n = platforms.len();
    let ghost keys = platforms.key_order();
    let mut members: Vec<(String, Json)> = Vec::new();
    let mut i: usize = 0;
    while i < n
        invariant
            i <= n,
            n == keys.len(),
            keys == platforms.key_order(),
            members@.len() == i,
            forall|k: int|
                0 <= k < i ==> (#[trigger] members@[k]).0@ == keys[k] && platforms@.contains_key(
                    keys[k],
                ) && shells_of(members@[k].1@) == Some(shells_view(platforms@[keys[k]]))
                    && members@[k].1@.keys() == platforms@[keys[k]].key_order() && members@[k].1@
                    == shells_document(platforms@[keys[k]]) && unambiguous(members@[k].1@),
        decreases n - i,
    {
        let (key, shells) = platforms.entry(i);
        members.push((key.clone(), write_shells(shells)));
        i += 1;
    }
    let doc = Json::Object(members);
    proof {
        reveal_with_fuel(<Json as View>::view, 2);
        let ms = doc@->Object_0;
        assert(ms.len() == n);
        assert forall|k: int| 0 <= k < n implies (#[trigger] ms[k]) == (
            members@[k].0@,
            members@[k].1@,
        ) by {}
        assert(distinct_keys(ms)) by {
            assert forall|a: int, b: int| 0 <= a < b < ms.len() implies (#[trigger] ms[a]).0 != (
            #[trigger] ms[b]).0 by {
                assert(keys[a] != keys[b]);
            }
        }
        lemma_object_unambiguous(ms);
        platforms.lemma_key_order_covers();
        let told = members_map(ms).map_values(|member: JsonView| shells_of(member));
        assert forall|key: Seq<char>| #[trigger] platforms@.contains_key(key) <==> members_map(
            ms,
        ).contains_key(key) by {
            lemma_members_map_keys(ms, key);
            if platforms@.contains_key(key) {
                assert(keys.to_set().contains(key));
                let k = keys.index_of(key);
                assert(ms[k].0 == key);
            }
            if names_key(ms, key) {
                let k = choose|k: int| 0 <= k < ms.len() && (#[trigger] ms[k]).0 == key;
                assert(members@[k].0@ == keys[k]);
            }
        }
        assert forall|key: Seq<char>| #[trigger] told.contains_key(key) implies told[key] == Some(
            shells_view(platforms@[key]),
        ) by {
            assert(platforms@.contains_key(key));
            assert(keys.to_set().contains(key));
            let k = keys.index_of(key);
            assert(ms[k].0 == key);
            lemma_distinct_keys_are_last(ms, k);
            lemma_members_map_value(ms, k);
            assert(members@[k].0@ == keys[k]);
        }
        assert(told.dom() =~= platforms_view(*platforms).dom());
        assert(platforms_of(doc@)->Some_0 =~= platforms_view(*platforms));
        lemma_first_keys_of_distinct(ms);
        assert(doc@.keys() =~= keys);
        assert(ms =~= platforms_document(*platforms)->Object_0);
        assert forall|archi: Seq<char>| #[trigger]
            platforms@.contains_key(archi) implies doc@.object()->Some_0[archi].keys()
            == platforms@[archi].key_order() by {
            assert(keys.to_set().contains(archi));
            let k = keys.index_of(archi);
            assert(ms[k].0 == archi);
            lemma_distinct_keys_are_last(ms, k);
            lemma_members_map_value(ms, k);
            assert(members@[k].0@ == keys[k]);
        }
    }
    doc
}

impl NixFlakeData {
    /// The document that holds the catalog. Read back, it gives the catalog
    /// again, with its platforms and names in their order, and it names no
    /// key twice.
    pub fn to_document(&self) -> (doc: Json)
        ensures
            doc@ == catalog_document(*self),
            catalog_of(doc@) == Some(self@),
            listed_platforms(doc@) == self.platform_order(),
            forall|archi: Seq<char>| listed_names(doc@, archi) == self.name_order(archi),
            unambiguous(doc@),
    {
        let platforms = &self.devshells;
        let mut members: Vec<(String, Json)> = Vec::new();
        members.push((NAMESPACE.to_owned(), write_platforms(platforms)));
        let doc = Json::Object(members);
        proof {
            reveal_with_fuel(<Json as View>::view, 2);
            let ms = doc@->Object_0;
            assert(ms.len() == 1);
            assert(ms[0] == (namespace(), members@[0].1@));
            assert(distinct_keys(ms));
            lemma_object_unambiguous(ms);
            lemma_distinct_keys_are_last(ms, 0);
            lemma_members_map_value(ms, 0);
            assert(ms =~= catalog_document(*self)->Object_0);
            let listed = members@[0].1@;
            assert(platforms_of(listed)->Some_0.dom() == listed.object()->Some_0.dom());
            assert forall|archi: Seq<char>| listed_names(doc@, archi) == self.name_order(
                archi,
            ) by {
                if platforms@.contains_key(archi) {
                    assert(platforms_view(*platforms).contains_key(archi));
                }
            }
        }
        doc
    }
}

} // verus!
