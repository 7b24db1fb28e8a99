//! The order in which a document names the members of its objects does not
//! matter to the catalog that it holds.

use crate::data::{names_of, namespace};
use crate::decode::{catalog_of, platforms_of, shell_of, shells_of};
use crate::document::{
    distinct_keys, key_place, lemma_distinct_keys_are_last, lemma_members_map_keys,
    lemma_members_map_value, members_map, names_key, JsonView,
};
use vstd::prelude::*;

verus! {

/// `b` is `a` with the members of its objects in another order, at any
/// depth. No object of either names a key twice.
pub open spec fn reordered(a: JsonView, b: JsonView) -> bool
    decreases a,
{
    match a {
        JsonView::Object(x) => {
            &&& b is Object
            &&& distinct_keys(x)
            &&& distinct_keys(b->Object_0)
            &&& forall|i: int|
                0 <= i < x.len() ==> names_key(b->Object_0, (#[trigger] x[i]).0) && reordered(
                    x[i].1,
                    b->Object_0[key_place(b->Object_0, x[i].0)].1,
                )
            &&& forall|j: int|
                0 <= j < b->Object_0.len() ==> names_key(x, (#[trigger] b->Object_0[j]).0)
        },
        JsonView::List(x) => {
            &&& b is List
            &&& b->List_0.len() == x.len()
            &&& forall|i: int| 0 <= i < x.len() ==> reordered(#[trigger] x[i], b->List_0[i])
        },
        _ => a == b,
    }
}

/// No object of the document names a key twice, at any depth: the document
/// can be reordered.
pub open spec fn unambiguous(a: JsonView) -> bool {
    reordered(a, a)
}

/// An object whose members have distinct keys and hold values that can be
/// reordered can be reordered itself.
pub proof fn lemma_object_unambiguous(members: Seq<(Seq<char>, JsonView)>)
    requires
        distinct_keys(members),
        forall|i: int| 0 <= i < members.len() ==> unambiguous((#[trigger] members[i]).1),
    ensures
        unambiguous(JsonView::Object(members)),
{
    assert forall|i: int| 0 <= i < members.len() implies names_key(
        members,
        (#[trigger] members[i]).0,
    ) && reordered(members[i].1, members[key_place(members, members[i].0)].1) by {
        let j = key_place(members, members[i].0);
        assert(members[j].0 == members[i].0);
        assert(j == i);
        assert(unambiguous(members[i].1));
    }
}

/// Two objects that differ in the order of their members have the same
/// keys, and under each key values that differ in the order of their
/// members.
pub proof fn lemma_reordered_objects(a: JsonView, b: JsonView)
    requires
        reordered(a, b),
    ensures
        a.object() is Some <==> b.object() is Some,
        a.object() matches Some(m) ==> {
            &&& b.object()->Some_0.dom() == m.dom()
            &&& forall|key: Seq<char>| #[trigger]
                m.contains_key(key) ==> reordered(m[key], b.object()->Some_0[key])
        },
{
    match a {
        JsonView::Object(x) => {
            let y = b->Object_0;
            let m = members_map(x);
            let n = members_map(y);
            assert forall|key: Seq<char>| m.contains_key(key) <==> n.contains_key(key) by {
                lemma_members_map_keys(x, key);
                lemma_members_map_keys(y, key);
                if names_key(x, key) {
                    let i = key_place(x, key);
                    assert(names_key(y, x[i].0));
                }
                if names_key(y, key) {
                    let j = key_place(y, key);
                    assert(names_key(x, y[j].0));
                }
            }
            assert(n.dom() =~= m.dom());
            assert forall|key: Seq<char>| #[trigger] m.contains_key(key) implies reordered(
                m[key],
                n[key],
            ) by {
                lemma_members_map_keys(x, key);
                let i = key_place(x, key);
                assert(names_key(y, x[i].0));
                let j = key_place(y, key);
                lemma_distinct_keys_are_last(x, i);
                lemma_distinct_keys_are_last(y, j);
                lemma_members_map_value(x, i);
                lemma_members_map_value(y, j);
            }
        },
        _ => {},
    }
}

/// What a document tells of one shell does not depend on the order of its
/// members.
pub proof fn lemma_reordered_same_shell(a: JsonView, b: JsonView)
    requires
        reordered(a, b),
    ensures
        shell_of(a) == shell_of(b),
{
    lemma_reordered_objects(a, b);
    if a.object() is Some {
        let m = a.object()->Some_0;
        let n = b.object()->Some_0;
        if m.contains_key("name"@) {
            assert(reordered(m["name"@], n["name"@]));
        }
        if m.contains_key("type"@) {
            assert(reordered(m["type"@], n["type"@]));
        }
    }
}

/// The shells of a platform, as a document tells them, do not depend on the
/// order of its members.
pub proof fn lemma_reordered_same_shells(a: JsonView, b: JsonView)
    requires
        reordered(a, b),
    ensures
        shells_of(a) == shells_of(b),
{
    lemma_reordered_objects(a, b);
    if a.object() is Some {
        let m = a.object()->Some_0;
        let n = b.object()->Some_0;
        let told_a = m.map_values(|member: JsonView| shell_of(member));
        let told_b = n.map_values(|member: JsonView| shell_of(member));
        assert forall|key: Seq<char>| m.contains_key(key) implies shell_of(m[key]) == shell_of(
            n[key],
        ) by {
            lemma_reordered_same_shell(m[key], n[key]);
        }
        assert(told_a =~= told_b);
    }
}

/// The shells of every platform, as a document tells them, do not depend on
/// the order of its members.
pub proof fn lemma_reordered_same_platforms(a: JsonView, b: JsonView)
    requires
        reordered(a, b),
    ensures
        platforms_of(a) == platforms_of(b),
{
    lemma_reordered_objects(a, b);
    if a.object() is Some {
        let m = a.object()->Some_0;
        let n = b.object()->Some_0;
        let told_a = m.map_values(|member: JsonView| shells_of(member));
        let told_b = n.map_values(|member: JsonView| shells_of(member));
        assert forall|key: Seq<char>| m.contains_key(key) implies shells_of(m[key]) == shells_of(
            n[key],
        ) by {
            lemma_reordered_same_shells(m[key], n[key]);
        }
        assert(told_a =~= told_b);
    }
}

/// The catalog that a document holds does not depend on the order in which
/// the document names the members of its objects: two documents that differ
/// in that order alone hold the same catalog, or neither holds one.
pub proof fn lemma_reordered_same_catalog(a: JsonView, b: JsonView)
    requires
        reordered(a, b),
    ensures
        catalog_of(a) == catalog_of(b),
{
    lemma_reordered_objects(a, b);
    if a.object() is Some {
        let m = a.object()->Some_0;
        let n = b.object()->Some_0;
        if m.contains_key(namespace()) {
            lemma_reordered_same_platforms(
                m[namespace()],
                n[namespace()],
            );
        }
    }
}

/// The names that are listed for a platform do not depend on the order in
/// which the document names the members of its objects.
pub proof fn lemma_reordered_same_names(a: JsonView, b: JsonView, archi: Seq<char>)
    requires
        reordered(a, b),
        catalog_of(a) is Some,
    ensures
        catalog_of(b) is Some,
        names_of(catalog_of(a)->Some_0, archi) == names_of(catalog_of(b)->Some_0, archi),
{
    lemma_reordered_same_catalog(a, b);
}

} // verus!
