//! The tool's answer as a tree of values, and how it is read from text.

use crate::table::Table;
use vstd::prelude::*;

verus! {

/// A value of a document: the mathematical tree that contracts speak of.
/// A number is kept without its digits, which nothing here reads.
pub enum JsonView {
    Null,
    Bool(bool),
    Number,
    Text(Seq<char>),
    List(Seq<JsonView>),
    Object(Seq<(Seq<char>, JsonView)>),
}

/// A value of a document. The members of an object keep the order of the
/// text.
#[derive(Debug, PartialEq, Eq)]
pub enum Json {
    Null,
    Bool(bool),
    Number,
    Text(String),
    List(Vec<Json>),
    Object(Vec<(String, Json)>),
}

impl View for Json {
    type V = JsonView;

    open spec fn view(&self) -> JsonView
        decreases self,
    {
        match self {
            Json::Null => JsonView::Null,
            Json::Bool(b) => JsonView::Bool(*b),
            Json::Number => JsonView::Number,
            Json::Text(s) => JsonView::Text(s@),
            Json::List(items) => JsonView::List(
                Seq::new(
                    items@.len(),
                    |i: int|
                        if 0 <= i < items@.len() {
                            items@[i].view()
                        } else {
                            JsonView::Null
                        },
                ),
            ),
            Json::Object(members) => JsonView::Object(
                Seq::new(
                    members@.len(),
                    |i: int|
                        if 0 <= i < members@.len() {
                            (members@[i].0@, members@[i].1.view())
                        } else {
                            (Seq::<char>::empty(), JsonView::Null)
                        },
                ),
            ),
        }
    }
}

/// The mapping that the members of an object stand for. A key that is named
/// more than once holds what its last member holds.
pub open spec fn members_map(members: Seq<(Seq<char>, JsonView)>) -> Map<Seq<char>, JsonView>
    decreases members.len(),
{
    if members.len() == 0 {
        Map::empty()
    } else {
        members_map(members.drop_last()).insert(members.last().0, members.last().1)
    }
}

/// The keys of the members, each once, in the order in which they first
/// occur.
pub open spec fn first_keys(members: Seq<(Seq<char>, JsonView)>) -> Seq<Seq<char>>
    decreases members.len(),
{
    if members.len() == 0 {
        Seq::empty()
    } else {
        let front = first_keys(members.drop_last());
        if front.contains(members.last().0) {
            front
        } else {
            front.push(members.last().0)
        }
    }
}

/// No two of the members have the same key.
pub open spec fn distinct_keys(members: Seq<(Seq<char>, JsonView)>) -> bool {
    forall|i: int, j: int|
        0 <= i < j < members.len() ==> (#[trigger] members[i]).0 != (#[trigger] members[j]).0
}

/// One of the members has the key `key`.
pub open spec fn names_key(members: Seq<(Seq<char>, JsonView)>, key: Seq<char>) -> bool {
    exists|i: int| 0 <= i < members.len() && (#[trigger] members[i]).0 == key
}

/// The place of a member with the key `key`, where a member has it.
pub open spec fn key_place(members: Seq<(Seq<char>, JsonView)>, key: Seq<char>) -> int {
    choose|i: int| 0 <= i < members.len() && (#[trigger] members[i]).0 == key
}

/// The member at place `i` is the last one with its key.
pub open spec fn last_of_its_key(members: Seq<(Seq<char>, JsonView)>, i: int) -> bool {
    &&& 0 <= i < members.len()
    &&& forall|j: int| i < j < members.len() ==> (#[trigger] members[j]).0 != members[i].0
}

/// The mapping of members holds the keys that the members name.
pub proof fn lemma_members_map_keys(members: Seq<(Seq<char>, JsonView)>, key: Seq<char>)
    ensures
        members_map(members).contains_key(key) <==> names_key(members, key),
    decreases members.len(),
{
    if members.len() > 0 {
        let front = members.drop_last();
        lemma_members_map_keys(front, key);
        if names_key(front, key) {
            let i = choose|i: int| 0 <= i < front.len() && (#[trigger] front[i]).0 == key;
            assert(members[i] == front[i]);
        }
        if key == members.last().0 {
            assert(members[members.len() - 1].0 == key);
        }
        if names_key(members, key) && key != members.last().0 {
            let i = choose|i: int| 0 <= i < members.len() && (#[trigger] members[i]).0 == key;
            assert(front[i] == members[i]);
        }
    }
}

/// Under the key of a member that no later member repeats, the mapping of
/// members holds what that member holds.
pub proof fn lemma_members_map_value(members: Seq<(Seq<char>, JsonView)>, i: int)
    requires
        last_of_its_key(members, i),
    ensures
        members_map(members).contains_key(members[i].0),
        members_map(members)[members[i].0] == members[i].1,
    decreases members.len(),
{
    let front = members.drop_last();
    if i < members.len() - 1 {
        assert(members[members.len() - 1].0 != members[i].0);
        assert(front[i] == members[i]);
        assert forall|j: int| i < j < front.len() implies (#[trigger] front[j]).0
            != front[i].0 by {
            assert(front[j] == members[j]);
        }
        lemma_members_map_value(front, i);
    }
}

/// Where no two members have the same key, the keys in the order of their
/// first occurrence are the keys of the members, one after the other.
pub proof fn lemma_first_keys_of_distinct(members: Seq<(Seq<char>, JsonView)>)
    requires
        distinct_keys(members),
    ensures
        first_keys(members) == Seq::new(members.len(), |i: int| members[i].0),
    decreases members.len(),
{
    if members.len() > 0 {
        let front = members.drop_last();
        let last = members.last();
        assert(distinct_keys(front)) by {
            assert forall|a: int, b: int| 0 <= a < b < front.len() implies (#[trigger] front[a]).0
                != (#[trigger] front[b]).0 by {
                assert(front[a] == members[a] && front[b] == members[b]);
            }
        }
        lemma_first_keys_of_distinct(front);
        let keys = first_keys(front);
        if keys.contains(last.0) {
            let a = keys.index_of(last.0);
            assert(keys[a] == last.0);
            assert(front[a] == members[a]);
            assert(members[a].0 != members[members.len() - 1].0);
        }
        assert(first_keys(members) =~= Seq::new(members.len(), |i: int| members[i].0));
    } else {
        assert(first_keys(members) =~= Seq::new(members.len(), |i: int| members[i].0));
    }
}

/// Where no two members have the same key, every member is the last one of
/// its key.
pub proof fn lemma_distinct_keys_are_last(members: Seq<(Seq<char>, JsonView)>, i: int)
    requires
        distinct_keys(members),
        0 <= i < members.len(),
    ensures
        last_of_its_key(members, i),
{
}

impl JsonView {
    /// The mapping of an object; nothing for any other value.
    pub open spec fn object(self) -> Option<Map<Seq<char>, JsonView>> {
        match self {
            JsonView::Object(members) => Some(members_map(members)),
            _ => None,
        }
    }

    /// The keys of an object, each once, in the order in which they first
    /// occur; none for any other value.
    pub open spec fn keys(self) -> Seq<Seq<char>> {
        match self {
            JsonView::Object(members) => first_keys(members),
            _ => Seq::empty(),
        }
    }

    /// The characters of a string; nothing for any other value.
    pub open spec fn text(self) -> Option<Seq<char>> {
        match self {
            JsonView::Text(s) => Some(s),
            _ => None,
        }
    }
}

/// What a table of documents maps.
pub open spec fn documents_view(t: Table<&Json>) -> Map<Seq<char>, JsonView> {
    t@.map_values(|j: &Json| j@)
}

impl Json {
    /// The members of an object by their keys, in the order in which the
    /// keys first occur; nothing for any other value.
    pub fn as_object(&self) -> (r: Option<Table<&Json>>)
        ensures
            match r {
                Some(t) => self@.object() == Some(documents_view(t)) && t.key_order()
                    == self@.keys(),
                None => self@.object() is None,
            },
    {
        match self {
            Json::Object(members) => {
                let ghost all = self@->Object_0;
                proof {
                    reveal_with_fuel(<Json as View>::view, 2);
                }
                assert(all.len() == members@.len());
                let mut t: Table<&Json> = Table::new();
                let mut i: usize = 0;
                assert(all.take(0) =~= Seq::<(Seq<char>, JsonView)>::empty());
                assert(documents_view(t) =~= members_map(all.take(0)));
                while i < members.len()
                    invariant
                        i <= members.len(),
                        all.len() == members@.len(),
                        forall|k: int|
                            0 <= k < all.len() ==> all[k] == (members@[k].0@, members@[k].1@),
                        documents_view(t) == members_map(all.take(i as int)),
                        t.key_order() == first_keys(all.take(i as int)),
                    decreases members.len() - i,
                {
                    let ghost before = t;
                    proof {
                        t.lemma_key_order_covers();
                    }
                    t.insert(members[i].0.clone(), &members[i].1);
                    proof {
                        let next = all.take(i + 1);
                        assert(next.drop_last() =~= all.take(i as int));
                        assert(next.last() == all[i as int]);
                        let key = all[i as int].0;
                        assert(before@.contains_key(key) <==> before.key_order().contains(key));
                        assert(documents_view(t) =~= documents_view(before).insert(
                            all[i as int].0,
                            all[i as int].1,
                        ));
                    }
                    i += 1;
                }
                assert(all.take(i as int) =~= all);
                Some(t)
            },
            _ => None,
        }
    }

    /// The string that the value is; nothing for any other value.
    pub fn as_text(&self) -> (r: Option<&String>)
        ensures
            match r {
                Some(s) => self@.text() == Some(s@),
                None => self@.text() is None,
            },
    {
        match self {
            Json::Text(s) => Some(s),
            _ => None,
        }
    }
}

} // verus!
