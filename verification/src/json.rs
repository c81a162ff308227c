//! JSON values.
use vstd::prelude::*;

use crate::text::str_eq;

verus! {

/// A JSON number. A number that was read is kept as it was written; a single
/// precision number is kept by its IEEE 754 bits.
#[derive(Debug, PartialEq)]
pub enum JsonNumber {
    Unsigned(u64),
    Single(u32),
    Literal(String),
}

/// A JSON value. An object keeps its members in order.
#[derive(Debug, PartialEq)]
pub enum Json {
    Null,
    Bool(bool),
    Number(JsonNumber),
    Text(String),
    Array(Vec<Json>),
    Object(Vec<(String, Json)>),
}

/// What a [`JsonNumber`] is.
pub enum JsonNumberView {
    Unsigned(u64),
    Single(u32),
    Literal(Seq<char>),
}

/// What a [`Json`] is.
pub enum JsonView {
    Null,
    Bool(bool),
    Number(JsonNumberView),
    Text(Seq<char>),
    Array(Seq<JsonView>),
    Object(Seq<(Seq<char>, JsonView)>),
}

impl View for JsonNumber {
    type V = JsonNumberView;

    open spec fn view(&self) -> JsonNumberView {
        match self {
            JsonNumber::Unsigned(n) => JsonNumberView::Unsigned(*n),
            JsonNumber::Single(bits) => JsonNumberView::Single(*bits),
            JsonNumber::Literal(digits) => JsonNumberView::Literal(digits@),
        }
    }
}

/// What a [`Json`] holds, level by level.
pub open spec fn tree(value: Json) -> JsonView
    decreases value,
{
    match value {
        Json::Null => JsonView::Null,
        Json::Bool(b) => JsonView::Bool(b),
        Json::Number(n) => JsonView::Number(n@),
        Json::Text(s) => JsonView::Text(s@),
        Json::Array(items) => JsonView::Array(
            Seq::new(
                items@.len(),
                |i: int|
                    if 0 <= i < items@.len() {
                        tree(items@[i])
                    } else {
                        arbitrary()
                    },
            ),
        ),
        Json::Object(members) => JsonView::Object(
            Seq::new(
                members@.len(),
                |i: int|
                    if 0 <= i < members@.len() {
                        (members@[i].0@, tree(members@[i].1))
                    } else {
                        arbitrary()
                    },
            ),
        ),
    }
}

impl View for Json {
    type V = JsonView;

    open spec fn view(&self) -> JsonView {
        tree(*self)
    }
}

impl DeepView for Json {
    type V = JsonView;

    open spec fn deep_view(&self) -> JsonView {
        self.view()
    }
}

/// The values of a list of JSON values.
pub open spec fn views(items: Seq<Json>) -> Seq<JsonView> {
    Seq::new(items.len(), |i: int| items[i]@)
}

/// The members of an object.
pub open spec fn member_views(members: Seq<(String, Json)>) -> Seq<(Seq<char>, JsonView)> {
    Seq::new(members.len(), |i: int| (members[i].0@, members[i].1@))
}

/// The value of an array is the array of the values.
pub broadcast proof fn lemma_array_view(items: Vec<Json>)
    ensures
        #[trigger] Json::Array(items)@ == JsonView::Array(views(items@)),
{
    reveal_with_fuel(tree, 2);
    assert(Json::Array(items)@->Array_0 =~= views(items@));
}

/// The value of an object has the values of the members.
pub broadcast proof fn lemma_object_view(members: Vec<(String, Json)>)
    ensures
        #[trigger] Json::Object(members)@ == JsonView::Object(member_views(members@)),
{
    reveal_with_fuel(tree, 2);
    assert(Json::Object(members)@->Object_0 =~= member_views(members@));
}

// ---------------------------------------------------------------------------
// Reading
// ---------------------------------------------------------------------------

/// The value of the first member with this name.
pub open spec fn member(members: Seq<(Seq<char>, JsonView)>, name: Seq<char>) -> Option<JsonView>
    decreases members.len(),
{
    if members.len() == 0 {
        None
    } else if members[0].0 == name {
        Some(members[0].1)
    } else {
        member(members.drop_first(), name)
    }
}

impl JsonView {
    /// The member of an object; nothing for any other value.
    pub open spec fn get(self, name: Seq<char>) -> Option<JsonView> {
        match self {
            JsonView::Object(members) => member(members, name),
            _ => None,
        }
    }

    /// The characters of a string; nothing for any other value.
    pub open spec fn as_str(self) -> Option<Seq<char>> {
        match self {
            JsonView::Text(s) => Some(s),
            _ => None,
        }
    }

    /// The items of an array; nothing for any other value.
    pub open spec fn as_array(self) -> Option<Seq<JsonView>> {
        match self {
            JsonView::Array(items) => Some(items),
            _ => None,
        }
    }

    /// The characters of a member that is a string.
    pub open spec fn str_at(self, name: Seq<char>) -> Option<Seq<char>> {
        match self.get(name) {
            Some(v) => v.as_str(),
            None => None,
        }
    }

    /// The items of a member that is an array.
    pub open spec fn array_at(self, name: Seq<char>) -> Option<Seq<JsonView>> {
        match self.get(name) {
            Some(v) => v.as_array(),
            None => None,
        }
    }

    /// The characters of the member `inner` of the member `outer`.
    pub open spec fn str_in(self, outer: Seq<char>, inner: Seq<char>) -> Option<Seq<char>> {
        match self.get(outer) {
            Some(v) => v.str_at(inner),
            None => None,
        }
    }

    /// The items of the member `inner` of the member `outer`.
    pub open spec fn array_in(self, outer: Seq<char>, inner: Seq<char>) -> Option<Seq<JsonView>> {
        match self.get(outer) {
            Some(v) => v.array_at(inner),
            None => None,
        }
    }
}

/// The value of an optional reference.
pub open spec fn opt_view(v: Option<&Json>) -> Option<JsonView> {
    match v {
        Some(j) => Some(j@),
        None => None,
    }
}

/// The characters of an optional string slice.
pub open spec fn opt_str(v: Option<&str>) -> Option<Seq<char>> {
    match v {
        Some(s) => Some(s@),
        None => None,
    }
}

/// The values of an optional list.
pub open spec fn opt_views(v: Option<&Vec<Json>>) -> Option<Seq<JsonView>> {
    match v {
        Some(items) => Some(views(items@)),
        None => None,
    }
}

impl Json {
    /// The member of an object with this name.
    pub fn get(&self, name: &str) -> (r: Option<&Json>)
        ensures
            opt_view(r) == self@.get(name@),
    {
        broadcast use lemma_object_view;

        match self {
            Json::Object(members) => {
                let mut i: usize = 0;
                let ghost all = member_views(members@);
                proof {
                    assert(*self == Json::Object(*members));
                    assert(self@ == JsonView::Object(all));
                    assert(all.skip(0) =~= all);
                }
                while i < members.len()
                    invariant
                        i <= members@.len(),
                        all == member_views(members@),
                        self@ == JsonView::Object(all),
                        member(all, name@) == member(all.skip(i as int), name@),
                    decreases members@.len() - i,
                {
                    proof {
                        assert(all.skip(i as int)[0] == all[i as int]);
                        assert(all.skip(i as int).drop_first() =~= all.skip(i + 1));
                    }
                    if str_eq(members[i].0.as_str(), name) {
                        return Some(&members[i].1);
                    }
                    i = i + 1;
                }
                None
            },
            _ => None,
        }
    }

    /// The string, if this is one.
    pub fn as_str(&self) -> (r: Option<&str>)
        ensures
            opt_str(r) == self@.as_str(),
    {
        match self {
            Json::Text(s) => Some(s.as_str()),
            _ => None,
        }
    }

    /// The items, if this is an array.
    pub fn as_array(&self) -> (r: Option<&Vec<Json>>)
        ensures
            opt_views(r) == self@.as_array(),
    {
        broadcast use lemma_array_view;

        match self {
            Json::Array(items) => Some(items),
            _ => None,
        }
    }

    /// Is this `null`?
    pub fn is_null(&self) -> (r: bool)
        ensures
            r == (self@ == JsonView::Null),
    {
        match self {
            Json::Null => true,
            _ => false,
        }
    }

    /// The string in the member with this name.
    pub fn str_at(&self, name: &str) -> (r: Option<&str>)
        ensures
            opt_str(r) == self@.str_at(name@),
    {
        match self.get(name) {
            Some(v) => v.as_str(),
            None => None,
        }
    }

    /// The items of the member with this name.
    pub fn array_at(&self, name: &str) -> (r: Option<&Vec<Json>>)
        ensures
            opt_views(r) == self@.array_at(name@),
    {
        match self.get(name) {
            Some(v) => v.as_array(),
            None => None,
        }
    }

    /// The string in the member `inner` of the member `outer`.
    pub fn str_in(&self, outer: &str, inner: &str) -> (r: Option<&str>)
        ensures
            opt_str(r) == self@.str_in(outer@, inner@),
    {
        match self.get(outer) {
            Some(v) => v.str_at(inner),
            None => None,
        }
    }

    /// The items of the member `inner` of the member `outer`.
    pub fn array_in(&self, outer: &str, inner: &str) -> (r: Option<&Vec<Json>>)
        ensures
            opt_views(r) == self@.array_in(outer@, inner@),
    {
        match self.get(outer) {
            Some(v) => v.array_at(inner),
            None => None,
        }
    }

    /// The string with these characters.
    pub fn text(s: &str) -> (r: Json)
        ensures
            r@ == JsonView::Text(s@),
    {
        Json::Text(s.to_string())
    }
}

// ---------------------------------------------------------------------------
// Building objects
// ---------------------------------------------------------------------------

/// Puts a member behind the others.
pub fn push_member(members: &mut Vec<(String, Json)>, name: &str, value: Json)
    ensures
        member_views(final(members)@) == member_views(old(members)@).push((name@, value@)),
{
    members.push((name.to_string(), value));
    proof {
        assert(member_views(members@) =~= member_views(old(members)@).push((name@, value@)));
    }
}

/// The object with this member.
pub fn object1(name: &str, value: Json) -> (r: Json)
    ensures
        r@ == JsonView::Object(seq![(name@, value@)]),
{
    broadcast use lemma_object_view;

    let mut members: Vec<(String, Json)> = Vec::new();
    push_member(&mut members, name, value);
    proof {
        assert(member_views(members@) =~= seq![(name@, value@)]);
    }
    Json::Object(members)
}

/// The object with these two members.
pub fn object2(name1: &str, value1: Json, name2: &str, value2: Json) -> (r: Json)
    ensures
        r@ == JsonView::Object(seq![(name1@, value1@), (name2@, value2@)]),
{
    broadcast use lemma_object_view;

    let mut members: Vec<(String, Json)> = Vec::new();
    push_member(&mut members, name1, value1);
    push_member(&mut members, name2, value2);
    proof {
        assert(member_views(members@) =~= seq![(name1@, value1@), (name2@, value2@)]);
    }
    Json::Object(members)
}

/// The object with these three members.
pub fn object3(name1: &str, value1: Json, name2: &str, value2: Json, name3: &str, value3: Json) -> (r: Json)
    ensures
        r@ == JsonView::Object(seq![(name1@, value1@), (name2@, value2@), (name3@, value3@)]),
{
    broadcast use lemma_object_view;

    let mut members: Vec<(String, Json)> = Vec::new();
    push_member(&mut members, name1, value1);
    push_member(&mut members, name2, value2);
    push_member(&mut members, name3, value3);
    proof {
        assert(member_views(members@) =~= seq![(name1@, value1@), (name2@, value2@), (name3@, value3@)]);
    }
    Json::Object(members)
}

impl Clone for JsonNumber {
    fn clone(&self) -> (r: Self)
        ensures
            r@ == self@,
    {
        match self {
            JsonNumber::Unsigned(n) => JsonNumber::Unsigned(*n),
            JsonNumber::Single(bits) => JsonNumber::Single(*bits),
            JsonNumber::Literal(digits) => JsonNumber::Literal(digits.clone()),
        }
    }
}

impl Clone for Json {
    fn clone(&self) -> (r: Self)
        ensures
            r@ == self@,
        decreases self,
    {
        broadcast use {lemma_array_view, lemma_object_view};

        match self {
            Json::Null => Json::Null,
            Json::Bool(b) => Json::Bool(*b),
            Json::Number(n) => Json::Number(n.clone()),
            Json::Text(s) => Json::Text(s.clone()),
            Json::Array(items) => {
                let mut copy: Vec<Json> = Vec::new();
                let mut i: usize = 0;
                while i < items.len()
                    invariant
                        *self == Json::Array(*items),
                        i <= items@.len(),
                        copy@.len() == i,
                        forall|k: int| 0 <= k < i ==> (#[trigger] copy@[k])@ == items@[k]@,
                    decreases items@.len() - i,
                {
                    proof {
                        assert(decreases_to!(*self => self->Array_0));
                        assert(decreases_to!(*items => items@));
                        assert(decreases_to!(items@ => items@[i as int]));
                    }
                    copy.push(items[i].clone());
                    i = i + 1;
                }
                proof {
                    assert(views(copy@) =~= views(items@));
                }
                Json::Array(copy)
            },
            Json::Object(members) => {
                let mut copy: Vec<(String, Json)> = Vec::new();
                let mut i: usize = 0;
                while i < members.len()
                    invariant
                        *self == Json::Object(*members),
                        i <= members@.len(),
                        copy@.len() == i,
                        forall|k: int|
                            0 <= k < i ==> (#[trigger] copy@[k]).0@ == members@[k].0@ && copy@[k].1@ == members@[k].1@,
                    decreases members@.len() - i,
                {
                    proof {
                        assert(decreases_to!(*self => self->Object_0));
                        assert(decreases_to!(*members => members@));
                        assert(decreases_to!(members@ => members@[i as int]));
                        assert(decreases_to!(members@[i as int] => members@[i as int].1));
                    }
                    copy.push((members[i].0.clone(), members[i].1.clone()));
                    i = i + 1;
                }
                proof {
                    assert(member_views(copy@) =~= member_views(members@));
                }
                Json::Object(copy)
            },
        }
    }
}

/// A copy of the members of an object.
pub fn clone_members(members: &Vec<(String, Json)>) -> (r: Vec<(String, Json)>)
    ensures
        member_views(r@) == member_views(members@),
{
    let mut copy: Vec<(String, Json)> = Vec::new();
    let mut i: usize = 0;
    while i < members.len()
        invariant
            i <= members@.len(),
            copy@.len() == i,
            forall|k: int|
                0 <= k < i ==> (#[trigger] copy@[k]).0@ == members@[k].0@ && copy@[k].1@ == members@[k].1@,
        decreases members@.len() - i,
    {
        copy.push((members[i].0.clone(), members[i].1.clone()));
        i = i + 1;
    }
    proof {
        assert(member_views(copy@) =~= member_views(members@));
    }
    copy
}

// ---------------------------------------------------------------------------
// Laws
// ---------------------------------------------------------------------------

/// To look a name up in an object finds the value that stands under it, the
/// first one where there are several, and nothing where no member has the name.
pub proof fn law_lookup_finds_the_first_member(members: Seq<(Seq<char>, JsonView)>, name: Seq<char>)
    ensures
        forall|i: int|
            0 <= i < members.len() && (#[trigger] members[i]).0 == name && (forall|j: int|
                0 <= j < i ==> (#[trigger] members[j]).0 != name) ==> JsonView::Object(members).get(name) == Some(
                members[i].1,
            ),
        JsonView::Object(members).get(name) is None <==> forall|j: int|
            0 <= j < members.len() ==> (#[trigger] members[j]).0 != name,
    decreases members.len(),
{
    if members.len() > 0 {
        let rest = members.drop_first();
        law_lookup_finds_the_first_member(rest, name);
        assert forall|i: int|
            0 <= i < members.len() && (#[trigger] members[i]).0 == name && (forall|j: int|
                0 <= j < i ==> (#[trigger] members[j]).0 != name) implies member(members, name) == Some(
            members[i].1,
        ) by {
            if i > 0 {
                assert(members[0].0 != name);
                assert(rest[i - 1] == members[i]);
                assert forall|j: int| 0 <= j < i - 1 implies (#[trigger] rest[j]).0 != name by {
                    assert(rest[j] == members[j + 1]);
                }
                assert(JsonView::Object(rest).get(name) == Some(rest[i - 1].1));
            }
        }
        if member(members, name) is None {
            assert forall|j: int| 0 <= j < members.len() implies (#[trigger] members[j]).0 != name by {
                if j > 0 {
                    assert(JsonView::Object(rest).get(name) is None);
                    assert(rest[j - 1].0 != name);
                }
            }
        }
        if forall|j: int| 0 <= j < members.len() ==> (#[trigger] members[j]).0 != name {
            assert(members[0].0 != name);
            assert forall|j: int| 0 <= j < rest.len() implies (#[trigger] rest[j]).0 != name by {
                assert(rest[j] == members[j + 1]);
            }
            assert(JsonView::Object(rest).get(name) is None);
        }
    }
}

/// A text or a list is found where it stands, under one name or under two, and
/// nowhere else: a member of another type is none, and only an object has
/// members.
pub proof fn law_typed_lookups_are_lookups(
    value: JsonView,
    outer: Seq<char>,
    name: Seq<char>,
    t: Seq<char>,
    items: Seq<JsonView>,
)
    ensures
        !(value is Object) ==> value.get(name) is None,
        value.as_str() == Some(t) <==> value == JsonView::Text(t),
        value.as_array() == Some(items) <==> value == JsonView::Array(items),
        value.str_at(name) == Some(t) <==> value.get(name) == Some(JsonView::Text(t)),
        value.array_at(name) == Some(items) <==> value.get(name) == Some(JsonView::Array(items)),
        value.str_in(outer, name) == Some(t) <==> (value.get(outer) is Some && value.get(outer)->0.get(name) == Some(
            JsonView::Text(t),
        )),
        value.array_in(outer, name) == Some(items) <==> (value.get(outer) is Some && value.get(outer)->0.get(name)
            == Some(JsonView::Array(items))),
{
}

/// To look a name up in two lists of members, one behind the other, is to look it
/// up in the first, and where it is not there in the second.
pub proof fn lemma_lookup_in_joined(
    first: Seq<(Seq<char>, JsonView)>,
    second: Seq<(Seq<char>, JsonView)>,
    name: Seq<char>,
)
    ensures
        member(first + second, name) == match member(first, name) {
            Some(value) => Some(value),
            None => member(second, name),
        },
    decreases first.len(),
{
    if first.len() == 0 {
        assert(first + second =~= second);
    } else {
        lemma_lookup_in_joined(first.drop_first(), second, name);
        assert((first + second).drop_first() =~= first.drop_first() + second);
        assert((first + second)[0] == first[0]);
    }
}

} // verus!
