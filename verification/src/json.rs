//! JSON values as plain data.
//!
//! A [`Json`] is what a message carries; its view, a [`JsonView`], is what the message means. Two
//! objects mean the same when they have the same members, in whatever order they are written, and
//! a key that is written twice stands for its last member.

use vstd::prelude::*;

verus! {

/// A JSON value whose numbers are integers.
#[derive(Debug)]
pub enum Json {
    Null,
    Bool(bool),
    Number(i64),
    Text(String),
    Array(Vec<Json>),
    Object(Vec<(String, Json)>),
}

/// The meaning of a JSON value.
pub enum JsonView {
    Null,
    Bool(bool),
    Number(int),
    Text(Seq<char>),
    Array(Seq<JsonView>),
    Object(Map<Seq<char>, JsonView>),
}

/// What `value` means.
pub open spec fn json_view(value: Json) -> JsonView
    decreases value, 0nat,
{
    match value {
        Json::Null => JsonView::Null,
        Json::Bool(b) => JsonView::Bool(b),
        Json::Number(n) => JsonView::Number(n as int),
        Json::Text(s) => JsonView::Text(s@),
        Json::Array(items) => JsonView::Array(
            Seq::new(
                items@.len(),
                |i: int|
                    if 0 <= i < items@.len() {
                        json_view(items@[i])
                    } else {
                        JsonView::Null
                    },
            ),
        ),
        Json::Object(members) => JsonView::Object(members_view(members@, members@.len())),
    }
}

/// What the first `n` of an object's members mean: a later member replaces an earlier one of the
/// same key.
pub open spec fn members_view(members: Seq<(String, Json)>, n: nat) -> Map<Seq<char>, JsonView>
    decreases members, n,
{
    if n == 0 || n > members.len() {
        Map::empty()
    } else {
        members_view(members, (n - 1) as nat).insert(
            members[n - 1].0@,
            json_view(members[n - 1].1),
        )
    }
}

impl View for Json {
    type V = JsonView;

    open spec fn view(&self) -> JsonView {
        json_view(*self)
    }
}

/// What the values of a sequence mean, one by one.
pub open spec fn json_views(items: Seq<Json>) -> Seq<JsonView> {
    Seq::new(items.len(), |i: int| items[i]@)
}

impl JsonView {
    /// The member of an object under `key`; nothing where there is none, or where this is no
    /// object.
    pub open spec fn member(self, key: Seq<char>) -> Option<JsonView> {
        match self {
            JsonView::Object(members) => if members.contains_key(key) {
                Some(members[key])
            } else {
                None
            },
            _ => None,
        }
    }

    /// The member of an object under `key`, or null where there is none.
    pub open spec fn section(self, key: Seq<char>) -> JsonView {
        match self.member(key) {
            Some(value) => value,
            None => JsonView::Null,
        }
    }

    /// The text that an object has under `key`.
    pub open spec fn text_at(self, key: Seq<char>) -> Option<Seq<char>> {
        match self.member(key) {
            Some(JsonView::Text(text)) => Some(text),
            _ => None,
        }
    }

    /// The truth value that an object has under `key`.
    pub open spec fn flag_at(self, key: Seq<char>) -> Option<bool> {
        match self.member(key) {
            Some(JsonView::Bool(flag)) => Some(flag),
            _ => None,
        }
    }

    /// The items of an array; none where this is no array.
    pub open spec fn items(self) -> Seq<JsonView> {
        match self {
            JsonView::Array(items) => items,
            _ => Seq::empty(),
        }
    }

    /// An object with `value` under `key` and its other members as they were; the object of that
    /// one member where this is no object.
    pub open spec fn with(self, key: Seq<char>, value: JsonView) -> JsonView {
        match self {
            JsonView::Object(members) => JsonView::Object(members.insert(key, value)),
            _ => JsonView::Object(Map::empty().insert(key, value)),
        }
    }

    /// The object without members.
    pub open spec fn object() -> JsonView {
        JsonView::Object(Map::empty())
    }
}

/// Where the last of the first `n` members under `key` stands.
spec fn last_under(members: Seq<(String, Json)>, key: Seq<char>, n: nat, at: Option<int>) -> bool {
    match at {
        Some(i) => {
            &&& 0 <= i < n
            &&& members[i].0@ == key
            &&& forall|j: int| i < j < n ==> (#[trigger] members[j]).0@ != key
        },
        None => forall|j: int| 0 <= j < n ==> (#[trigger] members[j]).0@ != key,
    }
}

proof fn lemma_members_view(members: Seq<(String, Json)>, key: Seq<char>, n: nat, at: Option<int>)
    requires
        n <= members.len(),
        last_under(members, key, n, at),
    ensures
        members_view(members, n).contains_key(key) <==> at is Some,
        at matches Some(i) ==> members_view(members, n)[key] == members[i].1@,
    decreases n,
{
    if n > 0 {
        if at == Some(n - 1) {
        } else {
            lemma_members_view(members, key, (n - 1) as nat, at);
            assert(members[n - 1].0@ != key);
        }
    }
}

proof fn lemma_members_prefix(
    members: Seq<(String, Json)>,
    more: Seq<(String, Json)>,
    n: nat,
)
    requires
        n <= members.len() <= more.len(),
        forall|i: int| 0 <= i < n ==> members[i] == more[i],
    ensures
        members_view(members, n) == members_view(more, n),
    decreases n,
{
    if n > 0 {
        lemma_members_prefix(members, more, (n - 1) as nat);
    }
}

/// The index of the last member under `key`.
fn last_index(members: &Vec<(String, Json)>, key: &String) -> (at: Option<usize>)
    ensures
        last_under(
            members@,
            key@,
            members@.len(),
            match at {
                Some(i) => Some(i as int),
                None => None,
            },
        ),
{
    let mut i: usize = members.len();
    while i > 0
        invariant
            i <= members@.len(),
            forall|j: int| i <= j < members@.len() ==> (#[trigger] members@[j]).0@ != key@,
        decreases i,
    {
        i = i - 1;
        if members[i].0 == *key {
            return Some(i);
        }
    }
    None
}

/// Whether the members of two objects mean the same.
fn same_members(a: &Vec<(String, Json)>, b: &Vec<(String, Json)>) -> (equal: bool)
    ensures
        equal == (members_view(a@, a@.len()) == members_view(b@, b@.len())),
    decreases a@,
{
    let ghost x = members_view(a@, a@.len());
    let ghost y = members_view(b@, b@.len());
    let mut i: usize = 0;
    while i < a.len()
        invariant
            x == members_view(a@, a@.len()),
            y == members_view(b@, b@.len()),
            i <= a@.len(),
            forall|j: int|
                0 <= j < i ==> y.contains_key((#[trigger] a@[j]).0@) && x[a@[j].0@]
                    == y[a@[j].0@],
        decreases a@.len() - i,
    {
        let key = &a[i].0;
        match (last_index(a, key), last_index(b, key)) {
            (Some(p), Some(q)) => {
                proof {
                    lemma_members_view(a@, key@, a@.len(), Some(p as int));
                    lemma_members_view(b@, key@, b@.len(), Some(q as int));
                }
                if !a[p].1.same(&b[q].1) {
                    assert(x[key@] != y[key@]);
                    return false;
                }
            },
            (Some(p), None) => {
                proof {
                    lemma_members_view(a@, key@, a@.len(), Some(p as int));
                    lemma_members_view(b@, key@, b@.len(), None);
                }
                assert(x.contains_key(key@) && !y.contains_key(key@));
                return false;
            },
            (None, _) => {
                assert(a@[i as int].0@ == key@);
            },
        }
        i = i + 1;
    }
    let mut i: usize = 0;
    while i < b.len()
        invariant
            x == members_view(a@, a@.len()),
            y == members_view(b@, b@.len()),
            i <= b@.len(),
            forall|j: int| 0 <= j < i ==> x.contains_key((#[trigger] b@[j]).0@),
        decreases b@.len() - i,
    {
        let key = &b[i].0;
        match last_index(a, key) {
            Some(p) => {
                proof {
                    lemma_members_view(a@, key@, a@.len(), Some(p as int));
                }
            },
            None => {
                proof {
                    lemma_members_view(a@, key@, a@.len(), None);
                    lemma_key_of_member(b@, b@.len(), i as int);
                }
                assert(!x.contains_key(key@) && y.contains_key(key@));
                return false;
            },
        }
        i = i + 1;
    }
    proof {
        assert forall|key: Seq<char>|
            #![trigger x.dom().contains(key)]
            #![trigger y.dom().contains(key)]
            x.dom().contains(key) == y.dom().contains(key) && (x.dom().contains(key) ==> x[key]
                == y[key]) by {
            if x.dom().contains(key) {
                let j = lemma_member_of_key(a@, a@.len(), key);
                assert(a@[j].0@ == key);
            }
            if y.dom().contains(key) {
                let j = lemma_member_of_key(b@, b@.len(), key);
                assert(b@[j].0@ == key);
            }
        }
        assert(x.dom() =~= y.dom());
        assert(x =~= y);
    }
    true
}

impl Json {
    /// The text `text`.
    pub fn text(text: &str) -> (value: Json)
        ensures
            value@ == JsonView::Text(text@),
    {
        Json::Text(text.to_owned())
    }

    /// The array of `items`.
    pub fn array(items: Vec<Json>) -> (value: Json)
        ensures
            value@ == JsonView::Array(json_views(items@)),
    {
        let value = Json::Array(items);
        assert(value@->Array_0 =~= json_views(items@));
        value
    }

    /// The object without members.
    pub fn object() -> (value: Json)
        ensures
            value@ == JsonView::object(),
    {
        let members: Vec<(String, Json)> = Vec::new();
        assert(members_view(members@, 0) == Map::<Seq<char>, JsonView>::empty());
        Json::Object(members)
    }

    /// The object with `value` under `key` besides its other members. What is no object counts as
    /// the object without members.
    pub fn with(self, key: &str, value: Json) -> (object: Json)
        ensures
            object@ == self@.with(key@, value@),
    {
        match self {
            Json::Object(members) => {
                let ghost before = members@;
                let mut members = members;
                members.push((key.to_owned(), value));
                proof {
                    lemma_members_prefix(before, members@, before.len());
                    assert(members_view(members@, members@.len()) == members_view(
                        before,
                        before.len(),
                    ).insert(key@, value@));
                }
                Json::Object(members)
            },
            _ => {
                let mut members: Vec<(String, Json)> = Vec::new();
                members.push((key.to_owned(), value));
                proof {
                    assert(members_view(members@, 0) == Map::<Seq<char>, JsonView>::empty());
                    assert(members_view(members@, 1) == Map::<Seq<char>, JsonView>::empty().insert(
                        key@,
                        value@,
                    ));
                }
                Json::Object(members)
            },
        }
    }

    /// The member under `key`.
    pub fn get(&self, key: &str) -> (member: Option<&Json>)
        ensures
            match member {
                Some(value) => self@.member(key@) == Some(value@),
                None => self@.member(key@) is None,
            },
    {
        match self {
            Json::Object(members) => {
                let key = key.to_owned();
                match last_index(members, &key) {
                    Some(i) => {
                        proof {
                            lemma_members_view(members@, key@, members@.len(), Some(i as int));
                        }
                        Some(&members[i].1)
                    },
                    None => {
                        proof {
                            lemma_members_view(members@, key@, members@.len(), None);
                        }
                        None
                    },
                }
            },
            _ => None,
        }
    }

    /// The member under `key`, or `null` where there is none.
    pub(crate) fn section<'a>(&'a self, key: &str, null: &'a Json) -> (member: &'a Json)
        requires
            null@ == JsonView::Null,
        ensures
            member@ == self@.section(key@),
    {
        match self.get(key) {
            Some(member) => member,
            None => null,
        }
    }

    /// The text under `key`.
    pub fn text_at(&self, key: &str) -> (text: Option<&String>)
        ensures
            match text {
                Some(text) => self@.text_at(key@) == Some(text@),
                None => self@.text_at(key@) is None,
            },
    {
        match self.get(key) {
            Some(Json::Text(text)) => Some(text),
            _ => None,
        }
    }

    /// The truth value under `key`.
    pub fn flag_at(&self, key: &str) -> (flag: Option<bool>)
        ensures
            flag == self@.flag_at(key@),
    {
        match self.get(key) {
            Some(Json::Bool(flag)) => Some(*flag),
            _ => None,
        }
    }

    /// The number of items of an array; none where this is no array.
    pub fn len(&self) -> (n: usize)
        ensures
            n == self@.items().len(),
    {
        match self {
            Json::Array(items) => items.len(),
            _ => 0,
        }
    }

    /// The item of an array at `i`.
    pub fn item(&self, i: usize) -> (item: &Json)
        requires
            i < self@.items().len(),
        ensures
            item@ == self@.items()[i as int],
    {
        match self {
            Json::Array(items) => &items[i],
            _ => self,
        }
    }

    /// Whether the two values mean the same.
    pub fn same(&self, other: &Json) -> (equal: bool)
        ensures
            equal == (self@ == other@),
        decreases self,
    {
        match (self, other) {
            (Json::Null, Json::Null) => true,
            (Json::Bool(a), Json::Bool(b)) => *a == *b,
            (Json::Number(a), Json::Number(b)) => *a == *b,
            (Json::Text(a), Json::Text(b)) => *a == *b,
            (Json::Array(a), Json::Array(b)) => {
                if a.len() != b.len() {
                    assert(self@->Array_0.len() != other@->Array_0.len());
                    return false;
                }
                let mut i: usize = 0;
                while i < a.len()
                    invariant
                        self == Json::Array(*a),
                        other == Json::Array(*b),
                        i <= a@.len() == b@.len(),
                        forall|j: int| 0 <= j < i ==> (#[trigger] a@[j])@ == b@[j]@,
                    decreases a@.len() - i,
                {
                    if !a[i].same(&b[i]) {
                        assert(self@->Array_0[i as int] != other@->Array_0[i as int]);
                        return false;
                    }
                    i = i + 1;
                }
                assert(self@->Array_0 =~= other@->Array_0);
                true
            },
            (Json::Object(a), Json::Object(b)) => same_members(a, b),
            _ => false,
        }
    }
}

proof fn lemma_key_of_member(members: Seq<(String, Json)>, n: nat, i: int)
    requires
        0 <= i < n <= members.len(),
    ensures
        members_view(members, n).contains_key(members[i].0@),
    decreases n,
{
    if i < n - 1 {
        lemma_key_of_member(members, (n - 1) as nat, i);
    }
}

proof fn lemma_member_of_key(members: Seq<(String, Json)>, n: nat, key: Seq<char>) -> (i: int)
    requires
        n <= members.len(),
        members_view(members, n).contains_key(key),
    ensures
        0 <= i < n,
        members[i].0@ == key,
    decreases n,
{
    if members[n - 1].0@ == key {
        n - 1
    } else {
        lemma_member_of_key(members, (n - 1) as nat, key)
    }
}

} // verus!
