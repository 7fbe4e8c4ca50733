//! Request bodies: a JSON value as plain data.
use vstd::prelude::*;

verus! {

/// A JSON value. An object keeps its members in the order in which they were put.
#[derive(Debug)]
pub enum Json {
    Text(String),
    Number(i64),
    List(Vec<Json>),
    Object(Vec<(String, Json)>),
}

/// What a [`Json`] value stands for.
#[verifier::ext_equal]
pub enum JsonView {
    Text(Seq<char>),
    Number(int),
    List(Seq<JsonView>),
    Object(Seq<(Seq<char>, JsonView)>),
}

impl View for Json {
    type V = JsonView;

    open spec fn view(&self) -> JsonView {
        self.meaning()
    }
}

impl Json {
    /// What the value stands for.
    pub open spec fn meaning(self) -> JsonView
        decreases self,
    {
        match self {
            Json::Text(s) => JsonView::Text(s@),
            Json::Number(n) => JsonView::Number(n as int),
            Json::List(items) => JsonView::List(
                Seq::new(
                    items@.len(),
                    |i: int|
                        if 0 <= i < items@.len() {
                            items@[i].meaning()
                        } else {
                            arbitrary()
                        },
                ),
            ),
            Json::Object(members) => JsonView::Object(
                Seq::new(
                    members@.len(),
                    |i: int|
                        if 0 <= i < members@.len() {
                            (members@[i].0@, members@[i].1.meaning())
                        } else {
                            arbitrary()
                        },
                ),
            ),
        }
    }
}

impl JsonView {
    /// The object without members.
    pub open spec fn object() -> JsonView {
        JsonView::Object(Seq::empty())
    }

    /// The list without items.
    pub open spec fn list() -> JsonView {
        JsonView::List(Seq::empty())
    }

    /// The object with one more member at the end.
    pub open spec fn put(self, key: Seq<char>, value: JsonView) -> JsonView {
        match self {
            JsonView::Object(members) => JsonView::Object(members.push((key, value))),
            _ => self,
        }
    }

    /// The list with one more item at the end.
    pub open spec fn item(self, value: JsonView) -> JsonView {
        match self {
            JsonView::List(items) => JsonView::List(items.push(value)),
            _ => self,
        }
    }
}

impl Json {
    /// A text value.
    pub fn text(s: &str) -> (r: Json)
        ensures
            r@ == JsonView::Text(s@),
    {
        Json::Text(s.to_owned())
    }

    /// The object without members.
    pub fn object() -> (r: Json)
        ensures
            r@ == JsonView::object(),
    {
        let r = Json::Object(Vec::new());
        proof {
            assert(r@->Object_0 =~= Seq::empty());
        }
        r
    }

    /// The list without items.
    pub fn list() -> (r: Json)
        ensures
            r@ == JsonView::list(),
    {
        let r = Json::List(Vec::new());
        proof {
            assert(r@->List_0 =~= Seq::empty());
        }
        r
    }

    /// Puts a member at the end of an object; any other value stays as it is.
    pub fn put(self, key: &str, value: Json) -> (r: Json)
        ensures
            r@ == self@.put(key@, value@),
    {
        match self {
            Json::Object(members) => {
                let ghost before = Json::Object(members)@;
                let mut members = members;
                let name = key.to_owned();
                members.push((name, value));
                let r = Json::Object(members);
                proof {
                    reveal_with_fuel(Json::meaning, 2);
                    assert(r@->Object_0 =~= before->Object_0.push((key@, value@)));
                }
                r
            },
            other => other,
        }
    }

    /// Puts an item at the end of a list; any other value stays as it is.
    pub fn item(self, value: Json) -> (r: Json)
        ensures
            r@ == self@.item(value@),
    {
        match self {
            Json::List(items) => {
                let ghost before = Json::List(items)@;
                let mut items = items;
                items.push(value);
                let r = Json::List(items);
                proof {
                    reveal_with_fuel(Json::meaning, 2);
                    assert(r@->List_0 =~= before->List_0.push(value@));
                }
                r
            },
            other => other,
        }
    }
}

/// A JSON value stands for what it holds, item by item and member by member.
pub proof fn law_json_stands_for_itself(
    s: String,
    n: i64,
    items: Vec<Json>,
    members: Vec<(String, Json)>,
    i: int,
)
    ensures
        Json::Text(s)@ == JsonView::Text(s@),
        Json::Number(n)@ == JsonView::Number(n as int),
        Json::List(items)@ matches JsonView::List(seen) && seen.len() == items@.len() && (0 <= i
            < items@.len() ==> seen[i] == items@[i]@),
        Json::Object(members)@ matches JsonView::Object(seen) && seen.len() == members@.len() && (0
            <= i < members@.len() ==> seen[i] == (members@[i].0@, members@[i].1@)),
{
    reveal_with_fuel(Json::meaning, 2);
}

/// A member is put behind all members of an object, and an item behind all items of a list;
/// any other value stays as it is.
pub proof fn law_json_grows_at_the_end(
    text: Seq<char>,
    n: int,
    items: Seq<JsonView>,
    members: Seq<(Seq<char>, JsonView)>,
    key: Seq<char>,
    value: JsonView,
)
    ensures
        JsonView::object() == JsonView::Object(Seq::empty()),
        JsonView::list() == JsonView::List(Seq::empty()),
        JsonView::Object(members).put(key, value) == JsonView::Object(members.push((key, value))),
        JsonView::List(items).item(value) == JsonView::List(items.push(value)),
        JsonView::Text(text).put(key, value) == JsonView::Text(text),
        JsonView::Number(n).put(key, value) == JsonView::Number(n),
        JsonView::List(items).put(key, value) == JsonView::List(items),
        JsonView::Text(text).item(value) == JsonView::Text(text),
        JsonView::Number(n).item(value) == JsonView::Number(n),
        JsonView::Object(members).item(value) == JsonView::Object(members),
{
}

} // verus!
