//! The JSON tree that requests and responses carry, and the two places where
//! it meets JSON text: parsing and rendering are done by `serde_json`.

use serde_json::Value;
use vstd::prelude::*;
use vstd::string::*;

verus! {

#[verifier::external_type_specification]
#[verifier::external_body]
pub struct ExSerdeJsonError(serde_json::Error);

#[verifier::external_type_specification]
#[verifier::external_body]
pub struct ExSerdeJsonValue(Value);

/// A JSON number: a non-negative integer, a negative integer, or the text of
/// a number that is neither.
#[derive(Debug, PartialEq)]
pub enum JsonNumber {
    PosInt(u64),
    NegInt(i64),
    Float(String),
}

/// A JSON value. An object keeps its members in the order given; where a key
/// occurs twice, the later member is the one that lookups find.
#[derive(Debug, PartialEq)]
pub enum Json {
    Null,
    Bool(bool),
    Number(JsonNumber),
    Str(String),
    Array(Vec<Json>),
    Object(Vec<(String, Json)>),
}

/// The mathematical value of a [`JsonNumber`].
pub enum NumberTree {
    PosInt(u64),
    NegInt(i64),
    Float(Seq<char>),
}

/// The mathematical value of a [`Json`].
pub enum JsonTree {
    Null,
    Bool(bool),
    Number(NumberTree),
    Str(Seq<char>),
    Array(Seq<JsonTree>),
    Object(Seq<(Seq<char>, JsonTree)>),
}

impl View for JsonNumber {
    type V = NumberTree;

    open spec fn view(&self) -> NumberTree {
        match self {
            JsonNumber::PosInt(n) => NumberTree::PosInt(*n),
            JsonNumber::NegInt(n) => NumberTree::NegInt(*n),
            JsonNumber::Float(text) => NumberTree::Float(text@),
        }
    }
}

/// The mathematical value of a [`Json`]: the same tree, with sequences in
/// place of vectors and strings.
pub open spec fn json_tree(json: Json) -> JsonTree
    decreases json,
{
    match json {
        Json::Null => JsonTree::Null,
        Json::Bool(b) => JsonTree::Bool(b),
        Json::Number(n) => JsonTree::Number(n@),
        Json::Str(s) => JsonTree::Str(s@),
        Json::Array(items) => JsonTree::Array(
            Seq::new(
                items.len() as nat,
                |i: int|
                    if 0 <= i < items.len() {
                        json_tree(items[i])
                    } else {
                        JsonTree::Null
                    },
            ),
        ),
        Json::Object(members) => JsonTree::Object(
            Seq::new(
                members.len() as nat,
                |i: int|
                    if 0 <= i < members.len() {
                        (members[i].0@, json_tree(members[i].1))
                    } else {
                        (Seq::empty(), JsonTree::Null)
                    },
            ),
        ),
    }
}

impl View for Json {
    type V = JsonTree;

    open spec fn view(&self) -> JsonTree {
        json_tree(*self)
    }
}

/// The views of a list of values.
pub open spec fn trees(items: Seq<Json>) -> Seq<JsonTree> {
    Seq::new(items.len(), |i: int| items[i]@)
}

/// The views of the members of an object.
pub open spec fn member_trees(members: Seq<(String, Json)>) -> Seq<(Seq<char>, JsonTree)> {
    Seq::new(members.len(), |i: int| (members[i].0@, members[i].1@))
}

/// The value that an object holds under `key`: that of the last member with
/// this key.
pub open spec fn member(members: Seq<(Seq<char>, JsonTree)>, key: Seq<char>) -> Option<JsonTree>
    decreases members.len(),
{
    if members.len() == 0 {
        None
    } else if members.last().0 == key {
        Some(members.last().1)
    } else {
        member(members.drop_last(), key)
    }
}

/// An array's view is the list of its items' views.
pub proof fn lemma_array_view(json: Json)
    requires
        json is Array,
    ensures
        json@ == JsonTree::Array(trees(json->Array_0@)),
{
    let items = json->Array_0;
    assert(json@->Array_0.len() == items.len());
    assert(json@->Array_0 =~= trees(items@));
}

/// An object's view is the list of its members' views.
pub proof fn lemma_object_view(json: Json)
    requires
        json is Object,
    ensures
        json@ == JsonTree::Object(member_trees(json->Object_0@)),
{
    let members = json->Object_0;
    assert(json@->Object_0 =~= member_trees(members@));
}

impl JsonNumber {
    /// A copy of this number.
    pub fn duplicate(&self) -> (r: JsonNumber)
        ensures
            r@ == self@,
    {
        match self {
            JsonNumber::PosInt(n) => JsonNumber::PosInt(*n),
            JsonNumber::NegInt(n) => JsonNumber::NegInt(*n),
            JsonNumber::Float(text) => JsonNumber::Float(text.clone()),
        }
    }
}

impl Json {
    /// A deep copy of this value.
    #[verifier::loop_isolation(false)]
    pub fn duplicate(&self) -> (r: Json)
        ensures
            r@ == self@,
        decreases self,
    {
        match self {
            Json::Null => Json::Null,
            Json::Bool(b) => Json::Bool(*b),
            Json::Number(n) => Json::Number(n.duplicate()),
            Json::Str(s) => Json::Str(s.clone()),
            Json::Array(items) => {
                let mut out: Vec<Json> = Vec::new();
                let mut i: usize = 0;
                while i < items.len()
                    invariant
                        i <= items.len(),
                        out.len() == i,
                        forall|k: int| 0 <= k < i ==> out@[k]@ == items@[k]@,
                    decreases items.len() - i,
                {
                    out.push(items[i].duplicate());
                    i += 1;
                }
                let r = Json::Array(out);
                assert(r@->Array_0 =~= self@->Array_0);
                r
            },
            Json::Object(members) => {
                let mut out: Vec<(String, Json)> = Vec::new();
                let mut i: usize = 0;
                while i < members.len()
                    invariant
                        i <= members.len(),
                        out.len() == i,
                        forall|k: int|
                            0 <= k < i ==> out@[k].0@ == members@[k].0@ && out@[k].1@
                                == members@[k].1@,
                    decreases members.len() - i,
                {
                    let key = members[i].0.clone();
                    let value = members[i].1.duplicate();
                    out.push((key, value));
                    i += 1;
                }
                let r = Json::Object(out);
                assert(r@->Object_0 =~= self@->Object_0);
                r
            },
        }
    }
}

/// Whether two strings hold the same characters.
pub fn same_text(a: &String, b: &String) -> (r: bool)
    ensures
        r == (a@ == b@),
{
    *a == *b
}

/// Finds the member that an object holds under `key`: the position of the
/// last member with this key.
pub fn find_member(members: &Vec<(String, Json)>, key: &String) -> (found: Option<usize>)
    ensures
        match found {
            Some(i) => i < members.len() && members@[i as int].0@ == key@ && member(
                member_trees(members@),
                key@,
            ) == Some(members@[i as int].1@),
            None => member(member_trees(members@), key@) is None,
        },
{
    let ghost all = member_trees(members@);
    let mut j: usize = members.len();
    assert(all.take(j as int) =~= all);
    while j > 0
        invariant
            j <= members.len(),
            all == member_trees(members@),
            member(all, key@) == member(all.take(j as int), key@),
        decreases j,
    {
        let ghost prefix = all.take(j as int);
        assert(prefix.last() == all[j - 1]);
        assert(prefix.drop_last() =~= all.take(j - 1));
        j -= 1;
        if same_text(&members[j].0, key) {
            return Some(j);
        }
    }
    None
}

/// The view of a value that may be missing.
pub open spec fn optional_tree(value: Option<Json>) -> Option<JsonTree> {
    match value {
        Some(json) => Some(json@),
        None => None,
    }
}

/// What is known of a key while an object's members are taken from the end:
/// the value found so far, or else what the remaining members hold.
pub open spec fn found_or_rest(
    found: Option<Json>,
    rest: Seq<(Seq<char>, JsonTree)>,
    key: Seq<char>,
) -> Option<JsonTree> {
    match found {
        Some(json) => Some(json@),
        None => member(rest, key),
    }
}

/// Takes an object apart: the values that it holds under three different
/// keys, each moved out of the object, and nothing for a key that it does
/// not hold.
pub(crate) fn pick3(members: Vec<(String, Json)>, first: &str, second: &str, third: &str) -> (found: (
    Option<Json>,
    Option<Json>,
    Option<Json>,
))
    requires
        first@ != second@,
        first@ != third@,
        second@ != third@,
    ensures
        optional_tree(found.0) == member(member_trees(members@), first@),
        optional_tree(found.1) == member(member_trees(members@), second@),
        optional_tree(found.2) == member(member_trees(members@), third@),
{
    let first_key = String::from_str(first);
    let second_key = String::from_str(second);
    let third_key = String::from_str(third);
    let ghost all = member_trees(members@);
    let mut rest = members;
    let mut a: Option<Json> = None;
    let mut b: Option<Json> = None;
    let mut c: Option<Json> = None;
    while rest.len() > 0
        invariant
            first_key@ == first@,
            second_key@ == second@,
            third_key@ == third@,
            first@ != second@,
            first@ != third@,
            second@ != third@,
            member(all, first@) == found_or_rest(a, member_trees(rest@), first@),
            member(all, second@) == found_or_rest(b, member_trees(rest@), second@),
            member(all, third@) == found_or_rest(c, member_trees(rest@), third@),
        decreases rest.len(),
    {
        let ghost before = member_trees(rest@);
        let popped = rest.pop();
        assert(member_trees(rest@) =~= before.drop_last());
        match popped {
            None => {},
            Some(entry) => {
                assert(before.last() == (entry.0@, entry.1@));
                let (key, value) = entry;
                if a.is_none() && same_text(&key, &first_key) {
                    a = Some(value);
                } else if b.is_none() && same_text(&key, &second_key) {
                    b = Some(value);
                } else if c.is_none() && same_text(&key, &third_key) {
                    c = Some(value);
                }
            },
        }
    }
    (a, b, c)
}

/// The items of a list in the opposite order.
pub fn reversed(items: Vec<Json>) -> (r: Vec<Json>)
    ensures
        r@ == items@.reverse(),
{
    let mut rest = items;
    let mut r: Vec<Json> = Vec::new();
    while rest.len() > 0
        invariant
            rest@.len() <= items@.len(),
            rest@ == items@.take(rest@.len() as int),
            r@ == items@.skip(rest@.len() as int).reverse(),
        decreases rest.len(),
    {
        let ghost n = rest@.len() as int;
        let popped = rest.pop();
        assert(rest@ =~= items@.take(n - 1));
        match popped {
            Some(item) => {
                let ghost before = r@;
                r.push(item);
                assert(r@ =~= items@.skip(n - 1).reverse());
            },
            None => {},
        }
    }
    assert(items@.skip(0) =~= items@);
    r
}

impl Clone for JsonNumber {
    fn clone(&self) -> (r: Self)
        ensures
            r@ == self@,
    {
        self.duplicate()
    }
}

impl Clone for Json {
    fn clone(&self) -> (r: Self)
        ensures
            r@ == self@,
    {
        self.duplicate()
    }
}

/// What `serde_json` reads from a JSON text: the tree of the value, or
/// nothing where it reads no value from the text.
pub uninterp spec fn parsed_json(text: Seq<u8>) -> Option<JsonTree>;

/// What `serde_json` writes for a tree: its compact JSON text, or nothing
/// where it writes none.
pub uninterp spec fn rendered_json(tree: JsonTree) -> Option<Seq<u8>>;

/// Moves a `serde_json::Value` into a [`Json`], variant by variant. A number
/// becomes `PosInt` where `as_u64` gives it, else `NegInt` where `as_i64`
/// gives it, else `Float` with the text that its `Display` writes.
#[verifier::external_body]
fn json_from_value(value: Value) -> Json {
    match value {
        Value::Null => Json::Null,
        Value::Bool(b) => Json::Bool(b),
        Value::Number(n) => Json::Number(match (n.as_u64(), n.as_i64()) {
            (Some(u), _) => JsonNumber::PosInt(u),
            (_, Some(i)) => JsonNumber::NegInt(i),
            _ => JsonNumber::Float(n.to_string()),
        }),
        Value::String(s) => Json::Str(s),
        Value::Array(a) => Json::Array(a.into_iter().map(json_from_value).collect()),
        Value::Object(o) => Json::Object(o.into_iter().map(|(k, v)| (k, json_from_value(v))).collect()),
    }
}

/// Moves a [`Json`] into a `serde_json::Value`, variant by variant. The text
/// of a `Float` is read by `serde_json::Number`'s `FromStr`, whose error is
/// handed on.
#[verifier::external_body]
fn value_from_json(json: Json) -> Result<Value, serde_json::Error> {
    Ok(match json {
        Json::Null => Value::Null,
        Json::Bool(b) => Value::Bool(b),
        Json::Number(JsonNumber::PosInt(u)) => Value::from(u),
        Json::Number(JsonNumber::NegInt(i)) => Value::from(i),
        Json::Number(JsonNumber::Float(text)) => Value::Number(text.parse()?),
        Json::Str(s) => Value::String(s),
        Json::Array(a) => Value::Array(a.into_iter().map(value_from_json).collect::<Result<_, _>>()?),
        Json::Object(o) => Value::Object(
            o.into_iter().map(|(k, v)| value_from_json(v).map(|v| (k, v))).collect::<Result<_, _>>()?,
        ),
    })
}

/// Calls `serde_json::from_slice` for a `serde_json::Value` and moves the
/// value into a [`Json`]. The outcome depends on the bytes alone: it is the
/// tree named `parsed_json`, or the error of `serde_json` where there is none.
#[verifier::external_body]
pub(crate) fn parse_json(bytes: &[u8]) -> (result: Result<Json, serde_json::Error>)
    ensures
        match result {
            Ok(json) => parsed_json(bytes@) == Some(json@),
            Err(_) => parsed_json(bytes@) is None,
        },
{
    serde_json::from_slice::<Value>(bytes).map(json_from_value)
}

/// Moves a [`Json`] into a `serde_json::Value` and calls
/// `serde_json::to_vec` on it. The outcome depends on the tree alone: it is
/// the text named `rendered_json`, or the error of `serde_json` where there
/// is none.
#[verifier::external_body]
pub(crate) fn render_json(json: Json) -> (result: Result<Vec<u8>, serde_json::Error>)
    ensures
        match result {
            Ok(bytes) => rendered_json(json@) == Some(bytes@),
            Err(_) => rendered_json(json@) is None,
        },
{
    serde_json::to_vec(&value_from_json(json)?)
}

} // verus!
