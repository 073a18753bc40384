//! Reading JSON: the document that a reply is read into, and how its members
//! are found in it. The text itself is read by `serde_json`.

use vstd::prelude::*;

verus! {

/// A JSON document as a mathematical value.
pub enum JsonModel {
    Null,
    Bool(bool),
    /// A number that is a non-negative integer below 2^64.
    Unsigned(u64),
    /// Any other number: negative, fractional or too large.
    OtherNumber,
    String(Seq<char>),
    Array(Seq<JsonModel>),
    /// The members in the order in which the document holds them.
    Object(Seq<(Seq<char>, JsonModel)>),
}

impl JsonModel {
    /// The first member called `name`, where this is an object that has one.
    pub open spec fn member(self, name: Seq<char>) -> Option<JsonModel> {
        match self {
            JsonModel::Object(members) => lookup(members, name),
            _ => None,
        }
    }

    /// The number this document is, where it is an unsigned integer.
    pub open spec fn unsigned(self) -> Option<u64> {
        match self {
            JsonModel::Unsigned(n) => Some(n),
            _ => None,
        }
    }

    /// The number this document is, where it is an unsigned integer of 32 bits.
    pub open spec fn unsigned32(self) -> Option<u32> {
        match self {
            JsonModel::Unsigned(n) if n <= u32::MAX => Some(n as u32),
            _ => None,
        }
    }

    /// The truth value this document is, where it is one.
    pub open spec fn boolean(self) -> Option<bool> {
        match self {
            JsonModel::Bool(b) => Some(b),
            _ => None,
        }
    }

    /// The string this document is, where it is one.
    pub open spec fn text(self) -> Option<Seq<char>> {
        match self {
            JsonModel::String(s) => Some(s),
            _ => None,
        }
    }

    /// The items of this document, where it is an array.
    pub open spec fn items(self) -> Option<Seq<JsonModel>> {
        match self {
            JsonModel::Array(items) => Some(items),
            _ => None,
        }
    }

    /// The member `name` as an unsigned integer of 64 bits.
    pub open spec fn u64_at(self, name: Seq<char>) -> Option<u64> {
        match self.member(name) {
            Some(value) => value.unsigned(),
            None => None,
        }
    }

    /// The member `name` as an unsigned integer of 32 bits.
    pub open spec fn u32_at(self, name: Seq<char>) -> Option<u32> {
        match self.member(name) {
            Some(value) => value.unsigned32(),
            None => None,
        }
    }

    /// The member `name` as a truth value.
    pub open spec fn bool_at(self, name: Seq<char>) -> Option<bool> {
        match self.member(name) {
            Some(value) => value.boolean(),
            None => None,
        }
    }

    /// The member `name` as a string.
    pub open spec fn text_at(self, name: Seq<char>) -> Option<Seq<char>> {
        match self.member(name) {
            Some(value) => value.text(),
            None => None,
        }
    }
}

/// The value of the first of `members` that is called `name`.
pub open spec fn lookup(members: Seq<(Seq<char>, JsonModel)>, name: Seq<char>) -> Option<
    JsonModel,
>
    decreases members.len(),
{
    if members.len() == 0 {
        None
    } else if members[0].0 == name {
        Some(members[0].1)
    } else {
        lookup(members.drop_first(), name)
    }
}

/// A JSON document held in memory. Of a number it keeps the value only where
/// that is an unsigned integer of 64 bits, which is all this crate reads.
#[derive(Debug, PartialEq, Eq)]
pub enum Json {
    Null,
    Bool(bool),
    Unsigned(u64),
    OtherNumber,
    String(String),
    Array(Vec<Json>),
    Object(Vec<(String, Json)>),
}

impl Json {
    /// The document this value holds.
    pub open spec fn model(self) -> JsonModel
        decreases self,
    {
        match self {
            Json::Null => JsonModel::Null,
            Json::Bool(b) => JsonModel::Bool(b),
            Json::Unsigned(n) => JsonModel::Unsigned(n),
            Json::OtherNumber => JsonModel::OtherNumber,
            Json::String(s) => JsonModel::String(s@),
            Json::Array(items) => JsonModel::Array(
                Seq::new(
                    items@.len(),
                    |i: int|
                        if 0 <= i < items@.len() {
                            items@[i].model()
                        } else {
                            JsonModel::Null
                        },
                ),
            ),
            Json::Object(members) => JsonModel::Object(
                Seq::new(
                    members@.len(),
                    |i: int|
                        if 0 <= i < members@.len() {
                            (members@[i].0@, members@[i].1.model())
                        } else {
                            (Seq::empty(), JsonModel::Null)
                        },
                ),
            ),
        }
    }
}

impl View for Json {
    type V = JsonModel;

    open spec fn view(&self) -> JsonModel {
        self.model()
    }
}

/// The document that `serde_json` reads from a text, or `None` where it
/// rejects the text.
pub uninterp spec fn parsed_json(text: Seq<char>) -> Option<JsonModel>;

/// What a `serde_json::Value` holds.
pub uninterp spec fn json_tree(value: serde_json::Value) -> JsonModel;

#[verifier::external_type_specification]
#[verifier::external_body]
pub struct ExValue(serde_json::Value);

#[verifier::external_type_specification]
#[verifier::external_body]
pub struct ExJsonError(serde_json::Error);

/// The top of a `serde_json::Value`, with what lies below it still unread.
enum Node<'a> {
    Null,
    Bool(bool),
    Number(Option<u64>),
    String(&'a str),
    Array(&'a Vec<serde_json::Value>),
    Object(Vec<(&'a String, &'a serde_json::Value)>),
}

impl<'a> Node<'a> {
    /// The document that this node is the top of.
    spec fn tree(self) -> JsonModel {
        match self {
            Node::Null => JsonModel::Null,
            Node::Bool(b) => JsonModel::Bool(b),
            Node::Number(Some(n)) => JsonModel::Unsigned(n),
            Node::Number(None) => JsonModel::OtherNumber,
            Node::String(s) => JsonModel::String(s@),
            Node::Array(items) => JsonModel::Array(
                Seq::new(items@.len(), |i: int| json_tree(items@[i])),
            ),
            Node::Object(members) => JsonModel::Object(
                Seq::new(members@.len(), |i: int| (members@[i].0@, json_tree(*members@[i].1))),
            ),
        }
    }
}

/// `serde_json::from_str` at the type `serde_json::Value`: the value it
/// returns holds the document that the text stands for, and it fails exactly
/// where the text stands for none.
#[verifier::external_body]
fn parse_value(text: &str) -> (r: Result<serde_json::Value, serde_json::Error>)
    ensures
        match r {
            Ok(value) => parsed_json(text@) == Some(json_tree(value)),
            Err(_) => parsed_json(text@) is None,
        },
{
    serde_json::from_str::<serde_json::Value>(text)
}

/// Tells the six variants of `serde_json::Value` apart. A number comes with
/// `Number::as_u64`, an object with its members in the order of `Map::iter`.
#[verifier::external_body]
fn node_of<'a>(value: &'a serde_json::Value) -> (node: Node<'a>)
    ensures
        node.tree() == json_tree(*value),
{
    match value {
        serde_json::Value::Null => Node::Null,
        serde_json::Value::Bool(b) => Node::Bool(*b),
        serde_json::Value::Number(n) => Node::Number(n.as_u64()),
        serde_json::Value::String(s) => Node::String(s),
        serde_json::Value::Array(items) => Node::Array(items),
        serde_json::Value::Object(members) => Node::Object(members.iter().collect()),
    }
}

impl Json {
    /// Reads `text` as one JSON document; `None` where it is none.
    pub fn parse(text: &str) -> (doc: Option<Json>)
        ensures
            match doc {
                Some(d) => parsed_json(text@) == Some(d@),
                None => parsed_json(text@) is None,
            },
    {
        match parse_value(text) {
            Ok(value) => Some(Json::from_value(&value)),
            Err(_) => None,
        }
    }

    /// The first member called `name`, where this is an object that has one.
    pub fn get(&self, name: &str) -> (found: Option<&Json>)
        ensures
            match found {
                Some(value) => self@.member(name@) == Some(value@),
                None => self@.member(name@) is None,
            },
    {
        match self {
            Json::Object(members) => {
                let wanted = name.to_owned();
                let ghost all = self@->Object_0;
                assert(all.subrange(0, all.len() as int) =~= all);
                let mut i: usize = 0;
                while i < members.len()
                    invariant
                        i <= members@.len(),
                        wanted@ == name@,
                        self@ == JsonModel::Object(all),
                        all.len() == members@.len(),
                        forall|k: int|
                            0 <= k < members@.len() ==> (#[trigger] all[k]) == (
                                members@[k].0@,
                                members@[k].1@,
                            ),
                        lookup(all, name@) == lookup(all.subrange(i as int, all.len() as int), name@),
                    decreases members@.len() - i,
                {
                    proof {
                        let rest = all.subrange(i as int, all.len() as int);
                        assert(rest.drop_first() =~= all.subrange(i + 1, all.len() as int));
                    }
                    if members[i].0 == wanted {
                        return Some(&members[i].1);
                    }
                    i += 1;
                }
                None
            },
            _ => None,
        }
    }

    /// The number this document is, where it is an unsigned integer.
    pub fn as_u64(&self) -> (n: Option<u64>)
        ensures
            n == self@.unsigned(),
    {
        match self {
            Json::Unsigned(n) => Some(*n),
            _ => None,
        }
    }

    /// The number this document is, where it is an unsigned integer of 32 bits.
    pub fn as_u32(&self) -> (n: Option<u32>)
        ensures
            n == self@.unsigned32(),
    {
        match self {
            Json::Unsigned(n) => {
                if *n <= 0xffff_ffff {
                    Some(*n as u32)
                } else {
                    None
                }
            },
            _ => None,
        }
    }

    /// The truth value this document is, where it is one.
    pub fn as_bool(&self) -> (b: Option<bool>)
        ensures
            b == self@.boolean(),
    {
        match self {
            Json::Bool(b) => Some(*b),
            _ => None,
        }
    }

    /// A copy of the string this document is, where it is one.
    pub fn as_string(&self) -> (s: Option<String>)
        ensures
            match s {
                Some(text) => self@.text() == Some(text@),
                None => self@.text() is None,
            },
    {
        match self {
            Json::String(s) => Some(s.clone()),
            _ => None,
        }
    }

    /// The items of this document, where it is an array.
    pub fn as_array(&self) -> (items: Option<&Vec<Json>>)
        ensures
            match items {
                Some(v) => self@.items() == Some(Seq::new(v@.len(), |i: int| v@[i]@)),
                None => self@.items() is None,
            },
    {
        match self {
            Json::Array(items) => {
                Some(items)
            },
            _ => None,
        }
    }

    /// The member `name` as an unsigned integer of 64 bits.
    pub fn u64_at(&self, name: &str) -> (n: Option<u64>)
        ensures
            n == self@.u64_at(name@),
    {
        match self.get(name) {
            Some(value) => value.as_u64(),
            None => None,
        }
    }

    /// The member `name` as an unsigned integer of 32 bits.
    pub fn u32_at(&self, name: &str) -> (n: Option<u32>)
        ensures
            n == self@.u32_at(name@),
    {
        match self.get(name) {
            Some(value) => value.as_u32(),
            None => None,
        }
    }

    /// The member `name` as a truth value.
    pub fn bool_at(&self, name: &str) -> (b: Option<bool>)
        ensures
            b == self@.bool_at(name@),
    {
        match self.get(name) {
            Some(value) => value.as_bool(),
            None => None,
        }
    }

    /// A copy of the member `name` as a string.
    pub fn text_at(&self, name: &str) -> (s: Option<String>)
        ensures
            match s {
                Some(text) => self@.text_at(name@) == Some(text@),
                None => self@.text_at(name@) is None,
            },
    {
        match self.get(name) {
            Some(value) => value.as_string(),
            None => None,
        }
    }

    /// Reads a whole `serde_json::Value` into a document of this crate.
    fn from_value(value: &serde_json::Value) -> (doc: Json)
        ensures
            doc@ == json_tree(*value),
        decreases json_tree(*value),
    {
        match node_of(value) {
            Node::Null => Json::Null,
            Node::Bool(b) => Json::Bool(b),
            Node::Number(Some(n)) => Json::Unsigned(n),
            Node::Number(None) => Json::OtherNumber,
            Node::String(s) => Json::String(s.to_owned()),
            Node::Array(items) => {
                let mut read: Vec<Json> = Vec::new();
                let mut i: usize = 0;
                while i < items.len()
                    invariant
                        i <= items@.len(),
                        read@.len() == i,
                        json_tree(*value) == JsonModel::Array(
                            Seq::new(items@.len(), |k: int| json_tree(items@[k])),
                        ),
                        forall|k: int| 0 <= k < i ==> (#[trigger] read@[k])@ == json_tree(items@[k]),
                    decreases items@.len() - i,
                {
                    proof {
                        let tree = json_tree(*value);
                        assert(decreases_to!(tree->Array_0 => tree->Array_0[i as int]));
                    }
                    let item = Json::from_value(&items[i]);
                    read.push(item);
                    i += 1;
                }
                let doc = Json::Array(read);
                assert(doc@->Array_0 =~= Seq::new(items@.len(), |k: int| json_tree(items@[k])));
                doc
            },
            Node::Object(members) => {
                let mut read: Vec<(String, Json)> = Vec::new();
                let mut i: usize = 0;
                while i < members.len()
                    invariant
                        i <= members@.len(),
                        read@.len() == i,
                        json_tree(*value) == JsonModel::Object(
                            Seq::new(
                                members@.len(),
                                |k: int| (members@[k].0@, json_tree(*members@[k].1)),
                            ),
                        ),
                        forall|k: int|
                            0 <= k < i ==> (#[trigger] read@[k]).0@ == members@[k].0@ && read@[k].1@
                                == json_tree(*members@[k].1),
                    decreases members@.len() - i,
                {
                    proof {
                        let tree = json_tree(*value);
                        assert(decreases_to!(tree->Object_0[i as int] => tree->Object_0[i as int].1));
                    }
                    let name = members[i].0.clone();
                    let item = Json::from_value(members[i].1);
                    read.push((name, item));
                    i += 1;
                }
                let doc = Json::Object(read);
                assert(doc@->Object_0 =~= Seq::new(
                    members@.len(),
                    |k: int| (members@[k].0@, json_tree(*members@[k].1)),
                ));
                doc
            },
        }
    }
}

} // verus!
