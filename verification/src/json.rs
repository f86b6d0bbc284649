//! Log messages that are JSON are shown as a line of `key=value` fields,
//! with nested keys joined by dots and the places of arrays in brackets.

use crate::format::{decimal, push_decimal};
use crate::text::bytes_of;
use vstd::prelude::*;
use vstd::string::*;

verus! {

/// A JSON value.
#[derive(Debug)]
pub enum JsonValue {
    Null,
    Bool(bool),
    /// A number, as it is written.
    Number(String),
    Text(String),
    Array(Vec<JsonValue>),
    /// The members of an object, in the order in which they are held.
    Object(Vec<JsonMember>),
}

/// A member of a JSON object.
#[derive(Debug)]
pub struct JsonMember {
    pub key: String,
    pub value: JsonValue,
}

/// A JSON value that holds no other values.
#[derive(Debug)]
pub enum JsonValueType {
    Text(String),
    Number(String),
    Bool(bool),
    Null,
}

/// What a leaf says, without the string that says it.
pub enum LeafView {
    Text(Seq<char>),
    Number(Seq<char>),
    Bool(bool),
    Null,
}

/// The colour in which a value is shown.
#[derive(Clone, Copy, Debug, PartialEq, Eq, Structural)]
pub enum ValueTone {
    DarkGray,
    Green,
    Red,
    Yellow,
    White,
}

/// One field of a flattened JSON value, as it is shown.
#[derive(Debug)]
pub struct JsonField {
    pub key: String,
    pub value: String,
    pub tone: ValueTone,
    /// Spaces that follow the field.
    pub padding: usize,
}

impl View for JsonValueType {
    type V = LeafView;

    open spec fn view(&self) -> LeafView {
        match *self {
            JsonValueType::Text(s) => LeafView::Text(s@),
            JsonValueType::Number(s) => LeafView::Number(s@),
            JsonValueType::Bool(b) => LeafView::Bool(b),
            JsonValueType::Null => LeafView::Null,
        }
    }
}

/// The text of a leaf: a string's content, a number as written, `true`,
/// `false` or `null`.
pub open spec fn leaf_text(leaf: LeafView) -> Seq<char> {
    match leaf {
        LeafView::Text(s) => s,
        LeafView::Number(s) => s,
        LeafView::Bool(true) => "true"@,
        LeafView::Bool(false) => "false"@,
        LeafView::Null => "null"@,
    }
}

/// The colour of a leaf: white for strings, yellow for numbers, green and
/// red for true and false, dark gray for null.
pub open spec fn leaf_tone(leaf: LeafView) -> ValueTone {
    match leaf {
        LeafView::Null => ValueTone::DarkGray,
        LeafView::Bool(true) => ValueTone::Green,
        LeafView::Bool(false) => ValueTone::Red,
        LeafView::Number(_) => ValueTone::Yellow,
        LeafView::Text(_) => ValueTone::White,
    }
}

/// The key of a member under a prefix: the member's key alone under the
/// empty prefix, else the prefix, a dot and the key.
pub open spec fn member_key(prefix: Seq<char>, key: Seq<char>) -> Seq<char> {
    if prefix.len() == 0 {
        key
    } else {
        prefix + seq!['.'] + key
    }
}

/// The key of the item at place `index` of an array under a prefix.
pub open spec fn item_key(prefix: Seq<char>, index: nat) -> Seq<char> {
    prefix + seq!['['] + decimal(index) + seq![']']
}

/// The fields of a JSON value under a prefix: a leaf is one field under
/// the prefix itself; an object gives the fields of its members, an array
/// those of its items, in order.
pub open spec fn flattened(prefix: Seq<char>, value: JsonValue) -> Seq<(Seq<char>, LeafView)>
    decreases value, 1nat, 0nat,
{
    match value {
        JsonValue::Object(members) => flattened_members(prefix, value, members@.len()),
        JsonValue::Array(items) => flattened_items(prefix, value, items@.len()),
        JsonValue::Text(s) => seq![(prefix, LeafView::Text(s@))],
        JsonValue::Number(s) => seq![(prefix, LeafView::Number(s@))],
        JsonValue::Bool(b) => seq![(prefix, LeafView::Bool(b))],
        JsonValue::Null => seq![(prefix, LeafView::Null)],
    }
}

/// The fields of the first `n` members of an object.
pub open spec fn flattened_members(prefix: Seq<char>, object: JsonValue, n: nat) -> Seq<
    (Seq<char>, LeafView),
>
    decreases object, 0nat, n,
{
    match object {
        JsonValue::Object(members) => if n == 0 || n > members@.len() {
            Seq::empty()
        } else {
            flattened_members(prefix, object, (n - 1) as nat) + flattened(
                member_key(prefix, members@[n - 1].key@),
                members@[n - 1].value,
            )
        },
        _ => Seq::empty(),
    }
}

/// The fields of the first `n` items of an array.
pub open spec fn flattened_items(prefix: Seq<char>, array: JsonValue, n: nat) -> Seq<
    (Seq<char>, LeafView),
>
    decreases array, 0nat, n,
{
    match array {
        JsonValue::Array(items) => if n == 0 || n > items@.len() {
            Seq::empty()
        } else {
            flattened_items(prefix, array, (n - 1) as nat) + flattened(
                item_key(prefix, (n - 1) as nat),
                items@[n - 1],
            )
        },
        _ => Seq::empty(),
    }
}

/// The spaces after a field of `len` bytes: as many as bring the next
/// field to a multiple of five, and one at least.
pub open spec fn spec_field_padding(len: nat) -> nat {
    ((len / 5 + 1) * 5 - len) as nat
}

/// `fields` are the given keys and leaves, each as a string.
pub open spec fn fields_match(fields: Seq<(String, JsonValueType)>, flat: Seq<(Seq<char>, LeafView)>) -> bool {
    &&& fields.len() == flat.len()
    &&& forall|i: int|
        0 <= i < fields.len() ==> (#[trigger] fields[i]).0@ == flat[i].0 && fields[i].1@
            == flat[i].1
}

impl JsonValueType {
    /// The text of the leaf.
    pub fn as_str(&self) -> (r: &str)
        ensures
            r@ == leaf_text(self@),
    {
        match self {
            JsonValueType::Text(s) => s.as_str(),
            JsonValueType::Number(s) => s.as_str(),
            JsonValueType::Bool(true) => "true",
            JsonValueType::Bool(false) => "false",
            JsonValueType::Null => "null",
        }
    }

    /// The colour in which the leaf is shown.
    pub fn tone(&self) -> (r: ValueTone)
        ensures
            r == leaf_tone(self@),
    {
        match self {
            JsonValueType::Null => ValueTone::DarkGray,
            JsonValueType::Bool(true) => ValueTone::Green,
            JsonValueType::Bool(false) => ValueTone::Red,
            JsonValueType::Number(_) => ValueTone::Yellow,
            JsonValueType::Text(_) => ValueTone::White,
        }
    }
}

/// Adds one more list of fields to the fields gathered so far.
fn extend(fields: &mut Vec<(String, JsonValueType)>, more: Vec<(String, JsonValueType)>, Ghost(flat): Ghost<
    Seq<(Seq<char>, LeafView)>,
>, Ghost(extra): Ghost<Seq<(Seq<char>, LeafView)>>)
    requires
        fields_match(old(fields)@, flat),
        fields_match(more@, extra),
    ensures
        fields_match(final(fields)@, flat + extra),
{
    let mut more = more;
    let ghost before = fields@;
    let ghost added = more@;
    fields.append(&mut more);
    proof {
        assert forall|i: int| 0 <= i < fields@.len() implies (#[trigger] fields@[i]).0@ == (flat
            + extra)[i].0 && fields@[i].1@ == (flat + extra)[i].1 by {
            if i < before.len() {
                assert(fields@[i] == before[i]);
            } else {
                assert(fields@[i] == added[i - before.len()]);
            }
        }
    }
}

/// Flattens a JSON value into its fields, each under its key: nested keys
/// are joined by dots, the places of arrays stand in brackets.
pub fn flatten_json(prefix: &str, value: &JsonValue) -> (fields: Vec<(String, JsonValueType)>)
    ensures
        fields_match(fields@, flattened(prefix@, *value)),
    decreases value,
{
    let mut fields: Vec<(String, JsonValueType)> = Vec::new();
    match value {
        JsonValue::Object(members) => {
            let mut i: usize = 0;
            while i < members.len()
                invariant
                    i <= members@.len(),
                    *value == JsonValue::Object(*members),
                    fields_match(fields@, flattened_members(prefix@, *value, i as nat)),
                decreases members.len() - i,
            {
                let member = &members[i];
                let mut key = String::from_str(prefix);
                if prefix.unicode_len() > 0 {
                    key.push('.');
                }
                key.append(member.key.as_str());
                assert(key@ =~= member_key(prefix@, member.key@));
                proof {
                    vstd::std_specs::vec::axiom_vec_index_decreases(*members, i as int);
                }
                let more = flatten_json(key.as_str(), &member.value);
                extend(
                    &mut fields,
                    more,
                    Ghost(flattened_members(prefix@, *value, i as nat)),
                    Ghost(flattened(key@, member.value)),
                );
                i = i + 1;
            }
        },
        JsonValue::Array(items) => {
            let mut i: usize = 0;
            while i < items.len()
                invariant
                    i <= items@.len(),
                    *value == JsonValue::Array(*items),
                    fields_match(fields@, flattened_items(prefix@, *value, i as nat)),
                decreases items.len() - i,
            {
                let mut key = String::from_str(prefix);
                key.push('[');
                push_decimal(&mut key, i as u128);
                key.push(']');
                assert(key@ =~= item_key(prefix@, i as nat));
                let item = &items[i];
                proof {
                    vstd::std_specs::vec::axiom_vec_index_decreases(*items, i as int);
                }
                let more = flatten_json(key.as_str(), item);
                extend(
                    &mut fields,
                    more,
                    Ghost(flattened_items(prefix@, *value, i as nat)),
                    Ghost(flattened(key@, items@[i as int])),
                );
                i = i + 1;
            }
        },
        JsonValue::Text(s) => {
            fields.push((String::from_str(prefix), JsonValueType::Text(s.clone())));
        },
        JsonValue::Number(s) => {
            fields.push((String::from_str(prefix), JsonValueType::Number(s.clone())));
        },
        JsonValue::Bool(b) => {
            fields.push((String::from_str(prefix), JsonValueType::Bool(*b)));
        },
        JsonValue::Null => {
            fields.push((String::from_str(prefix), JsonValueType::Null));
        },
    }
    fields
}

/// The spaces after a field of `len` bytes.
pub fn field_padding(len: usize) -> (r: usize)
    ensures
        r == spec_field_padding(len as nat),
        1 <= r <= 5,
{
    5 - len % 5
}

/// The fields of a JSON value as they are shown: key, value, colour, and
/// the spaces that line the fields up.
pub fn format_json_as_text(value: &JsonValue) -> (shown: Vec<JsonField>)
    ensures
        shown@.len() == flattened(Seq::empty(), *value).len(),
        forall|i: int|
            0 <= i < shown@.len() ==> {
                let field = flattened(Seq::empty(), *value)[i];
                &&& (#[trigger] shown@[i]).key@ == field.0
                &&& shown@[i].value@ == leaf_text(field.1)
                &&& shown@[i].tone == leaf_tone(field.1)
                &&& shown@[i].padding == spec_field_padding(
                    bytes_of(field.0).len() + 1 + bytes_of(leaf_text(field.1)).len(),
                )
            },
{
    let fields = flatten_json("", value);
    let mut shown: Vec<JsonField> = Vec::new();
    let mut i: usize = 0;
    while i < fields.len()
        invariant
            i <= fields@.len(),
            shown@.len() == i,
            fields_match(fields@, flattened(""@, *value)),
            forall|k: int|
                0 <= k < i ==> {
                    let field = flattened(""@, *value)[k];
                    &&& (#[trigger] shown@[k]).key@ == field.0
                    &&& shown@[k].value@ == leaf_text(field.1)
                    &&& shown@[k].tone == leaf_tone(field.1)
                    &&& shown@[k].padding == spec_field_padding(
                        bytes_of(field.0).len() + 1 + bytes_of(leaf_text(field.1)).len(),
                    )
                },
        decreases fields.len() - i,
    {
        let key = fields[i].0.clone();
        let value_text = String::from_str(fields[i].1.as_str());
        let key_len: usize = key.as_str().as_bytes().len();
        let value_len: usize = value_text.as_str().as_bytes().len();
        let padding: usize = field_padding((key_len % 5 + 1 + value_len % 5) % 5);
        proof {
            let a = key_len as int;
            let b = value_len as int;
            assert(spec_field_padding((a + 1 + b) as nat) == 5 - (a + 1 + b) % 5);
            assert((a % 5 + 1 + b % 5) % 5 == (a + 1 + b) % 5);
            assert(padding == spec_field_padding((a + 1 + b) as nat));
        }
        shown.push(JsonField { key, value: value_text, tone: fields[i].1.tone(), padding });
        i = i + 1;
    }
    proof {
        reveal_strlit("");
        assert(""@ =~= Seq::<char>::empty());
    }
    shown
}

} // verus!
