//! JSON documents as far as the handlers read them: booleans, numbers and the
//! members of objects.
use vstd::prelude::*;

use crate::text::{pieces, same_text, split_at_each, views};

verus! {

/// A JSON document.
pub enum Json {
    Bool(bool),
    /// A number, as the bits of the nearest double
    Number(Option<u64>),
    /// The members of an object, each key once
    Object(Vec<(String, Json)>),
    /// A null, a string or an array
    Other,
}

/// A JSON document as a mathematical value.
pub enum JsonView {
    Bool(bool),
    Number(Option<u64>),
    Object(Seq<(Seq<char>, JsonView)>),
    Other,
}

/// A document as a mathematical value.
pub open spec fn document_view(json: Json) -> JsonView
    decreases json,
{
    match json {
        Json::Bool(b) => JsonView::Bool(b),
        Json::Number(bits) => JsonView::Number(bits),
        Json::Object(members) => JsonView::Object(members_view(members@)),
        Json::Other => JsonView::Other,
    }
}

/// The members of an object as mathematical values.
pub open spec fn members_view(members: Seq<(String, Json)>) -> Seq<(Seq<char>, JsonView)>
    decreases members,
{
    if members.len() == 0 {
        seq![]
    } else {
        let head = members[0];
        seq![(head.0@, document_view(head.1))] + members_view(members.drop_first())
    }
}

impl View for Json {
    type V = JsonView;

    open spec fn view(&self) -> JsonView {
        document_view(*self)
    }
}

/// A document of `serde_json`, which knows more of it than is read here.
#[verifier::external_type_specification]
#[verifier::external_body]
pub struct ExValue(serde_json::Value);

/// What `serde_json::from_str` reads out of a text: nothing where the text is
/// no JSON document.
pub uninterp spec fn document_of(text: Seq<char>) -> Option<JsonView>;

/// What a document of `serde_json` holds.
pub uninterp spec fn contents(value: serde_json::Value) -> JsonView;

/// `serde_json::from_str` into a `serde_json::Value`: the document that the
/// text spells, or nothing where it spells none. The words `true` and `false`
/// spell the truth values.
#[verifier::external_body]
pub(crate) fn parse(text: &str) -> (value: Option<serde_json::Value>)
    ensures
        value is Some == document_of(text@) is Some,
        value is Some ==> Some(contents(value->0)) == document_of(text@),
        text@ == "true"@ ==> value is Some && contents(value->0) == JsonView::Bool(true),
        text@ == "false"@ ==> value is Some && contents(value->0) == JsonView::Bool(false),
{
    serde_json::from_str::<serde_json::Value>(text).ok()
}

/// The variants of `serde_json::Value`, one by one: booleans as they are,
/// numbers as `Number::as_f64` gives them, objects member by member in the
/// order of their map, everything else as `Other`.
#[verifier::external_body]
pub(crate) fn plain(value: serde_json::Value) -> (json: Json)
    ensures
        json@ == contents(value),
{
    match value {
        serde_json::Value::Bool(b) => Json::Bool(b),
        serde_json::Value::Number(n) => Json::Number(n.as_f64().map(|v| v.to_bits())),
        serde_json::Value::Object(map) => {
            Json::Object(map.into_iter().map(|(key, member)| (key, plain(member))).collect())
        },
        serde_json::Value::Null => Json::Other,
        serde_json::Value::String(_) => Json::Other,
        serde_json::Value::Array(_) => Json::Other,
    }
}

/// Reads a JSON document.
pub fn read_json(text: &str) -> (json: Option<Json>)
    ensures
        json is Some == document_of(text@) is Some,
        json is Some ==> Some(json->0@) == document_of(text@),
        text@ == "true"@ ==> json is Some && json->0@ == JsonView::Bool(true),
        text@ == "false"@ ==> json is Some && json->0@ == JsonView::Bool(false),
{
    match parse(text) {
        Some(value) => Some(plain(value)),
        None => None,
    }
}

/// The member of a list of members that stands under a key.
pub open spec fn member_of(members: Seq<(Seq<char>, JsonView)>, key: Seq<char>) -> Option<JsonView>
    decreases members.len(),
{
    if members.len() == 0 {
        None
    } else if members[0].0 == key {
        Some(members[0].1)
    } else {
        member_of(members.drop_first(), key)
    }
}

/// The part of a document that a path of keys leads to.
pub open spec fn part(json: JsonView, path: Seq<Seq<char>>) -> Option<JsonView>
    decreases path.len(),
{
    if path.len() == 0 {
        Some(json)
    } else {
        match json {
            JsonView::Object(members) => match member_of(members, path[0]) {
                Some(member) => part(member, path.drop_first()),
                None => None,
            },
            _ => None,
        }
    }
}

fn find_member<'a>(members: &'a Vec<(String, Json)>, key: &str) -> (member: Option<&'a Json>)
    ensures
        member is Some == member_of(members_view(members@), key@) is Some,
        member is Some ==> Some(member->0@) == member_of(members_view(members@), key@),
{
    let mut i: usize = 0;
    assert(members@.skip(0) =~= members@);
    while i < members.len()
        invariant
            i <= members.len(),
            member_of(members_view(members@), key@) == member_of(
                members_view(members@.skip(i as int)),
                key@,
            ),
        decreases members.len() - i,
    {
        proof {
            reveal_with_fuel(members_view, 2);
            let rest = members@.skip(i as int);
            assert(rest.drop_first() =~= members@.skip(i + 1));
            assert(members_view(rest).drop_first() =~= members_view(rest.drop_first()));
        }
        if same_text(&members[i].0, key) {
            return Some(&members[i].1);
        }
        i = i + 1;
    }
    None
}

/// Follows a path of keys, written with dots between them, into a document.
pub fn follow<'a>(json: &'a Json, field: &str) -> (leaf: Option<&'a Json>)
    ensures
        leaf is Some == part(json@, pieces(field@, '.')) is Some,
        leaf is Some ==> Some(leaf->0@) == part(json@, pieces(field@, '.')),
{
    let path = split_at_each(field, '.');
    let mut here: &'a Json = json;
    let mut i: usize = 0;
    assert(views(path@).skip(0) =~= views(path@));
    while i < path.len()
        invariant
            i <= path.len(),
            views(path@) == pieces(field@, '.'),
            part(json@, pieces(field@, '.')) == part(here@, views(path@).skip(i as int)),
        decreases path.len() - i,
    {
        proof {
            let rest = views(path@).skip(i as int);
            assert(rest[0] == path@[i as int]@);
            assert(rest.drop_first() =~= views(path@).skip(i + 1));
        }
        match here {
            Json::Object(members) => {
                match find_member(members, &path[i]) {
                    Some(member) => {
                        here = member;
                    },
                    None => {
                        return None;
                    },
                }
            },
            _ => {
                return None;
            },
        }
        i = i + 1;
    }
    Some(here)
}

/// A value out of a payload.
#[derive(Debug, Clone, Copy, PartialEq, Eq, Structural)]
pub enum Reading {
    /// The bits of a single, where the payload is a plain number
    Single(u32),
    /// The bits of a double, where the payload is a document; the value is the
    /// single that is nearest to it
    Double(u64),
    /// A truth value, which counts as one or zero
    Flag(bool),
}

/// The number in a part of a document.
pub open spec fn number_in(json: JsonView) -> Option<Reading> {
    match json {
        JsonView::Number(Some(bits)) => Some(Reading::Double(bits)),
        _ => None,
    }
}

/// The number or truth value in a part of a document.
pub open spec fn signal_in(json: JsonView) -> Option<Reading> {
    match json {
        JsonView::Number(Some(bits)) => Some(Reading::Double(bits)),
        JsonView::Bool(b) => Some(Reading::Flag(b)),
        _ => None,
    }
}

/// The number in a document.
pub fn number(json: &Json) -> (r: Option<Reading>)
    ensures
        r == number_in(json@),
{
    match json {
        Json::Number(Some(bits)) => Some(Reading::Double(*bits)),
        _ => None,
    }
}

/// The number or truth value in a document.
pub fn signal(json: &Json) -> (r: Option<Reading>)
    ensures
        r == signal_in(json@),
{
    match json {
        Json::Number(Some(bits)) => Some(Reading::Double(*bits)),
        Json::Bool(b) => Some(Reading::Flag(*b)),
        _ => None,
    }
}

/// Bits of the greatest double that becomes zero as a single: two to the power
/// of minus 150.
pub const VANISHING: u64 = 0x3690_0000_0000_0000;

/// Bits of the infinite double.
pub const INFINITE_DOUBLE: u64 = 0x7ff0_0000_0000_0000;

/// Bits of the infinite single.
pub const INFINITE_SINGLE: u32 = 0x7f80_0000;

/// A value above zero. Negative numbers have the top bit set, and what is no
/// number lies beyond the infinite.
pub open spec fn is_positive(reading: Reading) -> bool {
    match reading {
        Reading::Single(bits) => 0 < bits <= INFINITE_SINGLE,
        Reading::Double(bits) => VANISHING < bits <= INFINITE_DOUBLE,
        Reading::Flag(b) => b,
    }
}

/// Whether a value is above zero.
pub fn positive(reading: Reading) -> (r: bool)
    ensures
        r == is_positive(reading),
{
    match reading {
        Reading::Single(bits) => 0 < bits && bits <= INFINITE_SINGLE,
        Reading::Double(bits) => VANISHING < bits && bits <= INFINITE_DOUBLE,
        Reading::Flag(b) => b,
    }
}

/// A member is the first that stands under its key, and there is none where
/// nothing stands under it.
pub proof fn law_member_is_the_first_under_its_key(
    members: Seq<(Seq<char>, JsonView)>,
    key: Seq<char>,
    i: int,
)
    requires
        0 <= i <= members.len(),
        forall|j: int| 0 <= j < i ==> (#[trigger] members[j]).0 != key,
    ensures
        i < members.len() && members[i].0 == key ==> member_of(members, key) == Some(members[i].1),
        i == members.len() ==> member_of(members, key) is None,
    decreases members.len(),
{
    if i > 0 {
        let rest = members.drop_first();
        assert(members[0].0 != key);
        assert forall|j: int| 0 <= j < i - 1 implies (#[trigger] rest[j]).0 != key by {
            assert(rest[j] == members[j + 1]);
        }
        law_member_is_the_first_under_its_key(rest, key, i - 1);
    }
}

/// A path is followed key by key: through an object to the member under the
/// first key, and on from there. Nothing but an object has parts, and the empty
/// path leads nowhere else.
pub proof fn law_paths_are_followed_key_by_key(
    json: JsonView,
    key: Seq<char>,
    path: Seq<Seq<char>>,
    i: int,
)
    ensures
        part(json, seq![]) == Some(json),
        !(json is Object) ==> part(json, seq![key] + path) is None,
        json matches JsonView::Object(members) ==> {
            &&& 0 <= i < members.len() && members[i].0 == key && (forall|j: int|
                0 <= j < i ==> (#[trigger] members[j]).0 != key) ==> part(json, seq![key] + path)
                == part(members[i].1, path)
            &&& (forall|j: int| 0 <= j < members.len() ==> (#[trigger] members[j]).0 != key)
                ==> part(json, seq![key] + path) is None
        },
{
    let whole = seq![key] + path;
    assert(whole[0] == key);
    assert(whole.drop_first() =~= path);
    if let JsonView::Object(members) = json {
        if 0 <= i < members.len() && members[i].0 == key && (forall|j: int|
            0 <= j < i ==> (#[trigger] members[j]).0 != key) {
            law_member_is_the_first_under_its_key(members, key, i);
        }
        if forall|j: int| 0 <= j < members.len() ==> (#[trigger] members[j]).0 != key {
            law_member_is_the_first_under_its_key(members, key, members.len() as int);
        }
    }
}

/// A path can be followed in two stages.
pub proof fn law_paths_can_be_followed_in_stages(
    json: JsonView,
    path: Seq<Seq<char>>,
    rest: Seq<Seq<char>>,
)
    ensures
        part(json, path + rest) == (match part(json, path) {
            Some(leaf) => part(leaf, rest),
            None => None,
        }),
    decreases path.len(),
{
    if path.len() == 0 {
        assert(path + rest =~= rest);
    } else {
        assert((path + rest)[0] == path[0]);
        assert((path + rest).drop_first() =~= path.drop_first() + rest);
        if let JsonView::Object(members) = json {
            if let Some(member) = member_of(members, path[0]) {
                law_paths_can_be_followed_in_stages(member, path.drop_first(), rest);
            }
        }
    }
}

/// A number in a document is read as it is, where a power is expected and where
/// a request is. A truth value is a request and no power, and nothing else is
/// either.
pub proof fn law_numbers_and_truth_values(json: JsonView)
    ensures
        json matches JsonView::Number(Some(bits)) ==> number_in(json) == Some(
            Reading::Double(bits),
        ),
        !(json matches JsonView::Number(Some(_))) ==> number_in(json) is None,
        number_in(json) is Some ==> signal_in(json) == number_in(json),
        json matches JsonView::Bool(b) ==> signal_in(json) == Some(Reading::Flag(b)),
        !(json is Bool) ==> signal_in(json) == number_in(json),
{
}

/// Zero is not above zero, and neither is what has its sign bit set or is no
/// number; every other single is. Of the doubles those count as zero that are
/// nearer to it than to the least single.
pub proof fn law_positive_goes_by_the_bits(single: u32, double: u64)
    ensures
        !is_positive(Reading::Single(0)),
        single >= 0x8000_0000 ==> !is_positive(Reading::Single(single)),
        0x7f80_0000 < single ==> !is_positive(Reading::Single(single)),
        1 <= single <= 0x7f80_0000 ==> is_positive(Reading::Single(single)),
        double <= 0x3690_0000_0000_0000 ==> !is_positive(Reading::Double(double)),
        0x3690_0000_0000_0000 < double <= 0x7ff0_0000_0000_0000 ==> is_positive(
            Reading::Double(double),
        ),
        0x7ff0_0000_0000_0000 < double ==> !is_positive(Reading::Double(double)),
        is_positive(Reading::Flag(true)) && !is_positive(Reading::Flag(false)),
{
}

} // verus!
