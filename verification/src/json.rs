//! JSON documents as plain values, and the few questions the pipeline asks
//! of them.

use crate::text::{
    all_digits, chars_of, digit_value, digits_only, digits_value, is_digit, read_digits, same_text,
};
use vstd::prelude::*;

verus! {

/// A JSON document.
#[derive(Debug)]
pub enum Json {
    Null,
    Bool(bool),
    /// A number, held as its decimal text: `85`, `-3`, `85.5` or `1e21`.
    Number(String),
    Text(String),
    Array(Vec<Json>),
    /// The members of an object, each a key and its value. Where a key
    /// occurs more than once, its first member is the one that counts.
    Object(Vec<(String, Json)>),
}

/// The JSON values of `serde_json`.
#[verifier::external_type_specification]
#[verifier::external_body]
pub struct ExValue(serde_json::Value);

/// The document that a text denotes, as `serde_json::from_str` reads it;
/// none where the text is not JSON.
pub uninterp spec fn json_document(text: Seq<char>) -> Option<Json>;

/// What a `serde_json::Value` holds, as a [`Json`]. A number is held as the
/// text that `serde_json::Number` prints for it, an object as the list of
/// its members in the order in which `serde_json` walks them.
pub uninterp spec fn json_contents(value: serde_json::Value) -> Json;

/// Calls `serde_json::from_str` for a `serde_json::Value`. The result holds
/// the document that the text denotes; there is none where `serde_json`
/// reports an error.
#[verifier::external_body]
fn parse_value(text: &str) -> (r: Option<serde_json::Value>)
    ensures
        r matches Some(value) ==> json_document(text@) == Some(json_contents(value)),
        r is None ==> json_document(text@) is None,
{
    serde_json::from_str::<serde_json::Value>(text).ok()
}

/// Hands out what a `serde_json::Value` holds, variant by variant: the
/// truth value, the text of `Number::to_string`, the string, the items and
/// the members, each converted in the same way.
#[verifier::external_body]
fn json_from_value(value: serde_json::Value) -> (r: Json)
    ensures
        r == json_contents(value),
{
    match value {
        serde_json::Value::Null => Json::Null,
        serde_json::Value::Bool(b) => Json::Bool(b),
        serde_json::Value::Number(n) => Json::Number(n.to_string()),
        serde_json::Value::String(s) => Json::Text(s),
        serde_json::Value::Array(a) => Json::Array(a.into_iter().map(json_from_value).collect()),
        serde_json::Value::Object(o) => Json::Object(
            o.into_iter().map(|(k, v)| (k, json_from_value(v))).collect(),
        ),
    }
}

/// Reads a text as a JSON document.
pub fn decode_json(text: &str) -> (doc: Option<Json>)
    ensures
        doc == json_document(text@),
{
    match parse_value(text) {
        Some(value) => Some(json_from_value(value)),
        None => None,
    }
}

/// The value stored under `key` among `members`: that of the first member
/// with this key.
pub open spec fn spec_find_member(members: Seq<(String, Json)>, key: Seq<char>) -> Option<Json>
    decreases members.len(),
{
    if members.len() == 0 {
        None
    } else if members[0].0@ == key {
        Some(members[0].1)
    } else {
        spec_find_member(members.skip(1), key)
    }
}

/// Where the first full stop of `s` is, or the length of `s` if it has none.
pub open spec fn dot_position(s: Seq<char>) -> int
    decreases s.len(),
{
    if s.len() == 0 || s[0] == '.' {
        0
    } else {
        1 + dot_position(s.skip(1))
    }
}

/// `whole` times ten to the power `places`, plus the number that the first
/// `places` digits of `fraction` denote, a missing digit counting as zero.
pub open spec fn shifted(whole: nat, fraction: Seq<char>, places: nat) -> nat
    decreases places,
{
    if places == 0 {
        whole
    } else if fraction.len() == 0 {
        shifted(whole * 10, fraction, (places - 1) as nat)
    } else {
        shifted(
            (whole * 10 + digit_value(fraction[0])) as nat,
            fraction.skip(1),
            (places - 1) as nat,
        )
    }
}

/// What a plain decimal number denotes once multiplied by ten to the power
/// `places` and rounded down. The text is one or more digits, optionally
/// followed by a full stop and one or more digits. Any other text, such as
/// one with a sign or an exponent, denotes nothing here.
pub open spec fn spec_fixed_point(s: Seq<char>, places: nat) -> Option<nat> {
    let dot = dot_position(s);
    let whole = s.take(dot);
    let fraction = if dot < s.len() {
        s.skip(dot + 1)
    } else {
        Seq::empty()
    };
    if whole.len() > 0 && all_digits(whole) && all_digits(fraction) && (dot < s.len()
        ==> fraction.len() > 0) {
        Some(shifted(digits_value(whole), fraction, places))
    } else {
        None
    }
}

proof fn lemma_dot_position(s: Seq<char>, d: int)
    requires
        0 <= d <= s.len(),
        forall|j: int| 0 <= j < d ==> s[j] != '.',
        d == s.len() || s[d] == '.',
    ensures
        dot_position(s) == d,
    decreases d,
{
    if d > 0 {
        let rest = s.skip(1);
        assert forall|j: int| 0 <= j < d - 1 implies rest[j] != '.' by {
            assert(rest[j] == s[j + 1]);
        }
        lemma_dot_position(rest, d - 1);
    }
}

proof fn lemma_shifted_at_least(whole: nat, fraction: Seq<char>, places: nat)
    requires
        all_digits(fraction),
    ensures
        shifted(whole, fraction, places) >= whole,
    decreases places,
{
    if places > 0 {
        if fraction.len() == 0 {
            lemma_shifted_at_least(whole * 10, fraction, (places - 1) as nat);
        } else {
            assert(is_digit(fraction[0]));
            let rest = fraction.skip(1);
            assert forall|j: int| 0 <= j < rest.len() implies is_digit(#[trigger] rest[j]) by {
                assert(rest[j] == fraction[j + 1]);
            }
            lemma_shifted_at_least(
                (whole * 10 + digit_value(fraction[0])) as nat,
                rest,
                (places - 1) as nat,
            );
        }
    }
}

impl Json {
    /// The value of the member `key`, if this is an object that has one.
    pub open spec fn spec_member(self, key: Seq<char>) -> Option<Json> {
        match self {
            Json::Object(members) => spec_find_member(members@, key),
            _ => None,
        }
    }

    /// The items, if this is an array.
    pub open spec fn spec_items(self) -> Option<Seq<Json>> {
        match self {
            Json::Array(items) => Some(items@),
            _ => None,
        }
    }

    /// The truth value, if this is one.
    pub open spec fn spec_bool(self) -> Option<bool> {
        match self {
            Json::Bool(b) => Some(b),
            _ => None,
        }
    }

    /// The characters, if this is a string.
    pub open spec fn spec_text(self) -> Option<Seq<char>> {
        match self {
            Json::Text(s) => Some(s@),
            _ => None,
        }
    }

    /// The number, if this is a whole number from zero to `u64::MAX`.
    pub open spec fn spec_unsigned(self) -> Option<u64> {
        match self {
            Json::Number(s) => if s@.len() > 0 && all_digits(s@) && digits_value(s@)
                <= u64::MAX {
                Some(digits_value(s@) as u64)
            } else {
                None
            },
            _ => None,
        }
    }

    /// The number times ten to the power `places`, rounded down, if this is
    /// a plain decimal number for which that is at most `limit`.
    pub open spec fn spec_scaled(self, places: nat, limit: nat) -> Option<nat> {
        match self {
            Json::Number(s) => match spec_fixed_point(s@, places) {
                Some(v) => if v <= limit {
                    Some(v)
                } else {
                    None
                },
                None => None,
            },
            _ => None,
        }
    }

    /// The member `key` of an object, where it is there and not null.
    pub open spec fn spec_present(self, key: Seq<char>) -> Option<Json> {
        match self.spec_member(key) {
            Some(Json::Null) => None,
            Some(value) => Some(value),
            None => None,
        }
    }

    /// The string that an object must hold under `key`. There is none
    /// where this is no object or holds no string there.
    pub open spec fn spec_required_text(self, key: Seq<char>) -> Option<String> {
        match self.spec_member(key) {
            Some(Json::Text(s)) => Some(s),
            _ => None,
        }
    }

    /// The string that an object may hold under `key`: none where the
    /// member is absent or null. The outer result is none where the member
    /// is there but is no string.
    pub open spec fn spec_optional_text(self, key: Seq<char>) -> Option<Option<String>> {
        match self.spec_present(key) {
            Some(Json::Text(s)) => Some(Some(s)),
            Some(_) => None,
            None => Some(None),
        }
    }

    /// The object that an object must hold under `key`.
    pub open spec fn spec_required_object(self, key: Seq<char>) -> Option<Json> {
        match self.spec_member(key) {
            Some(value) => if value is Object {
                Some(value)
            } else {
                None
            },
            None => None,
        }
    }

    /// The object that an object may hold under `key`: none where the
    /// member is absent or null. The outer result is none where the member
    /// is there but is no object.
    pub open spec fn spec_optional_object(self, key: Seq<char>) -> Option<Option<Json>> {
        match self.spec_present(key) {
            Some(value) => if value is Object {
                Some(Some(value))
            } else {
                None
            },
            None => Some(None),
        }
    }

    /// The items of the array that an object must hold under `key`.
    pub open spec fn spec_required_items(self, key: Seq<char>) -> Option<Seq<Json>> {
        match self.spec_member(key) {
            Some(value) => value.spec_items(),
            None => None,
        }
    }

    /// The string that an object must hold under `key`.
    pub fn required_text(&self, key: &str) -> (r: Option<String>)
        ensures
            r == self.spec_required_text(key@),
    {
        match self.member(key) {
            Some(Json::Text(s)) => Some(s.clone()),
            _ => None,
        }
    }

    /// The string that an object may hold under `key`.
    pub fn optional_text(&self, key: &str) -> (r: Option<Option<String>>)
        ensures
            r == self.spec_optional_text(key@),
    {
        match self.member(key) {
            Some(Json::Text(s)) => Some(Some(s.clone())),
            Some(Json::Null) => Some(None),
            Some(_) => None,
            None => Some(None),
        }
    }

    /// The object that an object must hold under `key`.
    pub fn required_object(&self, key: &str) -> (r: Option<&Json>)
        ensures
            r matches Some(v) ==> self.spec_required_object(key@) == Some(*v),
            r is None ==> self.spec_required_object(key@) is None,
    {
        match self.member(key) {
            Some(value) => match value {
                Json::Object(_) => Some(value),
                _ => None,
            },
            None => None,
        }
    }

    /// The object that an object may hold under `key`.
    pub fn optional_object(&self, key: &str) -> (r: Option<Option<&Json>>)
        ensures
            r matches Some(Some(v)) ==> self.spec_optional_object(key@) == Some(Some(*v)),
            r matches Some(None) ==> self.spec_optional_object(key@) == Some(None::<Json>),
            r is None ==> self.spec_optional_object(key@) is None,
    {
        match self.member(key) {
            Some(value) => match value {
                Json::Object(_) => Some(Some(value)),
                Json::Null => Some(None),
                _ => None,
            },
            None => Some(None),
        }
    }

    /// The items of the array that an object must hold under `key`.
    pub fn required_items(&self, key: &str) -> (r: Option<&Vec<Json>>)
        ensures
            r matches Some(v) ==> self.spec_required_items(key@) == Some(v@),
            r is None ==> self.spec_required_items(key@) is None,
    {
        match self.member(key) {
            Some(value) => value.items(),
            None => None,
        }
    }

    /// The value of the member `key`, if this is an object that has one.
    pub fn member(&self, key: &str) -> (r: Option<&Json>)
        ensures
            r matches Some(v) ==> self.spec_member(key@) == Some(*v),
            r is None ==> self.spec_member(key@) is None,
    {
        match self {
            Json::Object(members) => {
                let mut i: usize = 0;
                proof {
                    assert(members@.skip(0) =~= members@);
                }
                while i < members.len()
                    invariant
                        i <= members.len(),
                        self.spec_member(key@) == spec_find_member(members@, key@),
                        spec_find_member(members@, key@) == spec_find_member(
                            members@.skip(i as int),
                            key@,
                        ),
                    decreases members.len() - i,
                {
                    proof {
                        assert(members@.skip(i as int).len() > 0);
                        assert(members@.skip(i as int)[0] == members@[i as int]);
                        assert(members@.skip(i as int).skip(1) =~= members@.skip(i + 1));
                    }
                    if same_text(members[i].0.as_str(), key) {
                        return Some(&members[i].1);
                    }
                    i = i + 1;
                }
                None
            },
            _ => None,
        }
    }

    /// The items, if this is an array.
    pub fn items(&self) -> (r: Option<&Vec<Json>>)
        ensures
            r matches Some(v) ==> self.spec_items() == Some(v@),
            r is None ==> self.spec_items() is None,
    {
        match self {
            Json::Array(items) => Some(items),
            _ => None,
        }
    }

    /// The truth value, if this is one.
    pub fn as_bool(&self) -> (r: Option<bool>)
        ensures
            r == self.spec_bool(),
    {
        match self {
            Json::Bool(b) => Some(*b),
            _ => None,
        }
    }

    /// The string, if this is one.
    pub fn as_text(&self) -> (r: Option<&String>)
        ensures
            r matches Some(s) ==> self.spec_text() == Some(s@),
            r is None ==> self.spec_text() is None,
    {
        match self {
            Json::Text(s) => Some(s),
            _ => None,
        }
    }

    /// The number, if this is a whole number from zero to `u64::MAX`.
    pub fn as_unsigned(&self) -> (r: Option<u64>)
        ensures
            r == self.spec_unsigned(),
    {
        match self {
            Json::Number(text) => {
                let s = chars_of(text.as_str());
                if s.len() == 0 {
                    return None;
                }
                proof {
                    assert(s@.subrange(0, s.len() as int) =~= s@);
                }
                read_digits(&s, 0, s.len(), u64::MAX)
            },
            _ => None,
        }
    }

    /// The number times ten to the power `places`, rounded down, if this is
    /// a plain decimal number for which that is at most `limit`.
    pub fn scaled(&self, places: u8, limit: u32) -> (r: Option<u32>)
        ensures
            r matches Some(v) ==> self.spec_scaled(places as nat, limit as nat) == Some(v as nat),
            r is None ==> self.spec_scaled(places as nat, limit as nat) is None,
    {
        let text = match self {
            Json::Number(text) => text,
            _ => {
                return None;
            },
        };
        let s = chars_of(text.as_str());
        let n: usize = s.len();
        let mut dot: usize = 0;
        while dot < n && s[dot] != '.'
            invariant
                dot <= n,
                n == s.len(),
                forall|j: int| 0 <= j < dot ==> s@[j] != '.',
            decreases n - dot,
        {
            dot = dot + 1;
        }
        let from: usize = if dot < n {
            dot + 1
        } else {
            n
        };
        let ghost whole = s@.take(dot as int);
        let ghost fraction = if dot < n {
            s@.skip(dot + 1)
        } else {
            Seq::<char>::empty()
        };
        proof {
            lemma_dot_position(s@, dot as int);
            assert(s@.subrange(0, dot as int) =~= whole);
            assert(s@.subrange(from as int, n as int) =~= fraction);
        }
        if dot == 0 || (dot < n && from == n) {
            return None;
        }
        if !digits_only(&s, 0, dot) || !digits_only(&s, from, n) {
            return None;
        }
        proof {
            lemma_shifted_at_least(digits_value(whole), fraction, places as nat);
        }
        let mut value: u64 = match read_digits(&s, 0, dot, limit as u64) {
            Some(v) => v,
            None => {
                return None;
            },
        };
        let mut done: u8 = 0;
        let mut pos: usize = from;
        proof {
            assert(fraction.skip(0) =~= fraction);
        }
        while done < places
            invariant
                done <= places,
                from <= pos <= n,
                n == s.len(),
                value <= limit,
                fraction == s@.subrange(from as int, n as int),
                all_digits(fraction),
                shifted(digits_value(whole), fraction, places as nat) == shifted(
                    value as nat,
                    fraction.skip(pos - from),
                    (places - done) as nat,
                ),
                self.spec_scaled(places as nat, limit as nat) == if shifted(
                    digits_value(whole),
                    fraction,
                    places as nat,
                ) <= limit {
                    Some(shifted(digits_value(whole), fraction, places as nat))
                } else {
                    None
                },
            decreases places - done,
        {
            let ghost rest = fraction.skip(pos - from);
            let digit: u64 = if pos < n {
                let c: char = s[pos];
                proof {
                    assert(rest[0] == c);
                    assert(fraction[pos - from] == c);
                    assert(is_digit(c));
                    assert(rest.skip(1) =~= fraction.skip(pos - from + 1));
                }
                pos = pos + 1;
                (c as u32 - 48) as u64
            } else {
                0
            };
            value = value * 10 + digit;
            done = done + 1;
            if value > limit as u64 {
                proof {
                    let left = fraction.skip(pos - from);
                    assert forall|j: int| 0 <= j < left.len() implies is_digit(
                        #[trigger] left[j],
                    ) by {
                        assert(left[j] == fraction[j + pos - from]);
                    }
                    lemma_shifted_at_least(value as nat, left, (places - done) as nat);
                }
                return None;
            }
        }
        Some(value as u32)
    }
}

} // verus!
