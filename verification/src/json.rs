//! A JSON document as this crate reads one: a tree of plain values.
//!
//! A whole number is held as it is written. Any other number is held as a
//! fixed-point value, in billionths; `double::from_double_bits` gives the
//! value for a double-precision number.

use vstd::prelude::*;
use crate::fixed::{saturate, saturating_product, SCALE};

verus! {

/// A JSON value.
#[derive(Debug, PartialEq, Eq)]
pub enum Json {
    Null,
    Bool(bool),
    /// A whole number that is not negative.
    Unsigned(u64),
    /// A negative whole number.
    Signed(i64),
    /// A number that is not whole, in billionths.
    Decimal(i64),
    Text(String),
    Array(Vec<Json>),
    /// An object: its members in their order.
    Object(Vec<Member>),
}

/// One member of an object.
#[derive(Debug, PartialEq, Eq)]
pub struct Member {
    pub key: String,
    pub value: Json,
}

/// The value of the first of `members` with the key `key`.
pub open spec fn member_named(members: Seq<Member>, key: Seq<char>) -> Option<Json>
    decreases members.len(),
{
    if members.len() == 0 {
        None
    } else if members[0].key@ == key {
        Some(members[0].value)
    } else {
        member_named(members.drop_first(), key)
    }
}

/// What an optional reference refers to.
pub open spec fn referent(value: Option<&Json>) -> Option<Json> {
    match value {
        Some(json) => Some(*json),
        None => None,
    }
}

impl Json {
    /// The member `key` of an object; nothing for an object without such a
    /// member and for a value that is no object.
    pub open spec fn spec_get(&self, key: Seq<char>) -> Option<Json> {
        match self {
            Json::Object(members) => member_named(members@, key),
            _ => None,
        }
    }

    /// The value of a number in billionths, stopping at the ends of the
    /// range; nothing for a value that is no number.
    pub open spec fn spec_number(&self) -> Option<i64> {
        match self {
            Json::Unsigned(n) => Some(saturate(n * SCALE) as i64),
            Json::Signed(n) => Some(saturate(n * SCALE) as i64),
            Json::Decimal(n) => Some(*n),
            _ => None,
        }
    }

    /// A whole number that is not negative; nothing for any other value.
    pub open spec fn spec_unsigned(&self) -> Option<u64> {
        match self {
            Json::Unsigned(n) => Some(*n),
            _ => None,
        }
    }

    /// The text of a string; nothing for any other value.
    pub open spec fn spec_text(&self) -> Option<Seq<char>> {
        match self {
            Json::Text(text) => Some(text@),
            _ => None,
        }
    }

    /// The items of an array; nothing for any other value.
    pub open spec fn spec_items(&self) -> Option<Seq<Json>> {
        match self {
            Json::Array(items) => Some(items@),
            _ => None,
        }
    }

    /// The member `key` of an object.
    pub fn get(&self, key: &str) -> (r: Option<&Json>)
        ensures
            referent(r) == self.spec_get(key@),
    {
        match self {
            Json::Object(members) => {
                let wanted = String::from_str(key);
                let mut i: usize = 0;
                assert(members@.skip(0) =~= members@);
                while i < members.len()
                    invariant
                        i <= members.len(),
                        wanted@ == key@,
                        self.spec_get(key@) == member_named(members@.skip(i as int), key@),
                    decreases members.len() - i,
                {
                    proof {
                        assert(members@.skip(i as int).drop_first() =~= members@.skip(i + 1));
                        assert(members@.skip(i as int)[0] == members@[i as int]);
                    }
                    if members[i].key == wanted {
                        return Some(&members[i].value);
                    }
                    i += 1;
                }
                None
            },
            _ => None,
        }
    }

    /// The value of a number in billionths.
    pub fn number(&self) -> (r: Option<i64>)
        ensures
            r == self.spec_number(),
    {
        match self {
            Json::Unsigned(n) => {
                if *n > 9_223_372_036 {
                    Some(i64::MAX)
                } else {
                    Some((*n * 1_000_000_000) as i64)
                }
            },
            Json::Signed(n) => Some(saturating_product(*n, SCALE)),
            Json::Decimal(n) => Some(*n),
            _ => None,
        }
    }

    /// A whole number that is not negative.
    pub fn unsigned(&self) -> (r: Option<u64>)
        ensures
            r == self.spec_unsigned(),
    {
        match self {
            Json::Unsigned(n) => Some(*n),
            _ => None,
        }
    }

    /// The text of a string.
    pub fn text(&self) -> (r: Option<&str>)
        ensures
            (match r {
                Some(text) => Some(text@),
                None => None,
            }) == self.spec_text(),
    {
        match self {
            Json::Text(text) => Some(text.as_str()),
            _ => None,
        }
    }

    /// The items of an array.
    pub fn items(&self) -> (r: Option<&Vec<Json>>)
        ensures
            (match r {
                Some(items) => Some(items@),
                None => None,
            }) == self.spec_items(),
    {
        match self {
            Json::Array(items) => Some(items),
            _ => None,
        }
    }
}

} // verus!
