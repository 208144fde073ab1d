//! The fields of a manifest, by tag, and how the value of each kind of field is
//! read.

use std::collections::HashMap;
use vstd::prelude::*;
use crate::dates::{datetime_from_timestamp, UtcDateTime};
use crate::errors::{ManifestError, ManifestFault};
use crate::models::generic::{is_hex_text, HexString};
use crate::text::is_hex_digit;
use crate::text::{
    ascii_lowercase, char_code, chars_of, eq_ignore_ascii_case, parse_int, parse_int_chars,
};

verus! {

/// The fields of a manifest: for each tag the value that stands behind it.
#[derive(Debug, Clone, PartialEq)]
pub struct ManifestFields {
    by_code: HashMap<u32, String>,
}

impl View for ManifestFields {
    type V = Map<char, Seq<char>>;

    closed spec fn view(&self) -> Map<char, Seq<char>> {
        Map::new(
            |tag: char| self.by_code@.contains_key(tag as u32),
            |tag: char| self.by_code@[tag as u32]@,
        )
    }
}

impl ManifestFields {
    /// No fields.
    pub fn new() -> (r: ManifestFields)
        ensures
            r@ == Map::<char, Seq<char>>::empty(),
    {
        let r = ManifestFields { by_code: HashMap::new() };
        assert(r@ =~= Map::<char, Seq<char>>::empty());
        r
    }

    /// Sets the value of the field `tag`, in place of the one it had, if any.
    pub fn insert(&mut self, tag: char, value: String)
        ensures
            final(self)@ == old(self)@.insert(tag, value@),
    {
        let code = char_code(tag);
        self.by_code.insert(code, value);
        proof {
            assert(code == tag as u32);
            assert(self.by_code@ == old(self).by_code@.insert(code, value));
            let updated = old(self)@.insert(tag, value@);
            assert forall|k: char| self@.contains_key(k) == updated.contains_key(k) by {
                vstd::utf8::char_u32_cast(k, k as u32);
                vstd::utf8::char_u32_cast(tag, tag as u32);
            }
            assert forall|k: char| self@.contains_key(k) implies self@[k] == updated[k] by {
                vstd::utf8::char_u32_cast(k, k as u32);
                vstd::utf8::char_u32_cast(tag, tag as u32);
            }
            assert(self@ =~= updated);
        }
    }

    /// The value of the field `tag`, if the field is present.
    pub fn get(&self, tag: char) -> (r: Option<&String>)
        ensures
            r is Some <==> self@.contains_key(tag),
            r matches Some(value) ==> value@ == self@[tag],
    {
        let code = char_code(tag);
        self.by_code.get(&code)
    }
}

/// What a field that holds a truth value says: true for `yes` in any mix of cases,
/// false for any other value. The field has to be present.
pub open spec fn boolean_field(fields: Map<char, Seq<char>>, key: char) -> Result<
    bool,
    ManifestFault,
> {
    if fields.contains_key(key) {
        Ok(ascii_lowercase(fields[key]) == "yes"@)
    } else {
        Err(ManifestFault::MissingField(key))
    }
}

/// The text that reports a value which is no hash.
pub open spec fn invalid_hex_message(value: Seq<char>) -> Seq<char> {
    "Invalid hex string: "@ + value
}

/// What a field that holds a hash says: its digits in lower case. The field has to
/// be present and to hold an even number of hexadecimal digits; a value that is
/// none is a parse error of the field.
pub open spec fn hex_field(fields: Map<char, Seq<char>>, key: char) -> Result<
    Seq<char>,
    ManifestFault,
> {
    if !fields.contains_key(key) {
        Err(ManifestFault::MissingField(key))
    } else if is_hex_text(fields[key]) {
        Ok(ascii_lowercase(fields[key]))
    } else {
        Err(ManifestFault::ParseError(key, invalid_hex_message(fields[key])))
    }
}

/// A hash is read from a field exactly where the field holds an even number of
/// hexadecimal digits, of either case; the empty text is such a value, a text of odd
/// length or with any other character is not.
pub proof fn lemma_hex_field_accepts_hex_text(fields: Map<char, Seq<char>>, key: char)
    requires
        fields.contains_key(key),
    ensures
        hex_field(fields, key) is Ok <==> is_hex_text(fields[key]),
        is_hex_text(Seq::<char>::empty()),
        fields[key].len() % 2 == 1 ==> hex_field(fields, key) is Err,
        forall|i: int|
            0 <= i < fields[key].len() && !is_hex_digit(#[trigger] fields[key][i]) ==> hex_field(
                fields,
                key,
            ) is Err,
        hex_field(fields, key) matches Err(fault) ==> fault == ManifestFault::ParseError(
            key,
            invalid_hex_message(fields[key]),
        ),
{
}

/// What a field that holds a number says: the decimal integer that it writes, which
/// may have a sign. The field has to be present, and the number to lie in `lo..=hi`.
pub open spec fn number_field(fields: Map<char, Seq<char>>, key: char, lo: int, hi: int) -> Result<
    int,
    ManifestFault,
> {
    if !fields.contains_key(key) {
        Err(ManifestFault::MissingField(key))
    } else {
        match parse_int(fields[key], true, lo, hi) {
            Ok(v) => Ok(v),
            Err(kind) => Err(ManifestFault::ParseError(key, kind.message())),
        }
    }
}

/// An integer type that a number field of a manifest can be read into.
pub trait ManifestNumber: Sized {
    /// The smallest value of the type.
    spec fn lowest() -> int;

    /// The largest value of the type.
    spec fn highest() -> int;

    /// The value as an integer.
    spec fn as_int(&self) -> int;

    /// The smallest and the largest value of the type.
    fn bounds() -> (r: (i64, i64))
        ensures
            r.0 == Self::lowest(),
            r.1 == Self::highest(),
            r.0 <= 0 <= r.1,
    ;

    /// The value `v` in this type.
    fn from_i64(v: i64) -> (r: Self)
        requires
            Self::lowest() <= v <= Self::highest(),
        ensures
            r.as_int() == v,
    ;
}

impl ManifestNumber for i64 {
    open spec fn lowest() -> int {
        i64::MIN as int
    }

    open spec fn highest() -> int {
        i64::MAX as int
    }

    open spec fn as_int(&self) -> int {
        *self as int
    }

    fn bounds() -> (r: (i64, i64)) {
        (i64::MIN, i64::MAX)
    }

    fn from_i64(v: i64) -> (r: i64) {
        v
    }
}

impl ManifestNumber for i32 {
    open spec fn lowest() -> int {
        i32::MIN as int
    }

    open spec fn highest() -> int {
        i32::MAX as int
    }

    open spec fn as_int(&self) -> int {
        *self as int
    }

    fn bounds() -> (r: (i64, i64)) {
        (i32::MIN as i64, i32::MAX as i64)
    }

    fn from_i64(v: i64) -> (r: i32) {
        v as i32
    }
}

/// Reads a field that holds a truth value.
pub fn parse_boolean_field(data: &ManifestFields, key: char) -> (r: Result<bool, ManifestError>)
    ensures
        match boolean_field(data@, key) {
            Ok(b) => r == Ok::<bool, ManifestError>(b),
            Err(fault) => r matches Err(e) && e@ == fault,
        },
{
    match data.get(key) {
        Some(value) => Ok(eq_ignore_ascii_case(value.as_str(), "yes")),
        None => Err(ManifestError::MissingField(key)),
    }
}

/// Reads a field that holds a hash.
pub fn parse_hex_field(data: &ManifestFields, key: char) -> (r: Result<HexString, ManifestError>)
    ensures
        match hex_field(data@, key) {
            Ok(digits) => r matches Ok(h) && h@ == digits,
            Err(fault) => r matches Err(e) && e@ == fault,
        },
{
    match data.get(key) {
        Some(value) => match HexString::new(value.as_str()) {
            Ok(hash) => Ok(hash),
            Err(error) => Err(ManifestError::ParseError(key, error.to_string())),
        },
        None => Err(ManifestError::MissingField(key)),
    }
}

/// Reads a field that holds a number.
pub fn parse_number_field<T: ManifestNumber>(data: &ManifestFields, key: char) -> (r: Result<
    T,
    ManifestError,
>)
    ensures
        match number_field(data@, key, T::lowest(), T::highest()) {
            Ok(v) => r matches Ok(n) && n.as_int() == v,
            Err(fault) => r matches Err(e) && e@ == fault,
        },
{
    match data.get(key) {
        Some(value) => {
            let chars = chars_of(value.as_str());
            let (lo, hi) = T::bounds();
            match parse_int_chars(&chars, true, lo, hi) {
                Ok(v) => Ok(T::from_i64(v)),
                Err(kind) => Err(ManifestError::ParseError(key, kind.to_string())),
            }
        },
        None => Err(ManifestError::MissingField(key)),
    }
}

/// What a field that holds a Unix time says: the instant so many seconds after the
/// epoch. The field has to be present and to hold a number for which there is a date.
pub open spec fn timestamp_field(fields: Map<char, Seq<char>>, key: char) -> Result<
    UtcDateTime,
    ManifestFault,
> {
    match number_field(fields, key, i64::MIN as int, i64::MAX as int) {
        Err(fault) => Err(fault),
        Ok(secs) => if datetime_from_timestamp(secs as i64) is Some {
            Ok(UtcDateTime { secs: secs as i64, nanos: 0 })
        } else {
            Err(ManifestFault::ParseError(key, "Invalid timestamp"@))
        },
    }
}

/// What a Unix time in the field `key` stands for, given the instant that was
/// found for it: that instant, or an error of the field where there is none.
pub fn timestamp_or_invalid(key: char, at: Option<UtcDateTime>) -> (r: Result<
    UtcDateTime,
    ManifestError,
>)
    ensures
        match at {
            Some(instant) => r == Ok::<UtcDateTime, ManifestError>(instant),
            None => r matches Err(e) && e@ == ManifestFault::ParseError(key, "Invalid timestamp"@),
        },
{
    match at {
        Some(instant) => Ok(instant),
        None => Err(ManifestError::ParseError(key, "Invalid timestamp".to_owned())),
    }
}

/// Reads a field that holds a Unix time.
pub fn parse_timestamp_field(data: &ManifestFields, key: char) -> (r: Result<
    UtcDateTime,
    ManifestError,
>)
    ensures
        match timestamp_field(data@, key) {
            Ok(at) => r == Ok::<UtcDateTime, ManifestError>(at),
            Err(fault) => r matches Err(e) && e@ == fault,
        },
{
    match parse_number_field::<i64>(data, key) {
        Err(e) => Err(e),
        Ok(secs) => timestamp_or_invalid(key, UtcDateTime::from_timestamp(secs)),
    }
}

} // verus!
