//! Hostnames, hexadecimal strings and loosely formatted dates.

use vstd::prelude::*;
use crate::dates::{
    datetime_from_rfc2822, naive_datetime_from_str, parse_naive_datetime, parse_rfc2822,
    UtcDateTime,
};
use crate::errors::{HostnameError, ManifestError, ScrapeError};
use crate::text::{
    ascii_lower, ascii_lowercase, byte_length, char_ascii_lower, char_is_hex_digit, chars_of,
    concatenated, is_hex_digit, longer_than, push_char, split, split_chars, string_of, views,
};

verus! {

/// Whether std counts the character as alphanumeric: `char::is_alphanumeric`.
pub uninterp spec fn is_alphanumeric(c: char) -> bool;

/// `char::is_alphanumeric` of std. The contract only names the result.
#[verifier::external_body]
pub(crate) fn char_is_alphanumeric(c: char) -> (r: bool)
    ensures
        r == is_alphanumeric(c),
{
    c.is_alphanumeric()
}

/// What is wrong with one label of a hostname.
#[derive(Debug, Clone, Copy, PartialEq, Eq, Structural)]
pub enum LabelFault {
    TooLong,
    InvalidChar,
    InvalidFormat,
    ConsecutiveDashes,
}

/// Whether the label has a dash at place `i` and another right after it.
pub open spec fn dashes_at(label: Seq<char>, i: int) -> bool {
    0 <= i < label.len() - 1 && label[i] == '-' && label[i + 1] == '-'
}

/// Whether the label has two dashes in a row.
pub open spec fn has_consecutive_dashes(label: Seq<char>) -> bool {
    exists|i: int| dashes_at(label, i)
}

/// For each character of the text, whether std counts it as alphanumeric.
pub open spec fn alphanumeric_flags(label: Seq<char>) -> Seq<bool> {
    Seq::new(label.len(), |i: int| is_alphanumeric(label[i]))
}

/// Whether every character of the label is alphanumeric or a dash, where
/// `alphanumeric` says of each character whether it is alphanumeric.
pub open spec fn label_chars_allowed(label: Seq<char>, alphanumeric: Seq<bool>) -> bool {
    forall|i: int| 0 <= i < label.len() ==> #[trigger] alphanumeric[i] || label[i] == '-'
}

/// The first thing that is wrong with a label, if anything is, where `alphanumeric`
/// says of each character whether it is alphanumeric. A label is at most 63 bytes
/// long, is made of alphanumeric characters and dashes, begins and ends with an
/// alphanumeric character (so it is not empty) and has no two dashes in a row.
pub open spec fn label_fault_given(label: Seq<char>, alphanumeric: Seq<bool>) -> Option<
    LabelFault,
> {
    if byte_length(label) > 63 {
        Some(LabelFault::TooLong)
    } else if !label_chars_allowed(label, alphanumeric) {
        Some(LabelFault::InvalidChar)
    } else if label.len() == 0 || !alphanumeric.first() || !alphanumeric.last() {
        Some(LabelFault::InvalidFormat)
    } else if has_consecutive_dashes(label) {
        Some(LabelFault::ConsecutiveDashes)
    } else {
        None
    }
}

/// The first thing that is wrong with a label, if anything is.
pub open spec fn label_fault(label: Seq<char>) -> Option<LabelFault> {
    label_fault_given(label, alphanumeric_flags(label))
}

/// Whether `k` is the place of the first label with a fault.
pub open spec fn first_faulty_label(labels: Seq<Seq<char>>, k: int) -> bool {
    &&& 0 <= k < labels.len()
    &&& label_fault(labels[k]) is Some
    &&& forall|i: int| 0 <= i < k ==> label_fault(#[trigger] labels[i]) is None
}

/// Whether the text is a hostname: at most 255 bytes, and each of its labels, the
/// parts between the dots, without fault.
pub open spec fn is_hostname(s: Seq<char>) -> bool {
    &&& byte_length(s) <= 255
    &&& forall|i: int| 0 <= i < split(s, '.').len() ==> label_fault(#[trigger] split(s, '.')[i])
        is None
}

/// The text that reports a label which does not begin and end as it should.
pub open spec fn label_format_message(label: Seq<char>) -> Seq<char> {
    "First and last character of '"@ + label + "' is not alphanumeric."@
}

/// Whether `error` is the error that reports `fault` on `label`.
pub open spec fn reports_fault(error: HostnameError, fault: LabelFault, label: Seq<char>) -> bool {
    match fault {
        LabelFault::TooLong => error matches HostnameError::LabelTooLong(t) && t@ == label,
        LabelFault::InvalidChar => error matches HostnameError::InvalidChar(t) && t@ == label,
        LabelFault::InvalidFormat => error matches HostnameError::InvalidLabelFormat(t) && t@
            == label_format_message(label),
        LabelFault::ConsecutiveDashes => error matches HostnameError::ConsecutiveDashes(t) && t@
            == label,
    }
}

/// Whether `error` is what rejects the text `s` as a hostname: it reports the whole
/// text where that is too long, or else the first fault of the first label that has
/// one.
pub open spec fn rejected_as(s: Seq<char>, error: HostnameError) -> bool {
    if byte_length(s) > 255 {
        error matches HostnameError::TooLong(t) && t@ == s
    } else {
        forall|k: int|
            first_faulty_label(split(s, '.'), k) ==> reports_fault(
                error,
                label_fault(split(s, '.')[k])->Some_0,
                split(s, '.')[k],
            )
    }
}

/// A hostname.
#[derive(Debug, PartialEq)]
pub struct Hostname(pub String);

impl Clone for Hostname {
    fn clone(&self) -> (r: Self)
        ensures
            r == *self,
    {
        Hostname(self.0.clone())
    }
}

impl View for Hostname {
    type V = Seq<char>;

    open spec fn view(&self) -> Seq<char> {
        self.0@
    }
}

/// Looks for the first fault of a label, given of each of its characters whether
/// it is alphanumeric.
#[verifier::loop_isolation(false)]
pub fn find_label_fault(label: &Vec<char>, alphanumeric: &Vec<bool>) -> (r: Option<LabelFault>)
    requires
        alphanumeric.len() == label.len(),
    ensures
        r == label_fault_given(label@, alphanumeric@),
{
    if longer_than(label, 63) {
        return Some(LabelFault::TooLong);
    }
    let n = label.len();
    let mut i: usize = 0;
    while i < n
        invariant
            i <= n,
            forall|j: int| 0 <= j < i ==> #[trigger] alphanumeric[j] || label[j] == '-',
        decreases n - i,
    {
        if !(alphanumeric[i] || label[i] == '-') {
            return Some(LabelFault::InvalidChar);
        }
        i += 1;
    }
    if n == 0 || !alphanumeric[0] || !alphanumeric[n - 1] {
        return Some(LabelFault::InvalidFormat);
    }
    let mut k: usize = 0;
    while k < n - 1
        invariant
            k <= n - 1,
            forall|j: int| 0 <= j < k ==> !dashes_at(label@, j),
        decreases n - 1 - k,
    {
        if label[k] == '-' && label[k + 1] == '-' {
            assert(dashes_at(label@, k as int));
            return Some(LabelFault::ConsecutiveDashes);
        }
        k += 1;
    }
    None
}

/// Looks for the first fault of a label.
fn check_label(label: &Vec<char>) -> (r: Option<LabelFault>)
    ensures
        r == label_fault(label@),
{
    let mut flags: Vec<bool> = Vec::new();
    let mut i: usize = 0;
    while i < label.len()
        invariant
            i <= label.len(),
            flags@ == alphanumeric_flags(label@).take(i as int),
        decreases label.len() - i,
    {
        flags.push(char_is_alphanumeric(label[i]));
        assert(flags@ =~= alphanumeric_flags(label@).take(i + 1));
        i += 1;
    }
    assert(alphanumeric_flags(label@).take(label.len() as int) =~= alphanumeric_flags(label@));
    find_label_fault(label, &flags)
}

impl Hostname {
    /// Reads a hostname. The text is taken as it is where it is a hostname;
    /// otherwise the error reports the whole text where that is too long, or else
    /// the first fault of the first label that has one.
    #[verifier::loop_isolation(false)]
    pub fn from_str(s: &str) -> (r: Result<Hostname, HostnameError>)
        ensures
            r is Ok <==> is_hostname(s@),
            r matches Ok(h) ==> h@ == s@,
            r matches Err(e) ==> rejected_as(s@, e),
    {
        let chars = chars_of(s);
        if longer_than(&chars, 255) {
            return Err(HostnameError::TooLong(s.to_owned()));
        }
        let labels = split_chars(&chars, '.');
        let mut i: usize = 0;
        while i < labels.len()
            invariant
                i <= labels.len(),
                views(labels@) == split(s@, '.'),
                forall|j: int| 0 <= j < i ==> label_fault(#[trigger] split(s@, '.')[j]) is None,
            decreases labels.len() - i,
        {
            let label = &labels[i];
            assert(label@ == split(s@, '.')[i as int]);
            match check_label(label) {
                Some(fault) => {
                    assert(first_faulty_label(split(s@, '.'), i as int));
                    let text = string_of(label);
                    let error = match fault {
                        LabelFault::TooLong => HostnameError::LabelTooLong(text),
                        LabelFault::InvalidChar => HostnameError::InvalidChar(text),
                        LabelFault::InvalidFormat => {
                            let mut message = concatenated(
                                "First and last character of '",
                                text.as_str(),
                            );
                            message.append("' is not alphanumeric.");
                            HostnameError::InvalidLabelFormat(message)
                        },
                        LabelFault::ConsecutiveDashes => HostnameError::ConsecutiveDashes(text),
                    };
                    return Err(error);
                },
                None => {},
            }
            i += 1;
        }
        Ok(Hostname(s.to_owned()))
    }

    /// The hostname as a string slice.
    pub fn as_str(&self) -> (s: &str)
        ensures
            s@ == self@,
    {
        self.0.as_str()
    }

    /// The hostname as a string of its own.
    pub fn as_string(&self) -> (s: String)
        ensures
            s@ == self@,
    {
        self.0.clone()
    }

    /// The hostname as text.
    pub fn to_string(&self) -> (s: String)
        ensures
            s@ == self@,
    {
        self.0.clone()
    }
}

impl std::str::FromStr for Hostname {
    type Err = HostnameError;

    /// Reads a hostname, as `Hostname::from_str` does: the text as it is where it
    /// is a hostname, or else the error that rejects it.
    fn from_str(s: &str) -> (r: Result<Self, Self::Err>)
        ensures
            r is Ok <==> is_hostname(s@),
            r matches Ok(h) ==> h@ == s@,
            r matches Err(e) ==> rejected_as(s@, e),
    {
        Hostname::from_str(s)
    }
}

/// Whether the text can stand for a hash: an even number of hexadecimal digits,
/// of either case. The empty text is one.
pub open spec fn is_hex_text(s: Seq<char>) -> bool {
    &&& s.len() % 2 == 0
    &&& forall|i: int| 0 <= i < s.len() ==> is_hex_digit(#[trigger] s[i])
}

/// An even number of hexadecimal digits, kept in lower case.
#[derive(Debug, PartialEq)]
pub struct HexString(String);

impl View for HexString {
    type V = Seq<char>;

    closed spec fn view(&self) -> Seq<char> {
        self.0@
    }
}

impl Clone for HexString {
    fn clone(&self) -> (r: Self)
        ensures
            r@ == self@,
    {
        proof {
            use_type_invariant(self);
        }
        HexString(self.0.clone())
    }
}

impl HexString {
    #[verifier::type_invariant]
    spec fn well_formed(self) -> bool {
        is_hex_text(self.0@) && ascii_lowercase(self.0@) == self.0@
    }

    /// Takes the text in lower case where it is an even number of hexadecimal
    /// digits, and reports it as invalid where it is not.
    pub fn new(s: &str) -> (r: Result<HexString, ManifestError>)
        ensures
            is_hex_text(s@) ==> (r matches Ok(h) && h@ == ascii_lowercase(s@)),
            !is_hex_text(s@) ==> (r matches Err(ManifestError::InvalidHex(t)) && t@ == s@),
    {
        let chars = chars_of(s);
        let n = chars.len();
        let mut lower = String::new();
        let mut i: usize = 0;
        while i < n
            invariant
                i <= n,
                n == chars.len(),
                chars@ == s@,
                forall|j: int| 0 <= j < i ==> is_hex_digit(#[trigger] chars[j]),
                lower@ == ascii_lowercase(chars@.take(i as int)),
            decreases n - i,
        {
            if !char_is_hex_digit(chars[i]) {
                return Err(ManifestError::InvalidHex(s.to_owned()));
            }
            push_char(&mut lower, char_ascii_lower(chars[i]));
            assert(ascii_lowercase(chars@.take(i + 1)) =~= ascii_lowercase(
                chars@.take(i as int),
            ).push(ascii_lower(chars[i as int])));
            i += 1;
        }
        if n % 2 != 0 {
            return Err(ManifestError::InvalidHex(s.to_owned()));
        }
        assert(chars@.take(n as int) =~= chars@);
        assert(ascii_lowercase(lower@) =~= lower@);
        assert(is_hex_text(lower@));
        Ok(HexString(lower))
    }

    /// As `new`.
    pub fn from_str(s: &str) -> (r: Result<HexString, ManifestError>)
        ensures
            is_hex_text(s@) ==> (r matches Ok(h) && h@ == ascii_lowercase(s@)),
            !is_hex_text(s@) ==> (r matches Err(ManifestError::InvalidHex(t)) && t@ == s@),
    {
        HexString::new(s)
    }

    /// The digits.
    pub fn to_string(&self) -> (s: String)
        ensures
            s@ == self@,
            is_hex_text(s@),
            ascii_lowercase(s@) == s@,
    {
        proof {
            use_type_invariant(self);
        }
        self.0.clone()
    }

    /// The digits.
    pub fn as_str(&self) -> (s: &str)
        ensures
            s@ == self@,
            is_hex_text(s@),
            ascii_lowercase(s@) == s@,
    {
        proof {
            use_type_invariant(self);
        }
        self.0.as_str()
    }
}

impl std::str::FromStr for HexString {
    type Err = ManifestError;

    /// Reads a hash, as `HexString::new` does: the digits in lower case where the
    /// text is an even number of hexadecimal digits, or else the text as invalid.
    fn from_str(s: &str) -> (r: Result<Self, Self::Err>)
        ensures
            is_hex_text(s@) ==> (r matches Ok(h) && h@ == ascii_lowercase(s@)),
            !is_hex_text(s@) ==> (r matches Err(ManifestError::InvalidHex(t)) && t@ == s@),
    {
        HexString::new(s)
    }
}

/// The text of a date as a server wrote it, or nothing where it wrote none. The text
/// is meant to be in the form that the `date` command prints, such as
/// `Tue Jun 18 13:40:04 UTC 2024`, but it is kept whatever it is.
#[derive(Debug, PartialEq)]
pub struct MaybeRfc2822DateTime(pub Option<String>);

impl Clone for MaybeRfc2822DateTime {
    fn clone(&self) -> (r: Self)
        ensures
            r == *self,
    {
        match &self.0 {
            Some(text) => MaybeRfc2822DateTime(Some(text.clone())),
            None => MaybeRfc2822DateTime(None),
        }
    }
}

impl Default for MaybeRfc2822DateTime {
    fn default() -> (r: Self)
        ensures
            r.0 is None,
    {
        MaybeRfc2822DateTime(None)
    }
}

/// The form of the dates that the `date` command prints.
pub open spec fn unix_date_format() -> Seq<char> {
    "%a %b %d %H:%M:%S %Z %Y"@
}

impl MaybeRfc2822DateTime {
    /// What `try_into_datetime` returns where reading the text gave `parsed`: no
    /// instant without a text, the instant that was read, or the text itself as a
    /// conversion error where nothing could be read.
    pub open spec fn datetime_from(&self, parsed: Option<(i64, u32)>) -> Result<
        Option<UtcDateTime>,
        Seq<char>,
    > {
        match self.0 {
            None => Ok(None),
            Some(text) => match parsed {
                Some(at) => Ok(Some(UtcDateTime { secs: at.0, nanos: at.1 })),
                None => Err(text@),
            },
        }
    }

    /// Decides what the date is, given what reading its text gave.
    pub fn datetime_from_parsed(&self, parsed: Option<(i64, u32)>) -> (r: Result<
        Option<UtcDateTime>,
        ScrapeError,
    >)
        ensures
            match self.datetime_from(parsed) {
                Ok(at) => r == Ok::<Option<UtcDateTime>, ScrapeError>(at),
                Err(text) => r matches Err(ScrapeError::ConversionError(t)) && t@ == text,
            },
    {
        match &self.0 {
            None => Ok(None),
            Some(text) => match parsed {
                Some(at) => Ok(Some(UtcDateTime { secs: at.0, nanos: at.1 })),
                None => Err(ScrapeError::ConversionError(text.clone())),
            },
        }
    }

    /// The instant that the text stands for, if there is a text. A text that is not
    /// in the form of the `date` command is a conversion error that carries the text.
    pub fn try_into_datetime(&self) -> (r: Result<Option<UtcDateTime>, ScrapeError>)
        ensures
            self.0 is None ==> r == Ok::<Option<UtcDateTime>, ScrapeError>(None),
            self.0 matches Some(text) ==> match self.datetime_from(
                naive_datetime_from_str(text@, unix_date_format()),
            ) {
                Ok(at) => r == Ok::<Option<UtcDateTime>, ScrapeError>(at),
                Err(text) => r matches Err(ScrapeError::ConversionError(t)) && t@ == text,
            },
    {
        match &self.0 {
            None => Ok(None),
            Some(text) => {
                let parsed = parse_naive_datetime(text.as_str(), "%a %b %d %H:%M:%S %Z %Y");
                self.datetime_from_parsed(parsed)
            },
        }
    }

    /// Whether the server wrote a date.
    pub fn is_some(&self) -> (r: bool)
        ensures
            r == (self.0 is Some),
    {
        self.0.is_some()
    }

    /// Whether the server wrote no date.
    pub fn is_none(&self) -> (r: bool)
        ensures
            r == (self.0 is None),
    {
        self.0.is_none()
    }

    /// The text as the server wrote it; empty where it wrote none.
    pub fn to_string(&self) -> (s: String)
        ensures
            s@ == match self.0 {
                Some(text) => text@,
                None => Seq::<char>::empty(),
            },
    {
        match &self.0 {
            Some(text) => text.clone(),
            None => String::new(),
        }
    }
}

/// The text of a date in the form of RFC 2822, such as
/// `Tue, 18 Jun 2024 13:40:04 +0000`.
#[derive(Debug, Clone, PartialEq)]
pub struct Rfc2822DateTime(String);

impl View for Rfc2822DateTime {
    type V = Seq<char>;

    closed spec fn view(&self) -> Seq<char> {
        self.0@
    }
}

impl Rfc2822DateTime {
    /// Takes the text as it is.
    pub fn from(s: &str) -> (r: Rfc2822DateTime)
        ensures
            r@ == s@,
    {
        Rfc2822DateTime(s.to_owned())
    }

    /// What `try_into_datetime` returns where reading the text gave `parsed`.
    pub fn datetime_from_parsed(parsed: Result<(i64, u32), String>) -> (r: Result<
        UtcDateTime,
        ScrapeError,
    >)
        ensures
            match parsed {
                Ok(at) => r == Ok::<UtcDateTime, ScrapeError>(
                    UtcDateTime { secs: at.0, nanos: at.1 },
                ),
                Err(reason) => r matches Err(ScrapeError::ChronoParseError(t)) && t@ == reason@,
            },
    {
        match parsed {
            Ok(at) => Ok(UtcDateTime { secs: at.0, nanos: at.1 }),
            Err(reason) => Err(ScrapeError::ChronoParseError(reason)),
        }
    }

    /// The instant that the text stands for, in UTC, or the reason why it stands for
    /// none.
    pub fn try_into_datetime(self) -> (r: Result<UtcDateTime, ScrapeError>)
        ensures
            match datetime_from_rfc2822(self@) {
                Ok(at) => r == Ok::<UtcDateTime, ScrapeError>(
                    UtcDateTime { secs: at.0, nanos: at.1 },
                ),
                Err(reason) => r matches Err(ScrapeError::ChronoParseError(t)) && t@ == reason,
            },
    {
        Rfc2822DateTime::datetime_from_parsed(parse_rfc2822(self.0.as_str()))
    }
}

} // verus!
