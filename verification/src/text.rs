//! Text as sequences of characters: conversions between `String`, `&str` and
//! `Vec<char>`, character classes, splitting and ordering.

use vstd::prelude::*;

verus! {

/// The characters of `s`, in order.
pub fn chars_of(s: &str) -> (v: Vec<char>)
    ensures
        v@ == s@,
{
    let mut v: Vec<char> = Vec::new();
    for c in it: s.chars()
        invariant
            it.seq() == s@,
            v@ == it.seq().take(it.index() as int),
    {
        v.push(c);
    }
    v
}

/// `String::push` of std: appends one character to the end of the string.
#[verifier::external_body]
pub(crate) fn push_char(s: &mut String, c: char)
    ensures
        final(s)@ == old(s)@.push(c),
{
    s.push(c)
}

/// The string made of `chars[from..to]`.
pub fn string_of_range(chars: &Vec<char>, from: usize, to: usize) -> (s: String)
    requires
        from <= to <= chars.len(),
    ensures
        s@ == chars@.subrange(from as int, to as int),
{
    let mut s = String::new();
    let mut i: usize = from;
    while i < to
        invariant
            from <= i <= to <= chars.len(),
            s@ == chars@.subrange(from as int, i as int),
        decreases to - i,
    {
        push_char(&mut s, chars[i]);
        i += 1;
    }
    s
}

/// The string made of all of `chars`.
pub fn string_of(chars: &Vec<char>) -> (s: String)
    ensures
        s@ == chars@,
{
    let s = string_of_range(chars, 0, chars.len());
    assert(chars@.subrange(0, chars.len() as int) == chars@);
    s
}

/// `a` followed by `b`.
pub fn concatenated(a: &str, b: &str) -> (s: String)
    ensures
        s@ == a@ + b@,
{
    let mut s: String = a.to_owned();
    s.append(b);
    s
}

/// An ASCII hexadecimal digit, of either case.
pub open spec fn is_hex_digit(c: char) -> bool {
    ('0' <= c <= '9') || ('a' <= c <= 'f') || ('A' <= c <= 'F')
}

/// An ASCII decimal digit.
pub open spec fn is_digit(c: char) -> bool {
    '0' <= c <= '9'
}

/// The number that a decimal digit stands for.
pub open spec fn digit_of(c: char) -> int {
    c as int - 48
}

/// The decimal digit that stands for `d`, for `d` below ten.
pub open spec fn digit_char(d: int) -> char {
    (d + 48) as char
}

/// `c` with an ASCII capital letter turned into its small letter.
pub open spec fn ascii_lower(c: char) -> char {
    if 'A' <= c <= 'Z' {
        (c as int + 32) as char
    } else {
        c
    }
}

/// `s` with each ASCII capital letter turned into its small letter.
pub open spec fn ascii_lowercase(s: Seq<char>) -> Seq<char> {
    Seq::new(s.len(), |i: int| ascii_lower(s[i]))
}

/// A white-space character, as Unicode lists them under `White_Space`.
pub open spec fn is_whitespace(c: char) -> bool {
    let n = c as int;
    (0x09 <= n <= 0x0D) || n == 0x20 || n == 0x85 || n == 0xA0 || n == 0x1680 || (0x2000 <= n
        <= 0x200A) || n == 0x2028 || n == 0x2029 || n == 0x202F || n == 0x205F || n == 0x3000
}

/// Whether the character is an ASCII hexadecimal digit.
pub fn char_is_hex_digit(c: char) -> (r: bool)
    ensures
        r == is_hex_digit(c),
{
    let n: u32 = c as u32;
    (48 <= n && n <= 57) || (97 <= n && n <= 102) || (65 <= n && n <= 70)
}

/// Whether the character is an ASCII decimal digit.
pub fn char_is_digit(c: char) -> (r: bool)
    ensures
        r == is_digit(c),
{
    let n: u32 = c as u32;
    48 <= n && n <= 57
}

/// The character, or its small letter where it is an ASCII capital.
pub fn char_ascii_lower(c: char) -> (r: char)
    ensures
        r == ascii_lower(c),
{
    let n: u32 = c as u32;
    if 65 <= n && n <= 90 {
        let b: u8 = c as u8;
        (b + 32) as char
    } else {
        c
    }
}

/// Whether the character is white space.
pub fn char_is_whitespace(c: char) -> (r: bool)
    ensures
        r == is_whitespace(c),
{
    let n: u32 = c as u32;
    (0x09 <= n && n <= 0x0D) || n == 0x20 || n == 0x85 || n == 0xA0 || n == 0x1680 || (0x2000 <= n
        && n <= 0x200A) || n == 0x2028 || n == 0x2029 || n == 0x202F || n == 0x205F || n == 0x3000
}

/// Whether `s`, with its ASCII capitals made small, reads as `lower`.
pub fn eq_ignore_ascii_case(s: &str, lower: &str) -> (r: bool)
    ensures
        r == (ascii_lowercase(s@) == lower@),
{
    let a = chars_of(s);
    let b = chars_of(lower);
    if a.len() != b.len() {
        return false;
    }
    let mut i: usize = 0;
    while i < a.len()
        invariant
            i <= a.len(),
            a.len() == b.len(),
            a@ == s@,
            b@ == lower@,
            forall|j: int| 0 <= j < i ==> ascii_lower(a[j]) == b[j],
        decreases a.len() - i,
    {
        if char_ascii_lower(a[i]) != b[i] {
            assert(ascii_lowercase(s@)[i as int] != lower@[i as int]);
            return false;
        }
        i += 1;
    }
    assert(ascii_lowercase(s@) =~= lower@);
    true
}

/// The pieces of `s` between the occurrences of `sep`, in order. There is always at
/// least one piece; a text without `sep` is its own single piece.
pub open spec fn split(s: Seq<char>, sep: char) -> Seq<Seq<char>>
    decreases s.len(),
{
    if s.len() == 0 {
        seq![Seq::<char>::empty()]
    } else {
        let head = split(s.drop_last(), sep);
        if s.last() == sep {
            head.push(Seq::<char>::empty())
        } else {
            head.drop_last().push(head.last().push(s.last()))
        }
    }
}

/// A split has at least one piece.
pub proof fn lemma_split_nonempty(s: Seq<char>, sep: char)
    ensures
        split(s, sep).len() >= 1,
    decreases s.len(),
{
    if s.len() > 0 {
        lemma_split_nonempty(s.drop_last(), sep);
    }
}

/// The pieces one after the other, with `sep` between each two.
pub open spec fn join(pieces: Seq<Seq<char>>, sep: char) -> Seq<char>
    decreases pieces.len(),
{
    if pieces.len() == 0 {
        Seq::empty()
    } else if pieces.len() == 1 {
        pieces[0]
    } else {
        join(pieces.drop_last(), sep).push(sep) + pieces.last()
    }
}

/// The pieces of a split hold no `sep`, and joined with `sep` they are the text
/// that was split.
pub proof fn lemma_split_joins_back(s: Seq<char>, sep: char)
    ensures
        join(split(s, sep), sep) == s,
        forall|i: int| 0 <= i < split(s, sep).len() ==> !(#[trigger] split(s, sep)[i]).contains(sep),
    decreases s.len(),
{
    let pieces = split(s, sep);
    if s.len() == 0 {
        assert(!pieces[0].contains(sep));
    } else {
        let front = s.drop_last();
        let head = split(front, sep);
        lemma_split_nonempty(front, sep);
        lemma_split_joins_back(front, sep);
        if s.last() == sep {
            assert(pieces.drop_last() =~= head);
            assert(join(pieces, sep) =~= front.push(sep) + Seq::<char>::empty());
            assert(front.push(sep) =~= s);
            assert forall|i: int| 0 <= i < pieces.len() implies !(#[trigger] pieces[i]).contains(
                sep,
            ) by {
                if i < head.len() {
                    assert(pieces[i] == head[i]);
                }
            }
        } else {
            let last = head.last().push(s.last());
            assert(pieces.last() == last);
            assert(!last.contains(sep)) by {
                if last.contains(sep) {
                    let k = choose|k: int| 0 <= k < last.len() && last[k] == sep;
                    assert(head.last()[k] == sep);
                    assert(head[head.len() - 1].contains(sep));
                }
            }
            assert forall|i: int| 0 <= i < pieces.len() implies !(#[trigger] pieces[i]).contains(
                sep,
            ) by {
                if i < head.len() - 1 {
                    assert(pieces[i] == head[i]);
                }
            }
            if head.len() == 1 {
                assert(join(head, sep) == head[0]);
                assert(join(pieces, sep) =~= s);
            } else {
                assert(pieces.drop_last() =~= head.drop_last());
                assert(join(head, sep) == join(head.drop_last(), sep).push(sep) + head.last());
                assert(join(pieces, sep) =~= (join(head.drop_last(), sep).push(sep) + head.last()).push(
                    s.last(),
                ));
                assert(front.push(s.last()) =~= s);
            }
        }
    }
}

/// The texts that a vector of character vectors holds.
pub open spec fn views(v: Seq<Vec<char>>) -> Seq<Seq<char>> {
    Seq::new(v.len(), |i: int| v[i]@)
}

/// Splits `s` at each occurrence of `sep`.
pub fn split_chars(s: &Vec<char>, sep: char) -> (pieces: Vec<Vec<char>>)
    ensures
        views(pieces@) == split(s@, sep),
        pieces.len() >= 1,
{
    let mut done: Vec<Vec<char>> = Vec::new();
    let mut current: Vec<char> = Vec::new();
    let mut i: usize = 0;
    assert(s@.take(0) =~= Seq::<char>::empty());
    assert(views(done@).push(current@) =~= seq![Seq::<char>::empty()]);
    while i < s.len()
        invariant
            i <= s.len(),
            split(s@.take(i as int), sep) == views(done@).push(current@),
        decreases s.len() - i,
    {
        let c = s[i];
        proof {
            let next = s@.take(i + 1);
            assert(next.drop_last() =~= s@.take(i as int));
            assert(next.last() == c);
            let head = split(s@.take(i as int), sep);
            assert(head.last() == current@);
            assert(head.drop_last() =~= views(done@));
        }
        let ghost old_done = done@;
        let ghost old_current = current@;
        if c == sep {
            done.push(current);
            current = Vec::new();
            assert(views(done@) =~= views(old_done).push(old_current));
        } else {
            current.push(c);
        }
        i += 1;
    }
    assert(s@.take(s.len() as int) =~= s@);
    let ghost old_done = done@;
    done.push(current);
    assert(views(done@) =~= views(old_done).push(current@));
    done
}

/// `line` without one carriage return at its end, if it has one.
pub open spec fn strip_cr(line: Seq<char>) -> Seq<char> {
    if line.len() > 0 && line.last() == '\r' {
        line.drop_last()
    } else {
        line
    }
}

/// The lines of `s`. A line ends with a line feed, or with a carriage return and a
/// line feed; neither is part of the line. What follows the last line feed is a line
/// of its own unless it is empty.
pub open spec fn lines(s: Seq<char>) -> Seq<Seq<char>> {
    let pieces = split(s, '\n');
    let ended = Seq::new((pieces.len() - 1) as nat, |i: int| strip_cr(pieces[i]));
    if pieces.last().len() == 0 {
        ended
    } else {
        ended.push(pieces.last())
    }
}

/// Splits `s` into its lines.
pub fn lines_of(s: &Vec<char>) -> (r: Vec<Vec<char>>)
    ensures
        views(r@) == lines(s@),
{
    let mut pieces = split_chars(s, '\n');
    let ghost all = views(pieces@);
    let tail = pieces.pop().unwrap();
    let mut r: Vec<Vec<char>> = Vec::new();
    let mut i: usize = 0;
    while i < pieces.len()
        invariant
            i <= pieces.len(),
            r.len() == i,
            pieces.len() == all.len() - 1,
            forall|j: int| 0 <= j < pieces.len() ==> pieces[j]@ == all[j],
            forall|j: int| 0 <= j < i ==> r[j]@ == strip_cr(all[j]),
        decreases pieces.len() - i,
    {
        let piece = &pieces[i];
        let n = piece.len();
        let line = if n > 0 && piece[n - 1] == '\r' {
            let l = chars_of_range(piece, 0, n - 1);
            assert(piece@.subrange(0, n - 1) =~= piece@.drop_last());
            l
        } else {
            piece.clone()
        };
        assert(line@ == strip_cr(all[i as int]));
        r.push(line);
        i += 1;
    }
    if tail.len() > 0 {
        r.push(tail);
    }
    assert(views(r@) =~= lines(s@));
    r
}

/// `s` without the white space at its start.
pub open spec fn trim_start(s: Seq<char>) -> Seq<char>
    decreases s.len(),
{
    if s.len() > 0 && is_whitespace(s[0]) {
        trim_start(s.skip(1))
    } else {
        s
    }
}

/// `s` without the white space at its end.
pub open spec fn trim_end(s: Seq<char>) -> Seq<char>
    decreases s.len(),
{
    if s.len() > 0 && is_whitespace(s.last()) {
        trim_end(s.drop_last())
    } else {
        s
    }
}

/// `s` without the white space at either end.
pub open spec fn trim(s: Seq<char>) -> Seq<char> {
    trim_end(trim_start(s))
}

/// The place at which `s` without the white space at its start begins.
fn start_of_trimmed(s: &Vec<char>) -> (start: usize)
    ensures
        start <= s.len(),
        trim_start(s@) == s@.subrange(start as int, s.len() as int),
{
    let n = s.len();
    let mut start: usize = 0;
    assert(s@.skip(0) =~= s@);
    while start < n && char_is_whitespace(s[start])
        invariant
            start <= n,
            n == s.len(),
            trim_start(s@) == trim_start(s@.skip(start as int)),
        decreases n - start,
    {
        assert(s@.skip(start as int).skip(1) =~= s@.skip(start + 1));
        start += 1;
    }
    assert(s@.skip(start as int) =~= s@.subrange(start as int, n as int));
    start
}

/// The place at which `s[start..]` without the white space at its end ends.
fn end_of_trimmed(s: &Vec<char>, start: usize) -> (end: usize)
    requires
        start <= s.len(),
    ensures
        start <= end <= s.len(),
        trim_end(s@.subrange(start as int, s.len() as int)) == s@.subrange(start as int, end as int),
{
    let n = s.len();
    let mut end: usize = n;
    while end > start && char_is_whitespace(s[end - 1])
        invariant
            start <= end <= n,
            n == s.len(),
            trim_end(s@.subrange(start as int, n as int)) == trim_end(
                s@.subrange(start as int, end as int),
            ),
        decreases end,
    {
        assert(s@.subrange(start as int, end as int).drop_last() =~= s@.subrange(
            start as int,
            end - 1,
        ));
        end -= 1;
    }
    end
}

/// The characters `s[from..to]`.
fn chars_of_range(s: &Vec<char>, from: usize, to: usize) -> (r: Vec<char>)
    requires
        from <= to <= s.len(),
    ensures
        r@ == s@.subrange(from as int, to as int),
{
    let mut r: Vec<char> = Vec::new();
    let mut i: usize = from;
    while i < to
        invariant
            from <= i <= to <= s.len(),
            r@ == s@.subrange(from as int, i as int),
        decreases to - i,
    {
        r.push(s[i]);
        assert(s@.subrange(from as int, i + 1) =~= s@.subrange(from as int, i as int).push(
            s[i as int],
        ));
        i += 1;
    }
    r
}

/// Removes the white space at both ends of `s`.
pub fn trim_chars(s: &Vec<char>) -> (r: Vec<char>)
    ensures
        r@ == trim(s@),
{
    let start = start_of_trimmed(s);
    let end = end_of_trimmed(s, start);
    chars_of_range(s, start, end)
}

/// Why a text is not a decimal integer of the wanted type.
#[derive(Debug, Clone, Copy, PartialEq, Eq, Structural)]
pub enum IntErrorKind {
    /// The text is empty.
    Empty,
    /// A character is not a digit, or a sign stands alone.
    InvalidDigit,
    /// The number is above the largest value of the type.
    PosOverflow,
    /// The number is below the smallest value of the type.
    NegOverflow,
}

impl IntErrorKind {
    /// The text that `to_string` gives.
    pub open spec fn message(&self) -> Seq<char> {
        match self {
            IntErrorKind::Empty => "cannot parse integer from empty string"@,
            IntErrorKind::InvalidDigit => "invalid digit found in string"@,
            IntErrorKind::PosOverflow => "number too large to fit in target type"@,
            IntErrorKind::NegOverflow => "number too small to fit in target type"@,
        }
    }

    /// The text that describes the error, as std words it.
    pub fn to_string(&self) -> (s: String)
        ensures
            s@ == self.message(),
    {
        match self {
            IntErrorKind::Empty => "cannot parse integer from empty string".to_owned(),
            IntErrorKind::InvalidDigit => "invalid digit found in string".to_owned(),
            IntErrorKind::PosOverflow => "number too large to fit in target type".to_owned(),
            IntErrorKind::NegOverflow => "number too small to fit in target type".to_owned(),
        }
    }
}

/// The number that the digits `s` write in base ten.
pub open spec fn digits_value(s: Seq<char>) -> int
    decreases s.len(),
{
    if s.len() == 0 {
        0
    } else {
        digits_value(s.drop_last()) * 10 + digit_of(s.last())
    }
}

/// Whether every character of `s` is a decimal digit.
pub open spec fn all_digits(s: Seq<char>) -> bool {
    forall|i: int| 0 <= i < s.len() ==> is_digit(#[trigger] s[i])
}

/// One step of reading a number from left to right: `acc` is what the digits so far
/// are worth, `c` is the next character. A character that is no digit is reported
/// before a number that leaves the range `lo..=hi`, which it does either when `acc`
/// is moved one place up or when the digit is added.
pub open spec fn scan_step(acc: int, c: char, negative: bool, lo: int, hi: int) -> Result<
    int,
    IntErrorKind,
> {
    let overflow = if negative {
        IntErrorKind::NegOverflow
    } else {
        IntErrorKind::PosOverflow
    };
    let next = if negative {
        acc * 10 - digit_of(c)
    } else {
        acc * 10 + digit_of(c)
    };
    if !is_digit(c) {
        Err(IntErrorKind::InvalidDigit)
    } else if !(lo <= acc * 10 <= hi) {
        Err(overflow)
    } else if !(lo <= next <= hi) {
        Err(overflow)
    } else {
        Ok(next)
    }
}

/// Reads the digits `s` from left to right and stops at the first character at
/// which the reading fails.
pub open spec fn scan_digits(s: Seq<char>, negative: bool, lo: int, hi: int) -> Result<
    int,
    IntErrorKind,
>
    decreases s.len(),
{
    if s.len() == 0 {
        Ok(0)
    } else {
        match scan_digits(s.drop_last(), negative, lo, hi) {
            Err(kind) => Err(kind),
            Ok(acc) => scan_step(acc, s.last(), negative, lo, hi),
        }
    }
}

/// What a text is worth as a decimal integer in `lo..=hi`: an optional sign (a
/// minus only where `signed`), then at least one digit. Where the text is no such
/// integer, the error is the first that reading it from left to right meets.
/// `lemma_parse_int_is_value` says when the reading succeeds and what it gives.
pub open spec fn parse_int(s: Seq<char>, signed: bool, lo: int, hi: int) -> Result<
    int,
    IntErrorKind,
> {
    if s.len() == 0 {
        Err(IntErrorKind::Empty)
    } else if s.len() == 1 && (s[0] == '+' || s[0] == '-') {
        Err(IntErrorKind::InvalidDigit)
    } else if s[0] == '+' {
        scan_digits(s.skip(1), false, lo, hi)
    } else if s[0] == '-' && signed {
        scan_digits(s.skip(1), true, lo, hi)
    } else {
        scan_digits(s, false, lo, hi)
    }
}

/// Reads `s[from..]` as digits.
fn scan_chars(s: &Vec<char>, from: usize, negative: bool, lo: i64, hi: i64) -> (r: Result<
    i64,
    IntErrorKind,
>)
    requires
        from <= s.len(),
        lo <= 0 <= hi,
    ensures
        match scan_digits(s@.skip(from as int), negative, lo as int, hi as int) {
            Ok(v) => r == Ok::<i64, IntErrorKind>(v as i64) && lo <= v <= hi,
            Err(kind) => r == Err::<i64, IntErrorKind>(kind),
        },
{
    let ghost digits = s@.skip(from as int);
    let mut acc: i128 = 0;
    let mut i: usize = from;
    assert(digits.take(0) =~= Seq::<char>::empty());
    while i < s.len()
        invariant
            from <= i <= s.len(),
            lo <= 0 <= hi,
            digits == s@.skip(from as int),
            lo <= acc <= hi,
            scan_digits(digits.take(i - from), negative, lo as int, hi as int) == Ok::<
                int,
                IntErrorKind,
            >(acc as int),
        decreases s.len() - i,
    {
        let c = s[i];
        proof {
            let next = digits.take(i + 1 - from);
            assert(next.drop_last() =~= digits.take(i - from));
            assert(next.last() == c);
        }
        if !char_is_digit(c) {
            proof {
                lemma_scan_stays_failed(digits, i + 1 - from, negative, lo as int, hi as int);
            }
            return Err(IntErrorKind::InvalidDigit);
        }
        let shifted: i128 = acc * 10;
        if shifted < lo as i128 || shifted > hi as i128 {
            proof {
                lemma_scan_stays_failed(digits, i + 1 - from, negative, lo as int, hi as int);
            }
            return Err(if negative { IntErrorKind::NegOverflow } else { IntErrorKind::PosOverflow });
        }
        let d: i128 = (c as u32 - 48) as i128;
        let next: i128 = if negative { shifted - d } else { shifted + d };
        if next < lo as i128 || next > hi as i128 {
            proof {
                lemma_scan_stays_failed(digits, i + 1 - from, negative, lo as int, hi as int);
            }
            return Err(if negative { IntErrorKind::NegOverflow } else { IntErrorKind::PosOverflow });
        }
        acc = next;
        i += 1;
    }
    assert(digits.take(s.len() - from) =~= digits);
    Ok(acc as i64)
}

/// Once the reading has failed on a prefix, it has failed, in the same way, on the
/// whole text.
pub proof fn lemma_scan_stays_failed(s: Seq<char>, n: int, negative: bool, lo: int, hi: int)
    requires
        0 <= n <= s.len(),
        scan_digits(s.take(n), negative, lo, hi) is Err,
    ensures
        scan_digits(s, negative, lo, hi) == scan_digits(s.take(n), negative, lo, hi),
    decreases s.len(),
{
    if n == s.len() {
        assert(s.take(n) =~= s);
    } else {
        assert(s.drop_last().take(n) =~= s.take(n));
        lemma_scan_stays_failed(s.drop_last(), n, negative, lo, hi);
    }
}

/// Reads `s` as a decimal integer in `lo..=hi`, as std's `from_str` of the integer
/// types does: an optional sign, a minus only where `signed`, then digits.
pub fn parse_int_chars(s: &Vec<char>, signed: bool, lo: i64, hi: i64) -> (r: Result<
    i64,
    IntErrorKind,
>)
    requires
        lo <= 0 <= hi,
    ensures
        match parse_int(s@, signed, lo as int, hi as int) {
            Ok(v) => r == Ok::<i64, IntErrorKind>(v as i64) && lo <= v <= hi,
            Err(kind) => r == Err::<i64, IntErrorKind>(kind),
        },
{
    if s.len() == 0 {
        return Err(IntErrorKind::Empty);
    }
    let first = s[0];
    if s.len() == 1 && (first == '+' || first == '-') {
        return Err(IntErrorKind::InvalidDigit);
    }
    if first == '+' {
        scan_chars(s, 1, false, lo, hi)
    } else if first == '-' && signed {
        scan_chars(s, 1, true, lo, hi)
    } else {
        assert(s@.skip(0) =~= s@);
        scan_chars(s, 0, false, lo, hi)
    }
}

/// How two texts stand to each other in the order of names.
#[derive(Debug, Clone, Copy, PartialEq, Eq, Structural)]
pub enum NameOrder {
    Before,
    Same,
    After,
}

/// Whether `a` and `b` hold the same characters at every place below `k`.
pub open spec fn agree_below(a: Seq<char>, b: Seq<char>, k: int) -> bool {
    &&& 0 <= k <= a.len()
    &&& k <= b.len()
    &&& forall|i: int| 0 <= i < k ==> a[i] == b[i]
}

/// Whether `a` comes before `b` at place `k`: they agree below `k`, and there `a`
/// ends while `b` goes on, or `a` has the smaller character.
pub open spec fn before_at(a: Seq<char>, b: Seq<char>, k: int) -> bool {
    &&& agree_below(a, b, k)
    &&& k < b.len()
    &&& (k == a.len() || a[k] < b[k])
}

/// The order of names: lexicographic by character. It is the order in which std
/// compares strings.
pub open spec fn name_lt(a: Seq<char>, b: Seq<char>) -> bool {
    exists|k: int| before_at(a, b, k)
}

/// No name comes before itself.
pub proof fn lemma_name_lt_irreflexive(a: Seq<char>, b: Seq<char>)
    requires
        name_lt(a, b),
    ensures
        a != b,
{
    let k = choose|k: int| before_at(a, b, k);
    if a == b {
        assert(a[k] < b[k]);
    }
}

/// The order of names is transitive.
pub proof fn lemma_name_lt_transitive(a: Seq<char>, b: Seq<char>, c: Seq<char>)
    requires
        name_lt(a, b),
        name_lt(b, c),
    ensures
        name_lt(a, c),
{
    let k1 = choose|k: int| before_at(a, b, k);
    let k2 = choose|k: int| before_at(b, c, k);
    let k = if k1 <= k2 {
        k1
    } else {
        k2
    };
    assert(before_at(a, c, k));
}

/// Of two names, at most one comes before the other.
pub proof fn lemma_name_lt_asymmetric(a: Seq<char>, b: Seq<char>)
    requires
        name_lt(a, b),
    ensures
        !name_lt(b, a),
{
    if name_lt(b, a) {
        lemma_name_lt_transitive(a, b, a);
        lemma_name_lt_irreflexive(a, a);
    }
}

/// Compares two texts in the order of names.
pub fn compare_chars(a: &Vec<char>, b: &Vec<char>) -> (r: NameOrder)
    ensures
        r == NameOrder::Before <==> name_lt(a@, b@),
        r == NameOrder::Same <==> a@ == b@,
        r == NameOrder::After <==> name_lt(b@, a@),
{
    let mut i: usize = 0;
    while i < a.len() && i < b.len()
        invariant
            agree_below(a@, b@, i as int),
        decreases a.len() - i,
    {
        let x = a[i];
        let y = b[i];
        if x != y {
            if x < y {
                assert(before_at(a@, b@, i as int));
                proof {
                    lemma_name_lt_irreflexive(a@, b@);
                    lemma_name_lt_asymmetric(a@, b@);
                }
                return NameOrder::Before;
            } else {
                assert(agree_below(b@, a@, i as int));
                assert(before_at(b@, a@, i as int));
                proof {
                    lemma_name_lt_irreflexive(b@, a@);
                    lemma_name_lt_asymmetric(b@, a@);
                }
                return NameOrder::After;
            }
        }
        i += 1;
    }
    if a.len() < b.len() {
        assert(before_at(a@, b@, i as int));
        proof {
            lemma_name_lt_irreflexive(a@, b@);
            lemma_name_lt_asymmetric(a@, b@);
        }
        NameOrder::Before
    } else if b.len() < a.len() {
        assert(agree_below(b@, a@, i as int));
        assert(before_at(b@, a@, i as int));
        proof {
            lemma_name_lt_irreflexive(b@, a@);
            lemma_name_lt_asymmetric(b@, a@);
        }
        NameOrder::After
    } else {
        assert(a@ =~= b@);
        proof {
            if name_lt(a@, b@) {
                lemma_name_lt_irreflexive(a@, b@);
            }
        }
        NameOrder::Same
    }
}

/// Compares two strings in the order of names.
pub fn compare_names(a: &str, b: &str) -> (r: NameOrder)
    ensures
        r == NameOrder::Before <==> name_lt(a@, b@),
        r == NameOrder::Same <==> a@ == b@,
        r == NameOrder::After <==> name_lt(b@, a@),
{
    let x = chars_of(a);
    let y = chars_of(b);
    compare_chars(&x, &y)
}

/// The decimal digits of `n`, without leading zeros.
pub open spec fn decimal(n: nat) -> Seq<char>
    decreases n,
{
    if n < 10 {
        seq![digit_char(n as int)]
    } else {
        decimal(n / 10).push(digit_char((n % 10) as int))
    }
}

/// Writes `n` in decimal.
pub fn decimal_string(n: u64) -> (s: String)
    ensures
        s@ == decimal(n as nat),
    decreases n,
{
    if n < 10 {
        let mut s = String::new();
        push_char(&mut s, ((n as u8) + 48) as char);
        assert(s@ =~= seq![digit_char(n as int)]);
        s
    } else {
        let mut s = decimal_string(n / 10);
        push_char(&mut s, (((n % 10) as u8) + 48) as char);
        s
    }
}

/// The number of bytes that UTF-8 takes for the character.
pub open spec fn char_width(c: char) -> nat {
    let n = c as int;
    if n < 0x80 {
        1
    } else if n < 0x800 {
        2
    } else if n < 0x10000 {
        3
    } else {
        4
    }
}

/// The number of bytes that UTF-8 takes for the text: what std calls the length
/// of a string.
pub open spec fn byte_length(s: Seq<char>) -> nat
    decreases s.len(),
{
    if s.len() == 0 {
        0
    } else {
        byte_length(s.drop_last()) + char_width(s.last())
    }
}

/// A part of a text at its start takes no more bytes than the text.
pub proof fn lemma_byte_length_prefix(s: Seq<char>, n: int)
    requires
        0 <= n <= s.len(),
    ensures
        byte_length(s.take(n)) <= byte_length(s),
    decreases s.len(),
{
    if n == s.len() {
        assert(s.take(n) =~= s);
    } else {
        assert(s.drop_last().take(n) =~= s.take(n));
        lemma_byte_length_prefix(s.drop_last(), n);
    }
}

/// The code point of the character.
pub fn char_code(c: char) -> (n: u32)
    ensures
        n as int == c as int,
        n == c as u32,
{
    c as u32
}

/// Whether the text takes more than `limit` bytes.
pub fn longer_than(s: &Vec<char>, limit: usize) -> (r: bool)
    requires
        limit <= usize::MAX - 4,
    ensures
        r == (byte_length(s@) > limit),
{
    let mut total: usize = 0;
    let mut i: usize = 0;
    assert(s@.take(0) =~= Seq::<char>::empty());
    while i < s.len()
        invariant
            i <= s.len(),
            limit <= usize::MAX - 4,
            total == byte_length(s@.take(i as int)),
            total <= limit,
        decreases s.len() - i,
    {
        let c = s[i];
        let n: u32 = char_code(c);
        let width: usize = if n < 0x80 {
            1
        } else if n < 0x800 {
            2
        } else if n < 0x10000 {
            3
        } else {
            4
        };
        assert(s@.take(i + 1).drop_last() =~= s@.take(i as int));
        assert(s@.take(i + 1).last() == c);
        assert(width == char_width(c));
        total = total + width;
        if total > limit {
            proof {
                lemma_byte_length_prefix(s@, i + 1);
            }
            return true;
        }
        i += 1;
    }
    assert(s@.take(s.len() as int) =~= s@);
    false
}

/// The decimal digits of `v`, with a minus sign before them where `v` is negative.
pub open spec fn signed_decimal(v: int) -> Seq<char> {
    if v < 0 {
        seq!['-'] + decimal((-v) as nat)
    } else {
        decimal(v as nat)
    }
}

/// Writes `v` in decimal.
pub fn signed_decimal_string(v: i64) -> (s: String)
    ensures
        s@ == signed_decimal(v as int),
{
    if v < 0 {
        let magnitude: u64 = ((-(v + 1)) as u64) + 1;
        let mut s = String::new();
        push_char(&mut s, '-');
        s.append(decimal_string(magnitude).as_str());
        assert(s@ =~= seq!['-'] + decimal((-v) as nat));
        s
    } else {
        decimal_string(v as u64)
    }
}

/// The digits of a number are digits, there is at least one, and read back they
/// give the number, as long as it is in range.
pub proof fn lemma_scan_decimal(n: nat, negative: bool, lo: int, hi: int)
    requires
        lo <= 0 <= hi,
        negative ==> lo <= -(n as int),
        !negative ==> n <= hi,
    ensures
        decimal(n).len() >= 1,
        all_digits(decimal(n)),
        scan_digits(decimal(n), negative, lo, hi) == Ok::<int, IntErrorKind>(
            if negative {
                -(n as int)
            } else {
                n as int
            },
        ),
    decreases n,
{
    if n < 10 {
        let s = decimal(n);
        assert(s.drop_last() =~= Seq::<char>::empty());
        assert(s.last() == digit_char(n as int));
        assert(scan_digits(s.drop_last(), negative, lo, hi) == Ok::<int, IntErrorKind>(0));
    } else {
        lemma_scan_decimal(n / 10, negative, lo, hi);
        let head = decimal(n / 10);
        let s = decimal(n);
        assert(s.drop_last() =~= head);
        assert(s.last() == digit_char((n % 10) as int));
        assert(is_digit(s.last()));
        assert(digit_of(s.last()) == n % 10);
        assert forall|i: int| 0 <= i < s.len() implies is_digit(#[trigger] s[i]) by {
            if i < head.len() {
                assert(s[i] == head[i]);
            }
        }
    }
}

/// A number that is written out and read back is the number.
pub proof fn lemma_parse_signed_decimal(v: int, lo: int, hi: int)
    requires
        lo <= 0 <= hi,
        lo <= v <= hi,
    ensures
        parse_int(signed_decimal(v), true, lo, hi) == Ok::<int, IntErrorKind>(v),
        !signed_decimal(v).contains('\n'),
        !signed_decimal(v).contains('\r'),
{
    let s = signed_decimal(v);
    if v < 0 {
        let digits = decimal((-v) as nat);
        lemma_scan_decimal((-v) as nat, true, lo, hi);
        assert(s.skip(1) =~= digits);
        assert(s[0] == '-');
        assert forall|i: int| 0 <= i < s.len() implies s[i] != '\n' && s[i] != '\r' by {
            if i > 0 {
                assert(is_digit(digits[i - 1]));
            }
        }
    } else {
        lemma_scan_decimal(v as nat, false, lo, hi);
        assert(is_digit(s[0]));
        assert forall|i: int| 0 <= i < s.len() implies s[i] != '\n' && s[i] != '\r' by {
            assert(is_digit(s[i]));
        }
    }
}

/// The lines one after the other, each followed by a line feed.
pub open spec fn join_lines(all: Seq<Seq<char>>) -> Seq<char>
    decreases all.len(),
{
    if all.len() == 0 {
        Seq::empty()
    } else {
        join_lines(all.drop_last()) + all.last() + seq!['\n']
    }
}

/// Whether the text can stand as one line among others: it has no line feed and
/// does not end with a carriage return.
pub open spec fn is_line(s: Seq<char>) -> bool {
    &&& !s.contains('\n')
    &&& s.len() > 0 ==> s.last() != '\r'
}

/// A text without `sep` that is put behind another lengthens the last piece of
/// that other.
pub proof fn lemma_split_append(a: Seq<char>, s: Seq<char>, sep: char)
    requires
        !s.contains(sep),
    ensures
        split(a + s, sep) == split(a, sep).drop_last().push(split(a, sep).last() + s),
    decreases s.len(),
{
    lemma_split_nonempty(a, sep);
    if s.len() == 0 {
        assert(a + s =~= a);
        assert(split(a, sep).last() + s =~= split(a, sep).last());
        assert(split(a, sep).drop_last().push(split(a, sep).last()) =~= split(a, sep));
    } else {
        let front = s.drop_last();
        assert(!front.contains(sep)) by {
            if front.contains(sep) {
                let k = choose|k: int| 0 <= k < front.len() && front[k] == sep;
                assert(s[k] == sep);
            }
        }
        lemma_split_append(a, front, sep);
        assert((a + s).drop_last() =~= a + front);
        assert((a + s).last() == s.last());
        assert(s.last() != sep) by {
            assert(s[s.len() - 1] == s.last());
        }
        let head = split(a + front, sep);
        assert(head.last() == split(a, sep).last() + front);
        assert(head.last().push(s.last()) =~= split(a, sep).last() + s);
        assert(head.drop_last() =~= split(a, sep).drop_last());
    }
}

/// Lines that are joined and split again are the same lines.
pub proof fn lemma_lines_of_joined(all: Seq<Seq<char>>)
    requires
        forall|i: int| 0 <= i < all.len() ==> is_line(#[trigger] all[i]),
    ensures
        split(join_lines(all), '\n') == all.push(Seq::<char>::empty()),
        lines(join_lines(all)) == all,
    decreases all.len(),
{
    if all.len() == 0 {
        assert(split(join_lines(all), '\n') =~= all.push(Seq::<char>::empty()));
    } else {
        let front = all.drop_last();
        assert forall|i: int| 0 <= i < front.len() implies is_line(#[trigger] front[i]) by {
            assert(front[i] == all[i]);
        }
        lemma_lines_of_joined(front);
        let joined = join_lines(front);
        assert(is_line(all[all.len() - 1]));
        lemma_split_append(joined, all.last(), '\n');
        let with_line = joined + all.last();
        assert(split(with_line, '\n') =~= all) by {
            assert(split(joined, '\n').last() + all.last() =~= all.last());
            assert(split(joined, '\n').drop_last() =~= front);
        }
        let whole = with_line + seq!['\n'];
        assert(whole.drop_last() =~= with_line);
        assert(whole.last() == '\n');
        assert(join_lines(all) == whole);
    }
    let pieces = split(join_lines(all), '\n');
    assert(pieces.last().len() == 0);
    assert(lines(join_lines(all)) =~= all) by {
        assert forall|i: int| 0 <= i < all.len() implies strip_cr(pieces[i]) == all[i] by {
            assert(is_line(all[i]));
        }
    }
}

/// What the digits `s` are worth, with the sign that `negative` gives them.
pub open spec fn signed_value(s: Seq<char>, negative: bool) -> int {
    if negative {
        -digits_value(s)
    } else {
        digits_value(s)
    }
}

/// Whether the text writes a decimal integer: a plus sign, or a minus sign where
/// `signed`, or no sign, and then at least one digit and nothing but digits.
pub open spec fn is_decimal(s: Seq<char>, signed: bool) -> bool {
    if s.len() == 0 {
        false
    } else if s[0] == '+' || (s[0] == '-' && signed) {
        s.len() > 1 && all_digits(s.skip(1))
    } else {
        all_digits(s)
    }
}

/// The integer that the text writes, where it writes one.
pub open spec fn decimal_value(s: Seq<char>, signed: bool) -> int {
    if s.len() > 0 && s[0] == '+' {
        digits_value(s.skip(1))
    } else if s.len() > 0 && s[0] == '-' && signed {
        -digits_value(s.skip(1))
    } else {
        digits_value(s)
    }
}

/// Reading digits from left to right succeeds exactly where all of them are
/// digits and what they are worth lies in the range, and then it gives what they
/// are worth.
pub proof fn lemma_scan_digits_is_value(s: Seq<char>, negative: bool, lo: int, hi: int)
    requires
        lo <= 0 <= hi,
    ensures
        all_digits(s) ==> digits_value(s) >= 0,
        scan_digits(s, negative, lo, hi) is Ok <==> all_digits(s) && lo <= signed_value(s, negative)
            <= hi,
        scan_digits(s, negative, lo, hi) matches Ok(v) ==> v == signed_value(s, negative),
    decreases s.len(),
{
    if s.len() > 0 {
        let front = s.drop_last();
        let c = s.last();
        lemma_scan_digits_is_value(front, negative, lo, hi);
        assert(all_digits(s) ==> all_digits(front) && is_digit(c)) by {
            if all_digits(s) {
                assert(is_digit(s[s.len() - 1]));
                assert forall|i: int| 0 <= i < front.len() implies is_digit(#[trigger] front[i]) by {
                    assert(front[i] == s[i]);
                }
            }
        }
        assert(all_digits(front) && is_digit(c) ==> all_digits(s)) by {
            if all_digits(front) && is_digit(c) {
                assert forall|i: int| 0 <= i < s.len() implies is_digit(#[trigger] s[i]) by {
                    if i < front.len() {
                        assert(s[i] == front[i]);
                    }
                }
            }
        }
    }
}

/// Reading a text as a decimal integer succeeds exactly where the text writes one
/// that lies in the range, and then it gives that integer.
pub proof fn lemma_parse_int_is_value(s: Seq<char>, signed: bool, lo: int, hi: int)
    requires
        lo <= 0 <= hi,
    ensures
        parse_int(s, signed, lo, hi) is Ok <==> is_decimal(s, signed) && lo <= decimal_value(
            s,
            signed,
        ) <= hi,
        parse_int(s, signed, lo, hi) matches Ok(v) ==> v == decimal_value(s, signed),
{
    if s.len() > 0 {
        if s[0] == '+' {
            lemma_scan_digits_is_value(s.skip(1), false, lo, hi);
        } else if s[0] == '-' && signed {
            lemma_scan_digits_is_value(s.skip(1), true, lo, hi);
        } else {
            lemma_scan_digits_is_value(s, false, lo, hi);
            if s.len() == 1 && s[0] == '-' {
                assert(!is_digit(s[0]));
            }
        }
    }
}

} // verus!
