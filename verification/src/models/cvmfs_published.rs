//! The manifest of a repository: the text format of `.cvmfspublished` and the
//! record that it is read into.

use vstd::prelude::*;
use crate::errors::{ManifestError, ManifestFault};
use crate::models::generic::{is_hex_text, HexString};
use crate::text::{
    ascii_lowercase, chars_of, is_hex_digit, is_line, join_lines, lemma_lines_of_joined,
    lemma_parse_signed_decimal, lines, lines_of, push_char, signed_decimal,
    signed_decimal_string, string_of, string_of_range, views,
};
use crate::utilities::{
    boolean_field, hex_field, number_field, parse_boolean_field, parse_hex_field,
    parse_number_field, ManifestFields,
};

verus! {

/// The manifest of a repository or replica. Each field is named after its tag in
/// the text, in lower case:
///
/// - `c`: hash of the repository's current root catalog
/// - `b`: size of the root catalog in bytes
/// - `a`: whether the catalog is to be fetched under its alternative name
/// - `r`: MD5 hash of the repository's root path
/// - `x`: hash of the signing certificate
/// - `g`: whether the repository can be garbage collected
/// - `h`: hash of the tag history
/// - `t`: Unix time of this revision
/// - `d`: time to live of the root catalog
/// - `s`: number of this revision
/// - `n`: full name of the repository
/// - `m`: hash of the repository's JSON metadata
/// - `y`: hash of the reflog checksum
/// - `l`: reserved for micro catalogs
/// - `signature`: what follows the end of the fields; it is kept and never checked
#[derive(Debug, PartialEq)]
pub struct Manifest {
    pub c: HexString,
    pub b: i64,
    pub a: bool,
    pub r: HexString,
    pub x: HexString,
    pub g: bool,
    pub h: HexString,
    pub t: i64,
    pub d: i32,
    pub s: i32,
    pub n: String,
    pub m: HexString,
    pub y: HexString,
    pub l: String,
    pub signature: String,
}

/// A manifest with its texts as sequences of characters.
pub struct ManifestView {
    pub c: Seq<char>,
    pub b: i64,
    pub a: bool,
    pub r: Seq<char>,
    pub x: Seq<char>,
    pub g: bool,
    pub h: Seq<char>,
    pub t: i64,
    pub d: i32,
    pub s: i32,
    pub n: Seq<char>,
    pub m: Seq<char>,
    pub y: Seq<char>,
    pub l: Seq<char>,
    pub signature: Seq<char>,
}

impl View for Manifest {
    type V = ManifestView;

    open spec fn view(&self) -> ManifestView {
        ManifestView {
            c: self.c@,
            b: self.b,
            a: self.a,
            r: self.r@,
            x: self.x@,
            g: self.g,
            h: self.h@,
            t: self.t,
            d: self.d,
            s: self.s,
            n: self.n@,
            m: self.m@,
            y: self.y@,
            l: self.l@,
            signature: self.signature@,
        }
    }
}

impl Clone for Manifest {
    fn clone(&self) -> (r: Self)
        ensures
            r@ == self@,
    {
        Manifest {
            c: self.c.clone(),
            b: self.b,
            a: self.a,
            r: self.r.clone(),
            x: self.x.clone(),
            g: self.g,
            h: self.h.clone(),
            t: self.t,
            d: self.d,
            s: self.s,
            n: self.n.clone(),
            m: self.m.clone(),
            y: self.y.clone(),
            l: self.l.clone(),
            signature: self.signature.clone(),
        }
    }
}

/// The line that ends the fields of a manifest.
pub open spec fn end_of_fields() -> Seq<char> {
    seq!['-', '-']
}

/// What has been read of a manifest's lines: the fields so far, whether the end of
/// the fields has been passed, the signature so far, and whether every line among
/// the fields had a tag.
pub struct ManifestText {
    pub fields: Map<char, Seq<char>>,
    pub in_signature: bool,
    pub signature: Seq<char>,
    pub tagged: bool,
}

/// Reads one more line. Before the end of the fields, a line is a tag, its first
/// character, and a value, the rest of the line; a later line with the same tag
/// replaces an earlier one, and an empty line, which has no tag, is noted as a
/// fault of the text. After the end, each line goes to the signature with nothing
/// in between.
pub open spec fn read_line(before: ManifestText, line: Seq<char>) -> ManifestText {
    if before.in_signature {
        ManifestText { signature: before.signature + line, ..before }
    } else if line == end_of_fields() {
        ManifestText { in_signature: true, ..before }
    } else if line.len() == 0 {
        ManifestText { tagged: false, ..before }
    } else {
        ManifestText { fields: before.fields.insert(line[0], line.skip(1)), ..before }
    }
}

/// Reads the lines in order.
pub open spec fn read_lines(all: Seq<Seq<char>>) -> ManifestText
    decreases all.len(),
{
    if all.len() == 0 {
        ManifestText {
            fields: Map::empty(),
            in_signature: false,
            signature: Seq::empty(),
            tagged: true,
        }
    } else {
        read_line(read_lines(all.drop_last()), all.last())
    }
}

/// Where all lines have a tag, so have the first `n` of them.
pub proof fn lemma_tagged_prefix(all: Seq<Seq<char>>, n: int)
    requires
        0 <= n <= all.len(),
        read_lines(all).tagged,
    ensures
        read_lines(all.take(n)).tagged,
    decreases all.len(),
{
    if n == all.len() {
        assert(all.take(n) =~= all);
    } else {
        assert(all.drop_last().take(n) =~= all.take(n));
        lemma_tagged_prefix(all.drop_last(), n);
    }
}

/// The first field, in the order `C B A R X G H T D S N M Y`, that is absent or
/// holds a value that cannot be read, with what is wrong with it.
pub open spec fn first_fault(fields: Map<char, Seq<char>>) -> Option<ManifestFault> {
    if hex_field(fields, 'C') is Err {
        Some(hex_field(fields, 'C')->Err_0)
    } else if number_field(fields, 'B', i64::MIN as int, i64::MAX as int) is Err {
        Some(number_field(fields, 'B', i64::MIN as int, i64::MAX as int)->Err_0)
    } else if boolean_field(fields, 'A') is Err {
        Some(boolean_field(fields, 'A')->Err_0)
    } else if hex_field(fields, 'R') is Err {
        Some(hex_field(fields, 'R')->Err_0)
    } else if hex_field(fields, 'X') is Err {
        Some(hex_field(fields, 'X')->Err_0)
    } else if boolean_field(fields, 'G') is Err {
        Some(boolean_field(fields, 'G')->Err_0)
    } else if hex_field(fields, 'H') is Err {
        Some(hex_field(fields, 'H')->Err_0)
    } else if number_field(fields, 'T', i64::MIN as int, i64::MAX as int) is Err {
        Some(number_field(fields, 'T', i64::MIN as int, i64::MAX as int)->Err_0)
    } else if number_field(fields, 'D', i32::MIN as int, i32::MAX as int) is Err {
        Some(number_field(fields, 'D', i32::MIN as int, i32::MAX as int)->Err_0)
    } else if number_field(fields, 'S', i32::MIN as int, i32::MAX as int) is Err {
        Some(number_field(fields, 'S', i32::MIN as int, i32::MAX as int)->Err_0)
    } else if !fields.contains_key('N') {
        Some(ManifestFault::MissingField('N'))
    } else if hex_field(fields, 'M') is Err {
        Some(hex_field(fields, 'M')->Err_0)
    } else if hex_field(fields, 'Y') is Err {
        Some(hex_field(fields, 'Y')->Err_0)
    } else {
        None
    }
}

/// The manifest that the fields and the signature make, where no field has a fault.
/// The reserved field `L` is empty where it is absent.
pub open spec fn manifest_of(fields: Map<char, Seq<char>>, signature: Seq<char>) -> ManifestView {
    ManifestView {
        c: hex_field(fields, 'C')->Ok_0,
        b: number_field(fields, 'B', i64::MIN as int, i64::MAX as int)->Ok_0 as i64,
        a: boolean_field(fields, 'A')->Ok_0,
        r: hex_field(fields, 'R')->Ok_0,
        x: hex_field(fields, 'X')->Ok_0,
        g: boolean_field(fields, 'G')->Ok_0,
        h: hex_field(fields, 'H')->Ok_0,
        t: number_field(fields, 'T', i64::MIN as int, i64::MAX as int)->Ok_0 as i64,
        d: number_field(fields, 'D', i32::MIN as int, i32::MAX as int)->Ok_0 as i32,
        s: number_field(fields, 'S', i32::MIN as int, i32::MAX as int)->Ok_0 as i32,
        n: fields['N'],
        m: hex_field(fields, 'M')->Ok_0,
        y: hex_field(fields, 'Y')->Ok_0,
        l: if fields.contains_key('L') {
            fields['L']
        } else {
            Seq::empty()
        },
        signature,
    }
}

/// What the text of a manifest says: the manifest, or what is wrong with the text.
/// A line among the fields that is empty, and so has no tag, is reported before any
/// fault of a field; of the fields, the first that has a fault is reported.
pub open spec fn parse_manifest(content: Seq<char>) -> Result<ManifestView, ManifestFault> {
    let text = read_lines(lines(content));
    if !text.tagged {
        Err(ManifestFault::EmptyLine)
    } else {
        match first_fault(text.fields) {
            Some(fault) => Err(fault),
            None => Ok(manifest_of(text.fields, text.signature)),
        }
    }
}

/// Splits the text into lines and reads them. Gives the fields and the signature,
/// or nothing where a line among the fields has no tag.
fn read_manifest_text(content: &str) -> (r: Option<(ManifestFields, String)>)
    ensures
        r is Some <==> read_lines(lines(content@)).tagged,
        r matches Some(pair) ==> pair.0@ == read_lines(lines(content@)).fields && pair.1@
            == read_lines(lines(content@)).signature,
{
    let chars = chars_of(content);
    let all = lines_of(&chars);
    let mut data = ManifestFields::new();
    let mut signature = String::new();
    let mut is_signature = false;
    let mut i: usize = 0;
    let ghost whole = lines(content@);
    assert(whole.take(0) =~= Seq::<Seq<char>>::empty());
    while i < all.len()
        invariant
            i <= all.len(),
            views(all@) == whole,
            whole == lines(content@),
            read_lines(whole.take(i as int)) == (ManifestText {
                fields: data@,
                in_signature: is_signature,
                signature: signature@,
                tagged: true,
            }),
        decreases all.len() - i,
    {
        let line = &all[i];
        proof {
            assert(whole.take(i + 1).drop_last() =~= whole.take(i as int));
            assert(whole.take(i + 1).last() == line@);
        }
        if is_signature {
            let text = string_of(line);
            signature.append(text.as_str());
        } else if line.len() == 2 && line[0] == '-' && line[1] == '-' {
            assert(line@ =~= end_of_fields());
            is_signature = true;
        } else if line.len() == 0 {
            proof {
                assert(!read_lines(whole.take(i + 1)).tagged);
                if read_lines(whole).tagged {
                    lemma_tagged_prefix(whole, i + 1);
                }
            }
            return None;
        } else {
            assert(line@ != end_of_fields()) by {
                if line@ == end_of_fields() {
                    assert(line@.len() == 2);
                    assert(line@[0] == '-' && line@[1] == '-');
                }
            }
            let value = string_of_range(line, 1, line.len());
            assert(line@.subrange(1, line.len() as int) =~= line@.skip(1));
            data.insert(line[0], value);
        }
        i += 1;
    }
    assert(whole.take(all.len() as int) =~= whole);
    Some((data, signature))
}

impl Manifest {
    /// Reads a manifest from its text. The lines up to a line `--` are the fields,
    /// the lines after it are the signature. Each line among the fields is a tag
    /// and a value; an empty one is an error. The fields are read in the order
    /// `C B A R X G H T D S N M Y`, and the first that is missing or cannot be read
    /// is the error.
    pub fn from_str(content: &str) -> (r: Result<Manifest, ManifestError>)
        ensures
            match parse_manifest(content@) {
                Ok(manifest) => r matches Ok(m) && m@ == manifest,
                Err(fault) => r matches Err(e) && e@ == fault,
            },
    {
        let (data, signature) = match read_manifest_text(content) {
            Some(read) => read,
            None => return Err(ManifestError::EmptyLine),
        };
        let c = match parse_hex_field(&data, 'C') {
            Ok(v) => v,
            Err(e) => return Err(e),
        };
        let b = match parse_number_field::<i64>(&data, 'B') {
            Ok(v) => v,
            Err(e) => return Err(e),
        };
        let a = match parse_boolean_field(&data, 'A') {
            Ok(v) => v,
            Err(e) => return Err(e),
        };
        let r = match parse_hex_field(&data, 'R') {
            Ok(v) => v,
            Err(e) => return Err(e),
        };
        let x = match parse_hex_field(&data, 'X') {
            Ok(v) => v,
            Err(e) => return Err(e),
        };
        let g = match parse_boolean_field(&data, 'G') {
            Ok(v) => v,
            Err(e) => return Err(e),
        };
        let h = match parse_hex_field(&data, 'H') {
            Ok(v) => v,
            Err(e) => return Err(e),
        };
        let t = match parse_number_field::<i64>(&data, 'T') {
            Ok(v) => v,
            Err(e) => return Err(e),
        };
        let d = match parse_number_field::<i32>(&data, 'D') {
            Ok(v) => v,
            Err(e) => return Err(e),
        };
        let s = match parse_number_field::<i32>(&data, 'S') {
            Ok(v) => v,
            Err(e) => return Err(e),
        };
        let n = match data.get('N') {
            Some(v) => v.clone(),
            None => return Err(ManifestError::MissingField('N')),
        };
        let m = match parse_hex_field(&data, 'M') {
            Ok(v) => v,
            Err(e) => return Err(e),
        };
        let y = match parse_hex_field(&data, 'Y') {
            Ok(v) => v,
            Err(e) => return Err(e),
        };
        let l = match data.get('L') {
            Some(v) => v.clone(),
            None => String::new(),
        };
        Ok(Manifest { c, b, a, r, x, g, h, t, d, s, n, m, y, l, signature })
    }
}


/// How a truth value is written in a manifest.
pub open spec fn yes_no(b: bool) -> Seq<char> {
    if b {
        seq!['y', 'e', 's']
    } else {
        seq!['n', 'o']
    }
}

impl ManifestView {
    /// The lines that write the manifest: one for each field, the tag before the
    /// value, in the order `C B A R X G H T D S N M Y L`; then the line that ends
    /// the fields; then the signature.
    pub open spec fn to_lines(self) -> Seq<Seq<char>> {
        seq![
            seq!['C'] + self.c,
            seq!['B'] + signed_decimal(self.b as int),
            seq!['A'] + yes_no(self.a),
            seq!['R'] + self.r,
            seq!['X'] + self.x,
            seq!['G'] + yes_no(self.g),
            seq!['H'] + self.h,
            seq!['T'] + signed_decimal(self.t as int),
            seq!['D'] + signed_decimal(self.d as int),
            seq!['S'] + signed_decimal(self.s as int),
            seq!['N'] + self.n,
            seq!['M'] + self.m,
            seq!['Y'] + self.y,
            seq!['L'] + self.l,
            end_of_fields(),
            self.signature,
        ]
    }

    /// The text that writes the manifest.
    pub open spec fn to_text(self) -> Seq<char> {
        join_lines(self.to_lines())
    }

    /// Whether the manifest can be written and read back: its hashes are an even
    /// number of hexadecimal digits in lower case, and its name, its reserved field
    /// and its signature each fit on a line.
    pub open spec fn is_writable(self) -> bool {
        &&& is_hex_text(self.c) && ascii_lowercase(self.c) == self.c
        &&& is_hex_text(self.r) && ascii_lowercase(self.r) == self.r
        &&& is_hex_text(self.x) && ascii_lowercase(self.x) == self.x
        &&& is_hex_text(self.h) && ascii_lowercase(self.h) == self.h
        &&& is_hex_text(self.m) && ascii_lowercase(self.m) == self.m
        &&& is_hex_text(self.y) && ascii_lowercase(self.y) == self.y
        &&& is_line(self.n)
        &&& is_line(self.l)
        &&& is_line(self.signature)
    }
}

/// A tag with a value behind it is a line where the value is one, or is made of
/// hexadecimal digits.
proof fn lemma_tagged_line(tag: char, value: Seq<char>)
    requires
        tag != '\n',
        tag != '\r',
        is_line(value) || is_hex_text(value),
    ensures
        is_line(seq![tag] + value),
        (seq![tag] + value)[0] == tag,
        (seq![tag] + value).skip(1) == value,
        (seq![tag] + value).len() > 0,
{
    let line = seq![tag] + value;
    assert(line.skip(1) =~= value);
    assert forall|i: int| 0 <= i < value.len() implies value[i] != '\n' by {
        if is_hex_text(value) {
            assert(is_hex_digit(value[i]));
        } else {
            assert(value.contains(value[i]));
        }
    }
    assert(!line.contains('\n')) by {
        if line.contains('\n') {
            let k = choose|k: int| 0 <= k < line.len() && line[k] == '\n';
            if k > 0 {
                assert(line[k] == value[k - 1]);
            }
        }
    }
    if value.len() > 0 {
        assert(line.last() == value.last());
        if is_hex_text(value) {
            assert(is_hex_digit(value[value.len() - 1]));
        }
    }
}

/// A number written in decimal is a line.
proof fn lemma_number_is_line(v: int, lo: int, hi: int)
    requires
        lo <= 0 <= hi,
        lo <= v <= hi,
    ensures
        is_line(signed_decimal(v)),
{
    lemma_parse_signed_decimal(v, lo, hi);
    let s = signed_decimal(v);
    if s.len() > 0 {
        assert(s.contains(s.last())) by {
            assert(s[s.len() - 1] == s.last());
        }
    }
}

impl ManifestView {
    /// The fields that the lines of the manifest hold.
    pub open spec fn to_fields(self) -> Map<char, Seq<char>> {
        Map::<char, Seq<char>>::empty().insert('C', self.c).insert(
            'B',
            signed_decimal(self.b as int),
        ).insert('A', yes_no(self.a)).insert('R', self.r).insert('X', self.x).insert(
            'G',
            yes_no(self.g),
        ).insert('H', self.h).insert('T', signed_decimal(self.t as int)).insert(
            'D',
            signed_decimal(self.d as int),
        ).insert('S', signed_decimal(self.s as int)).insert('N', self.n).insert('M', self.m).insert(
            'Y',
            self.y,
        ).insert('L', self.l)
    }
}

/// A truth value as a manifest writes it is a line.
proof fn lemma_yes_no_is_line(v: bool)
    ensures
        is_line(yes_no(v)),
{
    let w = yes_no(v);
    if w.contains('\n') {
        let k = choose|k: int| 0 <= k < w.len() && w[k] == '\n';
    }
}

/// The lines that write a manifest are what the text that writes it splits into.
proof fn lemma_written_lines(m: ManifestView)
    requires
        m.is_writable(),
    ensures
        lines(m.to_text()) == m.to_lines(),
{
    let all = m.to_lines();
    assert(is_line(all[0])) by {
        lemma_tagged_line('C', m.c);
    }
    assert(is_line(all[1])) by {
        lemma_number_is_line(m.b as int, i64::MIN as int, i64::MAX as int);
        lemma_tagged_line('B', signed_decimal(m.b as int));
    }
    assert(is_line(all[2])) by {
        lemma_yes_no_is_line(m.a);
        lemma_tagged_line('A', yes_no(m.a));
    }
    assert(is_line(all[3])) by {
        lemma_tagged_line('R', m.r);
    }
    assert(is_line(all[4])) by {
        lemma_tagged_line('X', m.x);
    }
    assert(is_line(all[5])) by {
        lemma_yes_no_is_line(m.g);
        lemma_tagged_line('G', yes_no(m.g));
    }
    assert(is_line(all[6])) by {
        lemma_tagged_line('H', m.h);
    }
    assert(is_line(all[7])) by {
        lemma_number_is_line(m.t as int, i64::MIN as int, i64::MAX as int);
        lemma_tagged_line('T', signed_decimal(m.t as int));
    }
    assert(is_line(all[8])) by {
        lemma_number_is_line(m.d as int, i32::MIN as int, i32::MAX as int);
        lemma_tagged_line('D', signed_decimal(m.d as int));
    }
    assert(is_line(all[9])) by {
        lemma_number_is_line(m.s as int, i32::MIN as int, i32::MAX as int);
        lemma_tagged_line('S', signed_decimal(m.s as int));
    }
    assert(is_line(all[10])) by {
        lemma_tagged_line('N', m.n);
    }
    assert(is_line(all[11])) by {
        lemma_tagged_line('M', m.m);
    }
    assert(is_line(all[12])) by {
        lemma_tagged_line('Y', m.y);
    }
    assert(is_line(all[13])) by {
        lemma_tagged_line('L', m.l);
    }
    assert(is_line(all[14])) by {
        let e = end_of_fields();
        if e.contains('\n') {
            let k = choose|k: int| 0 <= k < e.len() && e[k] == '\n';
        }
    }
    assert(is_line(all[15]));
    assert(all.len() == 16);
    lemma_lines_of_joined(all);
}

/// Reading one line that is a tag and a value, before the end of the fields, sets
/// the field.
proof fn lemma_read_field(before: Seq<Seq<char>>, tag: char, value: Seq<char>)
    requires
        tag != '-',
        !read_lines(before).in_signature,
    ensures
        read_lines(before.push(seq![tag] + value)) == (ManifestText {
            fields: read_lines(before).fields.insert(tag, value),
            ..read_lines(before)
        }),
{
    let line = seq![tag] + value;
    let all = before.push(line);
    assert(all.drop_last() =~= before);
    assert(all.last() == line);
    assert(line[0] == tag);
    assert(line.skip(1) =~= value);
    assert(line != end_of_fields()) by {
        assert(end_of_fields()[0] == '-');
    }
}

/// Reading the lines that write a manifest gives its fields and its signature.
proof fn lemma_read_written_lines(m: ManifestView)
    ensures
        read_lines(m.to_lines()) == (ManifestText {
            fields: m.to_fields(),
            in_signature: true,
            signature: m.signature,
            tagged: true,
        }),
{
    let all = m.to_lines();
    let l0 = Seq::<Seq<char>>::empty();
    let l1 = l0.push(all[0]);
    let l2 = l1.push(all[1]);
    let l3 = l2.push(all[2]);
    let l4 = l3.push(all[3]);
    let l5 = l4.push(all[4]);
    let l6 = l5.push(all[5]);
    let l7 = l6.push(all[6]);
    let l8 = l7.push(all[7]);
    let l9 = l8.push(all[8]);
    let l10 = l9.push(all[9]);
    let l11 = l10.push(all[10]);
    let l12 = l11.push(all[11]);
    let l13 = l12.push(all[12]);
    let l14 = l13.push(all[13]);
    let l15 = l14.push(all[14]);
    let l16 = l15.push(all[15]);
    lemma_read_field(l0, 'C', m.c);
    lemma_read_field(l1, 'B', signed_decimal(m.b as int));
    lemma_read_field(l2, 'A', yes_no(m.a));
    lemma_read_field(l3, 'R', m.r);
    lemma_read_field(l4, 'X', m.x);
    lemma_read_field(l5, 'G', yes_no(m.g));
    lemma_read_field(l6, 'H', m.h);
    lemma_read_field(l7, 'T', signed_decimal(m.t as int));
    lemma_read_field(l8, 'D', signed_decimal(m.d as int));
    lemma_read_field(l9, 'S', signed_decimal(m.s as int));
    lemma_read_field(l10, 'N', m.n);
    lemma_read_field(l11, 'M', m.m);
    lemma_read_field(l12, 'Y', m.y);
    lemma_read_field(l13, 'L', m.l);
    let start = ManifestText {
        fields: Map::<char, Seq<char>>::empty(),
        in_signature: false,
        signature: Seq::<char>::empty(),
        tagged: true,
    };
    assert(read_lines(l0) == start);
    assert(read_lines(l14) == ManifestText { fields: m.to_fields(), ..start });
    assert(l15.drop_last() =~= l14 && l15.last() == end_of_fields());
    assert(read_lines(l15) == ManifestText { fields: m.to_fields(), in_signature: true, ..start });
    assert(l16.drop_last() =~= l15 && l16.last() == m.signature);
    assert(Seq::<char>::empty() + m.signature =~= m.signature);
    assert(read_lines(l16) == ManifestText {
        fields: m.to_fields(),
        in_signature: true,
        signature: m.signature,
        tagged: true,
    });
    assert(l16 =~= all);
}

/// The fields of a manifest that can be written have no fault, and make that
/// manifest.
proof fn lemma_written_fields(m: ManifestView)
    requires
        m.is_writable(),
    ensures
        first_fault(m.to_fields()) is None,
        manifest_of(m.to_fields(), m.signature) == m,
{
    reveal_strlit("yes");
    lemma_parse_signed_decimal(m.b as int, i64::MIN as int, i64::MAX as int);
    lemma_parse_signed_decimal(m.t as int, i64::MIN as int, i64::MAX as int);
    lemma_parse_signed_decimal(m.d as int, i32::MIN as int, i32::MAX as int);
    lemma_parse_signed_decimal(m.s as int, i32::MIN as int, i32::MAX as int);
    assert(ascii_lowercase(yes_no(true)) =~= "yes"@);
    assert(ascii_lowercase(yes_no(false)) != "yes"@) by {
        assert(ascii_lowercase(yes_no(false)).len() == 2);
    }
    let f = m.to_fields();
    assert(f['C'] == m.c && f['R'] == m.r && f['X'] == m.x && f['H'] == m.h && f['M'] == m.m
        && f['Y'] == m.y);
    assert(f['B'] == signed_decimal(m.b as int) && f['T'] == signed_decimal(m.t as int) && f['D']
        == signed_decimal(m.d as int) && f['S'] == signed_decimal(m.s as int));
    assert(f['A'] == yes_no(m.a) && f['G'] == yes_no(m.g) && f['N'] == m.n && f['L'] == m.l);
}

/// A manifest that is written and read back is the same manifest.
pub proof fn lemma_manifest_round_trip(m: ManifestView)
    requires
        m.is_writable(),
    ensures
        parse_manifest(m.to_text()) == Ok::<ManifestView, ManifestFault>(m),
{
    lemma_written_lines(m);
    lemma_read_written_lines(m);
    lemma_written_fields(m);
}

impl Manifest {
    /// Writes the manifest as text: a line for each field, then the line `--`,
    /// then the signature.
    pub fn to_text(&self) -> (s: String)
        ensures
            s@ == self@.to_text(),
    {
        let mut s = String::new();
        let ghost all = self@.to_lines();
        proof {
            assert(all.take(0) =~= Seq::<Seq<char>>::empty());
        }
        write_line(&mut s, 'C', self.c.as_str(), Ghost(all), Ghost(0));
        write_line(&mut s, 'B', signed_decimal_string(self.b).as_str(), Ghost(all), Ghost(1));
        write_line(&mut s, 'A', yes_no_str(self.a), Ghost(all), Ghost(2));
        write_line(&mut s, 'R', self.r.as_str(), Ghost(all), Ghost(3));
        write_line(&mut s, 'X', self.x.as_str(), Ghost(all), Ghost(4));
        write_line(&mut s, 'G', yes_no_str(self.g), Ghost(all), Ghost(5));
        write_line(&mut s, 'H', self.h.as_str(), Ghost(all), Ghost(6));
        write_line(&mut s, 'T', signed_decimal_string(self.t).as_str(), Ghost(all), Ghost(7));
        write_line(&mut s, 'D', signed_decimal_string(self.d as i64).as_str(), Ghost(all), Ghost(8));
        write_line(&mut s, 'S', signed_decimal_string(self.s as i64).as_str(), Ghost(all), Ghost(9));
        write_line(&mut s, 'N', self.n.as_str(), Ghost(all), Ghost(10));
        write_line(&mut s, 'M', self.m.as_str(), Ghost(all), Ghost(11));
        write_line(&mut s, 'Y', self.y.as_str(), Ghost(all), Ghost(12));
        write_line(&mut s, 'L', self.l.as_str(), Ghost(all), Ghost(13));
        proof {
            reveal_strlit("-");
            assert(seq!['-'] + "-"@ =~= end_of_fields());
        }
        write_line(&mut s, '-', "-", Ghost(all), Ghost(14));
        proof {
            assert(all.take(16).drop_last() =~= all.take(15));
            assert(all.take(16) =~= all);
        }
        s.append(self.signature.as_str());
        push_char(&mut s, '\n');
        s
    }

    /// Whether the manifest can be written and read back.
    pub fn is_writable(&self) -> (r: bool)
        ensures
            r == self@.is_writable(),
    {
        let _ = self.c.as_str();
        let _ = self.r.as_str();
        let _ = self.x.as_str();
        let _ = self.h.as_str();
        let _ = self.m.as_str();
        let _ = self.y.as_str();
        fits_on_line(self.n.as_str()) && fits_on_line(self.l.as_str()) && fits_on_line(
            self.signature.as_str(),
        )
    }
}

/// How a truth value is written in a manifest.
fn yes_no_str(b: bool) -> (s: &'static str)
    ensures
        s@ == yes_no(b),
{
    proof {
        reveal_strlit("yes");
        reveal_strlit("no");
    }
    if b {
        assert("yes"@ =~= yes_no(true));
        "yes"
    } else {
        assert("no"@ =~= yes_no(false));
        "no"
    }
}

/// Whether the text has no line feed and does not end with a carriage return.
fn fits_on_line(s: &str) -> (r: bool)
    ensures
        r == is_line(s@),
{
    let chars = chars_of(s);
    let n = chars.len();
    let mut i: usize = 0;
    while i < n
        invariant
            i <= n,
            n == chars.len(),
            chars@ == s@,
            forall|j: int| 0 <= j < i ==> chars[j] != '\n',
        decreases n - i,
    {
        if chars[i] == '\n' {
            assert(chars@.contains('\n'));
            return false;
        }
        i += 1;
    }
    n == 0 || chars[n - 1] != '\r'
}

/// Writes the line that is number `k` of `all`: the tag, the value and a line feed.
fn write_line(
    s: &mut String,
    tag: char,
    value: &str,
    Ghost(all): Ghost<Seq<Seq<char>>>,
    Ghost(k): Ghost<int>,
)
    requires
        0 <= k < all.len(),
        all[k] == seq![tag] + value@,
        old(s)@ == join_lines(all.take(k)),
    ensures
        final(s)@ == join_lines(all.take(k + 1)),
{
    proof {
        assert(all.take(k + 1).drop_last() =~= all.take(k));
        assert(all.take(k + 1).last() == all[k]);
    }
    push_char(s, tag);
    s.append(value);
    push_char(s, '\n');
    assert(s@ =~= join_lines(all.take(k)) + all[k] + seq!['\n']);
}

} // verus!
