//! The `PNDR` archive format.
//!
//! An archive on disk is `MAGIC1`, the byte size of the header written in
//! decimal, a `:`, and then an enciphered block made of `MAGIC2`, the header
//! text and the body text. The header text is
//! `{data_type=D,bloat=B,data_size=N,version=V,creation=C,last_modification=M,owner_pid=P}`.
//! The body is a JSON document; turning it into values is left to the
//! caller, which hands the library the body as text.

use vstd::prelude::*;
use vstd::utf8::*;
use vstd::slice::slice_to_vec;
use crate::time::{millis_in_range, utc_millis_in_range};
use crate::text::{
    chars_eq_str, chars_to_string, decimal, parse_u64, parse_u64_spec, push_decimal,
    push_signed_decimal, signed_decimal, str_to_chars,
};

verus! {

/// The first signature, in clear at the head of the file.
pub const MAGIC1: [u8; 5] = [127, 69, 42, 68, 127];
/// The second signature, at the head of the enciphered block.
pub const MAGIC2: [u8; 5] = [127, 85, 42, 68, 127];
/// The modulus of the cipher key.
pub const BLEP: u64 = 21;
/// The filler that every archive carries in its header.
pub const BLOAT: &'static str = "e2njgwzZVvCHVF9E9eLYMM9mqPgcqBOUNIocKvEzcftOAc9fywad3nOdnW5HgpmAMefcc4gDOrvXyVDCtxoVMp5oD1J2s9GbHK6SRCsOeQF74Dyl2yKXiTbmGyiMh90QfniFhf3QmZh1G6vAigmu514lZ1DIeRfMkhgKVYjq3wLkFlvoNdoLXlx6dIDRAnE3";
/// The version of the format that this library writes.
pub const VERSION: &'static str = "1.1.0";
/// The owner written into new archives.
pub const OWNER_PID: u64 = 0;

/// The format of the body of an archive.
#[derive(Debug, Clone, Copy, PartialEq, Eq, Structural)]
pub enum ArchiveDataFormat {
    Toml,
    Json,
    Yaml,
}

pub open spec fn data_format_code(f: ArchiveDataFormat) -> u8 {
    match f {
        ArchiveDataFormat::Toml => 0,
        ArchiveDataFormat::Json => 1,
        ArchiveDataFormat::Yaml => 2,
    }
}

impl From<ArchiveDataFormat> for u8 {
    fn from(value: ArchiveDataFormat) -> (r: u8) {
        match value {
            ArchiveDataFormat::Toml => 0,
            ArchiveDataFormat::Json => 1,
            ArchiveDataFormat::Yaml => 2,
        }
    }
}

impl vstd::std_specs::convert::FromSpecImpl<ArchiveDataFormat> for u8 {
    open spec fn obeys_from_spec() -> bool {
        true
    }

    open spec fn from_spec(value: ArchiveDataFormat) -> u8 {
        data_format_code(value)
    }
}

/// How an archive fails its integrity checks.
#[derive(Debug, Clone, Copy, PartialEq, Eq, Structural)]
pub enum Corruption {
    /// The file does not start with `MAGIC1`.
    MissingMagic1,
    /// The deciphered block does not start with `MAGIC2`.
    MissingMagic2,
    /// The header bytes are not UTF-8.
    HeaderNotUtf8,
    /// The header carries another filler than `BLOAT`.
    InvalidBloat,
    /// The body bytes are not UTF-8.
    BodyNotUtf8,
}

/// How the header of an archive is malformed.
#[derive(Debug, Clone, Copy, PartialEq, Eq, Structural)]
pub enum HeaderFault {
    /// The size written before `:` is absent or is not a `u64`.
    InvalidHeaderSize,
    /// A `=` stands where a value is being read.
    UnexpectedEquals,
    /// A `,` stands where a key is being read.
    UnexpectedComma,
    MissingBloat,
    MissingVersion,
    MissingDataType,
    MissingDataSize,
    MissingCreation,
    MissingLastModification,
    MissingOwner,
    /// The data type is none of `0`, `1`, `2`.
    InvalidDataType,
    InvalidDataSize,
    /// The creation date is not a `u64`, or lies out of the calendar's range.
    InvalidCreation,
    InvalidLastModification,
    InvalidOwner,
}

/// The errors of reading and writing archives.
#[derive(Debug, Clone, PartialEq, Eq)]
pub enum ArchiveError {
    CorruptedArchive(Corruption),
    InvalidHeader(HeaderFault),
    /// The body text is not a document of its data type.
    InvalidBody(String),
    /// The body could not be written as text.
    CannotSerializeBody(String),
    /// A value could not be turned into a body entry.
    InvalidBodyValue(String),
}

/// The header of an archive. Dates are milliseconds since the UNIX epoch.
#[derive(Debug, Clone)]
pub struct ArchiveHeader {
    pub data_type: ArchiveDataFormat,
    pub bloat: String,
    pub data_size: u64,
    pub version: String,
    pub creation: i64,
    pub last_modification: i64,
    pub owner_pid: u64,
}

pub ghost struct ArchiveHeaderView {
    pub data_type: ArchiveDataFormat,
    pub bloat: Seq<char>,
    pub data_size: u64,
    pub version: Seq<char>,
    pub creation: i64,
    pub last_modification: i64,
    pub owner_pid: u64,
}

impl View for ArchiveHeader {
    type V = ArchiveHeaderView;

    open spec fn view(&self) -> ArchiveHeaderView {
        ArchiveHeaderView {
            data_type: self.data_type,
            bloat: self.bloat@,
            data_size: self.data_size,
            version: self.version@,
            creation: self.creation,
            last_modification: self.last_modification,
            owner_pid: self.owner_pid,
        }
    }
}

/// Decodes bytes as UTF-8 text with `std::str::from_utf8`, which accepts
/// exactly the well-formed UTF-8 sequences.
#[verifier::external_body]
fn utf8_text(bytes: &[u8]) -> (r: Option<String>)
    ensures
        r is Some <==> valid_utf8(bytes@),
        r matches Some(s) ==> s@ == decode_utf8(bytes@),
{
    match std::str::from_utf8(bytes) {
        Ok(s) => Some(s.to_string()),
        Err(_) => None,
    }
}

// ----------------------------------------------------------------------
// Signatures

pub open spec fn has_magic(bytes: Seq<u8>, magic: Seq<u8>) -> bool {
    bytes.len() >= magic.len() && bytes.take(magic.len() as int) == magic
}

fn starts_with(bytes: &[u8], magic: &[u8; 5]) -> (r: bool)
    ensures
        r == has_magic(bytes@, magic@),
{
    if bytes.len() < 5 {
        return false;
    }
    let mut i: usize = 0;
    while i < 5
        invariant
            i <= 5,
            bytes@.len() >= 5,
            magic@.len() == 5,
            forall|j: int| 0 <= j < i ==> bytes@[j] == magic@[j],
        decreases 5 - i,
    {
        if bytes[i] != magic[i] {
            assert(bytes@.take(5)[i as int] != magic@[i as int]);
            return false;
        }
        i += 1;
    }
    assert(bytes@.take(5) =~= magic@);
    true
}

/// Whether the bytes start with the first signature.
pub fn check_magic1(bytes: &[u8]) -> (r: bool)
    ensures
        r == has_magic(bytes@, MAGIC1@),
{
    starts_with(bytes, &MAGIC1)
}

/// Whether the bytes start with the second signature.
pub fn check_magic2(bytes: &[u8]) -> (r: bool)
    ensures
        r == has_magic(bytes@, MAGIC2@),
{
    starts_with(bytes, &MAGIC2)
}

// ----------------------------------------------------------------------
// The cipher

/// The key of the byte at index `i` of a block whose header has
/// `header_size` bytes (the sum wraps around at 2^64).
pub open spec fn cipher_key(header_size: u64, i: int) -> int {
    ((header_size + i) % 0x1_0000_0000_0000_0000) % 21
}

pub open spec fn encrypt_byte(b: u8, header_size: u64, i: int) -> u8 {
    if i % 2 == 0 {
        ((b + cipher_key(header_size, i)) % 256) as u8
    } else {
        ((b - cipher_key(header_size, i)) % 256) as u8
    }
}

pub open spec fn decrypt_byte(b: u8, header_size: u64, i: int) -> u8 {
    if i % 2 == 0 {
        ((b - cipher_key(header_size, i)) % 256) as u8
    } else {
        ((b + cipher_key(header_size, i)) % 256) as u8
    }
}

pub open spec fn encrypt_spec(data: Seq<u8>, header_size: u64) -> Seq<u8> {
    Seq::new(data.len(), |i: int| encrypt_byte(data[i], header_size, i))
}

pub open spec fn decrypt_spec(data: Seq<u8>, header_size: u64) -> Seq<u8> {
    Seq::new(data.len(), |i: int| decrypt_byte(data[i], header_size, i))
}

fn key_at(header_size: u64, i: usize) -> (k: u8)
    ensures
        k as int == cipher_key(header_size, i as int),
{
    let s = header_size.wrapping_add(i as u64);
    assert(s as int == (header_size + i) % 0x1_0000_0000_0000_0000);
    (s % BLEP) as u8
}

/// Enciphers the block in place: even bytes go up by their key, odd bytes
/// go down, both modulo 256.
pub fn encrypt(data: &mut Vec<u8>, header_size: u64)
    ensures
        final(data)@ == encrypt_spec(old(data)@, header_size),
{
    let ghost original = data@;
    let n = data.len();
    let mut i: usize = 0;
    while i < n
        invariant
            n == data@.len(),
            n == original.len(),
            i <= n,
            forall|j: int| 0 <= j < i ==> data@[j] == encrypt_byte(original[j], header_size, j),
            forall|j: int| i <= j < n ==> data@[j] == original[j],
        decreases n - i,
    {
        let k = key_at(header_size, i);
        let b = data[i];
        let e = if i % 2 == 0 { b.wrapping_add(k) } else { b.wrapping_sub(k) };
        assert(e == encrypt_byte(original[i as int], header_size, i as int));
        data.set(i, e);
        i += 1;
    }
    assert(data@ =~= encrypt_spec(original, header_size));
}

/// Deciphers the block in place, undoing `encrypt`.
pub fn decrypt(data: &mut Vec<u8>, header_size: u64)
    ensures
        final(data)@ == decrypt_spec(old(data)@, header_size),
{
    let ghost original = data@;
    let n = data.len();
    let mut i: usize = 0;
    while i < n
        invariant
            n == data@.len(),
            n == original.len(),
            i <= n,
            forall|j: int| 0 <= j < i ==> data@[j] == decrypt_byte(original[j], header_size, j),
            forall|j: int| i <= j < n ==> data@[j] == original[j],
        decreases n - i,
    {
        let k = key_at(header_size, i);
        let b = data[i];
        let e = if i % 2 == 0 { b.wrapping_sub(k) } else { b.wrapping_add(k) };
        assert(e == decrypt_byte(original[i as int], header_size, i as int));
        data.set(i, e);
        i += 1;
    }
    assert(data@ =~= decrypt_spec(original, header_size));
}


/// Deciphering an enciphered block gives the block back.
pub proof fn law_decrypt_encrypt(data: Seq<u8>, header_size: u64)
    ensures
        decrypt_spec(encrypt_spec(data, header_size), header_size) == data,
{
    let e = encrypt_spec(data, header_size);
    assert forall|i: int| 0 <= i < data.len() implies decrypt_spec(e, header_size)[i] == data[i] by {
        lemma_byte_inverse(data[i], cipher_key(header_size, i));
    }
    assert(decrypt_spec(e, header_size) =~= data);
}

/// Enciphering a deciphered block gives the block back.
pub proof fn law_encrypt_decrypt(data: Seq<u8>, header_size: u64)
    ensures
        encrypt_spec(decrypt_spec(data, header_size), header_size) == data,
{
    let d = decrypt_spec(data, header_size);
    assert forall|i: int| 0 <= i < data.len() implies encrypt_spec(d, header_size)[i] == data[i] by {
        lemma_byte_inverse(data[i], cipher_key(header_size, i));
    }
    assert(encrypt_spec(d, header_size) =~= data);
}

/// Adding and taking away the same amount modulo 256 gives the byte back.
proof fn lemma_byte_inverse(b: u8, k: int)
    requires
        0 <= k < 256,
    ensures
        ((((b - k) % 256) as u8) + k) % 256 == b,
        ((((b + k) % 256) as u8) - k) % 256 == b,
{
}

// ----------------------------------------------------------------------
// The header text

/// The characters that the header syntax reserves.
pub open spec fn is_reserved(c: char) -> bool {
    c == '{' || c == '}' || c == '=' || c == ','
}

/// Whether a text holds none of the reserved characters.
pub open spec fn plain_text(s: Seq<char>) -> bool {
    forall|i: int| 0 <= i < s.len() ==> !is_reserved(#[trigger] s[i])
}

pub open spec fn header_entry(key: Seq<char>, value: Seq<char>) -> Seq<char> {
    key + seq!['='] + value
}

/// The entries joined by `,`.
pub open spec fn join_entries(es: Seq<(Seq<char>, Seq<char>)>) -> Seq<char>
    decreases es.len(),
{
    if es.len() == 0 {
        Seq::empty()
    } else if es.len() == 1 {
        header_entry(es[0].0, es[0].1)
    } else {
        join_entries(es.drop_last()) + seq![','] + header_entry(es.last().0, es.last().1)
    }
}

/// The entries of a header, in the order in which they are written.
pub open spec fn header_entries(h: ArchiveHeaderView) -> Seq<(Seq<char>, Seq<char>)> {
    seq![
        ("data_type"@, decimal(data_format_code(h.data_type) as nat)),
        ("bloat"@, h.bloat),
        ("data_size"@, decimal(h.data_size as nat)),
        ("version"@, h.version),
        ("creation"@, signed_decimal(h.creation as int)),
        ("last_modification"@, signed_decimal(h.last_modification as int)),
        ("owner_pid"@, decimal(h.owner_pid as nat)),
    ]
}

/// The header text: the entries between braces.
pub open spec fn header_text(h: ArchiveHeaderView) -> Seq<char> {
    seq!['{'] + join_entries(header_entries(h)) + seq!['}']
}

fn push_str(out: &mut Vec<char>, s: &str)
    ensures
        final(out)@ == old(out)@ + s@,
{
    let mut v = str_to_chars(s);
    out.append(&mut v);
}

impl ArchiveHeader {
    /// A fresh header: the current filler, version and owner, no data.
    pub fn new(data_type: ArchiveDataFormat, creation: i64, last_modification: i64) -> (h: ArchiveHeader)
        ensures
            h@ == (ArchiveHeaderView {
                data_type,
                bloat: BLOAT@,
                data_size: 0,
                version: VERSION@,
                creation,
                last_modification,
                owner_pid: OWNER_PID,
            }),
    {
        ArchiveHeader {
            data_type,
            bloat: BLOAT.to_owned(),
            data_size: 0,
            version: VERSION.to_owned(),
            creation,
            last_modification,
            owner_pid: OWNER_PID,
        }
    }

    /// The header text of this header.
    pub fn format_header(&self) -> (s: String)
        ensures
            s@ == header_text(self@),
    {
        let ghost es = header_entries(self@);
        let mut v0: Vec<char> = Vec::new();
        push_decimal(u8::from(self.data_type) as u64, &mut v0);
        let v1 = str_to_chars(self.bloat.as_str());
        let mut v2: Vec<char> = Vec::new();
        push_decimal(self.data_size, &mut v2);
        let v3 = str_to_chars(self.version.as_str());
        let mut v4: Vec<char> = Vec::new();
        push_signed_decimal(self.creation, &mut v4);
        let mut v5: Vec<char> = Vec::new();
        push_signed_decimal(self.last_modification, &mut v5);
        let mut v6: Vec<char> = Vec::new();
        push_decimal(self.owner_pid, &mut v6);
        proof {
            assert(v0@ =~= es[0].1);
            assert(v2@ =~= es[2].1);
            assert(v4@ =~= es[4].1);
            assert(v5@ =~= es[5].1);
            assert(v6@ =~= es[6].1);
        }
        let mut out: Vec<char> = Vec::new();
        out.push('{');
        push_field(&mut out, "data_type", v0.as_slice(), true);
        proof {
            lemma_join_first(es);
            assert(out@ =~= seq!['{'] + join_entries(es.take(1)));
        }
        push_field(&mut out, "bloat", v1.as_slice(), false);
        proof { lemma_join_next(es, 1, out@); }
        push_field(&mut out, "data_size", v2.as_slice(), false);
        proof { lemma_join_next(es, 2, out@); }
        push_field(&mut out, "version", v3.as_slice(), false);
        proof { lemma_join_next(es, 3, out@); }
        push_field(&mut out, "creation", v4.as_slice(), false);
        proof { lemma_join_next(es, 4, out@); }
        push_field(&mut out, "last_modification", v5.as_slice(), false);
        proof { lemma_join_next(es, 5, out@); }
        push_field(&mut out, "owner_pid", v6.as_slice(), false);
        proof {
            lemma_join_next(es, 6, out@);
            assert(es.take(7) =~= es);
        }
        out.push('}');
        chars_to_string(out.as_slice())
    }
}

fn push_field(out: &mut Vec<char>, key: &str, value: &[char], first: bool)
    ensures
        first ==> final(out)@ == old(out)@ + header_entry(key@, value@),
        !first ==> final(out)@ == old(out)@ + seq![','] + header_entry(key@, value@),
{
    if !first {
        out.push(',');
    }
    push_str(out, key);
    out.push('=');
    let mut v = slice_to_vec(value);
    out.append(&mut v);
    proof {
        if first {
            assert(final(out)@ =~= old(out)@ + header_entry(key@, value@));
        } else {
            assert(final(out)@ =~= old(out)@ + seq![','] + header_entry(key@, value@));
        }
    }
}

proof fn lemma_join_next(es: Seq<(Seq<char>, Seq<char>)>, k: int, out: Seq<char>)
    requires
        1 <= k < es.len(),
        exists|prev: Seq<char>| prev == seq!['{'] + join_entries(es.take(k))
            && out == prev + seq![','] + header_entry(es[k].0, es[k].1),
    ensures
        out == seq!['{'] + join_entries(es.take(k + 1)),
{
    lemma_join_step(es, k);
    assert(out =~= seq!['{'] + join_entries(es.take(k + 1)));
}

proof fn lemma_join_first(es: Seq<(Seq<char>, Seq<char>)>)
    requires
        es.len() >= 1,
    ensures
        join_entries(es.take(1)) == header_entry(es[0].0, es[0].1),
{
    assert(es.take(1)[0] == es[0]);
}

proof fn lemma_join_step(es: Seq<(Seq<char>, Seq<char>)>, k: int)
    requires
        1 <= k < es.len(),
    ensures
        join_entries(es.take(k + 1)) == join_entries(es.take(k)) + seq![','] + header_entry(es[k].0, es[k].1),
{
    assert(es.take(k + 1).drop_last() =~= es.take(k));
    assert(es.take(k + 1).last() == es[k]);
}

// ----------------------------------------------------------------------
// Reading the header text

/// Where the scan of a header text stands after some characters.
pub ghost struct HeaderScan {
    pub key: Seq<char>,
    pub value: Seq<char>,
    pub search_key: bool,
    pub fields: Seq<(Seq<char>, Seq<char>)>,
}

pub open spec fn scan_start() -> HeaderScan {
    HeaderScan { key: Seq::empty(), value: Seq::empty(), search_key: true, fields: Seq::empty() }
}

/// One character of the scan: braces are skipped, `=` ends a key, `,` ends
/// an entry, and any other character extends the key or the value.
pub open spec fn scan_step(st: HeaderScan, c: char) -> Result<HeaderScan, HeaderFault> {
    if c == '{' || c == '}' {
        Ok(st)
    } else if c == '=' {
        if st.search_key {
            Ok(HeaderScan { search_key: false, ..st })
        } else {
            Err(HeaderFault::UnexpectedEquals)
        }
    } else if c == ',' {
        if !st.search_key {
            Ok(HeaderScan {
                key: Seq::empty(),
                value: Seq::empty(),
                search_key: true,
                fields: st.fields.push((st.key, st.value)),
            })
        } else {
            Err(HeaderFault::UnexpectedComma)
        }
    } else if st.search_key {
        Ok(HeaderScan { key: st.key.push(c), ..st })
    } else {
        Ok(HeaderScan { value: st.value.push(c), ..st })
    }
}

pub open spec fn scan_from(st: HeaderScan, s: Seq<char>) -> Result<HeaderScan, HeaderFault>
    decreases s.len(),
{
    if s.len() == 0 {
        Ok(st)
    } else {
        match scan_from(st, s.drop_last()) {
            Ok(st2) => scan_step(st2, s.last()),
            Err(e) => Err(e),
        }
    }
}

/// The entries of a header text, in the order read; the last pair counts
/// only when its key and value are both non-empty.
pub open spec fn parse_header_spec(s: Seq<char>) -> Result<Seq<(Seq<char>, Seq<char>)>, HeaderFault> {
    match scan_from(scan_start(), s) {
        Ok(st) => Ok(
            if st.key.len() > 0 && st.value.len() > 0 && !st.search_key {
                st.fields.push((st.key, st.value))
            } else {
                st.fields
            },
        ),
        Err(e) => Err(e),
    }
}

/// The value of `key` among the entries; a later entry hides an earlier one.
pub open spec fn field(fields: Seq<(Seq<char>, Seq<char>)>, key: Seq<char>) -> Option<Seq<char>>
    decreases fields.len(),
{
    if fields.len() == 0 {
        None
    } else if fields.last().0 == key {
        Some(fields.last().1)
    } else {
        field(fields.drop_last(), key)
    }
}

/// The entries read from a header text.
pub struct HeaderFields {
    pub entries: Vec<(Vec<char>, Vec<char>)>,
}

pub open spec fn entries_view(es: Seq<(Vec<char>, Vec<char>)>) -> Seq<(Seq<char>, Seq<char>)> {
    es.map_values(|e: (Vec<char>, Vec<char>)| (e.0@, e.1@))
}

impl View for HeaderFields {
    type V = Seq<(Seq<char>, Seq<char>)>;

    open spec fn view(&self) -> Seq<(Seq<char>, Seq<char>)> {
        entries_view(self.entries@)
    }
}

impl HeaderFields {
    /// The value of `key`, the later entry winning.
    pub fn get(&self, key: &str) -> (r: Option<&Vec<char>>)
        ensures
            r is Some == field(self@, key@) is Some,
            r matches Some(v) ==> field(self@, key@) == Some(v@),
    {
        let mut i: usize = self.entries.len();
        proof {
            assert(self@.take(i as int) =~= self@);
        }
        while i > 0
            invariant
                i <= self.entries@.len(),
                field(self@, key@) == field(self@.take(i as int), key@),
            decreases i,
        {
            i -= 1;
            let entry = &self.entries[i];
            proof {
                assert(self@.take(i + 1).drop_last() =~= self@.take(i as int));
                assert(self@.take(i + 1).last() == (entry.0@, entry.1@));
            }
            if chars_eq_str(entry.0.as_slice(), key) {
                return Some(&entry.1);
            }
        }
        None
    }
}

pub proof fn lemma_scan_error_persists(st: HeaderScan, s: Seq<char>, i: int)
    requires
        0 <= i <= s.len(),
        scan_from(st, s.take(i)) is Err,
    ensures
        scan_from(st, s) == scan_from(st, s.take(i)),
    decreases s.len() - i,
{
    if i < s.len() {
        assert(s.take(i + 1).drop_last() =~= s.take(i));
        lemma_scan_error_persists(st, s, i + 1);
    } else {
        assert(s.take(i) =~= s);
    }
}

/// Reads the entries of a header text.
pub fn parse_header(origin: &[char]) -> (r: Result<HeaderFields, HeaderFault>)
    ensures
        match r {
            Ok(f) => parse_header_spec(origin@) == Ok::<_, HeaderFault>(f@),
            Err(e) => parse_header_spec(origin@) == Err::<Seq<(Seq<char>, Seq<char>)>, _>(e),
        },
{
    let mut fields: Vec<(Vec<char>, Vec<char>)> = Vec::new();
    let mut key: Vec<char> = Vec::new();
    let mut value: Vec<char> = Vec::new();
    let mut search_key = true;
    let mut i: usize = 0;
    proof {
        assert(origin@.take(0) =~= Seq::<char>::empty());
        assert(entries_view(fields@) =~= Seq::<(Seq<char>, Seq<char>)>::empty());
        assert(key@ =~= Seq::<char>::empty());
        assert(value@ =~= Seq::<char>::empty());
    }
    while i < origin.len()
        invariant
            i <= origin@.len(),
            scan_from(scan_start(), origin@.take(i as int)) == Ok::<_, HeaderFault>(
                HeaderScan { key: key@, value: value@, search_key, fields: entries_view(fields@) },
            ),
        decreases origin.len() - i,
    {
        let c = origin[i];
        proof {
            assert(origin@.take(i + 1).drop_last() =~= origin@.take(i as int));
        }
        if c == '{' || c == '}' {
        } else if c == '=' {
            if search_key {
                search_key = false;
            } else {
                proof {
                    lemma_scan_error_persists(scan_start(), origin@, i + 1);
                }
                return Err(HeaderFault::UnexpectedEquals);
            }
        } else if c == ',' {
            if !search_key {
                let ghost before = entries_view(fields@);
                let ghost kv = (key@, value@);
                let mut k: Vec<char> = Vec::new();
                let mut v: Vec<char> = Vec::new();
                std::mem::swap(&mut k, &mut key);
                std::mem::swap(&mut v, &mut value);
                fields.push((k, v));
                search_key = true;
                proof {
                    assert(entries_view(fields@) =~= before.push(kv));
                }
            } else {
                proof {
                    lemma_scan_error_persists(scan_start(), origin@, i + 1);
                }
                return Err(HeaderFault::UnexpectedComma);
            }
        } else if search_key {
            key.push(c);
        } else {
            value.push(c);
        }
        i += 1;
    }
    proof {
        assert(origin@.take(origin@.len() as int) =~= origin@);
    }
    if !key.is_empty() && !value.is_empty() && !search_key {
        let ghost before = entries_view(fields@);
        let ghost kv = (key@, value@);
        fields.push((key, value));
        proof {
            assert(entries_view(fields@) =~= before.push(kv));
        }
    }
    Ok(HeaderFields { entries: fields })
}


// ----------------------------------------------------------------------
// The size written before `:`

/// How a byte reads in the size prefix: an ASCII byte as its character, any
/// other byte as its decimal value.
pub open spec fn expand_byte(b: u8) -> Seq<char> {
    if b < 128 {
        seq![b as char]
    } else {
        decimal(b as nat)
    }
}

pub open spec fn expand(s: Seq<u8>) -> Seq<char>
    decreases s.len(),
{
    if s.len() == 0 {
        Seq::empty()
    } else {
        expand(s.drop_last()) + expand_byte(s.last())
    }
}

/// The index of the first `:` among the first `n` bytes.
pub open spec fn colon_before(s: Seq<u8>, n: int) -> Option<int>
    decreases n,
{
    if n <= 0 {
        None
    } else {
        match colon_before(s, n - 1) {
            Some(k) => Some(k),
            None => if s[n - 1] == 58 {
                Some(n - 1)
            } else {
                None
            },
        }
    }
}

/// Where the enciphered block starts (the text position of the `:`) and the
/// header size written before it.
pub open spec fn header_position_spec(source: Seq<u8>) -> Result<(int, u64), HeaderFault> {
    match colon_before(source, source.len() as int) {
        None => Err(HeaderFault::InvalidHeaderSize),
        Some(k) => {
            let prefix = expand(source.take(k));
            if prefix.len() < 1 {
                Err(HeaderFault::InvalidHeaderSize)
            } else {
                match parse_u64_spec(prefix) {
                    Some(n) => Ok((prefix.len() as int, n)),
                    None => Err(HeaderFault::InvalidHeaderSize),
                }
            }
        },
    }
}

proof fn lemma_decimal_len3(n: nat)
    requires
        n < 1000,
    ensures
        decimal(n).len() <= 3,
{
    reveal_with_fuel(decimal, 3);
}

/// Reads the header size written before the first `:`.
pub fn header_position(source: &[u8]) -> (r: Result<(usize, u64), HeaderFault>)
    requires
        source@.len() <= usize::MAX / 4,
    ensures
        match r {
            Ok((p, n)) => header_position_spec(source@) == Ok::<_, HeaderFault>((p as int, n)),
            Err(e) => header_position_spec(source@) == Err::<(int, u64), _>(e),
        },
        r matches Ok((p, _)) ==> p <= 3 * source@.len(),
{
    let mut prefix: Vec<char> = Vec::new();
    let mut i: usize = 0;
    let mut found = false;
    proof {
        assert(source@.take(0) =~= Seq::<u8>::empty());
        assert(prefix@ =~= expand(source@.take(0)));
    }
    while i < source.len() && !found
        invariant
            i <= source@.len(),
            source@.len() <= usize::MAX / 4,
            prefix@ == expand(source@.take(i as int)),
            prefix@.len() <= 3 * i,
            !found ==> colon_before(source@, i as int) is None,
            found ==> i < source@.len() && colon_before(source@, source@.len() as int) == Some(i as int),
        decreases source.len() - i + (if found { 0int } else { 1int }),
    {
        let b = source[i];
        if b == 58 {
            found = true;
            proof {
                lemma_colon_first(source@, i as int, source@.len() as int);
            }
        } else {
            proof {
                assert(source@.take(i + 1).drop_last() =~= source@.take(i as int));
            }
            if b < 128 {
                prefix.push(b as char);
                proof {
                    assert(prefix@ =~= expand(source@.take(i + 1)));
                }
            } else {
                let ghost before = prefix@;
                push_decimal(b as u64, &mut prefix);
                proof {
                    lemma_decimal_len3(b as nat);
                    assert(prefix@ =~= expand(source@.take(i + 1)));
                }
            }
            i += 1;
        }
    }
    if !found {
        proof {
            assert(source@.take(source@.len() as int) =~= source@);
        }
        return Err(HeaderFault::InvalidHeaderSize);
    }
    if prefix.len() < 1 {
        return Err(HeaderFault::InvalidHeaderSize);
    }
    match parse_u64(prefix.as_slice()) {
        Some(n) => Ok((prefix.len(), n)),
        None => Err(HeaderFault::InvalidHeaderSize),
    }
}

proof fn lemma_colon_first(s: Seq<u8>, i: int, n: int)
    requires
        0 <= i < n <= s.len(),
        s[i] == 58,
        colon_before(s, i) is None,
    ensures
        colon_before(s, n) == Some(i),
    decreases n - i,
{
    if n > i + 1 {
        lemma_colon_first(s, i, n - 1);
    }
}


// ----------------------------------------------------------------------
// From the entries to the header

/// The data type written as `0`, `1` or `2`.
pub open spec fn data_type_from(v: Seq<char>) -> Option<ArchiveDataFormat> {
    if v == "0"@ {
        Some(ArchiveDataFormat::Toml)
    } else if v == "1"@ {
        Some(ArchiveDataFormat::Json)
    } else if v == "2"@ {
        Some(ArchiveDataFormat::Yaml)
    } else {
        None
    }
}

/// A date written as a `u64` of milliseconds, read as an `i64` (wrapping)
/// that the calendar must hold.
pub open spec fn millis_from(v: Seq<char>) -> Option<i64> {
    match parse_u64_spec(v) {
        Some(n) => if utc_millis_in_range(n as i64) {
            Some(n as i64)
        } else {
            None
        },
        None => None,
    }
}

/// The header that the entries describe, checked in the order of the
/// format: filler, version, data type, data size, dates, owner.
pub open spec fn header_from_fields_spec(f: Seq<(Seq<char>, Seq<char>)>) -> Result<ArchiveHeaderView, ArchiveError> {
    match field(f, "bloat"@) {
        None => Err(ArchiveError::InvalidHeader(HeaderFault::MissingBloat)),
        Some(bloat) => if bloat != BLOAT@ {
            Err(ArchiveError::CorruptedArchive(Corruption::InvalidBloat))
        } else {
            match field(f, "version"@) {
                None => Err(ArchiveError::InvalidHeader(HeaderFault::MissingVersion)),
                Some(version) => match field(f, "data_type"@) {
                    None => Err(ArchiveError::InvalidHeader(HeaderFault::MissingDataType)),
                    Some(dt) => match data_type_from(dt) {
                        None => Err(ArchiveError::InvalidHeader(HeaderFault::InvalidDataType)),
                        Some(data_type) => match field(f, "data_size"@) {
                            None => Err(ArchiveError::InvalidHeader(HeaderFault::MissingDataSize)),
                            Some(ds) => match parse_u64_spec(ds) {
                                None => Err(ArchiveError::InvalidHeader(HeaderFault::InvalidDataSize)),
                                Some(data_size) => match field(f, "creation"@) {
                                    None => Err(ArchiveError::InvalidHeader(HeaderFault::MissingCreation)),
                                    Some(c) => match millis_from(c) {
                                        None => Err(ArchiveError::InvalidHeader(HeaderFault::InvalidCreation)),
                                        Some(creation) => match field(f, "last_modification"@) {
                                            None => Err(ArchiveError::InvalidHeader(HeaderFault::MissingLastModification)),
                                            Some(m) => match millis_from(m) {
                                                None => Err(ArchiveError::InvalidHeader(HeaderFault::InvalidLastModification)),
                                                Some(last_modification) => match field(f, "owner_pid"@) {
                                                    None => Err(ArchiveError::InvalidHeader(HeaderFault::MissingOwner)),
                                                    Some(o) => match parse_u64_spec(o) {
                                                        None => Err(ArchiveError::InvalidHeader(HeaderFault::InvalidOwner)),
                                                        Some(owner_pid) => Ok(ArchiveHeaderView {
                                                            data_type,
                                                            bloat,
                                                            data_size,
                                                            version,
                                                            creation,
                                                            last_modification,
                                                            owner_pid,
                                                        }),
                                                    },
                                                },
                                            },
                                        },
                                    },
                                },
                            },
                        },
                    },
                },
            }
        },
    }
}

fn read_data_type(v: &Vec<char>) -> (r: Option<ArchiveDataFormat>)
    ensures
        r == data_type_from(v@),
{
    if chars_eq_str(v.as_slice(), "0") {
        Some(ArchiveDataFormat::Toml)
    } else if chars_eq_str(v.as_slice(), "1") {
        Some(ArchiveDataFormat::Json)
    } else if chars_eq_str(v.as_slice(), "2") {
        Some(ArchiveDataFormat::Yaml)
    } else {
        None
    }
}

fn read_millis(v: &Vec<char>) -> (r: Option<i64>)
    ensures
        r == millis_from(v@),
{
    match parse_u64(v.as_slice()) {
        Some(n) => {
            let ms = n as i64;
            if millis_in_range(ms) {
                Some(ms)
            } else {
                None
            }
        },
        None => None,
    }
}

/// Builds the header from the entries of its text.
pub fn header_from_fields(f: &HeaderFields) -> (r: Result<ArchiveHeader, ArchiveError>)
    ensures
        match r {
            Ok(h) => header_from_fields_spec(f@) == Ok::<_, ArchiveError>(h@),
            Err(e) => header_from_fields_spec(f@) == Err::<ArchiveHeaderView, _>(e),
        },
{
    let bloat = match f.get("bloat") {
        Some(b) => b,
        None => return Err(ArchiveError::InvalidHeader(HeaderFault::MissingBloat)),
    };
    if !chars_eq_str(bloat.as_slice(), BLOAT) {
        return Err(ArchiveError::CorruptedArchive(Corruption::InvalidBloat));
    }
    let version = match f.get("version") {
        Some(v) => v,
        None => return Err(ArchiveError::InvalidHeader(HeaderFault::MissingVersion)),
    };
    let data_type = match f.get("data_type") {
        Some(v) => match read_data_type(v) {
            Some(d) => d,
            None => return Err(ArchiveError::InvalidHeader(HeaderFault::InvalidDataType)),
        },
        None => return Err(ArchiveError::InvalidHeader(HeaderFault::MissingDataType)),
    };
    let data_size = match f.get("data_size") {
        Some(v) => match parse_u64(v.as_slice()) {
            Some(n) => n,
            None => return Err(ArchiveError::InvalidHeader(HeaderFault::InvalidDataSize)),
        },
        None => return Err(ArchiveError::InvalidHeader(HeaderFault::MissingDataSize)),
    };
    let creation = match f.get("creation") {
        Some(v) => match read_millis(v) {
            Some(n) => n,
            None => return Err(ArchiveError::InvalidHeader(HeaderFault::InvalidCreation)),
        },
        None => return Err(ArchiveError::InvalidHeader(HeaderFault::MissingCreation)),
    };
    let last_modification = match f.get("last_modification") {
        Some(v) => match read_millis(v) {
            Some(n) => n,
            None => return Err(ArchiveError::InvalidHeader(HeaderFault::InvalidLastModification)),
        },
        None => return Err(ArchiveError::InvalidHeader(HeaderFault::MissingLastModification)),
    };
    let owner_pid = match f.get("owner_pid") {
        Some(v) => match parse_u64(v.as_slice()) {
            Some(n) => n,
            None => return Err(ArchiveError::InvalidHeader(HeaderFault::InvalidOwner)),
        },
        None => return Err(ArchiveError::InvalidHeader(HeaderFault::MissingOwner)),
    };
    Ok(ArchiveHeader {
        data_type,
        bloat: chars_to_string(bloat.as_slice()),
        data_size,
        version: chars_to_string(version.as_slice()),
        creation,
        last_modification,
        owner_pid,
    })
}


// ----------------------------------------------------------------------
// Whole archives

/// An archive read from its bytes: the header and the body text.
#[derive(Debug)]
pub struct DecodedArchive {
    pub header: ArchiveHeader,
    pub body: String,
}

/// The decimal writing of `n` as ASCII bytes.
pub open spec fn ascii_decimal(n: nat) -> Seq<u8> {
    decimal(n).map_values(|c: char| c as u8)
}

/// The bytes of an archive: the first signature, the header size, `:`,
/// then the second signature, the header and the body, enciphered.
pub open spec fn encode_spec(h: ArchiveHeaderView, body: Seq<char>) -> Seq<u8> {
    let hb = encode_utf8(header_text(h));
    MAGIC1@ + ascii_decimal(hb.len()) + seq![58u8] + encrypt_spec(
        MAGIC2@ + hb + encode_utf8(body),
        hb.len() as u64,
    )
}

/// The inputs on which reading an archive stops on an out-of-bounds slice:
/// the block after the size is shorter than its `:` position says, or the
/// deciphered block is shorter than the header size.
pub open spec fn decode_panics(raw: Seq<u8>) -> bool {
    has_magic(raw, MAGIC1@) && match header_position_spec(raw.skip(5)) {
        Ok((p, hs)) => {
            let rest = raw.skip(5);
            p + 1 > rest.len() || {
                let dec = decrypt_spec(rest.skip(p + 1), hs);
                has_magic(dec, MAGIC2@) && hs > dec.len() - 5
            }
        },
        Err(_) => false,
    }
}

/// What reading an archive from its bytes gives.
pub open spec fn decode_spec(raw: Seq<u8>) -> Result<(ArchiveHeaderView, Seq<char>), ArchiveError> {
    if !has_magic(raw, MAGIC1@) {
        Err(ArchiveError::CorruptedArchive(Corruption::MissingMagic1))
    } else {
        let rest = raw.skip(5);
        match header_position_spec(rest) {
            Err(e) => Err(ArchiveError::InvalidHeader(e)),
            Ok((p, hs)) => {
                let dec = decrypt_spec(rest.skip(p + 1), hs);
                if !has_magic(dec, MAGIC2@) {
                    Err(ArchiveError::CorruptedArchive(Corruption::MissingMagic2))
                } else {
                    let d = dec.skip(5);
                    let hb = d.take(hs as int);
                    if !valid_utf8(hb) {
                        Err(ArchiveError::CorruptedArchive(Corruption::HeaderNotUtf8))
                    } else {
                        match parse_header_spec(decode_utf8(hb)) {
                            Err(f) => Err(ArchiveError::InvalidHeader(f)),
                            Ok(fields) => match header_from_fields_spec(fields) {
                                Err(e) => Err(e),
                                Ok(h) => {
                                    let bb = d.skip(hs as int);
                                    if !valid_utf8(bb) {
                                        Err(ArchiveError::CorruptedArchive(Corruption::BodyNotUtf8))
                                    } else {
                                        Ok((h, decode_utf8(bb)))
                                    }
                                },
                            },
                        }
                    }
                }
            },
        }
    }
}

fn skip_bytes(s: &[u8], n: usize) -> (r: &[u8])
    requires
        n <= s@.len(),
    ensures
        r@ == s@.skip(n as int),
{
    let r = &s[n..s.len()];
    assert(r@ =~= s@.skip(n as int));
    r
}

/// Tells whether reading these bytes would stop on an out-of-bounds slice.
pub fn decode_would_panic(raw: &[u8]) -> (r: bool)
    requires
        raw@.len() <= usize::MAX / 4,
    ensures
        r == decode_panics(raw@),
{
    if !check_magic1(raw) {
        return false;
    }
    let rest = skip_bytes(raw, 5);
    match header_position(rest) {
        Err(_) => false,
        Ok((p, hs)) => {
            if p + 1 > rest.len() {
                return true;
            }
            let mut dec = slice_to_vec(skip_bytes(rest, p + 1));
            decrypt(&mut dec, hs);
            check_magic2(dec.as_slice()) && hs > (dec.len() - 5) as u64
        },
    }
}

/// Reads an archive from its bytes.
pub fn decode_archive(raw: &[u8]) -> (r: Result<DecodedArchive, ArchiveError>)
    requires
        raw@.len() <= usize::MAX / 4,
        !decode_panics(raw@),
    ensures
        match r {
            Ok(a) => decode_spec(raw@) == Ok::<_, ArchiveError>((a.header@, a.body@)),
            Err(e) => decode_spec(raw@) == Err::<(ArchiveHeaderView, Seq<char>), _>(e),
        },
{
    if !check_magic1(raw) {
        return Err(ArchiveError::CorruptedArchive(Corruption::MissingMagic1));
    }
    let rest = skip_bytes(raw, 5);
    let (p, hs) = match header_position(rest) {
        Ok(x) => x,
        Err(e) => return Err(ArchiveError::InvalidHeader(e)),
    };
    let mut dec = slice_to_vec(skip_bytes(rest, p + 1));
    decrypt(&mut dec, hs);
    if !check_magic2(dec.as_slice()) {
        return Err(ArchiveError::CorruptedArchive(Corruption::MissingMagic2));
    }
    let d = skip_bytes(dec.as_slice(), 5);
    let hsz = hs as usize;
    let header_bytes = &d[0..hsz];
    let body_bytes = &d[hsz..d.len()];
    assert(header_bytes@ =~= d@.take(hs as int));
    assert(body_bytes@ =~= d@.skip(hs as int));
    let text = match utf8_text(header_bytes) {
        Some(t) => t,
        None => return Err(ArchiveError::CorruptedArchive(Corruption::HeaderNotUtf8)),
    };
    let chars = str_to_chars(text.as_str());
    let fields = match parse_header(chars.as_slice()) {
        Ok(f) => f,
        Err(e) => return Err(ArchiveError::InvalidHeader(e)),
    };
    let header = match header_from_fields(&fields) {
        Ok(h) => h,
        Err(e) => return Err(e),
    };
    match utf8_text(body_bytes) {
        Some(body) => Ok(DecodedArchive { header, body }),
        None => Err(ArchiveError::CorruptedArchive(Corruption::BodyNotUtf8)),
    }
}

fn push_ascii_decimal(n: u64, out: &mut Vec<u8>)
    ensures
        final(out)@ == old(out)@ + ascii_decimal(n as nat),
{
    let mut digits: Vec<char> = Vec::new();
    push_decimal(n, &mut digits);
    assert(digits@ =~= decimal(n as nat));
    let mut i: usize = 0;
    while i < digits.len()
        invariant
            i <= digits@.len(),
            digits@ == decimal(n as nat),
            out@ == old(out)@ + ascii_decimal(n as nat).take(i as int),
        decreases digits.len() - i,
    {
        let c = digits[i];
        out.push(c as u8);
        i += 1;
        proof {
            assert(out@ =~= old(out)@ + ascii_decimal(n as nat).take(i as int));
        }
    }
    proof {
        assert(ascii_decimal(n as nat).take(i as int) =~= ascii_decimal(n as nat));
    }
}

/// Writes an archive as bytes.
pub fn encode_archive(header: &ArchiveHeader, body: &str) -> (out: Vec<u8>)
    ensures
        out@ == encode_spec(header@, body@),
{
    let text = header.format_header();
    let header_bytes = text.as_str().as_bytes();
    let header_size = header_bytes.len() as u64;
    let mut block: Vec<u8> = slice_to_vec(&MAGIC2);
    let mut hb = slice_to_vec(header_bytes);
    block.append(&mut hb);
    let mut bb = slice_to_vec(body.as_bytes());
    block.append(&mut bb);
    encrypt(&mut block, header_size);
    let mut out: Vec<u8> = slice_to_vec(&MAGIC1);
    push_ascii_decimal(header_size, &mut out);
    out.push(58u8);
    out.append(&mut block);
    proof {
        assert(out@ =~= encode_spec(header@, body@));
    }
    out
}

} // verus!
