//! What reading gives back of writing, for the `PNDR` archive format.

use vstd::prelude::*;
use vstd::utf8::{decode_utf8, encode_utf8, encode_utf8_decode_utf8, encode_utf8_valid_utf8, valid_utf8};
use crate::archive::{
    ascii_decimal, colon_before, data_format_code, data_type_from, decode_panics, decode_spec,
    decrypt_spec, encode_spec, encrypt_spec, expand, expand_byte, field, has_magic, header_entries,
    header_entry, header_from_fields_spec, header_position_spec, header_text, join_entries,
    law_decrypt_encrypt, millis_from, parse_header_spec, plain_text, scan_from, scan_start,
    scan_step, ArchiveDataFormat, ArchiveError, ArchiveHeaderView, HeaderScan,
    BLOAT, MAGIC1, MAGIC2,
};
use crate::time::utc_millis_in_range;
use crate::text::{decimal, digit_char, is_digit, lemma_decimal_all_digits, lemma_parse_decimal, signed_decimal};

verus! {

// ----------------------------------------------------------------------
// Scanning the header text

proof fn lemma_scan_concat(st: HeaderScan, a: Seq<char>, b: Seq<char>)
    ensures
        scan_from(st, a + b) == match scan_from(st, a) {
            Ok(s2) => scan_from(s2, b),
            Err(e) => Err(e),
        },
    decreases b.len(),
{
    if b.len() == 0 {
        assert(a + b =~= a);
    } else {
        lemma_scan_concat(st, a, b.drop_last());
        assert((a + b).drop_last() =~= a + b.drop_last());
        assert((a + b).last() == b.last());
    }
}

proof fn lemma_scan_one(st: HeaderScan, c: char)
    ensures
        scan_from(st, seq![c]) == scan_step(st, c),
{
    reveal_with_fuel(scan_from, 2);
    assert(seq![c].drop_last() =~= Seq::<char>::empty());
}

proof fn lemma_scan_plain(st: HeaderScan, s: Seq<char>)
    requires
        plain_text(s),
    ensures
        scan_from(st, s) == Ok::<_, crate::archive::HeaderFault>(
            if st.search_key {
                HeaderScan { key: st.key + s, ..st }
            } else {
                HeaderScan { value: st.value + s, ..st }
            },
        ),
    decreases s.len(),
{
    if s.len() == 0 {
        assert(st.key + s =~= st.key);
        assert(st.value + s =~= st.value);
    } else {
        let t = s.drop_last();
        assert(plain_text(t)) by {
            assert forall|i: int| 0 <= i < t.len() implies !crate::archive::is_reserved(#[trigger] t[i]) by {
                assert(t[i] == s[i]);
            }
        }
        lemma_scan_plain(st, t);
        assert(!crate::archive::is_reserved(s[s.len() - 1]));
        assert(st.key + t.push(s.last()) =~= st.key + s);
        assert(st.value + t.push(s.last()) =~= st.value + s);
        assert((st.key + t).push(s.last()) =~= st.key + s);
        assert((st.value + t).push(s.last()) =~= st.value + s);
    }
}

proof fn lemma_scan_entry(st: HeaderScan, k: Seq<char>, v: Seq<char>)
    requires
        st.search_key,
        plain_text(k),
        plain_text(v),
    ensures
        scan_from(st, header_entry(k, v)) == Ok::<_, crate::archive::HeaderFault>(
            HeaderScan { key: st.key + k, value: st.value + v, search_key: false, fields: st.fields },
        ),
{
    lemma_scan_concat(st, k + seq!['='], v);
    lemma_scan_concat(st, k, seq!['=']);
    lemma_scan_plain(st, k);
    let s1 = HeaderScan { key: st.key + k, ..st };
    lemma_scan_one(s1, '=');
    let s2 = HeaderScan { search_key: false, ..s1 };
    lemma_scan_plain(s2, v);
}

pub open spec fn plain_entries(es: Seq<(Seq<char>, Seq<char>)>) -> bool {
    forall|i: int| 0 <= i < es.len() ==> plain_text(#[trigger] es[i].0) && plain_text(es[i].1)
}

proof fn lemma_scan_join(es: Seq<(Seq<char>, Seq<char>)>)
    requires
        es.len() >= 1,
        plain_entries(es),
    ensures
        scan_from(scan_start(), seq!['{'] + join_entries(es)) == Ok::<_, crate::archive::HeaderFault>(
            HeaderScan { key: es.last().0, value: es.last().1, search_key: false, fields: es.drop_last() },
        ),
    decreases es.len(),
{
    let st0 = scan_start();
    lemma_scan_one(st0, '{');
    if es.len() == 1 {
        lemma_scan_concat(st0, seq!['{'], join_entries(es));
        assert(plain_text(es[0].0) && plain_text(es[0].1));
        lemma_scan_entry(st0, es[0].0, es[0].1);
        assert(st0.key + es[0].0 =~= es[0].0);
        assert(st0.value + es[0].1 =~= es[0].1);
        assert(es.drop_last() =~= Seq::<(Seq<char>, Seq<char>)>::empty());
    } else {
        let init = es.drop_last();
        assert(plain_entries(init)) by {
            assert forall|i: int| 0 <= i < init.len() implies plain_text(#[trigger] init[i].0) && plain_text(init[i].1) by {
                assert(init[i] == es[i]);
            }
        }
        lemma_scan_join(init);
        let s1 = HeaderScan { key: init.last().0, value: init.last().1, search_key: false, fields: init.drop_last() };
        let a = seq!['{'] + join_entries(init);
        let last = es.last();
        assert(seq!['{'] + join_entries(es) =~= (a + seq![',']) + header_entry(last.0, last.1));
        lemma_scan_concat(st0, a + seq![','], header_entry(last.0, last.1));
        lemma_scan_concat(st0, a, seq![',']);
        lemma_scan_one(s1, ',');
        let s2 = HeaderScan {
            key: Seq::empty(),
            value: Seq::empty(),
            search_key: true,
            fields: init.drop_last().push((init.last().0, init.last().1)),
        };
        assert(init.drop_last().push((init.last().0, init.last().1)) =~= init);
        assert(plain_text(es[es.len() - 1].0) && plain_text(es[es.len() - 1].1));
        lemma_scan_entry(s2, last.0, last.1);
        assert(s2.key + last.0 =~= last.0);
        assert(s2.value + last.1 =~= last.1);
    }
}

/// Reading the text of entries whose keys and values hold no reserved
/// character, and whose last key and value are not empty, gives the
/// entries back.
pub proof fn lemma_parse_joined(es: Seq<(Seq<char>, Seq<char>)>)
    requires
        es.len() >= 1,
        plain_entries(es),
        es.last().0.len() > 0,
        es.last().1.len() > 0,
    ensures
        parse_header_spec(seq!['{'] + join_entries(es) + seq!['}']) == Ok::<_, crate::archive::HeaderFault>(es),
{
    lemma_scan_join(es);
    let st = HeaderScan { key: es.last().0, value: es.last().1, search_key: false, fields: es.drop_last() };
    lemma_scan_concat(scan_start(), seq!['{'] + join_entries(es), seq!['}']);
    lemma_scan_one(st, '}');
    assert(es.drop_last().push((es.last().0, es.last().1)) =~= es);
}

// ----------------------------------------------------------------------
// The entries of a header

proof fn lemma_decimal_plain(n: nat)
    ensures
        plain_text(decimal(n)),
        decimal(n).len() > 0,
{
    lemma_decimal_all_digits(n);
    assert forall|i: int| 0 <= i < decimal(n).len() implies !crate::archive::is_reserved(#[trigger] decimal(n)[i]) by {
        assert(is_digit(decimal(n)[i]));
    }
}

proof fn lemma_keys()
    ensures
        plain_text("data_type"@),
        plain_text("bloat"@),
        plain_text("data_size"@),
        plain_text("version"@),
        plain_text("creation"@),
        plain_text("last_modification"@),
        plain_text("owner_pid"@),
        "owner_pid"@.len() > 0,
        "owner_pid"@ != "bloat"@,
        "owner_pid"@ != "version"@,
        "owner_pid"@ != "data_type"@,
        "owner_pid"@ != "data_size"@,
        "owner_pid"@ != "creation"@,
        "owner_pid"@ != "last_modification"@,
        "last_modification"@ != "bloat"@,
        "last_modification"@ != "version"@,
        "last_modification"@ != "data_type"@,
        "last_modification"@ != "data_size"@,
        "last_modification"@ != "creation"@,
        "creation"@ != "bloat"@,
        "creation"@ != "version"@,
        "creation"@ != "data_type"@,
        "creation"@ != "data_size"@,
        "version"@ != "bloat"@,
        "version"@ != "data_type"@,
        "version"@ != "data_size"@,
        "data_size"@ != "bloat"@,
        "data_size"@ != "data_type"@,
        "bloat"@ != "data_type"@,
{
    reveal_strlit("data_type");
    reveal_strlit("bloat");
    reveal_strlit("data_size");
    reveal_strlit("version");
    reveal_strlit("creation");
    reveal_strlit("last_modification");
    reveal_strlit("owner_pid");
    assert("owner_pid"@[0] != "data_type"@[0]);
    assert("owner_pid"@[0] != "data_size"@[0]);
    assert("data_size"@[5] != "data_type"@[5]);
}

proof fn lemma_bloat_plain()
    ensures
        plain_text(BLOAT@),
{
    reveal_strlit("e2njgwzZVvCHVF9E9eLYMM9mqPgcqBOUNIocKvEzcftOAc9fywad3nOdnW5HgpmAMefcc4gDOrvXyVDCtxoVMp5oD1J2s9GbHK6SRCsOeQF74Dyl2yKXiTbmGyiMh90QfniFhf3QmZh1G6vAigmu514lZ1DIeRfMkhgKVYjq3wLkFlvoNdoLXlx6dIDRAnE3");
}

/// What makes a header come back unchanged through its text: the filler is
/// `BLOAT`, the version holds no reserved character, and both dates are
/// non-negative and within the calendar.
pub open spec fn header_round_trips(h: ArchiveHeaderView) -> bool {
    &&& h.bloat == BLOAT@
    &&& plain_text(h.version)
    &&& h.creation >= 0
    &&& h.last_modification >= 0
    &&& utc_millis_in_range(h.creation)
    &&& utc_millis_in_range(h.last_modification)
}

proof fn lemma_millis_round_trip(x: i64)
    requires
        x >= 0,
        utc_millis_in_range(x),
    ensures
        millis_from(signed_decimal(x as int)) == Some(x),
        plain_text(signed_decimal(x as int)),
{
    lemma_parse_decimal(x as u64);
    lemma_decimal_plain(x as nat);
    assert((x as u64) as i64 == x);
}

proof fn lemma_header_entries(h: ArchiveHeaderView)
    requires
        header_round_trips(h),
    ensures
        plain_entries(header_entries(h)),
        header_from_fields_spec(header_entries(h)) == Ok::<_, ArchiveError>(h),
        header_entries(h).len() == 7,
        header_entries(h).last().0.len() > 0,
        header_entries(h).last().1.len() > 0,
{
    let es = header_entries(h);
    lemma_keys();
    lemma_bloat_plain();
    let code = data_format_code(h.data_type);
    lemma_decimal_plain(code as nat);
    lemma_decimal_plain(h.data_size as nat);
    lemma_decimal_plain(h.owner_pid as nat);
    lemma_millis_round_trip(h.creation);
    lemma_millis_round_trip(h.last_modification);
    lemma_parse_decimal(h.data_size);
    lemma_parse_decimal(h.owner_pid);
    assert(plain_entries(es)) by {
        assert forall|i: int| 0 <= i < es.len() implies plain_text(#[trigger] es[i].0) && plain_text(es[i].1) by {
            if i == 0 {} else if i == 1 {} else if i == 2 {} else if i == 3 {} else if i == 4 {} else if i == 5 {} else {}
        }
    }
    reveal_strlit("0");
    reveal_strlit("1");
    reveal_strlit("2");
    assert(data_type_from(decimal(code as nat)) == Some(h.data_type)) by {
        reveal_with_fuel(decimal, 2);
        match h.data_type {
            ArchiveDataFormat::Toml => {
                assert(decimal(code as nat) =~= "0"@);
            },
            ArchiveDataFormat::Json => {
                assert(decimal(code as nat) =~= "1"@);
                assert("1"@[0] != "0"@[0]);
            },
            ArchiveDataFormat::Yaml => {
                assert(decimal(code as nat) =~= "2"@);
                assert("2"@[0] != "0"@[0]);
                assert("2"@[0] != "1"@[0]);
            },
        }
    }
    reveal_with_fuel(field, 8);
    assert(es.drop_last().drop_last().drop_last().drop_last().drop_last().drop_last()
        =~= seq![es[0]]);
    assert(field(es, "bloat"@) == Some(h.bloat));
    assert(field(es, "version"@) == Some(h.version));
    assert(field(es, "data_type"@) == Some(decimal(code as nat)));
    assert(field(es, "data_size"@) == Some(decimal(h.data_size as nat)));
    assert(field(es, "creation"@) == Some(signed_decimal(h.creation as int)));
    assert(field(es, "last_modification"@) == Some(signed_decimal(h.last_modification as int)));
    assert(field(es, "owner_pid"@) == Some(decimal(h.owner_pid as nat)));
}

// ----------------------------------------------------------------------
// The size prefix

proof fn lemma_expand_ascii(s: Seq<u8>)
    requires
        forall|i: int| 0 <= i < s.len() ==> #[trigger] s[i] < 128,
    ensures
        expand(s) == s.map_values(|b: u8| b as char),
    decreases s.len(),
{
    if s.len() > 0 {
        let t = s.drop_last();
        assert forall|i: int| 0 <= i < t.len() implies #[trigger] t[i] < 128 by {
            assert(t[i] == s[i]);
        }
        lemma_expand_ascii(t);
        assert(s.map_values(|b: u8| b as char) =~= t.map_values(|b: u8| b as char) + expand_byte(s.last()));
    } else {
        assert(s.map_values(|b: u8| b as char) =~= Seq::<char>::empty());
    }
}

proof fn lemma_no_colon(s: Seq<u8>, n: int)
    requires
        0 <= n <= s.len(),
        forall|i: int| 0 <= i < n ==> #[trigger] s[i] != 58,
    ensures
        colon_before(s, n) is None,
    decreases n,
{
    if n > 0 {
        lemma_no_colon(s, n - 1);
    }
}

proof fn lemma_colon_at(s: Seq<u8>, i: int, n: int)
    requires
        0 <= i < n <= s.len(),
        s[i] == 58,
        colon_before(s, i) is None,
    ensures
        colon_before(s, n) == Some(i),
    decreases n - i,
{
    if n > i + 1 {
        lemma_colon_at(s, i, n - 1);
    }
}

proof fn lemma_size_prefix(n: u64, tail: Seq<u8>)
    ensures
        header_position_spec(ascii_decimal(n as nat) + seq![58u8] + tail)
            == Ok::<_, crate::archive::HeaderFault>((decimal(n as nat).len() as int, n)),
{
    let digits = ascii_decimal(n as nat);
    let s = digits + seq![58u8] + tail;
    let l = decimal(n as nat).len() as int;
    lemma_decimal_all_digits(n as nat);
    assert forall|i: int| 0 <= i < l implies #[trigger] s[i] != 58 && s[i] < 128 by {
        assert(s[i] == digits[i]);
        assert(is_digit(decimal(n as nat)[i]));
    }
    lemma_no_colon(s, l);
    assert(s[l] == 58);
    lemma_colon_at(s, l, s.len() as int);
    let prefix = s.take(l);
    assert(prefix =~= digits);
    assert forall|i: int| 0 <= i < prefix.len() implies #[trigger] prefix[i] < 128 by {
        assert(prefix[i] == s[i]);
    }
    lemma_expand_ascii(prefix);
    assert(prefix.map_values(|b: u8| b as char) =~= decimal(n as nat)) by {
        assert forall|i: int| 0 <= i < l implies prefix.map_values(|b: u8| b as char)[i] == decimal(n as nat)[i] by {
            assert(is_digit(decimal(n as nat)[i]));
        }
    }
    lemma_parse_decimal(n);
}

// ----------------------------------------------------------------------
// The law

/// Reading the bytes that are written for a header and a body gives the
/// header and the body back, without stopping on a bad slice, when the
/// header can come back through its text.
pub proof fn law_decode_encode(h: ArchiveHeaderView, body: Seq<char>)
    requires
        header_round_trips(h),
        encode_spec(h, body).len() <= usize::MAX,
    ensures
        !decode_panics(encode_spec(h, body)),
        decode_spec(encode_spec(h, body)) == Ok::<_, ArchiveError>((h, body)),
{
    let ht = header_text(h);
    let hb = encode_utf8(ht);
    let bb = encode_utf8(body);
    let n = hb.len();
    let raw = encode_spec(h, body);
    let block = MAGIC2@ + hb + bb;
    let enc = encrypt_spec(block, n as u64);
    assert(raw =~= MAGIC1@ + (ascii_decimal(n) + seq![58u8] + enc));
    assert(raw.len() >= n);
    assert(has_magic(raw, MAGIC1@)) by {
        assert(raw.take(5) =~= MAGIC1@);
    }
    let rest = raw.skip(5);
    assert(rest =~= ascii_decimal(n) + seq![58u8] + enc);
    lemma_size_prefix(n as u64, enc);
    let l = decimal(n).len() as int;
    assert(ascii_decimal(n).len() == l);
    assert(rest.skip(l + 1) =~= enc);
    law_decrypt_encrypt(block, n as u64);
    let dec = decrypt_spec(rest.skip(l + 1), n as u64);
    assert(dec == block);
    assert(has_magic(dec, MAGIC2@)) by {
        assert(dec.take(5) =~= MAGIC2@);
    }
    let d = dec.skip(5);
    assert(d =~= hb + bb);
    assert(d.take(n as int) =~= hb);
    assert(d.skip(n as int) =~= bb);
    encode_utf8_valid_utf8(ht);
    encode_utf8_decode_utf8(ht);
    encode_utf8_valid_utf8(body);
    encode_utf8_decode_utf8(body);
    lemma_header_entries(h);
    lemma_parse_joined(header_entries(h));
}

} // verus!
