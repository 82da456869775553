//! An archive with its body read: the header, and the body as a JSON value
//! that can be read and written key by key, then written back.

use vstd::prelude::*;
use crate::archive::{
    decode_archive, decode_panics, decode_spec, encode_archive, encode_spec, ArchiveDataFormat, ArchiveError,
    ArchiveHeader, ArchiveHeaderView, DecodedArchive,
};
use crate::archive_laws::{header_round_trips, law_decode_encode};
use crate::json::{
    json_get, json_set, lemma_object_view, opt_json_view, set_entry, JsonValue, JsonView,
};
use crate::json_text::{json_text_of, json_text_value, json_to_text, parse_json_text};

verus! {

/// An archive with its body read.
#[derive(Debug)]
pub struct Archive {
    pub header: ArchiveHeader,
    pub body: JsonValue,
}

/// What an archive holds: its header, and its body by its view.
pub ghost struct ArchiveView {
    pub header: ArchiveHeaderView,
    pub body: JsonView,
}

impl View for Archive {
    type V = ArchiveView;

    open spec fn view(&self) -> ArchiveView {
        ArchiveView { header: self.header@, body: self.body@ }
    }
}

/// What reading an archive with a JSON body gives: the header, and the
/// value the body text reads as; an error when the bytes hold no archive or
/// the body is no JSON document.
pub open spec fn decode_full_spec(raw: Seq<u8>) -> Result<ArchiveView, ArchiveError> {
    match decode_spec(raw) {
        Err(e) => Err(e),
        Ok((h, t)) => match json_text_value(t) {
            Some(b) => Ok(ArchiveView { header: h, body: b }),
            None => Err(ArchiveError::InvalidBody(arbitrary())),
        },
    }
}

/// Whether the bytes hold an archive whose body is not JSON: reading its
/// body then is not implemented, and stops.
pub open spec fn body_not_json(raw: Seq<u8>) -> bool {
    match decode_spec(raw) {
        Ok((h, _)) => h.data_type != ArchiveDataFormat::Json,
        Err(_) => false,
    }
}

impl Archive {
    /// Reads the body of a decoded archive whose data type is JSON.
    pub fn from_decoded(d: DecodedArchive) -> (r: Result<Archive, ArchiveError>)
        requires
            d.header.data_type == ArchiveDataFormat::Json,
        ensures
            match json_text_value(d.body@) {
                Some(b) => r matches Ok(a) && a.header@ == d.header@ && a.body@ == b,
                None => r matches Err(e) && e is InvalidBody,
            },
    {
        match parse_json_text(d.body.as_str()) {
            Some(body) => Ok(Archive { header: d.header, body }),
            None => Err(ArchiveError::InvalidBody(String::from_str("the body is no JSON document"))),
        }
    }

    /// Reads an archive, header and body, from its bytes.
    pub fn decode_full(raw: &[u8]) -> (r: Result<Archive, ArchiveError>)
        requires
            raw@.len() <= usize::MAX / 4,
            !decode_panics(raw@),
            !body_not_json(raw@),
        ensures
            match decode_full_spec(raw@) {
                Ok(v) => r matches Ok(a) && a@ == v,
                Err(ArchiveError::InvalidBody(_)) => r matches Err(e) && e is InvalidBody,
                Err(e) => r matches Err(x) && x == e,
            },
    {
        match decode_archive(raw) {
            Err(e) => Err(e),
            Ok(d) => Archive::from_decoded(d),
        }
    }

    /// The bytes the archive is saved as: its header, and its body written
    /// as compact JSON text.
    pub fn encode_full(&self) -> (out: Vec<u8>)
        ensures
            out@ == encode_spec(self.header@, json_text_of(self.body@)),
    {
        let text = json_to_text(&self.body);
        encode_archive(&self.header, text.as_str())
    }

    /// The value under a key of the body.
    pub fn get_raw(&self, key: &str) -> (r: Option<&JsonValue>)
        ensures
            opt_json_view(r) == json_get(self.body@, key@),
    {
        self.body.get(key)
    }

    /// Sets the value under a key of the body, which is an object (a `null`
    /// body becomes one); setting a key of a body of another kind stops.
    pub fn set_raw(&mut self, key: &str, v: JsonValue)
        requires
            old(self).body is Object || old(self).body is Null,
        ensures
            final(self).body@ == json_set(old(self).body@, key@, v@),
            final(self).header@ == old(self).header@,
    {
        let mut taken = JsonValue::Null;
        std::mem::swap(&mut taken, &mut self.body);
        let mut entries = match taken {
            JsonValue::Object(es) => {
                proof {
                    lemma_object_view(es);
                }
                es
            },
            _ => Vec::new(),
        };
        proof {
            assert(crate::json::entries_view(entries@) =~= crate::json::object_entries(old(self).body@));
        }
        set_entry(&mut entries, key, v);
        proof {
            lemma_object_view(entries);
        }
        self.body = JsonValue::Object(entries);
    }
}

/// An archive saved and read again is the same archive, when its header
/// and its body come back through their texts: the same header, and a body
/// whose every key reads as before.
pub proof fn law_reopen_after_save(h: ArchiveHeaderView, body: JsonView)
    requires
        header_round_trips(h),
        h.data_type == ArchiveDataFormat::Json,
        json_text_value(json_text_of(body)) == Some(body),
        encode_spec(h, json_text_of(body)).len() <= usize::MAX,
    ensures
        !decode_panics(encode_spec(h, json_text_of(body))),
        !body_not_json(encode_spec(h, json_text_of(body))),
        decode_full_spec(encode_spec(h, json_text_of(body))) == Ok::<_, ArchiveError>(ArchiveView { header: h, body }),
{
    law_decode_encode(h, json_text_of(body));
}

} // verus!
