use std::string::FromUtf8Error;

use vstd::prelude::*;
use vstd::utf8::{encode_utf8, encode_utf8_decode_utf8, encode_utf8_valid_utf8, valid_utf8};

use crate::accessor::{parsed_read, text_read, SecretExt};
use crate::error::FromStrError;
use crate::secret::text_entries;

verus! {

/// A `Secret` without a data section holds no field: for any field name the
/// byte, text and parsed reads are all absent, and none is an error.
pub proof fn no_data_section_reads_absent<T, E, F: Fn(&str) -> Result<T, E>>(
    s: k8s_openapi::api::core::v1::Secret,
    field: Seq<char>,
    text: Result<Option<String>, FromUtf8Error>,
    parse: F,
    parsed: Result<Option<T>, FromStrError<E>>,
)
    requires
        s.data is None,
        text_read(s.payload(field), text),
        parsed_read(s.payload(field), parse, parsed),
    ensures
        s.payload(field) is None,
        text matches Ok(None),
        parsed matches Ok(None),
{
}

/// A `Secret` whose data section lacks a field: the byte, text and parsed
/// reads of that field are all absent, and none is an error.
pub proof fn missing_field_reads_absent<T, E, F: Fn(&str) -> Result<T, E>>(
    s: k8s_openapi::api::core::v1::Secret,
    field: Seq<char>,
    text: Result<Option<String>, FromUtf8Error>,
    parse: F,
    parsed: Result<Option<T>, FromStrError<E>>,
)
    requires
        s.data matches Some(m) && !text_entries(m).contains_key(field),
        text_read(s.payload(field), text),
        parsed_read(s.payload(field), parse, parsed),
    ensures
        s.payload(field) is None,
        text matches Ok(None),
        parsed matches Ok(None),
{
}

/// A field whose payload is the UTF-8 encoding of a text reads back as
/// exactly that text.
pub proof fn encoded_text_reads_back(
    s: k8s_openapi::api::core::v1::Secret,
    field: Seq<char>,
    t: Seq<char>,
    text: Result<Option<String>, FromUtf8Error>,
)
    requires
        s.payload(field) == Some(encode_utf8(t)),
        text_read(s.payload(field), text),
    ensures
        text matches Ok(Some(x)) && x@ == t,
{
    broadcast use encode_utf8_valid_utf8, encode_utf8_decode_utf8;

}

/// A field whose payload is not valid UTF-8 gives a decoding error, both as
/// text and as a parsed value: never absence, never a parse failure.
pub proof fn invalid_payload_is_decoding_error<T, E, F: Fn(&str) -> Result<T, E>>(
    s: k8s_openapi::api::core::v1::Secret,
    field: Seq<char>,
    b: Seq<u8>,
    text: Result<Option<String>, FromUtf8Error>,
    parse: F,
    parsed: Result<Option<T>, FromStrError<E>>,
)
    requires
        s.payload(field) == Some(b),
        !valid_utf8(b),
        text_read(s.payload(field), text),
        parsed_read(s.payload(field), parse, parsed),
    ensures
        text is Err,
        parsed is Err && parsed->Err_0 is FromUtf8,
{
}

/// A field holding the text of a value, for a parser that reads that text as
/// that value, gives the value as its parsed read.
pub proof fn parsed_text_reads_value<T, E, F: Fn(&str) -> Result<T, E>>(
    s: k8s_openapi::api::core::v1::Secret,
    field: Seq<char>,
    t: Seq<char>,
    v: T,
    parse: F,
    parsed: Result<Option<T>, FromStrError<E>>,
)
    requires
        s.payload(field) == Some(encode_utf8(t)),
        forall|x: &str, out: Result<T, E>|
            x@ == t && #[trigger] parse.ensures((x,), out) ==> out == Ok::<T, E>(v),
        parsed_read(s.payload(field), parse, parsed),
    ensures
        parsed == Ok::<Option<T>, FromStrError<E>>(Some(v)),
{
    broadcast use encode_utf8_valid_utf8, encode_utf8_decode_utf8;

}

} // verus!
