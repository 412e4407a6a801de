use std::string::FromUtf8Error;

use vstd::prelude::*;
use vstd::utf8::{decode_utf8, valid_utf8};

use crate::decode::string_from_utf8;
use crate::error::FromStrError;
use crate::secret::{field_bytes, lookup};

verus! {

/// `r` is a correct text read of a field whose payload is `bytes`: absent
/// when there is no payload, the decoded text when the payload is valid UTF-8,
/// and a decoding error otherwise.
pub open spec fn text_read(bytes: Option<Seq<u8>>, r: Result<Option<String>, FromUtf8Error>) -> bool {
    match bytes {
        None => r matches Ok(None),
        Some(b) => if valid_utf8(b) {
            r matches Ok(Some(s)) && s@ == decode_utf8(b)
        } else {
            r is Err
        },
    }
}

/// A parser's outcome, as the read of a field.
pub open spec fn parse_read<T, E>(out: Result<T, E>) -> Result<Option<T>, FromStrError<E>> {
    match out {
        Ok(v) => Ok(Some(v)),
        Err(e) => Err(FromStrError::FromStr(e)),
    }
}

/// `r` is a correct parsed read of a field whose payload is `bytes`: absent
/// when there is no payload, a decoding error when the payload is not valid
/// UTF-8, and otherwise what `parse` returned on the decoded text.
pub open spec fn parsed_read<T, E, F: Fn(&str) -> Result<T, E>>(
    bytes: Option<Seq<u8>>,
    parse: F,
    r: Result<Option<T>, FromStrError<E>>,
) -> bool {
    match bytes {
        None => r matches Ok(None),
        Some(b) => if valid_utf8(b) {
            exists|text: &str, out: Result<T, E>|
                #![trigger parse.ensures((text,), out)]
                text@ == decode_utf8(b) && parse.ensures((text,), out) && r == parse_read(out)
        } else {
            r is Err && r->Err_0 is FromUtf8
        },
    }
}

/// Reads of a resource's named byte fields: as bytes, as text, or as a value
/// parsed from that text.
pub trait SecretExt {
    /// The payload held under `field`, if there is one.
    spec fn payload(&self, field: Seq<char>) -> Option<Seq<u8>>;

    /// The raw payload under `field`, borrowed; `None` when it is absent.
    fn get_u8(&self, field: &str) -> (r: Option<&Vec<u8>>)
        ensures
            match r {
                Some(v) => self.payload(field@) == Some(v@),
                None => self.payload(field@) is None,
            },
    ;

    /// The payload under `field` decoded as UTF-8: `Ok(None)` when it is
    /// absent, an error when it is not valid UTF-8.
    fn get_str(&self, field: &str) -> (r: Result<Option<String>, FromUtf8Error>)
        ensures
            text_read(self.payload(field@), r),
    {
        match self.get_u8(field) {
            Some(value) => match string_from_utf8(value.clone()) {
                Ok(s) => Ok(Some(s)),
                Err(e) => Err(e),
            },
            None => Ok(None),
        }
    }

    /// The text under `field` handed to `parse`: `Ok(None)` when the field is
    /// absent, a decoding error when its payload is not UTF-8, and otherwise
    /// the parser's value or its error.
    fn get_from_str_with<T, E, F: Fn(&str) -> Result<T, E>>(&self, field: &str, parse: F) -> (r:
        Result<Option<T>, FromStrError<E>>)
        requires
            forall|text: &str| #[trigger] parse.requires((text,)),
        ensures
            parsed_read(self.payload(field@), parse, r),
    {
        match self.get_str(field) {
            Ok(Some(data)) => {
                let text = data.as_str();
                let out = parse(text);
                assert(parse.ensures((text,), out));
                match out {
                    Ok(v) => Ok(Some(v)),
                    Err(e) => Err(FromStrError::FromStr(e)),
                }
            },
            Ok(None) => Ok(None),
            Err(e) => Err(FromStrError::FromUtf8(e)),
        }
    }
}

impl SecretExt for k8s_openapi::api::core::v1::Secret {
    open spec fn payload(&self, field: Seq<char>) -> Option<Seq<u8>> {
        field_bytes(*self, field)
    }

    fn get_u8(&self, field: &str) -> (r: Option<&Vec<u8>>) {
        let data = match self.data {
            Some(ref data) => data,
            None => return None,
        };
        match lookup(data, field) {
            Some(data) => Some(&data.0),
            None => None,
        }
    }
}

} // verus!
