//! Typed reads of the fields of a Kubernetes `Secret`: raw bytes, UTF-8 text,
//! or a value parsed from that text.

mod accessor;
mod decode;
mod error;
mod laws;
mod secret;

pub use accessor::{parse_read, parsed_read, text_read, SecretExt};
pub use error::FromStrError;
pub use laws::{
    encoded_text_reads_back, invalid_payload_is_decoding_error, missing_field_reads_absent,
    no_data_section_reads_absent, parsed_text_reads_value,
};
pub use secret::{field_bytes, text_entries};
