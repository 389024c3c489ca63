//! A client for a compositor's control socket: where the socket lives, the
//! request it takes, and how its answer about the active window is checked
//! and written out again as JSON.

mod json;
mod record;
mod socket;

pub use json::{
    escaped, escaped_char, hex_digit, json_document, json_member, json_string_literal, Member,
};
pub use record::{
    assemble_object, decode_record, encode_record, exec_text, lemma_malformed_rejected,
    lemma_missing_field_rejected, lemma_round_trip, members_record, object_text, optional_text,
    parse_response, record_from_members, record_json, record_of, render_response, required_text,
    response_record, AppInfo, DecodeError, Field, ResponseError,
};
pub use socket::{get_socket_addr, socket_path, AddrError, ACTIVE_WINDOW_REQUEST};
