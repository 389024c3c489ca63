use vstd::prelude::*;
use vstd::string::StringExecFns;
use crate::json::{
    json_document, json_member, json_string_literal, member, parse_document, quote, Member,
};

verus! {

/// The compositor's account of its active window. `executable` may be missing;
/// `title` and `class` never are.
#[derive(Clone, Debug, PartialEq, Eq)]
pub struct AppInfo {
    pub title: String,
    pub executable: Option<String>,
    pub class: String,
}

/// A field of the record.
#[derive(Clone, Copy, Debug, PartialEq, Eq, Structural)]
pub enum Field {
    Title,
    Exec,
    Class,
}

/// Why an answer could not be read as a record.
#[derive(Clone, Copy, Debug, PartialEq, Eq, Structural)]
pub enum DecodeError {
    /// The bytes are not one JSON document, or nest arrays and objects
    /// deeper than serde_json's limit of 128 levels.
    NotJson,
    /// JSON, but a required field is not there.
    MissingField(Field),
    /// JSON, but a field holds something other than a string.
    WrongType(Field),
}

/// Why an answer could not be turned into output.
#[derive(Clone, Copy, Debug, PartialEq, Eq, Structural)]
pub enum ResponseError {
    Decode(DecodeError),
    Encode,
}

/// A required string field: a string is taken, a missing key is reported
/// as missing, anything else (null included) as the wrong type.
pub open spec fn required_text(m: Member, f: Field) -> Result<String, DecodeError> {
    match m {
        Member::Text(s) => Ok(s),
        Member::Absent => Err(DecodeError::MissingField(f)),
        _ => Err(DecodeError::WrongType(f)),
    }
}

/// The optional `exec` field: a missing key and null both mean absent.
pub open spec fn optional_text(m: Member) -> Result<Option<String>, DecodeError> {
    match m {
        Member::Text(s) => Ok(Some(s)),
        Member::Absent => Ok(None),
        Member::Null => Ok(None),
        Member::Other => Err(DecodeError::WrongType(Field::Exec)),
    }
}

/// The record that the entries under "title", "exec" and "class" describe;
/// they are checked in that order.
pub open spec fn members_record(title: Member, executable: Member, class: Member) -> Result<
    AppInfo,
    DecodeError,
> {
    match required_text(title, Field::Title) {
        Err(e) => Err(e),
        Ok(title) => match optional_text(executable) {
            Err(e) => Err(e),
            Ok(executable) => match required_text(class, Field::Class) {
                Err(e) => Err(e),
                Ok(class) => Ok(AppInfo { title, executable, class }),
            },
        },
    }
}

/// The record that a JSON value describes. Other keys are ignored. Where a
/// key is repeated in the text, serde_json keeps its last entry, and only
/// that entry is read.
pub open spec fn record_of(v: serde_json::Value) -> Result<AppInfo, DecodeError> {
    members_record(json_member(v, "title"@), json_member(v, "exec"@), json_member(v, "class"@))
}

/// The record that the bytes of an answer describe.
pub open spec fn response_record(bytes: Seq<u8>) -> Result<AppInfo, DecodeError> {
    match json_document(bytes) {
        None => Err(DecodeError::NotJson),
        Some(v) => record_of(v),
    }
}

/// A compact JSON object with the three keys, from the JSON text of each value.
pub open spec fn object_text(title: Seq<char>, executable: Seq<char>, class: Seq<char>) -> Seq<char> {
    "{\"title\":"@ + title + ",\"exec\":"@ + executable + ",\"class\":"@ + class + "}"@
}

/// The JSON text of `executable`: its string literal, or `null` where it is absent.
pub open spec fn exec_text(executable: Option<String>) -> Seq<char> {
    match executable {
        Some(s) => json_string_literal(s@),
        None => "null"@,
    }
}

/// The JSON text written for a record.
pub open spec fn record_json(info: AppInfo) -> Seq<char> {
    object_text(
        json_string_literal(info.title@),
        exec_text(info.executable),
        json_string_literal(info.class@),
    )
}

fn required_field(m: Member, f: Field) -> (r: Result<String, DecodeError>)
    ensures
        r == required_text(m, f),
{
    match m {
        Member::Text(s) => Ok(s),
        Member::Absent => Err(DecodeError::MissingField(f)),
        _ => Err(DecodeError::WrongType(f)),
    }
}

fn optional_field(m: Member) -> (r: Result<Option<String>, DecodeError>)
    ensures
        r == optional_text(m),
{
    match m {
        Member::Text(s) => Ok(Some(s)),
        Member::Absent => Ok(None),
        Member::Null => Ok(None),
        Member::Other => Err(DecodeError::WrongType(Field::Exec)),
    }
}

/// Checks the entries under "title", "exec" and "class" against the
/// record's schema.
pub fn record_from_members(title: Member, executable: Member, class: Member) -> (r: Result<
    AppInfo,
    DecodeError,
>)
    ensures
        r == members_record(title, executable, class),
{
    let title = match required_field(title, Field::Title) {
        Ok(s) => s,
        Err(e) => return Err(e),
    };
    let executable = match optional_field(executable) {
        Ok(s) => s,
        Err(e) => return Err(e),
    };
    let class = match required_field(class, Field::Class) {
        Ok(s) => s,
        Err(e) => return Err(e),
    };
    Ok(AppInfo { title, executable, class })
}

/// Checks a parsed JSON value against the record's schema.
pub fn decode_record(v: &serde_json::Value) -> (r: Result<AppInfo, DecodeError>)
    ensures
        r == record_of(*v),
{
    let title = member(v, "title");
    let executable = member(v, "exec");
    let class = member(v, "class");
    record_from_members(title, executable, class)
}

/// Reads the bytes of an answer as a record.
pub fn parse_response(bytes: &[u8]) -> (r: Result<AppInfo, DecodeError>)
    ensures
        r == response_record(bytes@),
{
    match parse_document(bytes) {
        Ok(v) => decode_record(&v),
        Err(_) => Err(DecodeError::NotJson),
    }
}

/// Writes the compact object from the JSON text of each of its values.
pub fn assemble_object(title: &str, executable: &str, class: &str) -> (r: String)
    ensures
        r@ == object_text(title@, executable@, class@),
{
    let mut out = String::from_str("{\"title\":");
    out.append(title);
    out.append(",\"exec\":");
    out.append(executable);
    out.append(",\"class\":");
    out.append(class);
    out.append("}");
    out
}

/// Writes a record as compact JSON, `executable` as `null` where it is absent.
/// A serializer failure would be reported as `Encode`; for strings there is
/// none, so this always succeeds.
pub fn encode_record(info: &AppInfo) -> (r: Result<String, ResponseError>)
    ensures
        r is Ok,
        r->Ok_0@ == record_json(*info),
{
    let title = match quote(info.title.as_str()) {
        Ok(q) => q,
        Err(_) => return Err(ResponseError::Encode),
    };
    let executable = match &info.executable {
        Some(s) => match quote(s.as_str()) {
            Ok(q) => q,
            Err(_) => return Err(ResponseError::Encode),
        },
        None => String::from_str("null"),
    };
    let class = match quote(info.class.as_str()) {
        Ok(q) => q,
        Err(_) => return Err(ResponseError::Encode),
    };
    Ok(assemble_object(title.as_str(), executable.as_str(), class.as_str()))
}

/// The whole answer turned into output: decoded, then written again.
pub fn render_response(bytes: &[u8]) -> (r: Result<String, ResponseError>)
    ensures
        response_record(bytes@) is Err ==> r == Err::<String, ResponseError>(
            ResponseError::Decode(response_record(bytes@)->Err_0),
        ),
        response_record(bytes@) is Ok ==> r is Ok && r->Ok_0@ == record_json(
            response_record(bytes@)->Ok_0,
        ),
{
    match parse_response(bytes) {
        Ok(info) => encode_record(&info),
        Err(e) => Err(ResponseError::Decode(e)),
    }
}

/// Reading then writing keeps the record: where the document holds the
/// strings `title` and `class` under "title" and "class", and under "exec"
/// the string of `executable`, or null or nothing where it is `None`, the
/// answer reads as exactly that record, and it is written as the object of
/// the same title and class whose "exec" is that string, or null.
pub proof fn lemma_round_trip(
    bytes: Seq<u8>,
    title: String,
    executable: Option<String>,
    class: String,
)
    requires
        json_document(bytes) is Some,
        json_member(json_document(bytes)->Some_0, "title"@) == Member::Text(title),
        json_member(json_document(bytes)->Some_0, "class"@) == Member::Text(class),
        match executable {
            Some(e) => json_member(json_document(bytes)->Some_0, "exec"@) == Member::Text(e),
            None => json_member(json_document(bytes)->Some_0, "exec"@) == Member::Absent
                || json_member(json_document(bytes)->Some_0, "exec"@) == Member::Null,
        },
    ensures
        response_record(bytes) == Ok::<AppInfo, DecodeError>(AppInfo { title, executable, class }),
        record_json(response_record(bytes)->Ok_0) == object_text(
            json_string_literal(title@),
            exec_text(executable),
            json_string_literal(class@),
        ),
{
}

/// A JSON answer without "title" or without "class" is rejected as JSON of
/// the wrong shape, never read as a record; without "title" the error names
/// that field.
pub proof fn lemma_missing_field_rejected(bytes: Seq<u8>)
    requires
        json_document(bytes) is Some,
        json_member(json_document(bytes)->Some_0, "title"@) == Member::Absent
            || json_member(json_document(bytes)->Some_0, "class"@) == Member::Absent,
    ensures
        response_record(bytes) is Err,
        response_record(bytes)->Err_0 != DecodeError::NotJson,
        json_member(json_document(bytes)->Some_0, "title"@) == Member::Absent
            ==> response_record(bytes) == Err::<AppInfo, DecodeError>(
            DecodeError::MissingField(Field::Title),
        ),
{
}

/// Bytes that serde_json does not read as one JSON document (nesting past
/// its depth limit included) are rejected as not JSON.
pub proof fn lemma_malformed_rejected(bytes: Seq<u8>)
    requires
        json_document(bytes) is None,
    ensures
        response_record(bytes) == Err::<AppInfo, DecodeError>(DecodeError::NotJson),
{
}

} // verus!
