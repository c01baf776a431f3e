//! JSON responses: a payload and a timestamp, framed as one JSON object.

use crate::response::{
    internal_error_response, spec_internal_error_response, Header, Response, ResponseView,
    StatusCode,
};
use crate::clock::unix_time_now;
use vstd::prelude::*;
use vstd::utf8::{encode_utf8, is_ascii_chars_encode_utf8};

verus! {

/// Whether `bytes` are one well-formed JSON document, as `serde_json` reads
/// it. The name stands for the parser's verdict; nothing else is known of it
/// here.
pub uninterp spec fn is_json_text(bytes: Seq<u8>) -> bool;

/// `serde_json::from_slice`, asked only whether it accepts `bytes`.
///
/// Trusted: the parser reads the slice and nothing else, so its verdict is a
/// function of the bytes. It reports malformed input, trailing characters and
/// nesting beyond its depth limit as errors and does not panic on them.
#[verifier::external_body]
pub(crate) fn parses_as_json(bytes: &[u8]) -> (accepted: bool)
    ensures
        accepted == is_json_text(bytes@),
{
    serde_json::from_slice::<serde_json::Value>(bytes).is_ok()
}

/// A character that can stand inside a JSON string as it is: printable
/// ASCII other than the quote and the backslash.
pub open spec fn is_plain_char(c: char) -> bool {
    ' ' <= c <= '~' && c != '"' && c != '\\'
}

/// Text that can stand between two quotes as a JSON string without escapes.
pub open spec fn is_plain_text(text: Seq<char>) -> bool {
    forall|i: int| 0 <= i < text.len() ==> is_plain_char(#[trigger] text[i])
}

/// A character of a UTC timestamp: a digit, a sign, or one of `: . T Z`.
pub open spec fn is_timestamp_char(c: char) -> bool {
    ('0' <= c <= '9') || c == '+' || c == '-' || c == ':' || c == '.' || c == 'T' || c == 'Z'
}

/// Text in the shape of a UTC timestamp: date and time down to the second at
/// least, so twenty characters or more, made of timestamp characters, and
/// ending in `Z`.
pub open spec fn is_utc_timestamp(text: Seq<char>) -> bool {
    &&& text.len() >= 20
    &&& text.last() == 'Z'
    &&& forall|i: int| 0 <= i < text.len() ==> is_timestamp_char(#[trigger] text[i])
}

/// A UTC timestamp is plain text.
pub proof fn lemma_utc_timestamp_is_plain(text: Seq<char>)
    requires
        is_utc_timestamp(text),
    ensures
        is_plain_text(text),
{
    assert forall|i: int| 0 <= i < text.len() implies is_plain_char(#[trigger] text[i]) by {
        assert(is_timestamp_char(text[i]));
    }
}

/// The RFC 3339 text, with a `Z` suffix, of the time that lies `secs`
/// seconds and `nanos` nanoseconds after the start of 1970 in UTC, as
/// `chrono` writes it; `None` where `chrono` has no such time. The name
/// stands for the crate's answer; of its value only the shape is known here.
pub uninterp spec fn rfc3339_text(secs: i64, nanos: u32) -> Option<Seq<char>>;

/// `chrono::DateTime::<Utc>::from_timestamp`, written with
/// `DateTime::to_rfc3339_opts` as RFC 3339 text with a `Z` suffix, the form
/// in which `chrono` serialises a UTC time.
///
/// Trusted: the crate computes date and time from the two numbers alone and
/// gives `None` for numbers out of its range. The text it writes is a year
/// of four digits or of a sign and more, then `-MM-DDTHH:MM:SS`, a fraction
/// of a second where there is one, and `Z`.
#[verifier::external_body]
pub(crate) fn utc_text(secs: i64, nanos: u32) -> (text: Option<String>)
    ensures
        text matches Some(written) ==> rfc3339_text(secs, nanos) == Some(written@),
        text is None ==> rfc3339_text(secs, nanos) is None,
        text matches Some(written) ==> is_utc_timestamp(written@),
{
    chrono::DateTime::<chrono::Utc>::from_timestamp(secs, nanos).map(
        |time| time.to_rfc3339_opts(chrono::SecondsFormat::AutoSi, true),
    )
}

/// The timestamp of the start of 1970 in UTC.
pub open spec fn spec_epoch_text() -> Seq<char> {
    "1970-01-01T00:00:00Z"@
}

/// The timestamp that stands for a reading of the system clock: the text of
/// the time read, or that of the start of 1970 where no time was read or the
/// time read has no text.
pub open spec fn spec_timestamp(reading: Option<(u64, u32)>) -> Seq<char> {
    match reading {
        Some(time) => if time.0 <= i64::MAX {
            spec_text_or_epoch(rfc3339_text(time.0 as i64, time.1))
        } else {
            spec_epoch_text()
        },
        None => spec_epoch_text(),
    }
}

/// `written`, or the timestamp of the start of 1970 where there is none.
pub open spec fn spec_text_or_epoch(written: Option<Seq<char>>) -> Seq<char> {
    match written {
        Some(text) => text,
        None => spec_epoch_text(),
    }
}

/// The timestamp of the start of 1970 in UTC: what stands for a time that
/// could not be read.
pub fn epoch_text() -> (text: String)
    ensures
        text@ == spec_epoch_text(),
        is_utc_timestamp(text@),
{
    proof {
        reveal_strlit("1970-01-01T00:00:00Z");
    }
    String::from_str("1970-01-01T00:00:00Z")
}

/// `written`, or the timestamp of the start of 1970 where there is none.
/// The latter has the shape of a UTC timestamp.
pub fn text_or_epoch(written: Option<String>) -> (text: String)
    ensures
        written matches Some(given) ==> text@ == spec_text_or_epoch(Some(given@)),
        written is None ==> text@ == spec_text_or_epoch(None),
        written is None ==> is_utc_timestamp(text@),
{
    match written {
        Some(given) => given,
        None => epoch_text(),
    }
}

/// The timestamp that stands for `reading`, a reading of the system clock
/// in seconds and nanoseconds since the start of 1970 in UTC: see
/// `spec_timestamp`. Whatever the reading, the result has the shape of a UTC
/// timestamp.
pub fn timestamp_text(reading: Option<(u64, u32)>) -> (text: String)
    ensures
        text@ == spec_timestamp(reading),
        is_utc_timestamp(text@),
{
    match reading {
        Some((secs, nanos)) => {
            if secs <= 0x7fff_ffff_ffff_ffff {
                text_or_epoch(utc_text(secs as i64, nanos))
            } else {
                epoch_text()
            }
        },
        None => epoch_text(),
    }
}

/// The JSON object that carries `data` and `timestamp`:
/// `{"data":<data>,"timestamp":"<timestamp>"}`.
pub open spec fn spec_envelope(data: Seq<u8>, timestamp: Seq<u8>) -> Seq<u8> {
    encode_utf8("{\"data\":"@) + data + encode_utf8(",\"timestamp\":\""@) + timestamp
        + encode_utf8("\"}"@)
}

/// The response for a payload `data` stamped `timestamp`, given whether the
/// payload is well-formed JSON.
///
/// A well-formed payload with a plain timestamp gives status 200, the
/// content type `application/json`, and the envelope as body. Anything else
/// gives the internal-error response.
pub open spec fn spec_json_response(
    data: Seq<u8>,
    timestamp: Seq<char>,
    data_is_json: bool,
) -> ResponseView {
    if data_is_json && is_plain_text(timestamp) {
        ResponseView {
            status: 200,
            headers: seq![("Content-Type"@, "application/json"@)],
            body: spec_envelope(data, encode_utf8(timestamp)),
        }
    } else {
        spec_internal_error_response()
    }
}

/// Whether `text` is plain.
pub fn check_plain_text(text: &str) -> (plain: bool)
    ensures
        plain == is_plain_text(text@),
{
    if !text.is_ascii() {
        return false;
    }
    proof {
        is_ascii_chars_encode_utf8(text@);
    }
    let bytes = text.as_bytes();
    let mut i: usize = 0;
    while i < bytes.len()
        invariant
            i <= bytes.len(),
            bytes@.len() == text@.len(),
            forall|j: int| 0 <= j < bytes@.len() ==> bytes@[j] == (#[trigger] text@[j]) as u8,
            forall|j: int| 0 <= j < bytes@.len() ==> '\0' <= (#[trigger] text@[j]) <= '\u{7f}',
            forall|j: int| 0 <= j < i ==> is_plain_char(#[trigger] text@[j]),
        decreases bytes.len() - i,
    {
        let byte = bytes[i];
        assert(byte == text@[i as int] as u8);
        if byte < 0x20 || byte > 0x7e || byte == 0x22 || byte == 0x5c {
            return false;
        }
        i += 1;
    }
    true
}

/// Appends the bytes of `tail` to `bytes`.
fn append_bytes(bytes: &mut Vec<u8>, tail: &[u8])
    ensures
        final(bytes)@ == old(bytes)@ + tail@,
{
    let mut i: usize = 0;
    while i < tail.len()
        invariant
            i <= tail.len(),
            bytes@ == old(bytes)@ + tail@.subrange(0, i as int),
        decreases tail.len() - i,
    {
        bytes.push(tail[i]);
        i += 1;
    }
}

/// A JSON payload together with the time at which it was produced.
///
/// `data` holds the payload as JSON text; `timestamp` holds the time as
/// text, in an ISO 8601 form.
#[derive(Debug, Clone, PartialEq, Eq)]
pub struct JsonResponse {
    pub data: Vec<u8>,
    pub timestamp: String,
}

impl JsonResponse {
    /// Stamps `data` with the present time, as a UTC timestamp.
    ///
    /// The timestamp is that of the reading taken from the system clock: see
    /// `spec_timestamp`. Where the clock is set before 1970 it is the
    /// timestamp of the start of 1970.
    pub fn new(data: Vec<u8>) -> (stamped: Self)
        ensures
            stamped.data@ == data@,
            exists|reading: Option<(u64, u32)>|
                stamped.timestamp@ == #[trigger] spec_timestamp(reading),
            is_utc_timestamp(stamped.timestamp@),
    {
        let reading = unix_time_now();
        JsonResponse { data, timestamp: timestamp_text(reading) }
    }

    /// The response that carries this payload: see `spec_json_response`.
    /// The payload is checked to be well-formed JSON, and a payload that is
    /// not gives the internal-error response.
    pub fn into_response(self) -> (response: Response)
        ensures
            response.deep_view() == spec_json_response(
                self.data@,
                self.timestamp@,
                is_json_text(self.data@),
            ),
    {
        let data_is_json = parses_as_json(self.data.as_slice());
        self.render(data_is_json)
    }

    /// The response that carries this payload, given whether the payload is
    /// well-formed JSON: see `spec_json_response`.
    pub fn render(self, data_is_json: bool) -> (response: Response)
        ensures
            response.deep_view() == spec_json_response(self.data@, self.timestamp@, data_is_json),
    {
        if data_is_json && check_plain_text(self.timestamp.as_str()) {
            let stamp = self.timestamp.as_str().as_bytes();
            let mut body: Vec<u8> = Vec::new();
            append_bytes(&mut body, "{\"data\":".as_bytes());
            append_bytes(&mut body, self.data.as_slice());
            append_bytes(&mut body, ",\"timestamp\":\"".as_bytes());
            append_bytes(&mut body, stamp);
            append_bytes(&mut body, "\"}".as_bytes());
            let mut headers: Vec<Header> = Vec::new();
            headers.push(
                Header {
                    name: String::from_str("Content-Type"),
                    value: String::from_str("application/json"),
                },
            );
            let response = Response { status: StatusCode::ok(), headers, body };
            assert(response.headers.deep_view() =~= seq![
                ("Content-Type"@, "application/json"@),
            ]);
            response
        } else {
            internal_error_response()
        }
    }
}

/// The response that carries `data`, stamped with the present time.
///
/// A payload that is well-formed JSON gives status 200 and the envelope of
/// the payload and the UTC timestamp of the time that was read. Any other
/// payload gives the internal-error response.
pub fn json_response(data: Vec<u8>) -> (response: Response)
    ensures
        response.status.spec_as_u16() == (if is_json_text(data@) { 200u16 } else { 500u16 }),
        is_json_text(data@) ==> exists|timestamp: Seq<char>|
            is_utc_timestamp(timestamp) && response.deep_view() == #[trigger] spec_json_response(
                data@,
                timestamp,
                true,
            ),
        !is_json_text(data@) ==> response.deep_view() == spec_internal_error_response(),
{
    let stamped = JsonResponse::new(data);
    proof {
        lemma_utc_timestamp_is_plain(stamped.timestamp@);
    }
    stamped.into_response()
}

} // verus!
