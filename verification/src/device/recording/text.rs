//! The texts of a recording: identities, instants, topics and file names.
use vstd::arithmetic::power::pow;
use vstd::prelude::*;
use vstd::string::{StrSliceExecFns, StringExecFns};

verus! {

/// An instant: the seconds since the start of 1970 in UTC, leap seconds
/// not counted, and the nanoseconds into the second.
#[derive(Debug, Clone, Copy, PartialEq, Eq, Structural)]
pub struct Timestamp {
    pub secs: i64,
    pub nanos: u32,
}

/// A text that may be absent, seen as a sequence.
pub open spec fn text_view(text: Option<String>) -> Option<Seq<char>> {
    match text {
        Some(t) => Some(t@),
        None => None,
    }
}

/// The hexadecimal digit of `n` in lower case.
pub open spec fn hex_char(n: int) -> char {
    if n < 10 {
        (48 + n) as char
    } else {
        (87 + n) as char
    }
}

/// The hexadecimal digit of `id` at place `k`, the most significant one
/// at place 0 and the least significant at place 31.
pub open spec fn hex_digit(id: u128, k: int) -> int {
    (id as int / pow(16, (31 - k) as nat)) % 16
}

/// The text of an identity: its 32 hexadecimal digits in lower case, the
/// most significant first, in groups of 8, 4, 4, 4 and 12 with a hyphen
/// between two groups.
pub open spec fn uuid_text(id: u128) -> Seq<char> {
    Seq::new(
        36,
        |i: int|
            if i == 8 || i == 13 || i == 18 || i == 23 {
                '-'
            } else if i < 8 {
                hex_char(hex_digit(id, i))
            } else if i < 13 {
                hex_char(hex_digit(id, i - 1))
            } else if i < 18 {
                hex_char(hex_digit(id, i - 2))
            } else if i < 23 {
                hex_char(hex_digit(id, i - 3))
            } else {
                hex_char(hex_digit(id, i - 4))
            },
    )
}

/// `Uuid::from_u128` of the crate `uuid`, displayed. The crate takes the
/// number as the 16 bytes of the identity, high byte first, and displays
/// them in the hyphenated form with lower-case digits.
#[verifier::external_body]
pub(crate) fn format_uuid(id: u128) -> (text: String)
    ensures
        text@ == uuid_text(id),
{
    uuid::Uuid::from_u128(id).hyphenated().to_string()
}

/// What `chrono` makes of the instant `secs`, `nanos` in UTC under the
/// format `%Y%m%d_%H%M%S`: year, month, day, an underscore, hour, minute
/// and second. `None` where `chrono` cannot represent the instant.
pub uninterp spec fn utc_compact(secs: i64, nanos: u32) -> Option<Seq<char>>;

/// What `chrono` makes of the instant `secs`, `nanos` in UTC as a date
/// and time of RFC 3339. `None` where `chrono` cannot represent the
/// instant.
pub uninterp spec fn utc_rfc3339(secs: i64, nanos: u32) -> Option<Seq<char>>;

/// `DateTime::format` of the crate `chrono`, on the instant that
/// `DateTime::from_timestamp` makes of the two numbers, with the format
/// `%Y%m%d_%H%M%S`.
#[verifier::external_body]
pub(crate) fn format_compact(secs: i64, nanos: u32) -> (text: Option<String>)
    ensures
        text_view(text) == utc_compact(secs, nanos),
{
    match chrono::DateTime::from_timestamp(secs, nanos) {
        Some(instant) => Some(instant.format("%Y%m%d_%H%M%S").to_string()),
        None => None,
    }
}

/// `DateTime::to_rfc3339` of the crate `chrono`, on the instant that
/// `DateTime::from_timestamp` makes of the two numbers.
#[verifier::external_body]
pub(crate) fn format_rfc3339(secs: i64, nanos: u32) -> (text: Option<String>)
    ensures
        text_view(text) == utc_rfc3339(secs, nanos),
{
    match chrono::DateTime::from_timestamp(secs, nanos) {
        Some(instant) => Some(instant.to_rfc3339()),
        None => None,
    }
}

/// The three texts one after the other.
pub open spec fn framed(before: Seq<char>, middle: Seq<char>, after: Seq<char>) -> Seq<char> {
    before + middle + after
}

/// The three texts one after the other.
pub fn frame(before: &str, middle: &str, after: &str) -> (text: String)
    ensures
        text@ == framed(before@, middle@, after@),
{
    let mut text = String::from_str(before);
    text.append(middle);
    text.append(after);
    text
}

/// The topic of the channel `leaf` of a device.
pub open spec fn topic_text(id: u128, leaf: Seq<char>) -> Seq<char> {
    framed("/device_"@, uuid_text(id), "/"@ + leaf)
}

/// The topic of the channel `leaf` of the device `id`.
pub fn device_topic(id: u128, leaf: &str) -> (topic: String)
    ensures
        topic@ == topic_text(id, leaf@),
{
    let name = format_uuid(id);
    let mut topic = frame("/device_", name.as_str(), "/");
    topic.append(leaf);
    assert(topic@ =~= topic_text(id, leaf@));
    topic
}

/// The name of the file that records a device from the instant whose
/// compact text is `stamp`.
pub open spec fn file_name_text(id: u128, stamp: Seq<char>) -> Seq<char> {
    framed("device_"@, uuid_text(id), "_"@ + stamp + ".mcap"@)
}

/// The name of the file that records the device `id` from the instant
/// whose compact text is `stamp`.
pub fn recording_file_name(id: u128, stamp: &str) -> (name: String)
    ensures
        name@ == file_name_text(id, stamp@),
{
    let device = format_uuid(id);
    let mut name = frame("device_", device.as_str(), "_");
    name.append(stamp);
    name.append(".mcap");
    assert(name@ =~= file_name_text(id, stamp@));
    name
}

/// The path of the file `name` in the directory `base`: the two with one
/// slash between them, and `name` alone in the directory without a name.
pub open spec fn joined(base: Seq<char>, name: Seq<char>) -> Seq<char> {
    if base.len() == 0 {
        name
    } else if base.last() == '/' {
        base + name
    } else {
        base + seq!['/'] + name
    }
}

/// The path of the file `name` in the directory `base`.
pub fn file_in(base: &str, name: &str) -> (path: String)
    ensures
        path@ == joined(base@, name@),
{
    let len = base.unicode_len();
    if len == 0 {
        let path = String::from_str(name);
        assert(base@.len() == 0);
        path
    } else if base.get_char(len - 1) == '/' {
        let mut path = String::from_str(base);
        path.append(name);
        path
    } else {
        proof {
            reveal_strlit("/");
        }
        let path = frame(base, "/", name);
        assert("/"@ =~= seq!['/']);
        path
    }
}

} // verus!
