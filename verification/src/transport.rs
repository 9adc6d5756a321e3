//! Addresses of the publish/subscribe service that carries events between
//! participants. The library only computes them; sending a request is the
//! host's business.

use vstd::prelude::*;
use vstd::string::StringExecFns;
use vstd::utf8::encode_utf8;

verus! {

/// Where the service is reached and under which keys. The host supplies
/// these; the library holds no address and no key of its own.
pub struct Endpoint {
    pub host: String,
    pub publish_key: String,
    pub subscribe_key: String,
}

/// Whether a byte cannot stand for itself in one segment of a path: control
/// bytes, bytes beyond `~`, the space, and the characters
/// `"`, `#`, `%`, `/`, `<`, `>`, `?`, `` ` ``, `{` and `}`.
pub open spec fn needs_escape(byte: u8) -> bool {
    ||| byte < 0x20
    ||| byte > 0x7e
    ||| byte == 0x20
    ||| byte == 0x22
    ||| byte == 0x23
    ||| byte == 0x25
    ||| byte == 0x2f
    ||| byte == 0x3c
    ||| byte == 0x3e
    ||| byte == 0x3f
    ||| byte == 0x60
    ||| byte == 0x7b
    ||| byte == 0x7d
}

/// The upper-case hexadecimal digit for a value from 0 to 15.
pub open spec fn hex_digit(value: int) -> char {
    if value < 10 {
        (0x30 + value) as char
    } else {
        (0x41 + value - 10) as char
    }
}

/// One byte as it appears in a path segment: itself, or `%` and its two
/// hexadecimal digits where it needs an escape.
pub open spec fn escaped_byte(byte: u8) -> Seq<char> {
    if needs_escape(byte) {
        seq!['%', hex_digit(byte as int / 16), hex_digit(byte as int % 16)]
    } else {
        seq![byte as char]
    }
}

/// The bytes as they appear in a path segment, one after the other.
pub open spec fn escaped(bytes: Seq<u8>) -> Seq<char>
    decreases bytes.len(),
{
    if bytes.len() == 0 {
        Seq::empty()
    } else {
        escaped(bytes.drop_last()) + escaped_byte(bytes.last())
    }
}

/// A text as one path segment: its UTF-8 bytes, escaped.
pub open spec fn segment(text: Seq<char>) -> Seq<char> {
    escaped(encode_utf8(text))
}

/// The address that publishes a message on a channel.
pub open spec fn publish_address(
    host: Seq<char>,
    publish_key: Seq<char>,
    subscribe_key: Seq<char>,
    channel: Seq<char>,
    message: Seq<char>,
) -> Seq<char> {
    "https://"@ + host + "/publish/"@ + publish_key + "/"@ + subscribe_key + "/0/"@ + segment(
        channel,
    ) + "/0/"@ + segment(message)
}

/// The address that asks for the messages of a channel after a point in
/// time.
pub open spec fn subscribe_address(
    host: Seq<char>,
    subscribe_key: Seq<char>,
    channel: Seq<char>,
    time: Seq<char>,
) -> Seq<char> {
    "https://"@ + host + "/v2/subscribe/"@ + subscribe_key + "/"@ + segment(channel) + "/0/"@
        + segment(time)
}

/// Percent-encodes bytes for use as one path segment.
///
/// Trusted: the body calls `percent_encoding::percent_encode` with
/// `PATH_SEGMENT_ENCODE_SET` and joins the pieces it yields. The contract
/// claims what that crate documents: every byte of the set, which is
/// `needs_escape`, becomes `%` and two upper-case hexadecimal digits, and
/// every other byte, which is ASCII, stays as the character it is.
#[verifier::external_body]
fn escape_path_segment(bytes: &[u8]) -> (text: String)
    ensures
        text@ == escaped(bytes@),
{
    percent_encoding::percent_encode(bytes, percent_encoding::PATH_SEGMENT_ENCODE_SET).to_string()
}

/// Builds the address that publishes `message` on `channel`. The channel
/// and the message are escaped as path segments; the host and the keys are
/// taken as they are.
pub fn publish_url(endpoint: &Endpoint, channel: &str, message: &str) -> (url: String)
    ensures
        url@ == publish_address(
            endpoint.host@,
            endpoint.publish_key@,
            endpoint.subscribe_key@,
            channel@,
            message@,
        ),
{
    let channel_segment = escape_path_segment(channel.as_bytes());
    let message_segment = escape_path_segment(message.as_bytes());
    let mut url = String::from_str("https://");
    url.append(endpoint.host.as_str());
    url.append("/publish/");
    url.append(endpoint.publish_key.as_str());
    url.append("/");
    url.append(endpoint.subscribe_key.as_str());
    url.append("/0/");
    url.append(channel_segment.as_str());
    url.append("/0/");
    url.append(message_segment.as_str());
    url
}

/// Builds the address that asks for what was published on `channel` after
/// `time`, the token that the service handed out with the previous answer.
/// The library does not interpret the token. The channel and the token are
/// escaped as path segments; the host and the key are taken as they are.
pub fn subscribe_url(endpoint: &Endpoint, channel: &str, time: &str) -> (url: String)
    ensures
        url@ == subscribe_address(endpoint.host@, endpoint.subscribe_key@, channel@, time@),
{
    let channel_segment = escape_path_segment(channel.as_bytes());
    let time_segment = escape_path_segment(time.as_bytes());
    let mut url = String::from_str("https://");
    url.append(endpoint.host.as_str());
    url.append("/v2/subscribe/");
    url.append(endpoint.subscribe_key.as_str());
    url.append("/");
    url.append(channel_segment.as_str());
    url.append("/0/");
    url.append(time_segment.as_str());
    url
}

} // verus!
