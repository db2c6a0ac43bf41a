//! Push-notification preparation: validating a send key, deriving the
//! push endpoint URL from its shard number, and encoding the form body.
//! The HTTP delivery itself is a collaborator outside this library.

use vstd::prelude::*;

verus! {

/// Why a notification could not be prepared or delivered.
#[derive(Debug)]
pub enum ServerChanError {
    /// The send key does not carry the `sctp<digits>t` marker.
    InvalidKey,
    /// Encoding the form body failed; the payload is the encoder's message.
    Encode(String),
    /// Delivering the request failed; the payload is the transport's message.
    Request(String),
    /// Compiling the key pattern failed; the payload is the engine's message.
    Regex(String),
}

impl ServerChanError {
    /// A human-readable description of the error.
    pub fn describe(&self) -> (r: String)
        ensures
            self is InvalidKey ==> r@ == "send key has no sctp shard marker"@,
            self is Encode ==> r@ == "form encoding failed: "@ + self->Encode_0@,
            self is Request ==> r@ == "push request failed: "@ + self->Request_0@,
            self is Regex ==> r@ == "key pattern failed: "@ + self->Regex_0@,
    {
        match self {
            ServerChanError::InvalidKey => String::from_str("send key has no sctp shard marker"),
            ServerChanError::Encode(m) => String::from_str("form encoding failed: ").concat(
                m.as_str(),
            ),
            ServerChanError::Request(m) => String::from_str("push request failed: ").concat(
                m.as_str(),
            ),
            ServerChanError::Regex(m) => String::from_str("key pattern failed: ").concat(
                m.as_str(),
            ),
        }
    }
}

/// A decimal digit.
pub open spec fn is_digit_char(c: char) -> bool {
    '0' <= c && c <= '9'
}

/// The digits `d` are captured at position `i` of `s`: `s` carries
/// `sctp`, then `d` (at least one digit), then `t`. The digit run is
/// maximal by construction, since the character after it is `t`.
pub open spec fn sctp_capture_at(s: Seq<char>, i: int, d: Seq<char>) -> bool {
    &&& 0 <= i
    &&& i + 4 + d.len() < s.len()
    &&& s.subrange(i, i + 4) == "sctp"@
    &&& d.len() >= 1
    &&& (forall|k: int| 0 <= k < d.len() ==> is_digit_char(d[k]))
    &&& s.subrange(i + 4, i + 4 + d.len() as int) == d
    &&& s[i + 4 + d.len()] == 't'
}

/// Some digit run is captured at position `i` of `s`.
pub open spec fn sctp_match_at(s: Seq<char>, i: int) -> bool {
    exists|d: Seq<char>| sctp_capture_at(s, i, d)
}

/// The shard digits of the leftmost `sctp<digits>t` marker in the key.
///
/// Relies on regex::Regex::new and regex::Regex::captures with the fixed
/// pattern `sctp([0-9]+)t`: `captures` reports the leftmost match of the
/// haystack, and the greedy digit group of that match. The explicit
/// `[0-9]` class keeps the group to ASCII digits, which is what
/// `sctp_capture_at` states.
#[verifier::external_body]
fn find_sctp_shard(key: &str) -> (r: Option<String>)
    ensures
        r is Some ==> exists|i: int|
            sctp_capture_at(key@, i, r->Some_0@) && (forall|j: int|
                0 <= j < i ==> !sctp_match_at(key@, j)),
        r is None ==> forall|i: int| !sctp_match_at(key@, i),
{
    let re = regex::Regex::new("sctp([0-9]+)t").unwrap();
    match re.captures(key) {
        Some(caps) => Some(caps.get(1).unwrap().as_str().to_owned()),
        None => None,
    }
}

/// The push endpoint for a key whose shard digits are `shard`.
pub open spec fn spec_push_url(shard: Seq<char>, key: Seq<char>) -> Seq<char> {
    "https://"@ + shard + ".push.ft07.com/send/"@ + key + ".send"@
}

/// Derive the push URL from a send key: the shard digits of the leftmost
/// `sctp<digits>t` marker select the host; a key without the marker is
/// rejected.
pub fn build_url(key: &str) -> (r: Result<String, ServerChanError>)
    ensures
        r is Ok ==> exists|i: int, d: Seq<char>|
            sctp_capture_at(key@, i, d) && (forall|j: int| 0 <= j < i ==> !sctp_match_at(key@, j))
                && r->Ok_0@ == spec_push_url(d, key@),
        r is Err ==> r->Err_0 is InvalidKey && (forall|i: int| !sctp_match_at(key@, i)),
        (exists|i: int| sctp_match_at(key@, i)) ==> r is Ok,
{
    match find_sctp_shard(key) {
        Some(shard) => {
            let mut url: String = String::from_str("https://");
            url.append(shard.as_str());
            url.append(".push.ft07.com/send/");
            url.append(key);
            url.append(".send");
            Ok(url)
        },
        None => Err(ServerChanError::InvalidKey),
    }
}

/// The form-urlencoded body carrying a notification's `text` and `desp`
/// fields; a function of the two values alone.
pub uninterp spec fn form_encoded(text: Seq<char>, desp: Seq<char>) -> Seq<char>;

/// Relies on serde_urlencoded::to_string over the two string pairs
/// `text` and `desp`: the encoding depends on the two values alone, and
/// the serializer cannot fail on string pairs (its errors arise only for
/// unsupported value types), so the call always returns a body.
#[verifier::external_body]
fn encode_text_desp(text: &str, desp: &str) -> (r: String)
    ensures
        r@ == form_encoded(text@, desp@),
{
    let params = [("text", text), ("desp", desp)];
    serde_urlencoded::to_string(params).unwrap()
}

/// A prepared push request: where to post and what body to send.
#[derive(Debug)]
pub struct NotificationRequest {
    pub url: String,
    pub body: String,
}

/// Prepare a push notification: reject a key without the shard marker,
/// otherwise derive the endpoint URL and encode the form body. A key
/// with the marker always yields a request. Delivery is left to the
/// transport collaborator.
pub fn prepare_notification(key: &str, text: &str, desp: &str) -> (r: Result<
    NotificationRequest,
    ServerChanError,
>)
    ensures
        r is Ok ==> r->Ok_0.body@ == form_encoded(text@, desp@) && exists|i: int, d: Seq<char>|
            sctp_capture_at(key@, i, d) && (forall|j: int| 0 <= j < i ==> !sctp_match_at(key@, j))
                && r->Ok_0.url@ == spec_push_url(d, key@),
        r is Err ==> r->Err_0 is InvalidKey && (forall|i: int| !sctp_match_at(key@, i)),
        (exists|i: int| sctp_match_at(key@, i)) ==> r is Ok,
{
    match build_url(key) {
        Ok(url) => Ok(NotificationRequest { url, body: encode_text_desp(text, desp) }),
        Err(e) => Err(e),
    }
}

} // verus!
