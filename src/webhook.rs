//! One inbound alert: the bearer-token check, the status-to-tag mapping,
//! the outbound message, and the status code returned to the caller.

use vstd::prelude::*;
use vstd::utf8::encode_utf8;

use crate::config::Config;

verus! {

#[verifier::external_type_specification]
#[verifier::external_body]
pub struct ExValue(serde_json::Value);

/// Returned when the message was handed to the destination.
pub const STATUS_OK: u16 = 200;

/// Returned when the outbound call did not complete.
pub const STATUS_BAD_REQUEST: u16 = 400;

/// Returned when an auth key is configured and the request does not carry it.
pub const STATUS_UNAUTHORIZED: u16 = 401;

/// The lower-case hex digit of a value below sixteen.
pub open spec fn hex_digit(n: u32) -> char {
    seq!['0', '1', '2', '3', '4', '5', '6', '7', '8', '9', 'a', 'b', 'c', 'd', 'e', 'f'][n as int]
}

/// How one character stands inside a JSON string: a quote and a backslash
/// get a backslash, the usual control characters their short escape, the
/// other characters below 0x20 a `\u00XX` escape, and the rest themselves.
pub open spec fn escape_char(c: char) -> Seq<char> {
    if c == '"' {
        seq!['\\', '"']
    } else if c == '\\' {
        seq!['\\', '\\']
    } else if c == '\u{8}' {
        seq!['\\', 'b']
    } else if c == '\t' {
        seq!['\\', 't']
    } else if c == '\n' {
        seq!['\\', 'n']
    } else if c == '\u{c}' {
        seq!['\\', 'f']
    } else if c == '\r' {
        seq!['\\', 'r']
    } else if (c as u32) < 0x20 {
        seq!['\\', 'u', '0', '0', hex_digit((c as u32) / 16), hex_digit((c as u32) % 16)]
    } else {
        seq![c]
    }
}

/// The characters of a JSON string's contents, each escaped.
pub open spec fn escaped(s: Seq<char>) -> Seq<char>
    decreases s.len(),
{
    if s.len() == 0 {
        seq![]
    } else {
        escape_char(s[0]) + escaped(s.drop_first())
    }
}

/// The JSON encoding of a string: its escaped characters between quotes.
pub open spec fn json_quoted(s: Seq<char>) -> Seq<char> {
    seq!['"'] + escaped(s) + seq!['"']
}

/// What serde_json's `Index<&str>` gives for a value and a member name.
pub uninterp spec fn member_of(v: serde_json::Value, name: Seq<char>) -> serde_json::Value;

/// What serde_json's `Value::as_str` gives for a value, as characters.
pub uninterp spec fn str_of(v: serde_json::Value) -> Option<Seq<char>>;

/// What serde_json's `Display` for `Value` writes for a value, as characters.
pub uninterp spec fn text_of(v: serde_json::Value) -> Seq<char>;

/// Relies on serde_json's `Display` for `Value::String`: the compact JSON
/// text of the string, quoted and escaped.
#[verifier::external_body]
fn quote(s: &str) -> (r: String)
    ensures
        r@ == json_quoted(s@),
{
    serde_json::Value::String(s.to_string()).to_string()
}

/// Relies on serde_json's `Index<&str>` for `Value`: the member of that
/// name, or `Null` where there is none or the value is no object.
#[verifier::external_body]
fn member<'a>(payload: &'a serde_json::Value, name: &str) -> (r: &'a serde_json::Value)
    ensures
        *r == member_of(*payload, name@),
{
    &payload[name]
}

/// Relies on serde_json's `Value::as_str`: the text of a JSON string, and
/// nothing for any other value.
#[verifier::external_body]
fn string_of(v: &serde_json::Value) -> (r: Option<String>)
    ensures
        opt_view(r) == str_of(*v),
{
    v.as_str().map(|s| s.to_string())
}

/// Relies on serde_json's `Display` for `Value`: its compact JSON text.
#[verifier::external_body]
fn json_text(v: &serde_json::Value) -> (r: String)
    ensures
        r@ == text_of(*v),
{
    v.to_string()
}

/// `Bearer ` as bytes.
pub open spec fn bearer_prefix() -> Seq<u8> {
    seq![66u8, 101u8, 97u8, 114u8, 101u8, 114u8, 32u8]
}

/// The `Authorization` header value that carries `key`.
pub open spec fn bearer_token(key: Seq<char>) -> Seq<u8> {
    bearer_prefix() + encode_utf8(key)
}

/// A request with this header passes the check for this configured key.
pub open spec fn is_authorized(key: Option<String>, header: Option<&[u8]>) -> bool {
    match key {
        None => true,
        Some(k) => header matches Some(h) && h@ == bearer_token(k@),
    }
}

/// The status of an alert that is firing.
pub open spec fn status_firing() -> Seq<char> {
    seq!['f', 'i', 'r', 'i', 'n', 'g']
}

/// The status of an alert that has resolved.
pub open spec fn status_ok() -> Seq<char> {
    seq!['o', 'k']
}

/// The tag of a firing alert.
pub open spec fn tag_warning() -> Seq<char> {
    seq!['w', 'a', 'r', 'n', 'i', 'n', 'g']
}

/// The tag of a resolved alert.
pub open spec fn tag_check_mark() -> Seq<char> {
    seq![
        'w', 'h', 'i', 't', 'e', '_', 'c', 'h', 'e', 'c', 'k', '_', 'm', 'a', 'r', 'k',
    ]
}

/// The tag of an alert status: a warning when firing, a check mark when
/// resolved, and empty for anything else or no status.
pub open spec fn tag_for(status: Option<Seq<char>>) -> Seq<char> {
    match status {
        Some(s) => if s == status_firing() {
            tag_warning()
        } else if s == status_ok() {
            tag_check_mark()
        } else {
            seq![]
        },
        None => seq![],
    }
}

/// The view of an optional string.
pub open spec fn opt_view(s: Option<String>) -> Option<Seq<char>> {
    match s {
        Some(t) => Some(t@),
        None => None,
    }
}

/// The outbound message: a JSON object with the members topic, title,
/// message, a one-element tags array, and click, from their JSON texts.
pub open spec fn message_text(
    topic: Seq<char>,
    title: Seq<char>,
    message: Seq<char>,
    tag: Seq<char>,
    click: Seq<char>,
) -> Seq<char> {
    "{\"topic\":"@ + topic + ",\"title\":"@ + title + ",\"message\":"@ + message
        + ",\"tags\":["@ + tag + "],\"click\":"@ + click + "}"@
}

/// The alert fields that the outbound message uses: the status, if it is a
/// JSON string, and the JSON texts of the title, the message and the
/// external URL (`null` where absent).
pub struct Alert {
    pub status: Option<String>,
    pub title: String,
    pub message: String,
    pub click: String,
}

/// The outbound message for this topic and alert.
pub open spec fn notify_text(topic: Seq<char>, alert: Alert) -> Seq<char> {
    message_text(
        json_quoted(topic),
        alert.title@,
        alert.message@,
        json_quoted(tag_for(opt_view(alert.status))),
        alert.click@,
    )
}

/// What to do with one request.
pub enum Action {
    /// Answer at once with this status code; nothing is sent.
    Respond(u16),
    /// Send `body` to `url`, then answer by how that went.
    Forward { url: String, body: String },
}

/// Whether two strings hold the same characters.
fn same_text(a: &str, b: &str) -> (r: bool)
    ensures
        r == (a@ == b@),
{
    let n = a.unicode_len();
    if n != b.unicode_len() {
        return false;
    }
    let mut i: usize = 0;
    while i < n
        invariant
            n == a@.len(),
            n == b@.len(),
            i <= n,
            forall|j: int| 0 <= j < i ==> a@[j] == b@[j],
        decreases n - i,
    {
        if a.get_char(i) != b.get_char(i) {
            return false;
        }
        i += 1;
    }
    assert(a@ =~= b@);
    true
}

/// The tag that an alert status maps to.
pub fn status_tag(status: Option<&str>) -> (r: &'static str)
    ensures
        r@ == tag_for(
            match status {
                Some(s) => Some(s@),
                None => None,
            },
        ),
{
    proof {
        reveal_strlit("firing");
        reveal_strlit("ok");
        reveal_strlit("warning");
        reveal_strlit("white_check_mark");
        reveal_strlit("");
    }
    assert("firing"@ =~= status_firing());
    assert("ok"@ =~= status_ok());
    match status {
        Some(s) => {
            if same_text(s, "firing") {
                assert(s@ =~= status_firing());
                assert("warning"@ =~= tag_warning());
                "warning"
            } else if same_text(s, "ok") {
                assert(s@ =~= status_ok());
                assert("white_check_mark"@ =~= tag_check_mark());
                "white_check_mark"
            } else {
                assert(s@ != status_firing() && s@ != status_ok());
                assert(""@ =~= Seq::<char>::empty());
                ""
            }
        },
        None => {
            assert(""@ =~= Seq::<char>::empty());
            ""
        },
    }
}

/// Whether a request with this `Authorization` header may pass: always when
/// no key is configured, else exactly when the header is `Bearer <key>`.
pub fn authorized(key: &Option<String>, header: Option<&[u8]>) -> (r: bool)
    ensures
        r == is_authorized(*key, header),
{
    match key {
        None => true,
        Some(k) => match header {
            None => false,
            Some(h) => {
                let kb = k.as_str().as_bytes();
                let n = h.len();
                if n < 7 || n - 7 != kb.len() {
                    return false;
                }
                let prefix: [u8; 7] = [66, 101, 97, 114, 101, 114, 32];
                assert(prefix@ =~= bearer_prefix());
                let ghost token = bearer_token(k@);
                let mut i: usize = 0;
                while i < n
                    invariant
                        n == h@.len(),
                        n == token.len(),
                        kb@ == encode_utf8(k@),
                        token == prefix@ + kb@,
                        token == bearer_token(k@),
                        *key == Some(*k),
                        header == Some(h),
                        i <= n,
                        forall|j: int| 0 <= j < i ==> h@[j] == token[j],
                    decreases n - i,
                {
                    let expected = if i < 7 {
                        prefix[i]
                    } else {
                        kb[i - 7]
                    };
                    assert(expected == token[i as int]);
                    if h[i] != expected {
                        assert(h@[i as int] != token[i as int]);
                        return false;
                    }
                    i += 1;
                }
                assert(h@ =~= token);
                true
            },
        },
    }
}

/// The outbound message from the JSON texts of its parts.
pub fn frame_message(
    topic: &str,
    title: &str,
    message: &str,
    tag: &str,
    click: &str,
) -> (r: String)
    ensures
        r@ == message_text(topic@, title@, message@, tag@, click@),
{
    let mut r = String::new();
    r.append("{\"topic\":");
    r.append(topic);
    r.append(",\"title\":");
    r.append(title);
    r.append(",\"message\":");
    r.append(message);
    r.append(",\"tags\":[");
    r.append(tag);
    r.append("],\"click\":");
    r.append(click);
    r.append("}");
    r
}

impl Alert {
    /// Reads the fields of an inbound alert; absent ones read as JSON `null`.
    pub fn from_payload(payload: &serde_json::Value) -> (r: Alert)
        ensures
            opt_view(r.status) == str_of(member_of(*payload, "status"@)),
            r.title@ == text_of(member_of(*payload, "title"@)),
            r.message@ == text_of(member_of(*payload, "message"@)),
            r.click@ == text_of(member_of(*payload, "externalURL"@)),
    {
        let status = string_of(member(payload, "status"));
        let title = json_text(member(payload, "title"));
        let message = json_text(member(payload, "message"));
        let click = json_text(member(payload, "externalURL"));
        Alert { status, title, message, click }
    }
}

/// The outbound message for this topic and alert.
pub fn notify_body(topic: &str, alert: &Alert) -> (r: String)
    ensures
        r@ == notify_text(topic@, *alert),
{
    let status = match &alert.status {
        Some(s) => Some(s.as_str()),
        None => None,
    };
    let tag = status_tag(status);
    let topic_json = quote(topic);
    let tag_json = quote(tag);
    frame_message(&topic_json, &alert.title, &alert.message, &tag_json, &alert.click)
}

/// Decides one request: refuse it when the auth check fails, else forward
/// the message for the configured topic to the configured destination.
pub fn decide(config: &Config, header: Option<&[u8]>, alert: &Alert) -> (r: Action)
    ensures
        config.key is None ==> r is Forward,
        r is Respond <==> !is_authorized(config.key, header),
        r matches Action::Respond(code) ==> code == STATUS_UNAUTHORIZED,
        r matches Action::Forward { url, body } ==> url@ == config.url@ && body@ == notify_text(
            config.topic@,
            *alert,
        ),
{
    if !authorized(&config.key, header) {
        return Action::Respond(STATUS_UNAUTHORIZED);
    }
    let body = notify_body(config.topic.as_str(), alert);
    Action::Forward { url: config.url.clone(), body }
}

/// The status code returned once the outbound call was made: success when
/// it completed, whatever the destination answered, else a bad request.
pub fn forward_status(completed: bool) -> (r: u16)
    ensures
        r == (if completed {
            STATUS_OK
        } else {
            STATUS_BAD_REQUEST
        }),
{
    if completed {
        STATUS_OK
    } else {
        STATUS_BAD_REQUEST
    }
}

} // verus!
