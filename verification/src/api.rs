//! The API of the bot: its status and the login of administrators on its
//! private socket.

use vstd::prelude::*;
use sha3::Digest;
use crate::json::{json_get, json_index, json_u64, object_entries, JsonNumber, JsonValue, JsonView, NumberView};
use crate::json_text::{json_text_of, json_text_value, json_to_text, parse_json_text};

verus! {

/// The status of the API.
#[derive(Debug, Clone, Copy, PartialEq, Eq, Structural)]
pub enum ApiStatus {
    Starting,
    Online,
    Maintenance,
    Offline,
}

impl Default for ApiStatus {
    fn default() -> (r: ApiStatus)
        ensures
            r == ApiStatus::Starting,
    {
        ApiStatus::Starting
    }
}

/// The operations of the messages of the private socket.
#[derive(Debug, Clone, Copy, PartialEq, Eq, Structural)]
pub enum OpCode {
    Connected,
    Heartbeat,
    Credentials,
    TransmitToken,
}

/// The number of an operation.
pub open spec fn op_code_number(op: OpCode) -> u8 {
    match op {
        OpCode::Connected => 0,
        OpCode::Heartbeat => 1,
        OpCode::Credentials => 2,
        OpCode::TransmitToken => 3,
    }
}

/// The name of an operation, as the messages of the socket write it.
pub open spec fn op_code_name(op: OpCode) -> Seq<char> {
    match op {
        OpCode::Connected => "Connected"@,
        OpCode::Heartbeat => "Heartbeat"@,
        OpCode::Credentials => "Credentials"@,
        OpCode::TransmitToken => "TransmitToken"@,
    }
}

impl OpCode {
    /// The number of the operation.
    pub fn as_u8(&self) -> (r: u8)
        ensures
            r == op_code_number(*self),
    {
        match self {
            OpCode::Connected => 0,
            OpCode::Heartbeat => 1,
            OpCode::Credentials => 2,
            OpCode::TransmitToken => 3,
        }
    }

    /// The name of the operation.
    pub fn name(&self) -> (r: &'static str)
        ensures
            r@ == op_code_name(*self),
    {
        match self {
            OpCode::Connected => "Connected",
            OpCode::Heartbeat => "Heartbeat",
            OpCode::Credentials => "Credentials",
            OpCode::TransmitToken => "TransmitToken",
        }
    }
}

/// How long, in seconds, an administrator stays connected before giving
/// the credentials again.
pub const MAX_SOCKET_LIFETIME_SECS: u64 = 600;

/// How long, in seconds, the socket waits for the credentials.
pub const MAX_CREDENTIALS_WAIT_SECS: u64 = 30;

/// The close code of a connection closed normally.
pub const CLOSE_NORMAL: u16 = 1000;

/// The close code of an endpoint going away.
pub const CLOSE_AWAY: u16 = 1001;

/// The close code of a protocol error.
pub const CLOSE_PROTOCOL: u16 = 1002;

/// The close code of an abnormal closure.
pub const CLOSE_ABNORMAL: u16 = 1006;

/// What the socket does in answer to a message.
#[derive(Debug, PartialEq, Eq)]
pub enum SocketAction {
    /// Sends a text.
    SendText(String),
    /// Closes the connection with a code and a reason.
    Close(u16, String),
}

/// The values of an action, its texts taken as characters.
pub ghost enum SocketActionView {
    SendText(Seq<char>),
    Close(u16, Seq<char>),
}

impl View for SocketAction {
    type V = SocketActionView;

    open spec fn view(&self) -> SocketActionView {
        match self {
            SocketAction::SendText(t) => SocketActionView::SendText(t@),
            SocketAction::Close(c, r) => SocketActionView::Close(*c, r@),
        }
    }
}

/// The values of a list of actions.
pub open spec fn actions_view(s: Seq<SocketAction>) -> Seq<SocketActionView> {
    Seq::new(s.len(), |i: int| s[i]@)
}

/// The id taken when the credentials hold none.
pub open spec fn default_login_id() -> Seq<char> {
    "YEET"@
}

/// The password taken when the credentials hold none.
pub open spec fn default_login_passwd() -> Seq<char> {
    "nice try... to bad :)"@
}

/// The id and the password that a first message holds: it must have a
/// `payload` and an `op` equal to 2; a missing id or password is replaced.
pub open spec fn credentials_from_json(msg: JsonView) -> Option<(JsonView, JsonView)> {
    if json_get(msg, "payload"@) is None || json_get(msg, "op"@) is None
        || json_u64(json_index(msg, "op"@)) != Some(2u64) {
        None
    } else {
        let payload = json_index(msg, "payload"@);
        Some((
            match json_get(payload, "id"@) { Some(v) => v, None => JsonView::Str(default_login_id()) },
            match json_get(payload, "passwd"@) { Some(v) => v, None => JsonView::Str(default_login_passwd()) },
        ))
    }
}

/// Reads the credentials of the first message of the socket: the values
/// under `id` and `passwd` of its payload. `None` where the message is not
/// a credentials message, which is refused.
pub fn read_credentials(msg: &JsonValue) -> (r: Option<(JsonValue, JsonValue)>)
    ensures
        match credentials_from_json(msg@) {
            Some((id, passwd)) => r matches Some(p) && p.0@ == id && p.1@ == passwd,
            None => r is None,
        },
{
    let payload = match msg.get("payload") {
        Some(p) => p,
        None => return None,
    };
    let op = match msg.get("op") {
        Some(o) => o,
        None => return None,
    };
    match op.as_u64() {
        Some(n) => if n != 2 {
            return None;
        },
        None => return None,
    }
    let id = match payload.get("id") {
        Some(v) => v.deep_clone(),
        None => JsonValue::String(String::from_str("YEET")),
    };
    let passwd = match payload.get("passwd") {
        Some(v) => v.deep_clone(),
        None => JsonValue::String(String::from_str("nice try... to bad :)")),
    };
    Some((id, passwd))
}

/// The answer to a first message that is no credentials: a text, then an
/// abnormal closing.
pub open spec fn refusal_view() -> Seq<SocketActionView> {
    seq![
        SocketActionView::SendText("Nice try ;)"@),
        SocketActionView::Close(CLOSE_ABNORMAL, "Is that a freaking close code ? Yeah :)"@),
    ]
}

/// What the socket does with a first message that is no credentials.
pub fn refusal_actions() -> (r: Vec<SocketAction>)
    ensures
        actions_view(r@) == refusal_view(),
{
    let r = vec![
        SocketAction::SendText(String::from_str("Nice try ;)")),
        SocketAction::Close(CLOSE_ABNORMAL, String::from_str("Is that a freaking close code ? Yeah :)")),
    ];
    assert(actions_view(r@) =~= seq![
        SocketActionView::SendText("Nice try ;)"@),
        SocketActionView::Close(CLOSE_ABNORMAL, "Is that a freaking close code ? Yeah :)"@),
    ]);
    r
}

/// The closing that answers credentials that are not an administrator's.
pub open spec fn denial_view() -> SocketActionView {
    SocketActionView::Close(CLOSE_PROTOCOL, "Is the chicken before the egg or the egg before the chicken ?"@)
}

/// What the socket does with credentials that are not an administrator's.
pub fn denial_action() -> (r: SocketAction)
    ensures
        r@ == denial_view(),
{
    SocketAction::Close(CLOSE_PROTOCOL, String::from_str("Is the chicken before the egg or the egg before the chicken ?"))
}

/// The reason given when no credentials came in time.
pub open spec fn timeout_reason() -> Seq<char> {
    "Credentials required; Not received in 30s after the connection"@
}

/// The message sent when no credentials came in time.
pub open spec fn timeout_value() -> JsonView {
    JsonView::Object(seq![
        ("code"@, JsonView::Number(NumberView::NegInt(-1i64))),
        ("message"@, JsonView::Str(timeout_reason())),
    ])
}

/// What is sent when no credentials came in time: a message with the code
/// -1, to be sent as text, then a closing with the same reason.
pub fn timeout_message() -> (r: (JsonValue, SocketAction))
    ensures
        r.0@ == timeout_value(),
        r.1@ == SocketActionView::Close(CLOSE_AWAY, timeout_reason()),
{
    let v0 = JsonValue::Number(JsonNumber::NegInt(-1));
    assert(v0@ == JsonView::Number(NumberView::NegInt(-1i64)));
    let v1 = JsonValue::String(String::from_str("Credentials required; Not received in 30s after the connection"));
    assert(v1@ == JsonView::Str(timeout_reason()));
    let mut es: Vec<(String, JsonValue)> = Vec::new();
    es.push((String::from_str("code"), v0));
    es.push((String::from_str("message"), v1));
    let v = JsonValue::Object(es);
    proof {
        let expected = object_entries(timeout_value());
        let got = object_entries(v@);
        assert(got.len() == 2);
        assert(got[0] == expected[0]);
        assert(got[1] == expected[1]);
        assert(got =~= expected);
    }
    (v, SocketAction::Close(CLOSE_AWAY, String::from_str("Credentials required; Not received in 30s after the connection")))
}

/// The message that hands a new token to an administrator, its keys in
/// the order in which they are written.
pub open spec fn token_value(token: Seq<char>) -> JsonView {
    JsonView::Object(seq![
        ("op"@, JsonView::Str(op_code_name(OpCode::TransmitToken))),
        ("payload"@, JsonView::Object(seq![
            ("op"@, JsonView::Number(NumberView::PosInt(op_code_number(OpCode::Connected) as u64))),
            ("token"@, JsonView::Str(token)),
        ])),
    ])
}

/// Writes the message that hands a token to an administrator.
pub fn token_message(token: &str) -> (r: JsonValue)
    ensures
        r@ == token_value(token@),
{
    let w0 = JsonValue::Number(JsonNumber::PosInt(OpCode::Connected.as_u8() as u64));
    assert(w0@ == JsonView::Number(NumberView::PosInt(0u64)));
    let w1 = JsonValue::String(String::from_str(token));
    assert(w1@ == JsonView::Str(token@));
    let mut inner: Vec<(String, JsonValue)> = Vec::new();
    inner.push((String::from_str("op"), w0));
    inner.push((String::from_str("token"), w1));
    let payload = JsonValue::Object(inner);
    let ghost pv = payload@;
    proof {
        let expected = object_entries(object_entries(token_value(token@))[1].1);
        let got = object_entries(pv);
        assert(got.len() == 2);
        assert(got[0] == expected[0]);
        assert(got[1] == expected[1]);
        assert(got =~= expected);
    }
    let v0 = JsonValue::String(String::from_str(OpCode::TransmitToken.name()));
    assert(v0@ == JsonView::Str(op_code_name(OpCode::TransmitToken)));
    let mut es: Vec<(String, JsonValue)> = Vec::new();
    es.push((String::from_str("op"), v0));
    es.push((String::from_str("payload"), payload));
    let r = JsonValue::Object(es);
    proof {
        let expected = object_entries(token_value(token@));
        let got = object_entries(r@);
        assert(got.len() == 2);
        assert(got[0] == expected[0]);
        assert(got[1] == expected[1]);
        assert(got =~= expected);
    }
    r
}

/// Whether a character is an ASCII letter or digit.
pub open spec fn is_alphanumeric(c: char) -> bool {
    ('a' <= c && c <= 'z') || ('A' <= c && c <= 'Z') || ('0' <= c && c <= '9')
}

/// Draws a token of 64 characters with `rand::thread_rng`, each sampled
/// from `rand::distributions::Alphanumeric`, whose source picks among the
/// ASCII letters and digits. Which ones come depends on chance; the
/// contract says only their number and kind.
#[verifier::external_body]
fn new_admin_token() -> (r: String)
    ensures
        r@.len() == 64,
        forall|i: int| 0 <= i < 64 ==> is_alphanumeric(#[trigger] r@[i]),
{
    rand::Rng::sample_iter(rand::thread_rng(), &rand::distributions::Alphanumeric).take(64).map(char::from).collect()
}

/// Grants a token to an administrator who gave good credentials: a new
/// token of 64 letters and digits, and the message that hands it over.
pub fn grant_token() -> (r: (String, JsonValue))
    ensures
        r.0@.len() == 64,
        forall|i: int| 0 <= i < 64 ==> is_alphanumeric(#[trigger] r.0@[i]),
        r.1@ == token_value(r.0@),
{
    let token = new_admin_token();
    let message = token_message(token.as_str());
    (token, message)
}

/// The SHA3-512 digest of the UTF-8 bytes of a text.
pub uninterp spec fn sha3_512_of(text: Seq<char>) -> Seq<u8>;

/// Hashes the UTF-8 bytes of a text with `sha3::Sha3_512`
/// (`Digest::digest`); the digest has 64 bytes.
#[verifier::external_body]
fn sha3_512_text(text: &str) -> (r: Vec<u8>)
    ensures
        r@ == sha3_512_of(text@),
        r@.len() == 64,
{
    sha3::Sha3_512::digest(text.as_bytes()).to_vec()
}

/// The digests of the ids and passwords of the administrators.
pub open spec fn admin_identifier(i: int) -> (Seq<u8>, Seq<u8>) {
    if i == 0 {
        (seq![163, 229, 225, 80, 205, 144, 237, 63, 183, 80, 25, 65, 150, 130, 242, 143, 69, 193, 162, 51, 147, 103, 155, 124, 55, 115, 200, 55, 126, 93, 119, 85, 65, 222, 39, 106, 240, 132, 6, 148, 197, 93, 88, 189, 115, 175, 98, 174, 51, 167, 168, 119, 221, 19, 190, 248, 50, 37, 199, 154, 184, 106, 223, 65], seq![60, 150, 145, 107, 42, 31, 19, 245, 169, 168, 186, 63, 27, 27, 234, 27, 181, 253, 89, 32, 215, 52, 29, 208, 154, 57, 168, 66, 248, 151, 72, 61, 48, 155, 102, 146, 9, 137, 192, 26, 104, 62, 227, 51, 173, 112, 238, 133, 40, 191, 41, 39, 54, 247, 134, 86, 25, 136, 243, 1, 245, 103, 21, 68])
    } else if i == 1 {
        (seq![76, 53, 139, 155, 118, 18, 148, 242, 108, 180, 179, 155, 14, 238, 40, 73, 231, 102, 64, 49, 60, 125, 136, 242, 41, 108, 92, 243, 74, 194, 202, 43, 232, 145, 244, 232, 74, 65, 8, 170, 63, 70, 172, 111, 127, 125, 111, 238, 43, 36, 136, 39, 252, 129, 207, 136, 250, 223, 209, 191, 5, 21, 169, 205], seq![246, 76, 181, 180, 249, 226, 6, 159, 202, 165, 241, 222, 242, 110, 227, 149, 205, 23, 235, 31, 162, 1, 250, 18, 123, 161, 208, 50, 175, 84, 199, 62, 71, 65, 9, 121, 246, 160, 93, 84, 55, 40, 14, 248, 86, 57, 117, 10, 154, 213, 101, 248, 162, 42, 91, 178, 79, 205, 207, 168, 177, 44, 83, 95])
    } else {
        (seq![113, 179, 250, 93, 241, 214, 56, 5, 67, 218, 217, 25, 223, 205, 10, 6, 209, 16, 147, 212, 4, 234, 53, 76, 56, 159, 97, 178, 187, 182, 83, 27, 57, 185, 194, 252, 174, 55, 222, 234, 41, 103, 152, 222, 240, 87, 3, 97, 67, 240, 228, 24, 15, 65, 37, 200, 163, 9, 0, 178, 198, 68, 252, 213], seq![244, 152, 102, 165, 76, 120, 113, 203, 169, 181, 17, 234, 10, 157, 135, 45, 27, 122, 197, 44, 87, 25, 212, 103, 154, 242, 126, 8, 116, 54, 92, 146, 243, 76, 186, 157, 116, 250, 142, 179, 105, 21, 20, 158, 163, 246, 223, 9, 103, 1, 104, 65, 16, 110, 252, 57, 250, 85, 249, 122, 233, 198, 32, 31])
    }
}

/// The number of administrators.
pub open spec fn admin_count() -> int {
    3
}

fn admin_identifier_bytes(i: usize) -> (r: (Vec<u8>, Vec<u8>))
    requires
        i < 3,
    ensures
        r.0@ == admin_identifier(i as int).0,
        r.1@ == admin_identifier(i as int).1,
{
    if i == 0 {
        (vec![163, 229, 225, 80, 205, 144, 237, 63, 183, 80, 25, 65, 150, 130, 242, 143, 69, 193, 162, 51, 147, 103, 155, 124, 55, 115, 200, 55, 126, 93, 119, 85, 65, 222, 39, 106, 240, 132, 6, 148, 197, 93, 88, 189, 115, 175, 98, 174, 51, 167, 168, 119, 221, 19, 190, 248, 50, 37, 199, 154, 184, 106, 223, 65], vec![60, 150, 145, 107, 42, 31, 19, 245, 169, 168, 186, 63, 27, 27, 234, 27, 181, 253, 89, 32, 215, 52, 29, 208, 154, 57, 168, 66, 248, 151, 72, 61, 48, 155, 102, 146, 9, 137, 192, 26, 104, 62, 227, 51, 173, 112, 238, 133, 40, 191, 41, 39, 54, 247, 134, 86, 25, 136, 243, 1, 245, 103, 21, 68])
    } else if i == 1 {
        (vec![76, 53, 139, 155, 118, 18, 148, 242, 108, 180, 179, 155, 14, 238, 40, 73, 231, 102, 64, 49, 60, 125, 136, 242, 41, 108, 92, 243, 74, 194, 202, 43, 232, 145, 244, 232, 74, 65, 8, 170, 63, 70, 172, 111, 127, 125, 111, 238, 43, 36, 136, 39, 252, 129, 207, 136, 250, 223, 209, 191, 5, 21, 169, 205], vec![246, 76, 181, 180, 249, 226, 6, 159, 202, 165, 241, 222, 242, 110, 227, 149, 205, 23, 235, 31, 162, 1, 250, 18, 123, 161, 208, 50, 175, 84, 199, 62, 71, 65, 9, 121, 246, 160, 93, 84, 55, 40, 14, 248, 86, 57, 117, 10, 154, 213, 101, 248, 162, 42, 91, 178, 79, 205, 207, 168, 177, 44, 83, 95])
    } else {
        (vec![113, 179, 250, 93, 241, 214, 56, 5, 67, 218, 217, 25, 223, 205, 10, 6, 209, 16, 147, 212, 4, 234, 53, 76, 56, 159, 97, 178, 187, 182, 83, 27, 57, 185, 194, 252, 174, 55, 222, 234, 41, 103, 152, 222, 240, 87, 3, 97, 67, 240, 228, 24, 15, 65, 37, 200, 163, 9, 0, 178, 198, 68, 252, 213], vec![244, 152, 102, 165, 76, 120, 113, 203, 169, 181, 17, 234, 10, 157, 135, 45, 27, 122, 197, 44, 87, 25, 212, 103, 154, 242, 126, 8, 116, 54, 92, 146, 243, 76, 186, 157, 116, 250, 142, 179, 105, 21, 20, 158, 163, 246, 223, 9, 103, 1, 104, 65, 16, 110, 252, 57, 250, 85, 249, 122, 233, 198, 32, 31])
    }
}

/// Whether the digests of an id and a password are those of an
/// administrator: the first administrator with that id has that password.
pub open spec fn is_admin_spec(id: Seq<u8>, passwd: Seq<u8>) -> bool {
    exists|i: int|
        0 <= i < admin_count() && #[trigger] admin_identifier(i).0 == id
            && (forall|j: int| 0 <= j < i ==> admin_identifier(j).0 != id)
            && admin_identifier(i).1 == passwd
}

fn bytes_eq(a: &[u8], b: &[u8]) -> (r: bool)
    ensures
        r == (a@ == b@),
{
    if a.len() != b.len() {
        return false;
    }
    let mut i: usize = 0;
    while i < a.len()
        invariant
            i <= a.len(),
            a@.len() == b@.len(),
            forall|j: int| 0 <= j < i ==> a@[j] == b@[j],
        decreases a.len() - i,
    {
        if a[i] != b[i] {
            return false;
        }
        i = i + 1;
    }
    assert(a@ =~= b@);
    true
}

/// Checks digests of an id and a password against the administrators.
pub fn is_admin(hashed_id: &[u8], hashed_passwd: &[u8]) -> (r: bool)
    ensures
        r == is_admin_spec(hashed_id@, hashed_passwd@),
{
    let mut i: usize = 0;
    while i < 3
        invariant
            i <= 3,
            forall|j: int| 0 <= j < i ==> admin_identifier(j).0 != hashed_id@,
        decreases 3 - i,
    {
        let (id, passwd) = admin_identifier_bytes(i);
        if bytes_eq(id.as_slice(), hashed_id) {
            let ok = bytes_eq(passwd.as_slice(), hashed_passwd);
            proof {
                if !ok {
                    assert forall|k: int| 0 <= k < admin_count() && #[trigger] admin_identifier(k).0 == hashed_id@
                        && (forall|j: int| 0 <= j < k ==> admin_identifier(j).0 != hashed_id@)
                        implies admin_identifier(k).1 != hashed_passwd@ by {
                        if k < i {
                        } else if k > i {
                            assert(admin_identifier(i as int).0 != hashed_id@);
                        }
                    }
                } else {
                    assert(admin_identifier(i as int).0 == hashed_id@);
                }
            }
            return ok;
        }
        i = i + 1;
    }
    false
}

/// Checks the credentials of a login, given as the texts of their values:
/// the digests of both are compared with those of the administrators.
pub fn check_admin_login(id_text: &str, passwd_text: &str) -> (r: bool)
    ensures
        r == is_admin_spec(sha3_512_of(id_text@), sha3_512_of(passwd_text@)),
{
    let id = sha3_512_text(id_text);
    let passwd = sha3_512_text(passwd_text);
    is_admin(id.as_slice(), passwd.as_slice())
}

/// Whether a text is a token as they are granted: 64 letters and digits.
pub open spec fn is_token_text(t: Seq<char>) -> bool {
    t.len() == 64 && forall|i: int| 0 <= i < 64 ==> is_alphanumeric(#[trigger] t[i])
}

/// The answer of the socket to the first message of a connection.
#[derive(Debug)]
pub enum FirstAnswer {
    /// The message is no JSON text: the connection ends unanswered.
    Unanswered,
    /// The message is no credentials message: these actions are taken and
    /// the connection ends, with no token.
    Refuse(Vec<SocketAction>),
    /// The credentials are not an administrator's: the connection is closed
    /// with this action, with no token.
    Deny(SocketAction),
    /// The credentials are an administrator's: a new token, and the
    /// message that hands it over.
    Grant(String, JsonValue),
    /// No message came in time: this message is sent as text, then the
    /// connection is closed with this action, with no token.
    Timeout(JsonValue, SocketAction),
}

/// What comes first on a new connection to the socket.
#[derive(Debug)]
pub enum FirstEvent {
    /// Nothing came within the time allowed for the credentials.
    TimedOut,
    /// The connection ended, failed, was closed, or sent something other
    /// than text.
    Ended,
    /// A text message.
    Text(String),
}

/// Whether the credentials `(id, passwd)` of a first message are an
/// administrator's: each value is written as compact JSON text, and the
/// digests of the two texts are checked.
pub open spec fn credentials_admitted(id: JsonView, passwd: JsonView) -> bool {
    is_admin_spec(sha3_512_of(json_text_of(id)), sha3_512_of(json_text_of(passwd)))
}

/// Whether `r` answers the first text message `text` as the socket must:
/// text that is no JSON gets no answer; JSON that is no credentials message
/// is refused; credentials are checked on the digests of the JSON texts of
/// the id and the password, and an administrator gets a new token while
/// anyone else is denied.
pub open spec fn answers_first_message(text: Seq<char>, r: FirstAnswer) -> bool {
    match json_text_value(text) {
        None => r is Unanswered,
        Some(msg) => match credentials_from_json(msg) {
            None => r matches FirstAnswer::Refuse(acts) && actions_view(acts@) == refusal_view(),
            Some((id, passwd)) => if credentials_admitted(id, passwd) {
                r matches FirstAnswer::Grant(token, m) && is_token_text(token@) && m@ == token_value(token@)
            } else {
                r matches FirstAnswer::Deny(a) && a@ == denial_view()
            },
        },
    }
}

/// Answers the first text message of a connection to the socket, as
/// `answers_first_message` says.
pub fn answer_first_message(text: &str) -> (r: FirstAnswer)
    ensures
        answers_first_message(text@, r),
{
    let msg = match parse_json_text(text) {
        Some(m) => m,
        None => return FirstAnswer::Unanswered,
    };
    let (id, passwd) = match read_credentials(&msg) {
        Some(c) => c,
        None => return FirstAnswer::Refuse(refusal_actions()),
    };
    let id_text = json_to_text(&id);
    let passwd_text = json_to_text(&passwd);
    if check_admin_login(id_text.as_str(), passwd_text.as_str()) {
        let (token, m) = grant_token();
        FirstAnswer::Grant(token, m)
    } else {
        FirstAnswer::Deny(denial_action())
    }
}

/// Answers what comes first on a new connection to the socket: a text
/// message as `answer_first_message` does; the timeout message and an
/// away closing when nothing came in time; nothing when the connection
/// ended first.
pub fn answer_first_event(event: &FirstEvent) -> (r: FirstAnswer)
    ensures
        match event {
            FirstEvent::TimedOut => r matches FirstAnswer::Timeout(m, a) && m@ == timeout_value()
                && a@ == SocketActionView::Close(CLOSE_AWAY, timeout_reason()),
            FirstEvent::Ended => r is Unanswered,
            FirstEvent::Text(t) => answers_first_message(t@, r),
        },
{
    match event {
        FirstEvent::TimedOut => {
            let (m, a) = timeout_message();
            FirstAnswer::Timeout(m, a)
        },
        FirstEvent::Ended => FirstAnswer::Unanswered,
        FirstEvent::Text(t) => answer_first_message(t.as_str()),
    }
}

/// Finds the public file declared under a name: the first declaration
/// `(name, path, type)` with that name.
pub fn find_public_file(files: &Vec<(String, String, String)>, name: &str) -> (r: Option<usize>)
    ensures
        match r {
            Some(i) => i < files@.len() && files@[i as int].0@ == name@
                && forall|j: int| 0 <= j < i ==> #[trigger] files@[j].0@ != name@,
            None => forall|j: int| 0 <= j < files@.len() ==> #[trigger] files@[j].0@ != name@,
        },
{
    let mut i: usize = 0;
    while i < files.len()
        invariant
            i <= files.len(),
            forall|j: int| 0 <= j < i ==> #[trigger] files@[j].0@ != name@,
        decreases files.len() - i,
    {
        if crate::text::str_eq(files[i].0.as_str(), name) {
            return Some(i);
        }
        i = i + 1;
    }
    None
}

/// The header that makes a public file download under its name.
pub fn content_disposition(name: &str) -> (r: String)
    ensures
        r@ == "attachment; filename=\""@ + name@ + "\""@,
{
    let mut r = String::from_str("attachment; filename=\"");
    r.append(name);
    r.append("\"");
    r
}

} // verus!
