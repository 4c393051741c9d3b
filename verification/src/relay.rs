//! The relay server's REST API: the request and response records, and the decisions
//! of its handlers (message direction, status codes, room web paths and MIME types,
//! mobile-web uploads).

use vstd::prelude::*;
use std::collections::HashMap;
use std::sync::Arc;
use base64::Engine;
use crate::text::{chars_of, contains_dot_dot, has_dot_dot, str_eq, string_from_chars};

verus! {

#[verifier::external_type_specification]
#[verifier::external_body]
pub struct ExInstant(std::time::Instant);

#[verifier::external_type_specification]
#[verifier::external_body]
pub struct ExDecodeError(base64::DecodeError);

/// Shared state of the relay server's handlers.
pub struct AppState<R> {
    pub room_manager: Arc<R>,
    pub start_time: std::time::Instant,
    /// Base directory for per-room uploaded mobile-web files.
    pub room_web_dir: String,
}

pub struct HealthResponse {
    pub status: String,
    pub version: String,
    pub uptime_seconds: u64,
    pub rooms: usize,
    pub connections: usize,
}

pub const HEALTHY: &'static str = "healthy";

/// The health report: always "healthy", with the figures it is given.
pub fn health_response(version: String, uptime_seconds: u64, rooms: usize, connections: usize) -> (r: HealthResponse)
    ensures
        r.status@ == HEALTHY@,
        r.version@ == version@,
        r.uptime_seconds == uptime_seconds,
        r.rooms == rooms,
        r.connections == connections,
{
    HealthResponse { status: String::from_str(HEALTHY), version, uptime_seconds, rooms, connections }
}

pub struct ServerInfo {
    pub name: String,
    pub version: String,
    pub protocol_version: u8,
}

pub const SERVER_NAME: &'static str = "BitFun Relay Server";
pub const PROTOCOL_VERSION: u8 = 1;

/// The server's name and protocol version, with the given build version.
pub fn server_info(version: String) -> (r: ServerInfo)
    ensures
        r.name@ == SERVER_NAME@,
        r.version@ == version@,
        r.protocol_version == PROTOCOL_VERSION,
{
    ServerInfo { name: String::from_str(SERVER_NAME), version, protocol_version: PROTOCOL_VERSION }
}

pub struct JoinRoomRequest {
    pub device_id: String,
    pub device_type: String,
    pub public_key: String,
}

pub struct RelayMessageRequest {
    pub device_id: String,
    pub encrypted_data: String,
    pub nonce: String,
}

pub struct PollQuery {
    pub since_seq: Option<u64>,
    pub device_type: Option<String>,
}

pub struct PollResponse<M> {
    pub messages: Vec<M>,
    pub peer_connected: bool,
}

pub struct AckRequest {
    pub ack_seq: u64,
    pub device_type: Option<String>,
}

pub struct UploadWebRequest {
    pub files: HashMap<String, String>,
}

/// The HTTP statuses that the relay handlers answer with.
#[derive(Clone, Copy, Debug, PartialEq, Eq, Structural)]
pub enum HttpStatus {
    Success,
    BadRequest,
    Unauthorized,
    NotFound,
    InternalServerError,
}

impl HttpStatus {
    pub fn code(&self) -> (c: u16)
        ensures
            c == match *self {
                HttpStatus::Success => 200u16,
                HttpStatus::BadRequest => 400u16,
                HttpStatus::Unauthorized => 401u16,
                HttpStatus::NotFound => 404u16,
                HttpStatus::InternalServerError => 500u16,
            },
    {
        match self {
            HttpStatus::Success => 200,
            HttpStatus::BadRequest => 400,
            HttpStatus::Unauthorized => 401,
            HttpStatus::NotFound => 404,
            HttpStatus::InternalServerError => 500,
        }
    }
}

/// Which way buffered messages travel.
#[derive(Clone, Copy, Debug, PartialEq, Eq, Structural)]
pub enum MessageDirection {
    ToDesktop,
    ToMobile,
}

pub const DESKTOP: &'static str = "desktop";
pub const MOBILE: &'static str = "mobile";

/// The direction a polling or acknowledging device reads: a desktop reads the
/// messages sent to the desktop, any other device (or none named) those sent to the
/// mobile.
pub open spec fn direction_for(device_type: Option<Seq<char>>) -> MessageDirection {
    if device_type == Some(DESKTOP@) {
        MessageDirection::ToDesktop
    } else {
        MessageDirection::ToMobile
    }
}

pub open spec fn opt_view(s: Option<String>) -> Option<Seq<char>> {
    match s {
        Some(t) => Some(t@),
        None => None,
    }
}

pub fn message_direction(device_type: &Option<String>) -> (r: MessageDirection)
    ensures
        r == direction_for(opt_view(*device_type)),
{
    match device_type {
        Some(t) => if str_eq(t.as_str(), DESKTOP) {
            MessageDirection::ToDesktop
        } else {
            MessageDirection::ToMobile
        },
        None => MessageDirection::ToMobile,
    }
}

impl PollQuery {
    /// The first sequence number wanted: `since_seq`, or 0.
    pub fn since(&self) -> (r: u64)
        ensures
            r == match self.since_seq {
                Some(s) => s,
                None => 0u64,
            },
    {
        match self.since_seq {
            Some(s) => s,
            None => 0,
        }
    }

    pub fn direction(&self) -> (r: MessageDirection)
        ensures
            r == direction_for(opt_view(self.device_type)),
    {
        message_direction(&self.device_type)
    }

    /// The device type whose peer is looked for: the one named, or "mobile".
    pub fn peer_device_type(&self) -> (r: &str)
        ensures
            r@ == match self.device_type {
                Some(t) => t@,
                None => MOBILE@,
            },
    {
        match &self.device_type {
            Some(t) => t.as_str(),
            None => MOBILE,
        }
    }
}

impl AckRequest {
    pub fn direction(&self) -> (r: MessageDirection)
        ensures
            r == direction_for(opt_view(self.device_type)),
    {
        message_direction(&self.device_type)
    }
}

/// The answer to a relayed message: 401 when the device is not in the room, 404 when
/// it is but the message could not be relayed, 200 when it was relayed.
pub fn relay_message_status(device_in_room: bool, relayed: bool) -> (r: HttpStatus)
    ensures
        r == (if !device_in_room {
            HttpStatus::Unauthorized
        } else if relayed {
            HttpStatus::Success
        } else {
            HttpStatus::NotFound
        }),
{
    if !device_in_room {
        HttpStatus::Unauthorized
    } else if relayed {
        HttpStatus::Success
    } else {
        HttpStatus::NotFound
    }
}

/// The device already in the room when another one joins.
pub struct PeerInfo {
    pub device_id: String,
    pub device_type: String,
    pub public_key: String,
}

pub const JOINED: &'static str = "joined";

/// The body of a successful join: status "joined" and the peer found in the room, if any.
pub struct JoinReply {
    pub status: String,
    pub peer: Option<PeerInfo>,
}

/// A join that the room accepted is answered with the peer that was there before; a
/// refused one with 400.
pub fn join_room_reply(joined: bool, existing_peer: Option<PeerInfo>) -> (r: Result<JoinReply, HttpStatus>)
    ensures
        joined ==> (r matches Ok(reply) && reply.status@ == JOINED@ && reply.peer == existing_peer),
        !joined ==> r == Err::<JoinReply, HttpStatus>(HttpStatus::BadRequest),
{
    if joined {
        Ok(JoinReply { status: String::from_str(JOINED), peer: existing_peer })
    } else {
        Err(HttpStatus::BadRequest)
    }
}

/// The number of leading slashes of `s`.
pub open spec fn leading_slashes(s: Seq<char>) -> nat
    decreases s.len(),
{
    if s.len() > 0 && s[0] == '/' {
        1 + leading_slashes(s.skip(1))
    } else {
        0
    }
}

/// Whether `i` is the position of the first slash of `s`.
pub open spec fn is_first_slash(s: Seq<char>, i: int) -> bool {
    0 <= i < s.len() && s[i] == '/' && forall|j: int| 0 <= j < i ==> s[j] != '/'
}

/// A room web path without its leading slashes, split at its first slash into the
/// room id and the file path; with no slash, the whole is the room id and the file
/// path is empty.
pub open spec fn room_path_split(rest: Seq<char>) -> (Seq<char>, Seq<char>) {
    let t = rest.skip(leading_slashes(rest) as int);
    if exists|i: int| is_first_slash(t, i) {
        let i = choose|i: int| is_first_slash(t, i);
        (t.take(i), t.skip(i + 1))
    } else {
        (t, Seq::empty())
    }
}

proof fn lemma_leading_slashes(s: Seq<char>, n: int)
    requires
        0 <= n <= s.len(),
        forall|j: int| 0 <= j < n ==> s[j] == '/',
        n == s.len() || s[n] != '/',
    ensures
        leading_slashes(s) == n,
    decreases n,
{
    if n > 0 {
        assert forall|j: int| 0 <= j < n - 1 implies s.skip(1)[j] == '/' by {
            assert(s.skip(1)[j] == s[j + 1]);
        }
        if n < s.len() {
            assert(s.skip(1)[n - 1] == s[n]);
        }
        lemma_leading_slashes(s.skip(1), n - 1);
    }
}

/// Splits the path of `GET /r/{*rest}` into the room id and the file path.
pub fn split_room_path(rest: &str) -> (r: (String, String))
    ensures
        r.0@ == room_path_split(rest@).0,
        r.1@ == room_path_split(rest@).1,
{
    let v = chars_of(rest);
    let mut start: usize = 0;
    while start < v.len() && v[start] == '/'
        invariant
            v@ == rest@,
            start <= v@.len(),
            forall|j: int| 0 <= j < start ==> v@[j] == '/',
        decreases v@.len() - start,
    {
        start = start + 1;
    }
    proof {
        lemma_leading_slashes(rest@, start as int);
    }
    let ghost t = rest@.skip(start as int);
    let mut i = start;
    while i < v.len() && v[i] != '/'
        invariant
            v@ == rest@,
            start <= i <= v@.len(),
            t == rest@.skip(start as int),
            forall|j: int| start <= j < i ==> v@[j] != '/',
        decreases v@.len() - i,
    {
        i = i + 1;
    }
    if i < v.len() {
        proof {
            let k = i - start;
            assert(is_first_slash(t, k)) by {
                assert forall|j: int| 0 <= j < k implies t[j] != '/' by {
                    assert(t[j] == rest@[j + start]);
                }
            }
            let c = choose|c: int| is_first_slash(t, c);
            assert(c == k) by {
                if c < k {
                    assert(t[c] == rest@[c + start]);
                }
                if k < c {
                    assert(t[k] == '/');
                }
            }
            assert(t.take(k) == rest@.subrange(start as int, i as int));
            assert(t.skip(k + 1) == rest@.subrange(i + 1, rest@.len() as int));
        }
        (string_from_chars(&v, start, i), string_from_chars(&v, i + 1, v.len()))
    } else {
        proof {
            assert forall|c: int| !is_first_slash(t, c) by {
                if is_first_slash(t, c) {
                    assert(t[c] == rest@[c + start]);
                }
            }
            assert(t == rest@.subrange(start as int, rest@.len() as int));
        }
        (string_from_chars(&v, start, v.len()), String::new())
    }
}

/// A room path written as the room id, a slash and the file path (after any number
/// of leading slashes) splits back into that room id and file path, provided the
/// room id is not empty and holds no slash; a bare room id splits into itself and an
/// empty file path.
pub proof fn lemma_room_path_round_trip(slashes: nat, room: Seq<char>, file: Seq<char>)
    requires
        room.len() > 0,
        !room.contains('/'),
    ensures
        room_path_split(Seq::new(slashes, |i: int| '/') + room + seq!['/'] + file) == (room, file),
        room_path_split(Seq::new(slashes, |i: int| '/') + room) == (room, Seq::<char>::empty()),
{
    let prefix = Seq::new(slashes, |i: int| '/');
    let whole = prefix + room + seq!['/'] + file;
    let bare = prefix + room;
    assert(room[0] != '/');
    lemma_leading_slashes(whole, slashes as int);
    lemma_leading_slashes(bare, slashes as int);
    let t = whole.skip(slashes as int);
    assert(t == room + seq!['/'] + file);
    let k = room.len() as int;
    assert(is_first_slash(t, k)) by {
        assert forall|j: int| 0 <= j < k implies t[j] != '/' by {
            assert(t[j] == room[j]);
        }
    }
    let c = choose|c: int| is_first_slash(t, c);
    assert(c == k) by {
        if c < k {
            assert(t[c] == room[c]);
        }
    }
    assert(t.take(k) == room);
    assert(t.skip(k + 1) == file);
    let u = bare.skip(slashes as int);
    assert(u == room);
    assert forall|c: int| !is_first_slash(u, c) by {
        if is_first_slash(u, c) {
            assert(room[c] == '/');
        }
    }
}

pub const INDEX_HTML: &'static str = "index.html";

/// The file that a room web request asks for, inside the room directory: the file
/// path, or `index.html` when it is empty.
pub open spec fn requested_file(file_path: Seq<char>) -> Seq<char> {
    if file_path.len() == 0 {
        INDEX_HTML@
    } else {
        file_path
    }
}

pub fn room_web_target(file_path: &str) -> (r: String)
    ensures
        r@ == requested_file(file_path@),
{
    if file_path.unicode_len() == 0 {
        String::from_str(INDEX_HTML)
    } else {
        String::from_str(file_path)
    }
}

/// The room id and file path of a room web request; an empty room id is answered 404.
pub fn room_web_request(rest: &str) -> (r: Result<(String, String), HttpStatus>)
    ensures
        room_path_split(rest@).0.len() == 0 ==> r == Err::<(String, String), HttpStatus>(HttpStatus::NotFound),
        room_path_split(rest@).0.len() > 0 ==> (r matches Ok((room, file)) && room@ == room_path_split(rest@).0
            && file@ == room_path_split(rest@).1),
{
    let (room_id, file_path) = split_room_path(rest);
    if room_id.unicode_len() == 0 {
        Err(HttpStatus::NotFound)
    } else {
        Ok((room_id, file_path))
    }
}

/// The file served for a room web request: nothing (404) when the room has no web
/// directory; the requested file when it is a regular file; else `index.html`
/// (single-page routing) when that is one; else nothing (404).
pub fn choose_served_file(file_path: &str, room_dir_exists: bool, target_is_file: bool, index_is_file: bool) -> (r: Result<String, HttpStatus>)
    ensures
        !room_dir_exists ==> r == Err::<String, HttpStatus>(HttpStatus::NotFound),
        room_dir_exists && target_is_file ==> (r matches Ok(f) && f@ == requested_file(file_path@)),
        room_dir_exists && !target_is_file && index_is_file ==> (r matches Ok(f) && f@ == INDEX_HTML@),
        room_dir_exists && !target_is_file && !index_is_file ==> r == Err::<String, HttpStatus>(HttpStatus::NotFound),
{
    if !room_dir_exists {
        Err(HttpStatus::NotFound)
    } else if target_is_file {
        Ok(room_web_target(file_path))
    } else if index_is_file {
        Ok(String::from_str(INDEX_HTML))
    } else {
        Err(HttpStatus::NotFound)
    }
}

/// A file uploaded under a relative path without `..` into a room whose id is not empty
/// and holds no slash is the file that a request for `room/path` asks for and, while it
/// is on disk, the one that is served.
pub proof fn lemma_uploaded_path_is_served_path(room: Seq<char>, path: Seq<char>)
    requires
        room.len() > 0,
        !room.contains('/'),
        path.len() > 0,
        !has_dot_dot(path),
    ensures
        room_path_split(room + seq!['/'] + path) == (room, path),
        requested_file(path) == path,
{
    lemma_room_path_round_trip(0, room, path);
    assert(Seq::new(0, |i: int| '/') + room + seq!['/'] + path == room + seq!['/'] + path);
}

/// The extension of a path as `std::path::Path::extension` gives it (the part of the
/// file name after its last dot, none for a name without a dot or with a leading dot
/// only), where it is valid UTF-8.
pub uninterp spec fn path_extension(path: Seq<char>) -> Option<Seq<char>>;

/// Whether `i` is the position of the last dot of `p`.
pub open spec fn is_last_dot(p: Seq<char>, i: int) -> bool {
    0 <= i < p.len() && p[i] == '.' && forall|j: int| i < j < p.len() ==> p[j] != '.'
}

/// The extension of a file name as the documentation of `Path::extension` gives it:
/// none without a dot, none when the only dot is the leading one, else the text after
/// the last dot.
pub open spec fn file_name_extension(name: Seq<char>) -> Option<Seq<char>> {
    if exists|i: int| is_last_dot(name, i) {
        let i = choose|i: int| is_last_dot(name, i);
        if i == 0 {
            None
        } else {
            Some(name.skip(i + 1))
        }
    } else {
        None
    }
}

/// Whether `i` is the position of the last slash of `p`.
pub open spec fn is_last_slash(p: Seq<char>, i: int) -> bool {
    0 <= i < p.len() && p[i] == '/' && forall|j: int| i < j < p.len() ==> p[j] != '/'
}

/// The text after the last slash of `p` (all of `p` when it has none).
pub open spec fn last_segment(p: Seq<char>) -> Seq<char> {
    if exists|i: int| is_last_slash(p, i) {
        let i = choose|i: int| is_last_slash(p, i);
        p.skip(i + 1)
    } else {
        p
    }
}

/// A path made of `/`-separated components, without backslash or drive colon, whose
/// last component is a file name (not empty, `.` or `..`); its file name is that last
/// component.
pub open spec fn names_a_file(p: Seq<char>) -> bool {
    &&& !p.contains('\\')
    &&& !p.contains(':')
    &&& last_segment(p).len() > 0
    &&& last_segment(p) != "."@
    &&& last_segment(p) != ".."@
}

/// `std::path::Path::extension` of `path`, as a `String`. For a path whose last
/// component is a file name, the extension is that of the last component, by the
/// documented rule.
#[verifier::external_body]
fn extension_of(path: &str) -> (r: Option<String>)
    ensures
        opt_view(r) == path_extension(path@),
        names_a_file(path@) ==> opt_view(r) == file_name_extension(last_segment(path@)),
{
    std::path::Path::new(path).extension().and_then(|e| e.to_str()).map(|e| e.to_string())
}

/// The `Content-Type` served for a file extension.
pub open spec fn mime_for(ext: Option<Seq<char>>) -> Seq<char> {
    match ext {
        Some(e) => if e == "html"@ {
            "text/html; charset=utf-8"@
        } else if e == "js"@ {
            "application/javascript; charset=utf-8"@
        } else if e == "css"@ {
            "text/css; charset=utf-8"@
        } else if e == "json"@ {
            "application/json"@
        } else if e == "png"@ {
            "image/png"@
        } else if e == "svg"@ {
            "image/svg+xml"@
        } else if e == "ico"@ {
            "image/x-icon"@
        } else if e == "woff2"@ {
            "font/woff2"@
        } else if e == "woff"@ {
            "font/woff"@
        } else if e == "ttf"@ {
            "font/ttf"@
        } else if e == "wasm"@ {
            "application/wasm"@
        } else {
            "application/octet-stream"@
        },
        None => "application/octet-stream"@,
    }
}

/// The Content-Type of each known extension (matched case-sensitively), and
/// `application/octet-stream` for any other extension or none.
pub proof fn lemma_mime_types(other: Seq<char>)
    requires
        other != "html"@ && other != "js"@ && other != "css"@ && other != "json"@ && other != "png"@
            && other != "svg"@ && other != "ico"@ && other != "woff2"@ && other != "woff"@ && other != "ttf"@
            && other != "wasm"@,
    ensures
        mime_for(Some("html"@)) == "text/html; charset=utf-8"@,
        mime_for(Some("js"@)) == "application/javascript; charset=utf-8"@,
        mime_for(Some("css"@)) == "text/css; charset=utf-8"@,
        mime_for(Some("json"@)) == "application/json"@,
        mime_for(Some("png"@)) == "image/png"@,
        mime_for(Some("svg"@)) == "image/svg+xml"@,
        mime_for(Some("ico"@)) == "image/x-icon"@,
        mime_for(Some("woff2"@)) == "font/woff2"@,
        mime_for(Some("woff"@)) == "font/woff"@,
        mime_for(Some("ttf"@)) == "font/ttf"@,
        mime_for(Some("wasm"@)) == "application/wasm"@,
        mime_for(Some(other)) == "application/octet-stream"@,
        mime_for(None) == "application/octet-stream"@,
{
    reveal_strlit("html");
    reveal_strlit("js");
    reveal_strlit("css");
    reveal_strlit("json");
    reveal_strlit("png");
    reveal_strlit("svg");
    reveal_strlit("ico");
    reveal_strlit("woff2");
    reveal_strlit("woff");
    reveal_strlit("ttf");
    reveal_strlit("wasm");
    assert("html"@.len() == 4 && "html"@[0] == 'h' && "html"@[1] == 't');
    assert("js"@.len() == 2 && "js"@[0] == 'j' && "js"@[1] == 's');
    assert("css"@.len() == 3 && "css"@[0] == 'c' && "css"@[1] == 's');
    assert("json"@.len() == 4 && "json"@[0] == 'j' && "json"@[1] == 's');
    assert("png"@.len() == 3 && "png"@[0] == 'p' && "png"@[1] == 'n');
    assert("svg"@.len() == 3 && "svg"@[0] == 's' && "svg"@[1] == 'v');
    assert("ico"@.len() == 3 && "ico"@[0] == 'i' && "ico"@[1] == 'c');
    assert("woff2"@.len() == 5 && "woff2"@[0] == 'w' && "woff2"@[1] == 'o');
    assert("woff"@.len() == 4 && "woff"@[0] == 'w' && "woff"@[1] == 'o');
    assert("ttf"@.len() == 3 && "ttf"@[0] == 't' && "ttf"@[1] == 't');
    assert("wasm"@.len() == 4 && "wasm"@[0] == 'w' && "wasm"@[1] == 'a');
}

/// A desktop reads the messages sent to the desktop; a mobile, any other device type,
/// or a poll that names none reads those sent to the mobile.
pub proof fn lemma_directions(other: Seq<char>)
    requires
        other != DESKTOP@,
    ensures
        direction_for(Some(DESKTOP@)) == MessageDirection::ToDesktop,
        direction_for(Some(other)) == MessageDirection::ToMobile,
        direction_for(None) == MessageDirection::ToMobile,
{
}

pub fn mime_for_extension(ext: Option<&str>) -> (r: &'static str)
    ensures
        r@ == mime_for(match ext {
            Some(e) => Some(e@),
            None => None,
        }),
{
    match ext {
        Some(e) => if str_eq(e, "html") {
            "text/html; charset=utf-8"
        } else if str_eq(e, "js") {
            "application/javascript; charset=utf-8"
        } else if str_eq(e, "css") {
            "text/css; charset=utf-8"
        } else if str_eq(e, "json") {
            "application/json"
        } else if str_eq(e, "png") {
            "image/png"
        } else if str_eq(e, "svg") {
            "image/svg+xml"
        } else if str_eq(e, "ico") {
            "image/x-icon"
        } else if str_eq(e, "woff2") {
            "font/woff2"
        } else if str_eq(e, "woff") {
            "font/woff"
        } else if str_eq(e, "ttf") {
            "font/ttf"
        } else if str_eq(e, "wasm") {
            "application/wasm"
        } else {
            "application/octet-stream"
        },
        None => "application/octet-stream",
    }
}

/// The `Content-Type` of a served file, by its extension.
pub fn mime_from_path(path: &str) -> (r: &'static str)
    ensures
        r@ == mime_for(path_extension(path@)),
        names_a_file(path@) ==> r@ == mime_for(file_name_extension(last_segment(path@))),
{
    let ext = extension_of(path);
    match &ext {
        Some(e) => mime_for_extension(Some(e.as_str())),
        None => mime_for_extension(None),
    }
}

/// The last component of a directory joined with a relative path is the last
/// component of the relative path.
pub proof fn lemma_last_segment_of_join(dir: Seq<char>, rel: Seq<char>)
    ensures
        last_segment(dir + seq!['/'] + rel) == last_segment(rel),
{
    let p = dir + seq!['/'] + rel;
    let n = dir.len() as int;
    if exists|i: int| is_last_slash(rel, i) {
        let i = choose|i: int| is_last_slash(rel, i);
        assert(is_last_slash(p, n + 1 + i)) by {
            assert forall|j: int| n + 1 + i < j < p.len() implies p[j] != '/' by {
                assert(p[j] == rel[j - n - 1]);
            }
        }
        let k = choose|k: int| is_last_slash(p, k);
        assert(k == n + 1 + i) by {
            if k < n + 1 + i {
                assert(p[n + 1 + i] == '/');
            }
            if k > n + 1 + i {
                assert(p[k] == rel[k - n - 1]);
            }
        }
        assert(p.skip(k + 1) == rel.skip(i + 1));
    } else {
        assert(is_last_slash(p, n)) by {
            assert forall|j: int| n < j < p.len() implies p[j] != '/' by {
                assert(p[j] == rel[j - n - 1]);
                if rel[j - n - 1] == '/' {
                    let jj = j - n - 1;
                    assert(false) by {
                        lemma_some_last_slash(rel, jj);
                    }
                }
            }
        }
        let k = choose|k: int| is_last_slash(p, k);
        assert(k == n) by {
            if k < n {
                assert(p[n] == '/');
            }
            if k > n {
                assert(p[k] == rel[k - n - 1]);
                lemma_some_last_slash(rel, k - n - 1);
            }
        }
        assert(p.skip(n + 1) == rel);
    }
}

/// A slash at `i` means the text has a last slash.
proof fn lemma_some_last_slash(p: Seq<char>, i: int)
    requires
        0 <= i < p.len(),
        p[i] == '/',
    ensures
        exists|k: int| is_last_slash(p, k),
    decreases p.len() - i,
{
    if !is_last_slash(p, i) {
        let w = choose|w: int| i < w < p.len() && p[w] == '/';
        lemma_some_last_slash(p, w);
    }
}

/// The Content-Type that a file is served with, when its last component is a file
/// name: that of the extension of the last component.
pub open spec fn content_type(path: Seq<char>) -> Seq<char> {
    mime_for(file_name_extension(last_segment(path)))
}

/// A file uploaded into a room is served with the Content-Type of its relative path:
/// joining the room directory (no backslash or colon) in front does not change the
/// last component.
pub proof fn lemma_served_content_type(dir: Seq<char>, rel: Seq<char>)
    requires
        !dir.contains('\\'),
        !dir.contains(':'),
        names_a_file(rel),
    ensures
        names_a_file(dir + seq!['/'] + rel),
        content_type(dir + seq!['/'] + rel) == content_type(rel),
{
    let p = dir + seq!['/'] + rel;
    lemma_last_segment_of_join(dir, rel);
    assert(!p.contains('\\')) by {
        if p.contains('\\') {
            let k = choose|k: int| 0 <= k < p.len() && p[k] == '\\';
            if k < dir.len() {
                assert(dir[k] == '\\');
            } else if k > dir.len() {
                assert(rel[k - dir.len() - 1] == '\\');
            }
        }
    }
    assert(!p.contains(':')) by {
        if p.contains(':') {
            let k = choose|k: int| 0 <= k < p.len() && p[k] == ':';
            if k < dir.len() {
                assert(dir[k] == ':');
            } else if k > dir.len() {
                assert(rel[k - dir.len() - 1] == ':');
            }
        }
    }
}

/// What the standard base64 engine decodes from `text`, `None` when it rejects it.
pub uninterp spec fn base64_standard_decode(text: Seq<char>) -> Option<Seq<u8>>;

/// `base64::engine::general_purpose::STANDARD.decode`.
#[verifier::external_body]
fn decode_base64(text: &str) -> (r: Result<Vec<u8>, base64::DecodeError>)
    ensures
        match base64_standard_decode(text@) {
            Some(bytes) => r matches Ok(v) && v@ == bytes,
            None => r is Err,
        },
{
    base64::engine::general_purpose::STANDARD.decode(text)
}

/// Uploads go only to rooms that exist; any other is answered 404.
pub fn require_room(room_exists: bool) -> (r: Result<(), HttpStatus>)
    ensures
        room_exists ==> r is Ok,
        !room_exists ==> r == Err::<(), HttpStatus>(HttpStatus::NotFound),
{
    if room_exists {
        Ok(())
    } else {
        Err(HttpStatus::NotFound)
    }
}

/// What happens to one uploaded file at `rel_path`: a path with `..` is passed over
/// (`None`), content that is not valid base64 answers the upload with 400, else the
/// decoded bytes are to be written.
pub fn upload_step(rel_path: &str, content_base64: &str) -> (r: Result<Option<Vec<u8>>, HttpStatus>)
    ensures
        has_dot_dot(rel_path@) ==> r matches Ok(None),
        !has_dot_dot(rel_path@) ==> match base64_standard_decode(content_base64@) {
            Some(bytes) => r matches Ok(Some(v)) && v@ == bytes,
            None => r == Err::<Option<Vec<u8>>, HttpStatus>(HttpStatus::BadRequest),
        },
{
    if contains_dot_dot(rel_path) {
        return Ok(None);
    }
    match decode_base64(content_base64) {
        Ok(bytes) => Ok(Some(bytes)),
        Err(_) => Err(HttpStatus::BadRequest),
    }
}

pub const UPLOAD_OK: &'static str = "ok";

/// The body of a finished upload: status "ok" and the number of files written.
pub struct UploadReply {
    pub status: String,
    pub files_written: usize,
}

pub fn upload_reply(files_written: usize) -> (r: UploadReply)
    ensures
        r.status@ == UPLOAD_OK@,
        r.files_written == files_written,
{
    UploadReply { status: String::from_str(UPLOAD_OK), files_written }
}

} // verus!
