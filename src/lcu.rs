//! The credentials file the client writes, the addresses and authorisation derived from
//! it, and the wire format of the client's event stream.

use vstd::prelude::*;
use crate::json::{
    field, find_member, json_document, json_string_literal, parse_json, quote_json, Json,
};
use crate::text::{
    chars_of, decimal_text, parsed_u32, parse_u32, push_decimal, push_str, split_fields,
    split_on, string_of, views,
};

verus! {

/// The user name the control API expects, the same for every session.
pub const LCU_USERNAME: &'static str = "riot";

/// The address the control API listens on.
pub const LCU_ADDRESS: &'static str = "127.0.0.1";

/// The endpoint whose changes carry the client's phase.
pub const PHASE_ENDPOINT: &'static str = "/lol-gameflow/v1/gameflow-phase";

/// Why the contents of a credentials file could not be read.
#[derive(Debug, Clone, Copy, PartialEq, Eq, Structural)]
pub enum ParseError {
    /// The line does not hold exactly five `:`-separated fields.
    FieldCount,
    /// The process id is not an unsigned 32-bit number.
    Pid,
    /// The port is not an unsigned 32-bit number.
    Port,
}

/// The connection credentials of one running client instance.
#[derive(Debug, Clone, PartialEq, Eq)]
pub struct RiotLockFile {
    pub process: String,
    pub pid: u32,
    pub port: u32,
    pub password: String,
    pub protocol: String,
    pub username: String,
    pub address: String,
}

/// `"Basic "` followed by the base64 of `username:password`.
pub uninterp spec fn basic_auth_value(username: Seq<char>, password: Seq<char>) -> Seq<char>;

/// Relies on `surf::http::auth::BasicAuth::value`, whose text depends on the user name
/// and the password alone.
#[verifier::external_body]
fn basic_auth(username: &str, password: &str) -> (r: String)
    ensures
        r@ == basic_auth_value(username@, password@),
{
    surf::http::auth::BasicAuth::new(username, password).value().as_str().to_owned()
}

/// `"{scheme}://{address}:{port}"`.
pub open spec fn url_text(scheme: Seq<char>, address: Seq<char>, port: u32) -> Seq<char> {
    scheme + seq![':', '/', '/'] + address + seq![':'] + decimal_text(port as nat)
}

fn url(scheme: &str, address: &str, port: u32) -> (r: String)
    ensures
        r@ == url_text(scheme@, address@, port),
{
    let mut out = chars_of(scheme);
    out.push(':');
    out.push('/');
    out.push('/');
    push_str(&mut out, address);
    out.push(':');
    push_decimal(&mut out, port as u64);
    assert(out@ =~= url_text(scheme@, address@, port));
    string_of(&out)
}

impl RiotLockFile {
    /// Reads the credentials out of the contents of the file the client writes:
    /// `process:pid:port:password:protocol` on one line.
    pub fn read(contents: &str) -> (r: Result<RiotLockFile, ParseError>)
        ensures
            ({
                let f = split_fields(contents@, ':');
                match r {
                    Ok(lf) => f.len() == 5 && lf.process@ == f[0] && parsed_u32(f[1]) == Some(
                        lf.pid,
                    ) && parsed_u32(f[2]) == Some(lf.port) && lf.password@ == f[3]
                        && lf.protocol@ == f[4] && lf.username@ == LCU_USERNAME@
                        && lf.address@ == LCU_ADDRESS@,
                    Err(ParseError::FieldCount) => f.len() != 5,
                    Err(ParseError::Pid) => f.len() == 5 && parsed_u32(f[1]) is None,
                    Err(ParseError::Port) => f.len() == 5 && parsed_u32(f[1]) is Some
                        && parsed_u32(f[2]) is None,
                }
            }),
    {
        let mut pieces = split_on(contents, ':');
        let ghost f = split_fields(contents@, ':');
        assert(views(pieces@).len() == pieces@.len());
        if pieces.len() != 5 {
            return Err(ParseError::FieldCount);
        }
        assert(pieces@[1]@ == f[1] && pieces@[2]@ == f[2]);
        let pid = match parse_u32(pieces[1].as_str()) {
            Some(v) => v,
            None => return Err(ParseError::Pid),
        };
        let port = match parse_u32(pieces[2].as_str()) {
            Some(v) => v,
            None => return Err(ParseError::Port),
        };
        let ghost all = pieces@;
        assert(all[0]@ == f[0] && all[3]@ == f[3] && all[4]@ == f[4]);
        // Take the text fields out from the back; the two numbers are already read.
        let protocol = pieces.pop().unwrap();
        let password = pieces.pop().unwrap();
        pieces.truncate(1);
        let process = pieces.pop().unwrap();
        Ok(RiotLockFile {
            process,
            pid,
            port,
            password,
            protocol,
            username: String::from_str(LCU_USERNAME),
            address: String::from_str(LCU_ADDRESS),
        })
    }

    /// The base URL of the request channel: `{protocol}://{address}:{port}`.
    pub fn base_url(&self) -> (r: String)
        ensures
            r@ == url_text(self.protocol@, self.address@, self.port),
    {
        url(self.protocol.as_str(), self.address.as_str(), self.port)
    }

    /// The URL of the event stream: `wss://{address}:{port}`.
    pub fn socket_url(&self) -> (r: String)
        ensures
            r@ == url_text(seq!['w', 's', 's'], self.address@, self.port),
    {
        let scheme = string_of(&vec!['w', 's', 's']);
        url(scheme.as_str(), self.address.as_str(), self.port)
    }

    /// The value of the `Authorization` header both channels send.
    pub fn authorization(&self) -> (r: String)
        ensures
            r@ == basic_auth_value(self.username@, self.password@),
    {
        basic_auth(self.username.as_str(), self.password.as_str())
    }
}

/// What comes before an endpoint in the name of its event.
pub const EVENT_PREFIX: &'static str = "OnJsonApiEvent";

/// The opcode that leads each frame of the event stream.
#[derive(Debug, Clone, Copy, PartialEq, Eq, Structural)]
pub enum ActionCode {
    Subscribe,
    Unsubscribe,
    Event,
}

impl ActionCode {
    pub open spec fn value(self) -> u64 {
        match self {
            ActionCode::Subscribe => 5,
            ActionCode::Unsubscribe => 6,
            ActionCode::Event => 8,
        }
    }

    /// The number that stands for this opcode on the wire.
    pub fn code(&self) -> (r: u64)
        ensures
            r == self.value(),
    {
        match self {
            ActionCode::Subscribe => 5,
            ActionCode::Unsubscribe => 6,
            ActionCode::Event => 8,
        }
    }
}

/// The event name of `endpoint`: the prefix, then the endpoint, with every `/` made `_`.
pub open spec fn event_name_text(endpoint: Seq<char>) -> Seq<char> {
    (EVENT_PREFIX@ + endpoint).map_values(|c: char| if c == '/' { '_' } else { c })
}

/// The name under which the event stream reports changes of `endpoint`.
pub fn event_name(endpoint: &str) -> (r: String)
    ensures
        r@ == event_name_text(endpoint@),
{
    let mut cs = chars_of(EVENT_PREFIX);
    let ghost whole = EVENT_PREFIX@ + endpoint@;
    push_str(&mut cs, endpoint);
    let mut j: usize = 0;
    while j < cs.len()
        invariant
            j <= cs@.len(),
            cs@.len() == whole.len(),
            forall|k: int|
                0 <= k < j ==> #[trigger] cs@[k] == (if whole[k] == '/' { '_' } else { whole[k] }),
            forall|k: int| j <= k < cs@.len() ==> #[trigger] cs@[k] == whole[k],
        decreases cs@.len() - j,
    {
        if cs[j] == '/' {
            cs.set(j, '_');
        }
        j = j + 1;
    }
    assert(cs@ =~= event_name_text(endpoint@));
    string_of(&cs)
}

/// A frame `[code, "name"]` as the event stream takes it.
pub open spec fn action_frame_text(action: ActionCode, endpoint: Seq<char>) -> Seq<char> {
    seq!['['] + decimal_text(action.value() as nat) + seq![','] + json_string_literal(
        event_name_text(endpoint),
    ) + seq![']']
}

/// The frame that asks the event stream for (or no longer for) the changes of `endpoint`.
pub fn action_frame(action: ActionCode, endpoint: &str) -> (r: String)
    ensures
        r@ == action_frame_text(action, endpoint@),
{
    let name = event_name(endpoint);
    let quoted = quote_json(name.as_str());
    let mut out: Vec<char> = vec!['['];
    push_decimal(&mut out, action.code());
    out.push(',');
    push_str(&mut out, quoted.as_str());
    out.push(']');
    assert(out@ =~= action_frame_text(action, endpoint@));
    string_of(&out)
}

/// The uri and the data of an event frame `[8, name, {"data", "eventType", "uri"}]`
/// whose name is a string, whose `eventType` and `uri` are strings and which has `data`.
pub open spec fn event_of(frame: Json) -> Option<(Seq<char>, Json)> {
    match frame {
        Json::Array(items) => {
            if items@.len() == 3 && items@[0] == Json::Number(Some(8u64)) && items@[1] is Str {
                let args = items@[2];
                match (field(args, "data"@), field(args, "eventType"@), field(args, "uri"@)) {
                    (Some(data), Some(Json::Str(_)), Some(Json::Str(uri))) => Some((uri@, data)),
                    _ => None,
                }
            } else {
                None
            }
        },
        _ => None,
    }
}

/// A text frame of the event stream that could not be read as JSON.
#[derive(Debug, Clone, Copy, PartialEq, Eq, Structural)]
pub enum FrameError {
    Malformed,
}

/// Reads one text frame of the event stream: `Ok(Some((uri, data)))` for an event,
/// `Ok(None)` for a frame to pass over (empty, or JSON that is no event), and an error
/// for a frame that is not JSON at all.
pub fn decode_frame(text: &str) -> (r: Result<Option<(String, Json)>, FrameError>)
    ensures
        text@.len() == 0 ==> r matches Ok(None),
        text@.len() > 0 ==> match json_document(text@) {
            None => r == Err::<Option<(String, Json)>, FrameError>(FrameError::Malformed),
            Some(doc) => match r {
                Ok(Some((uri, data))) => event_of(doc) == Some((uri@, data)),
                Ok(None) => event_of(doc) is None,
                Err(_) => false,
            },
        },
{
    if text.is_empty() {
        return Ok(None);
    }
    match parse_json(text) {
        None => Err(FrameError::Malformed),
        Some(doc) => Ok(event_parts(doc)),
    }
}

fn event_parts(frame: Json) -> (r: Option<(String, Json)>)
    ensures
        match r {
            Some((uri, data)) => event_of(frame) == Some((uri@, data)),
            None => event_of(frame) is None,
        },
{
    let ghost whole = frame;
    match frame {
        Json::Array(mut items) => {
            if items.len() != 3 {
                return None;
            }
            let code_ok = match &items[0] {
                Json::Number(Some(c)) => *c == 8,
                _ => false,
            };
            let name_ok = match &items[1] {
                Json::Str(_) => true,
                _ => false,
            };
            if !code_ok || !name_ok {
                return None;
            }
            let ghost before = items@;
            let args = items.pop().unwrap();
            assert(args == before[2]);
            match args {
                Json::Object(mut fields) => {
                    let data_key = String::from_str("data");
                    let type_key = String::from_str("eventType");
                    let uri_key = String::from_str("uri");
                    let d = find_member(&fields, &data_key);
                    let t = find_member(&fields, &type_key);
                    let u = find_member(&fields, &uri_key);
                    match (d, t, u) {
                        (Some(di), Some(ti), Some(ui)) => {
                            let type_ok = match &fields[ti].1 {
                                Json::Str(_) => true,
                                _ => false,
                            };
                            let uri = match &fields[ui].1 {
                                Json::Str(s) => s.clone(),
                                _ => return None,
                            };
                            if !type_ok {
                                return None;
                            }
                            let (_, data) = fields.remove(di);
                            Some((uri, data))
                        },
                        _ => None,
                    }
                },
                _ => None,
            }
        },
        _ => None,
    }
}

} // verus!
