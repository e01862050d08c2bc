use crate::codec::{
    base64_decoding, base64_encoding, decode_base64, encode_base64, exchange_body,
    exchange_body_text, MAX_BASE64_TEXT,
};
use crate::registry::SessionRegistry;
use crate::settings::Settings;
use crate::status::{status_of, Status};
use crate::text::{decimal, parse_i8, parse_signed_byte, push_decimal};
use vstd::prelude::*;
use vstd::string::*;

verus! {

/// How the remote service answered one POST.
#[derive(Debug, PartialEq, Eq)]
pub enum Transport<T> {
    /// HTTP 200, with the body as read.
    Delivered(T),
    /// The service answered with this other HTTP status.
    Refused(u16),
    /// No usable answer: connection, timeout, name lookup, TLS, or a body that
    /// could not be read.
    Failed,
}

/// One POST to make to the remote service.
#[derive(Debug, PartialEq, Eq)]
pub struct Post {
    /// The terminal the call is for, after any pinned terminal is applied.
    pub ctn: u16,
    /// The port the call is for.
    pub pn: u16,
    /// Path relative to the base URL.
    pub path: String,
    /// JSON body; `None` sends an empty body.
    pub body: Option<String>,
}

/// What a call does next.
#[derive(Debug, PartialEq, Eq)]
pub enum Step {
    /// The call ends with this status; nothing is sent.
    Done(Status),
    /// Send this POST and hand its answer to the verb's reply function.
    Post(Post),
}

/// The JSON answer to an exchange
/// (`{"dad":..,"sad":..,"lenr":..,"response":"..","responseCode":..}`).
#[derive(Debug, PartialEq, Eq)]
pub struct ExchangeReply {
    pub dad: u8,
    pub sad: u8,
    pub lenr: u16,
    /// Base64 text of the response bytes.
    pub response: String,
    /// The `responseCode` field.
    pub status: i8,
}

/// Terminal and port that an open is for: both pinned values when the
/// settings pin both, else the caller's.
pub open spec fn open_target(settings: Settings, ctn: u16, pn: u16) -> (u16, u16) {
    match (settings.ctn, settings.pn) {
        (Some(c), Some(p)) => (c, p),
        _ => (ctn, pn),
    }
}

/// Terminal that a close or an exchange is for: the pinned one, if any.
pub open spec fn session_target(settings: Settings, ctn: u16) -> u16 {
    match settings.ctn {
        Some(c) => c,
        None => ctn,
    }
}

/// How an open proceeds: `Err` ends it with that status and sends nothing,
/// `Ok((ctn, pn))` posts for that terminal and port.
pub open spec fn open_decision(sessions: Map<u16, u16>, settings: Settings, ctn: u16, pn: u16) -> Result<
    (u16, u16),
    Status,
> {
    let (c, p) = open_target(settings, ctn, pn);
    if sessions.contains_key(c) {
        Err(Status::ERR_INVALID)
    } else {
        Ok((c, p))
    }
}

/// How a close proceeds: only an open terminal is posted for, with the port
/// it was opened on.
pub open spec fn close_decision(sessions: Map<u16, u16>, settings: Settings, ctn: u16) -> Result<
    (u16, u16),
    Status,
> {
    let c = session_target(settings, ctn);
    if sessions.contains_key(c) {
        Ok((c, sessions[c]))
    } else {
        Err(Status::ERR_INVALID)
    }
}

/// How an exchange proceeds: a missing argument ends it before the registry
/// is consulted; otherwise as a close.
pub open spec fn exchange_decision(
    sessions: Map<u16, u16>,
    settings: Settings,
    ctn: u16,
    arguments_present: bool,
) -> Result<(u16, u16), Status> {
    if !arguments_present {
        Err(Status::ERR_HTSI)
    } else {
        close_decision(sessions, settings, ctn)
    }
}

/// `verb` followed by `{ctn}/{pn}`.
pub open spec fn request_path(verb: Seq<char>, ctn: u16, pn: u16) -> Seq<char> {
    verb + decimal(ctn as nat) + seq!['/'] + decimal(pn as nat)
}

pub open spec fn text_of(body: Option<String>) -> Option<Seq<char>> {
    match body {
        Some(b) => Some(b@),
        None => None,
    }
}

/// `step` carries out `decision`, posting to `verb` with `body`.
pub open spec fn step_follows(
    step: Step,
    decision: Result<(u16, u16), Status>,
    verb: Seq<char>,
    body: Option<Seq<char>>,
) -> bool {
    match decision {
        Err(status) => step == Step::Done(status),
        Ok((c, p)) => step matches Step::Post(post) && post.ctn == c && post.pn == p
            && post.path@ == request_path(verb, c, p) && text_of(post.body) == body,
    }
}

/// The status that an answer to an open or a close gives: the signed byte
/// that the body spells, as it is.
pub open spec fn reply_status(reply: Transport<String>) -> Status {
    match reply {
        Transport::Delivered(text) => match parse_i8(text@) {
            Some(code) => status_of(code),
            None => Status::ERR_HTSI,
        },
        Transport::Refused(_) => Status::ERR_HOST,
        Transport::Failed => Status::ERR_HTSI,
    }
}

/// The registry after an open that ended with `status`.
pub open spec fn after_open(sessions: Map<u16, u16>, ctn: u16, pn: u16, status: Status) -> Map<
    u16,
    u16,
> {
    if status == Status::OK {
        sessions.insert(ctn, pn)
    } else {
        sessions
    }
}

/// The registry after a close that ended with `status`.
pub open spec fn after_close(sessions: Map<u16, u16>, ctn: u16, status: Status) -> Map<u16, u16> {
    if status == Status::OK {
        sessions.remove(ctn)
    } else {
        sessions
    }
}

fn request_path_text(verb: &str, ctn: u16, pn: u16) -> (r: String)
    ensures
        r@ == request_path(verb@, ctn, pn),
{
    let mut path = String::from_str(verb);
    push_decimal(&mut path, ctn);
    path.push('/');
    push_decimal(&mut path, pn);
    proof {
        assert(path@ =~= request_path(verb@, ctn, pn));
    }
    path
}

fn text_reply_status(reply: &Transport<String>) -> (r: Status)
    ensures
        r == reply_status(*reply),
{
    match reply {
        Transport::Delivered(text) => match parse_signed_byte(text.as_str()) {
            Some(code) => Status::from_i8(code),
            None => Status::ERR_HTSI,
        },
        Transport::Refused(_) => Status::ERR_HOST,
        Transport::Failed => Status::ERR_HTSI,
    }
}

/// Opens terminal `ctn` on port `pn`: ends with `ERR_INVALID` if the terminal
/// is already open, else posts to `ct_init/{ctn}/{pn}` with no body.
pub fn init(registry: &SessionRegistry, settings: &Settings, ctn: u16, pn: u16) -> (r: Step)
    ensures
        step_follows(r, open_decision(registry@, *settings, ctn, pn), "ct_init/"@, None),
{
    let (ctn, pn) = match (settings.ctn, settings.pn) {
        (Some(c), Some(p)) => (c, p),
        _ => (ctn, pn),
    };
    if registry.contains(ctn) {
        return Step::Done(Status::ERR_INVALID);
    }
    Step::Post(Post { ctn, pn, path: request_path_text("ct_init/", ctn, pn), body: None })
}

/// Applies the answer to an open of `ctn` on `pn`: the status is passed
/// through, and only `OK` records the terminal as open.
pub fn init_reply(registry: &mut SessionRegistry, ctn: u16, pn: u16, reply: &Transport<String>) -> (r:
    Status)
    ensures
        r == reply_status(*reply),
        final(registry)@ == after_open(old(registry)@, ctn, pn, r),
{
    let status = text_reply_status(reply);
    if status == Status::OK {
        registry.insert(ctn, pn);
    }
    status
}

/// Closes terminal `ctn`: ends with `ERR_INVALID` if it is not open, else
/// posts to `ct_close/{ctn}/{pn}` with the port it was opened on.
pub fn close(registry: &SessionRegistry, settings: &Settings, ctn: u16) -> (r: Step)
    ensures
        step_follows(r, close_decision(registry@, *settings, ctn), "ct_close/"@, None),
{
    let ctn = match settings.ctn {
        Some(c) => c,
        None => ctn,
    };
    match registry.get(ctn) {
        None => Step::Done(Status::ERR_INVALID),
        Some(pn) => Step::Post(
            Post { ctn, pn, path: request_path_text("ct_close/", ctn, pn), body: None },
        ),
    }
}

/// Applies the answer to a close of `ctn`: the status is passed through, and
/// only `OK` forgets the terminal.
pub fn close_reply(registry: &mut SessionRegistry, ctn: u16, reply: &Transport<String>) -> (r:
    Status)
    ensures
        r == reply_status(*reply),
        final(registry)@ == after_close(old(registry)@, ctn, r),
{
    let status = text_reply_status(reply);
    if status == Status::OK {
        registry.remove(ctn);
    }
    status
}

/// The body of an exchange whose arguments are all present.
pub open spec fn exchange_request(
    dad: Option<u8>,
    sad: Option<u8>,
    command: Option<Seq<u8>>,
    lenr: Option<u16>,
) -> Option<Seq<char>> {
    match (dad, sad, command, lenr) {
        (Some(d), Some(s), Some(c), Some(l)) => Some(
            exchange_body_text(d, s, c.len() as u16, base64_encoding(c), l),
        ),
        _ => None,
    }
}

pub open spec fn bytes_of(command: Option<&[u8]>) -> Option<Seq<u8>> {
    match command {
        Some(c) => Some(c@),
        None => None,
    }
}

/// `buffer` with its first bytes replaced by those of `data`, as many as fit.
pub open spec fn filled(buffer: Seq<u8>, data: Seq<u8>) -> Seq<u8> {
    Seq::new(buffer.len(), |i: int| if i < data.len() { data[i] } else { buffer[i] })
}

/// The status that an answer to an exchange gives: the answer's code as it
/// is, except that a success whose response text is no base64 is `ERR_HTSI`.
pub open spec fn exchange_status(reply: Transport<Option<ExchangeReply>>) -> Status {
    match reply {
        Transport::Delivered(Some(answer)) => if status_of(answer.status) != Status::OK {
            status_of(answer.status)
        } else if base64_decoding(answer.response@) is Some {
            Status::OK
        } else {
            Status::ERR_HTSI
        },
        _ => Status::ERR_HTSI,
    }
}

/// Exchanges a command with terminal `ctn`. Each `None` stands for a missing
/// (null) argument of the entry point, which ends the call with `ERR_HTSI`
/// before anything else; `response` is only checked for presence here. An
/// exchange with a terminal that is not open ends with `ERR_INVALID`; else it
/// posts to `ct_data/{ctn}/{pn}` the command in base64 and `lenr` as the
/// capacity of the response buffer.
pub fn data(
    registry: &SessionRegistry,
    settings: &Settings,
    ctn: u16,
    dad: Option<u8>,
    sad: Option<u8>,
    command: Option<&[u8]>,
    lenr: Option<u16>,
    response: Option<&[u8]>,
) -> (r: Step)
    requires
        command matches Some(c) ==> c@.len() <= u16::MAX,
    ensures
        step_follows(
            r,
            exchange_decision(
                registry@,
                *settings,
                ctn,
                dad is Some && sad is Some && command is Some && lenr is Some && response is Some,
            ),
            "ct_data/"@,
            exchange_request(dad, sad, bytes_of(command), lenr),
        ),
{
    let (dad, sad, command, lenr) = match (dad, sad, command, lenr, response) {
        (Some(d), Some(s), Some(c), Some(l), Some(_)) => (d, s, c, l),
        _ => return Step::Done(Status::ERR_HTSI),
    };
    let ctn = match settings.ctn {
        Some(c) => c,
        None => ctn,
    };
    let pn = match registry.get(ctn) {
        None => return Step::Done(Status::ERR_INVALID),
        Some(pn) => pn,
    };
    let encoded = encode_base64(command);
    let body = exchange_body(dad, sad, command.len() as u16, encoded.as_str(), lenr);
    Step::Post(Post { ctn, pn, path: request_path_text("ct_data/", ctn, pn), body: Some(body) })
}

/// Writes back the answer to a successful exchange. `decoded` is what the
/// answer's response text decodes to, `None` where it is no base64: then the
/// status is `ERR_HTSI` and nothing is written. Else the decoded bytes go to
/// the front of `response`, as many as fit, the rest of it is kept, `dad` and
/// `sad` take the answer's values, `lenr` the answer's length, and the status
/// is `OK`.
pub fn deliver_response(
    decoded: Option<Vec<u8>>,
    answer_dad: u8,
    answer_sad: u8,
    answer_lenr: u16,
    dad: &mut u8,
    sad: &mut u8,
    lenr: &mut u16,
    response: &mut [u8],
) -> (r: Status)
    ensures
        match decoded {
            Some(bytes) => {
                &&& r == Status::OK
                &&& *final(dad) == answer_dad
                &&& *final(sad) == answer_sad
                &&& *final(lenr) == answer_lenr
                &&& final(response)@ == filled(old(response)@, bytes@)
            },
            None => {
                &&& r == Status::ERR_HTSI
                &&& *final(dad) == *old(dad)
                &&& *final(sad) == *old(sad)
                &&& *final(lenr) == *old(lenr)
                &&& final(response)@ == old(response)@
            },
        },
{
    let bytes = match decoded {
        Some(bytes) => bytes,
        None => return Status::ERR_HTSI,
    };
    let n: usize = if bytes.len() < response.len() {
        bytes.len()
    } else {
        response.len()
    };
    let mut i: usize = 0;
    while i < n
        invariant
            n <= bytes@.len(),
            n <= response@.len(),
            n == bytes@.len() || n == response@.len(),
            response@.len() == old(response)@.len(),
            0 <= i <= n,
            forall|j: int| 0 <= j < i ==> response@[j] == bytes@[j],
            forall|j: int| i <= j < response@.len() ==> response@[j] == old(response)@[j],
        decreases n - i,
    {
        response[i] = bytes[i];
        i = i + 1;
    }
    assert(response@ =~= filled(old(response)@, bytes@));
    *dad = answer_dad;
    *sad = answer_sad;
    *lenr = answer_lenr;
    Status::OK
}

/// Applies the answer to an exchange. Only a success writes anything back
/// (see `deliver_response`); any other code is passed through, and a failed
/// transport or an answer that is not the expected JSON gives `ERR_HTSI`.
pub fn data_reply(
    reply: &Transport<Option<ExchangeReply>>,
    dad: &mut u8,
    sad: &mut u8,
    lenr: &mut u16,
    response: &mut [u8],
) -> (r: Status)
    requires
        reply matches Transport::Delivered(Some(answer)) ==> answer.response@.len()
            <= MAX_BASE64_TEXT,
    ensures
        r == exchange_status(*reply),
        r == Status::OK ==> match *reply {
            Transport::Delivered(Some(answer)) => {
                &&& *final(dad) == answer.dad
                &&& *final(sad) == answer.sad
                &&& *final(lenr) == answer.lenr
                &&& final(response)@ == filled(
                    old(response)@,
                    base64_decoding(answer.response@)->Some_0,
                )
            },
            _ => false,
        },
        r != Status::OK ==> {
            &&& *final(dad) == *old(dad)
            &&& *final(sad) == *old(sad)
            &&& *final(lenr) == *old(lenr)
            &&& final(response)@ == old(response)@
        },
{
    match reply {
        Transport::Delivered(Some(answer)) => {
            let status = Status::from_i8(answer.status);
            if status != Status::OK {
                return status;
            }
            let decoded = decode_base64(answer.response.as_str());
            deliver_response(decoded, answer.dad, answer.sad, answer.lenr, dad, sad, lenr, response)
        },
        _ => Status::ERR_HTSI,
    }
}

} // verus!
