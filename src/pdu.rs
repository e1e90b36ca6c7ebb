//! Protocol messages, the handler's errors and the response envelope.
use crate::render::RenderChanges;
use vstd::prelude::*;
use vstd::string::StringExecFns;

verus! {

/// Size of a terminal in cells and pixels.
#[derive(Clone, Copy, Debug, PartialEq, Eq, Structural)]
pub struct TabSize {
    pub rows: u16,
    pub cols: u16,
    pub pixel_width: u16,
    pub pixel_height: u16,
}

/// A key press: the key's code and the modifiers held.
#[derive(Clone, Copy, Debug, PartialEq, Eq, Structural)]
pub struct KeyEvent {
    pub key: u32,
    pub modifiers: u16,
}

/// A pointer event at a cell.
#[derive(Clone, Copy, Debug, PartialEq, Eq, Structural)]
pub struct MouseEvent {
    pub kind: u8,
    pub button: u8,
    pub x: u64,
    pub y: i64,
    pub modifiers: u16,
}

/// One match of a scrollback search.
#[derive(Clone, Copy, Debug, PartialEq, Eq, Structural)]
pub struct SearchResult {
    pub start_y: i64,
    pub start_x: u64,
    pub end_y: i64,
    pub end_x: u64,
}

/// A request to start a new session.
pub struct Spawn {
    pub domain_id: u64,
    pub window_id: Option<u64>,
    pub command: Option<Vec<String>>,
    pub command_dir: Option<String>,
    pub size: TabSize,
}

/// One tab as listed by `ListTabs`.
pub struct WindowAndTabEntry {
    pub window_id: u64,
    pub tab_id: u64,
    pub title: String,
    pub size: TabSize,
    pub working_dir: Option<String>,
}

/// A protocol message.
pub enum Pdu {
    Invalid { ident: u64 },
    Ping,
    Pong,
    ListTabs,
    ListTabsResponse { tabs: Vec<WindowAndTabEntry> },
    WriteToTab { tab_id: u64, data: Vec<u8> },
    SendPaste { tab_id: u64, data: String },
    SearchTabScrollbackRequest { tab_id: u64, pattern: String },
    SearchTabScrollbackResponse { results: Vec<SearchResult> },
    Resize { tab_id: u64, size: TabSize },
    SendKeyDown { tab_id: u64, event: KeyEvent, input_serial: u64 },
    SendMouseEvent { tab_id: u64, event: MouseEvent },
    Spawn(Spawn),
    SpawnResponse { tab_id: u64, window_id: u64 },
    GetTabRenderChanges { tab_id: u64 },
    GetTabRenderChangesResponse(RenderChanges),
    UnitResponse,
    TabLivenessResponse { tab_id: u64, tab_alive: bool },
    GetLines { tab_id: u64, lines: Vec<(i64, i64)> },
    GetLinesResponse { tab_id: u64, lines: Vec<(i64, String)> },
    GetCodecVersion,
    GetCodecVersionResponse { codec_vers: u64, version_string: String },
    GetTlsCreds,
    GetTlsCredsResponse { client_cert_pem: String, ca_cert_pem: String },
    SetClipboard { tab_id: u64, clipboard: Option<String> },
    ErrorResponse { reason: String },
}

/// A message with the serial that correlates it: a response carries its
/// request's serial, an unsolicited push carries 0.
pub struct DecodedPdu {
    pub serial: u64,
    pub pdu: Pdu,
}

/// Why a request failed.
pub enum HandlerError {
    NoSuchTab(u64),
    NoSuchWindow(u64),
    NoSuchDomain(u64),
    /// A message that could not be decoded, with its type identifier.
    InvalidPdu(u64),
    /// A response, or another message that is no request, sent as a request.
    ExpectedRequest(String),
    /// Every window id has been handed out.
    OutOfWindowIds,
    /// What a job produced is not what its request calls for.
    OutcomeMismatch,
    /// A collaborator failed (a write to the session, credential issuance).
    Failed(String),
}

/// Decimal digits of `n`.
pub open spec fn decimal_of(n: nat) -> Seq<char>
    decreases n,
{
    let d = seq![(('0' as u8) + (n % 10) as u8) as char];
    if n < 10 {
        d
    } else {
        decimal_of(n / 10) + d
    }
}

/// Relies on `u64`'s `ToString`: its decimal digits, without sign or padding.
#[verifier::external_body]
fn decimal(n: u64) -> (r: String)
    ensures
        r@ == decimal_of(n as nat),
{
    n.to_string()
}

/// Text naming `e`.
pub open spec fn reason_of(e: HandlerError) -> Seq<char> {
    match e {
        HandlerError::NoSuchTab(id) => "no such tab "@ + decimal_of(id as nat),
        HandlerError::NoSuchWindow(id) => "window_id "@ + decimal_of(id as nat)
            + " not found on this server"@,
        HandlerError::NoSuchDomain(id) => "domain "@ + decimal_of(id as nat)
            + " not found on this server"@,
        HandlerError::InvalidPdu(ident) => "invalid PDU "@ + decimal_of(ident as nat),
        HandlerError::ExpectedRequest(name) => "expected a request, got "@ + name@,
        HandlerError::OutOfWindowIds => "no window id left"@,
        HandlerError::OutcomeMismatch => "job outcome does not match the request"@,
        HandlerError::Failed(why) => why@,
    }
}

impl HandlerError {
    /// Human-readable text of the error.
    pub fn reason(&self) -> (r: String)
        ensures
            r@ == reason_of(*self),
    {
        proof {
            reveal_strlit("no such tab ");
            reveal_strlit("window_id ");
            reveal_strlit(" not found on this server");
            reveal_strlit("domain ");
            reveal_strlit("invalid PDU ");
            reveal_strlit("expected a request, got ");
            reveal_strlit("no window id left");
            reveal_strlit("job outcome does not match the request");
        }
        match self {
            HandlerError::NoSuchTab(id) => String::from_str("no such tab ").concat(decimal(*id).as_str()),
            HandlerError::NoSuchWindow(id) => String::from_str("window_id ").concat(
                decimal(*id).as_str(),
            ).concat(" not found on this server"),
            HandlerError::NoSuchDomain(id) => String::from_str("domain ").concat(
                decimal(*id).as_str(),
            ).concat(" not found on this server"),
            HandlerError::InvalidPdu(ident) => String::from_str("invalid PDU ").concat(
                decimal(*ident).as_str(),
            ),
            HandlerError::ExpectedRequest(name) => String::from_str(
                "expected a request, got ",
            ).concat(name.as_str()),
            HandlerError::OutOfWindowIds => String::from_str("no window id left"),
            HandlerError::OutcomeMismatch => String::from_str("job outcome does not match the request"),
            HandlerError::Failed(why) => why.clone(),
        }
    }
}

/// Wraps a handler's outcome into the response for the request `serial`: a
/// failure becomes an `ErrorResponse` whose reason starts with "Error: ".
pub fn respond(serial: u64, result: Result<Pdu, HandlerError>) -> (r: DecodedPdu)
    ensures
        r.serial == serial,
        match result {
            Ok(p) => r.pdu == p,
            Err(e) => r.pdu matches Pdu::ErrorResponse { reason } && reason@ == "Error: "@
                + reason_of(e),
        },
{
    proof {
        reveal_strlit("Error: ");
    }
    let pdu = match result {
        Ok(pdu) => pdu,
        Err(err) => Pdu::ErrorResponse { reason: String::from_str("Error: ").concat(err.reason().as_str()) },
    };
    DecodedPdu { pdu, serial }
}

} // verus!
