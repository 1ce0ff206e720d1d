//! The connection handler as a state machine: one request and one response
//! per connection. The caller performs the reads, the key lookup and the
//! writes that the machine asks for, and reports each result as an event.
use crate::login_request::{spec_parse, DecodeError, LoginRequest};
use crate::session_key::{
    decode_ciphertext, decrypt_ciphertext, material_view, resolves, spec_decode_ciphertext,
    CryptoError,
};
use crate::wire::Header;
use vstd::prelude::*;
use vstd::slice::*;

verus! {

/// The id of a login request.
pub const LOGIN_REQUEST_ID: u16 = 0x501;

/// The packet types that the handler knows.
#[derive(Clone, Copy, Debug, PartialEq, Eq, Structural)]
pub enum PacketId {
    LoginRequest,
}

impl PacketId {
    /// The packet type with the given id, if there is one.
    pub open spec fn spec_from_u16(value: u16) -> Option<PacketId> {
        if value == LOGIN_REQUEST_ID {
            Some(PacketId::LoginRequest)
        } else {
            None
        }
    }

    /// Looks a packet id up among the known types.
    pub fn from_u16(value: u16) -> (r: Option<PacketId>)
        ensures
            r == PacketId::spec_from_u16(value),
    {
        if value == LOGIN_REQUEST_ID {
            Some(PacketId::LoginRequest)
        } else {
            None
        }
    }
}

/// Why a connection was closed without a response.
#[derive(Clone, Copy, Debug, PartialEq, Eq, Structural)]
pub enum ConnError {
    /// A read ended before the bytes asked for had arrived.
    ShortRead,
    /// The header's length does not cover the header, or the bytes handed
    /// over are not as many as were asked for.
    LengthMismatch,
    /// The header's id is not one that opens a conversation.
    InvalidHeader { id: u16 },
    /// No packet type has this id.
    UnknownPacket { id: u16 },
    /// The packet's fields did not decode.
    Decode(DecodeError),
    /// The session key could not be resolved.
    Crypto(CryptoError),
    /// The response could not be written.
    WriteFailed,
    /// An event arrived that the state does not wait for.
    UnexpectedEvent,
}

/// Where a connection stands.
#[derive(Debug)]
pub enum ConnState {
    /// Waiting for the four header bytes.
    AwaitHeader,
    /// Waiting for the rest of the packet that `header` announces.
    AwaitBody { header: Header },
    /// The request is parsed; waiting for the private key to decrypt
    /// `ciphertext`.
    AwaitKey { ciphertext: Vec<u8> },
    /// The response is being written.
    Responding,
    /// Nothing more happens on this connection.
    Closed,
}

/// What the caller reports back.
#[derive(Debug)]
pub enum ConnEvent {
    /// An exact read completed with these bytes.
    Read(Vec<u8>),
    /// A read failed or came up short.
    ReadFailed,
    /// The key lookup ended: the PEM bytes, or `None` if there are none.
    Key(Option<Vec<u8>>),
    /// All response packets were written.
    Written,
    /// A write failed or was partial.
    WriteFailed,
}

/// What the caller is to do next.
#[derive(Debug)]
pub enum ConnAction {
    /// Read exactly `count` bytes.
    Read { count: usize },
    /// Read the server's private key.
    LoadKey,
    /// Write these packets, in order.
    Write { packets: Vec<Vec<u8>> },
    /// Close the socket; the connection ended this way.
    Close { outcome: Result<(), ConnError> },
}

/// The acknowledgement that answers a login request.
pub open spec fn ack_bytes() -> Seq<u8> {
    seq![0x06u8, 0x01u8, 0x00u8, 0x04u8]
}

/// The machine stops and reports `error`; nothing is written.
pub open spec fn closes_with(next: ConnState, action: ConnAction, error: ConnError) -> bool {
    next is Closed && action == (ConnAction::Close { outcome: Err(error) })
}

/// The step taken when four header bytes have been read: a login header of
/// a sound length asks for the rest of the packet, anything else closes.
pub open spec fn after_header(bytes: Seq<u8>, next: ConnState, action: ConnAction) -> bool {
    let header = Header::spec_from_bytes(bytes);
    if bytes.len() != 4 {
        closes_with(next, action, ConnError::LengthMismatch)
    } else if header.id != LOGIN_REQUEST_ID {
        closes_with(next, action, ConnError::InvalidHeader { id: header.id })
    } else if !header.wf() {
        closes_with(next, action, ConnError::LengthMismatch)
    } else {
        next == (ConnState::AwaitBody { header }) && action == (ConnAction::Read {
            count: (header.length - 4) as usize,
        })
    }
}

/// The first half of handling a login packet: parse it and decode the hex
/// text of its encrypted session key. Gives the ciphertext, for which the
/// key is then needed.
pub open spec fn spec_begin_user_login(packet: Seq<u8>) -> Result<Seq<u8>, ConnError> {
    match spec_parse(packet) {
        Err(e) => Err(ConnError::Decode(e)),
        Ok(request) => match spec_decode_ciphertext(request.encrypted_session_key) {
            Err(e) => Err(ConnError::Crypto(e)),
            Ok(ciphertext) => Ok(ciphertext),
        },
    }
}

/// The step taken when the body has been read: header and body are joined,
/// the id is looked up, and a login packet is parsed. Only a packet whose
/// key text spells a ciphertext asks for the key.
pub open spec fn after_body(header: Header, body: Seq<u8>, next: ConnState, action: ConnAction)
    -> bool {
    if !header.wf() || body.len() != header.length - 4 {
        closes_with(next, action, ConnError::LengthMismatch)
    } else {
        match PacketId::spec_from_u16(header.id) {
            None => closes_with(next, action, ConnError::UnknownPacket { id: header.id }),
            Some(PacketId::LoginRequest) => match spec_begin_user_login(
                header.spec_to_bytes() + body,
            ) {
                Err(e) => closes_with(next, action, e),
                Ok(wanted) => action is LoadKey && (next matches ConnState::AwaitKey { ciphertext }
                    && ciphertext@ == wanted),
            },
        }
    }
}

/// The step taken when the session key is resolved or has failed: a key
/// asks for the acknowledgement to be written, a failure closes.
pub open spec fn after_resolved(
    resolved: Result<Vec<u8>, CryptoError>,
    next: ConnState,
    action: ConnAction,
) -> bool {
    match resolved {
        Err(e) => closes_with(next, action, ConnError::Crypto(e)),
        Ok(_) => next is Responding && (action matches ConnAction::Write { packets }
            && packets@.len() == 1 && packets@[0]@ == ack_bytes()),
    }
}

/// The key material of an event as mathematical values.
pub open spec fn key_view(material: Option<Vec<u8>>) -> Option<Seq<u8>> {
    match material {
        Some(pem) => Some(pem@),
        None => None,
    }
}

/// The transition relation: `next` and `action` are what the machine may
/// answer to `event` in `state`. Every case but one fixes them; where the
/// key arrives, they follow from some outcome that resolving the session key
/// may have.
pub open spec fn step_spec(
    state: ConnState,
    event: ConnEvent,
    next: ConnState,
    action: ConnAction,
) -> bool {
    match (state, event) {
        (ConnState::AwaitHeader, ConnEvent::Read(bytes)) => after_header(bytes@, next, action),
        (ConnState::AwaitHeader, ConnEvent::ReadFailed) => closes_with(
            next,
            action,
            ConnError::ShortRead,
        ),
        (ConnState::AwaitBody { header }, ConnEvent::Read(body)) => after_body(
            header,
            body@,
            next,
            action,
        ),
        (ConnState::AwaitBody { header }, ConnEvent::ReadFailed) => closes_with(
            next,
            action,
            ConnError::ShortRead,
        ),
        (ConnState::AwaitKey { ciphertext }, ConnEvent::Key(material)) => exists|
            resolved: Result<Vec<u8>, CryptoError>,
        |
            resolves(ciphertext@, key_view(material), resolved) && after_resolved(
                resolved,
                next,
                action,
            ),
        (ConnState::Responding, ConnEvent::Written) => next is Closed && action == (
        ConnAction::Close { outcome: Ok(()) }),
        (ConnState::Responding, ConnEvent::WriteFailed) => closes_with(
            next,
            action,
            ConnError::WriteFailed,
        ),
        _ => closes_with(next, action, ConnError::UnexpectedEvent),
    }
}

fn close(error: ConnError) -> (r: (ConnState, ConnAction))
    ensures
        closes_with(r.0, r.1, error),
{
    (ConnState::Closed, ConnAction::Close { outcome: Err(error) })
}

/// Opens the machine: the state to start in and the first thing to do.
pub fn start() -> (r: (ConnState, ConnAction))
    ensures
        r.0 is AwaitHeader,
        r.1 == (ConnAction::Read { count: 4 }),
{
    (ConnState::AwaitHeader, ConnAction::Read { count: 4 })
}

/// Validates the header bytes and asks for the body.
pub fn on_header(bytes: &[u8]) -> (r: (ConnState, ConnAction))
    ensures
        after_header(bytes@, r.0, r.1),
{
    if bytes.len() != 4 {
        return close(ConnError::LengthMismatch);
    }
    let header = match Header::from_bytes(bytes) {
        Ok(h) => h,
        Err(_) => return close(ConnError::LengthMismatch),
    };
    if header.id != LOGIN_REQUEST_ID {
        return close(ConnError::InvalidHeader { id: header.id });
    }
    if header.length < 4 {
        return close(ConnError::LengthMismatch);
    }
    (ConnState::AwaitBody { header }, ConnAction::Read { count: (header.length - 4) as usize })
}

/// Parses a login packet and decodes the hex text of its encrypted session
/// key: all that can be done before the private key is needed.
pub fn begin_user_login(packet: &[u8]) -> (r: Result<Vec<u8>, ConnError>)
    ensures
        match r {
            Ok(ciphertext) => spec_begin_user_login(packet@) == Ok::<Seq<u8>, ConnError>(
                ciphertext@,
            ),
            Err(e) => spec_begin_user_login(packet@) == Err::<Seq<u8>, ConnError>(e),
        },
{
    let request = match LoginRequest::from_bytes(packet) {
        Ok(request) => request,
        Err(e) => return Err(ConnError::Decode(e)),
    };
    match decode_ciphertext(request.get_encrypted_session_key()) {
        Ok(ciphertext) => Ok(ciphertext),
        Err(e) => Err(ConnError::Crypto(e)),
    }
}

/// Joins header and body, looks the packet's id up, and starts handling it.
pub fn on_body(header: Header, body: &[u8]) -> (r: (ConnState, ConnAction))
    ensures
        after_body(header, body@, r.0, r.1),
{
    if header.length < 4 || body.len() != (header.length - 4) as usize {
        return close(ConnError::LengthMismatch);
    }
    let mut packet = header.to_bytes();
    let mut rest = slice_to_vec(body);
    packet.append(&mut rest);
    match PacketId::from_u16(header.id) {
        None => close(ConnError::UnknownPacket { id: header.id }),
        Some(PacketId::LoginRequest) => match begin_user_login(packet.as_slice()) {
            Ok(ciphertext) => (ConnState::AwaitKey { ciphertext }, ConnAction::LoadKey),
            Err(e) => close(e),
        },
    }
}

/// The response packets that answer a login request whose session key was
/// resolved: one acknowledgement.
pub fn login_response() -> (packets: Vec<Vec<u8>>)
    ensures
        packets@.len() == 1,
        packets@[0]@ == ack_bytes(),
{
    let ack: Vec<u8> = vec![0x06u8, 0x01u8, 0x00u8, 0x04u8];
    assert(ack@ =~= ack_bytes());
    let packets: Vec<Vec<u8>> = vec![ack];
    packets
}

/// Whether `r` is the answer owed to a login request whose session key was
/// resolved as `resolved`: the acknowledgement for a key, the stage's error
/// for a failure.
pub open spec fn answers(
    resolved: Result<Vec<u8>, CryptoError>,
    r: Result<Vec<Vec<u8>>, ConnError>,
) -> bool {
    match resolved {
        Ok(_) => r matches Ok(packets) && packets@.len() == 1 && packets@[0]@ == ack_bytes(),
        Err(e) => r matches Err(x) && x == ConnError::Crypto(e),
    }
}

/// The second half of handling a login packet: turns the resolved session
/// key, or the failure to resolve it, into the response packets or the
/// error.
pub fn finish_user_login(resolved: Result<Vec<u8>, CryptoError>) -> (r: Result<
    Vec<Vec<u8>>,
    ConnError,
>)
    ensures
        answers(resolved, r),
{
    match resolved {
        Ok(_) => Ok(login_response()),
        Err(e) => Err(ConnError::Crypto(e)),
    }
}

/// Decides what follows once the session key is resolved or has failed.
pub fn on_resolved(resolved: Result<Vec<u8>, CryptoError>) -> (r: (ConnState, ConnAction))
    ensures
        after_resolved(resolved, r.0, r.1),
{
    match finish_user_login(resolved) {
        Ok(packets) => (ConnState::Responding, ConnAction::Write { packets }),
        Err(e) => close(e),
    }
}

/// Handles a whole login packet for a caller that already holds the key
/// material: parse, decode, decrypt, and build the response packets. A
/// packet that fails before the key is needed gives that error; otherwise
/// the answer follows from some outcome that resolving the key may have.
pub fn handle_user_login(packet: &[u8], key_pem: Option<&[u8]>) -> (r: Result<
    Vec<Vec<u8>>,
    ConnError,
>)
    ensures
        match spec_begin_user_login(packet@) {
            Err(e) => r matches Err(x) && x == e,
            Ok(ciphertext) => exists|resolved: Result<Vec<u8>, CryptoError>|
                resolves(ciphertext, material_view(key_pem), resolved) && answers(resolved, r),
        },
{
    let ciphertext = match begin_user_login(packet) {
        Ok(ciphertext) => ciphertext,
        Err(e) => return Err(e),
    };
    let resolved = decrypt_ciphertext(ciphertext.as_slice(), key_pem);
    finish_user_login(resolved)
}

/// Advances the machine by one event.
pub fn step(state: ConnState, event: ConnEvent) -> (r: (ConnState, ConnAction))
    ensures
        step_spec(state, event, r.0, r.1),
{
    match (state, event) {
        (ConnState::AwaitHeader, ConnEvent::Read(bytes)) => on_header(bytes.as_slice()),
        (ConnState::AwaitHeader, ConnEvent::ReadFailed) => close(ConnError::ShortRead),
        (ConnState::AwaitBody { header }, ConnEvent::Read(body)) => on_body(
            header,
            body.as_slice(),
        ),
        (ConnState::AwaitBody { header: _ }, ConnEvent::ReadFailed) => close(ConnError::ShortRead),
        (ConnState::AwaitKey { ciphertext }, ConnEvent::Key(material)) => {
            let resolved = match &material {
                Some(pem) => decrypt_ciphertext(ciphertext.as_slice(), Some(pem.as_slice())),
                None => decrypt_ciphertext(ciphertext.as_slice(), None),
            };
            on_resolved(resolved)
        },
        (ConnState::Responding, ConnEvent::Written) => (
            ConnState::Closed,
            ConnAction::Close { outcome: Ok(()) },
        ),
        (ConnState::Responding, ConnEvent::WriteFailed) => close(ConnError::WriteFailed),
        _ => close(ConnError::UnexpectedEvent),
    }
}

/// A header whose id is not the login request's closes the connection at
/// once, whatever length it declares: no read, no key lookup and no write
/// follows.
pub proof fn lemma_unknown_id_closes_silently(
    bytes: Seq<u8>,
    next: ConnState,
    action: ConnAction,
)
    requires
        bytes.len() == 4,
        Header::spec_from_bytes(bytes).id != LOGIN_REQUEST_ID,
        after_header(bytes, next, action),
    ensures
        next is Closed,
        action == (ConnAction::Close {
            outcome: Err(ConnError::InvalidHeader { id: Header::spec_from_bytes(bytes).id }),
        }),
        !(action is Write),
{
}

/// Bytes are written only in answer to the key, and the key is asked for
/// only in answer to a body: whatever else happens, the machine reads or
/// closes.
pub proof fn lemma_write_only_after_key(
    state: ConnState,
    event: ConnEvent,
    next: ConnState,
    action: ConnAction,
)
    requires
        step_spec(state, event, next, action),
    ensures
        action is Write ==> state is AwaitKey && event is Key && next is Responding,
        action is LoadKey ==> state is AwaitBody && event is Read && next is AwaitKey,
        next is Closed <==> action is Close,
{
}

/// A body whose key text does not spell exactly 128 bytes never asks for
/// the key: the connection closes with the error of the stage that refused
/// it.
pub proof fn lemma_malformed_key_text_never_asks_for_key(
    header: Header,
    body: Seq<u8>,
    next: ConnState,
    action: ConnAction,
)
    requires
        after_body(header, body, next, action),
        spec_parse(header.spec_to_bytes() + body) matches Ok(request) && spec_decode_ciphertext(
            request.encrypted_session_key,
        ) is Err,
    ensures
        !(action is LoadKey),
        next is Closed,
        action is Close,
{
}

} // verus!
