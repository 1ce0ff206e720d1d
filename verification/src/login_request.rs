//! The login request: a versioned header, a context id, and, behind a
//! message-container boundary, the encrypted session key and the game id.
use crate::wire::{
    lemma_field_ignores_what_follows, lemma_truncated_field_is_rejected, spec_prefixed_text,
    u16_at, DecodeFault, MessageContainer, PrefixedString, VersionedHeader,
};
use vstd::prelude::*;
use vstd::slice::*;

verus! {

/// The part of a login request that a decode error is reported against.
#[derive(Clone, Copy, Debug, PartialEq, Eq, Structural)]
pub enum LoginField {
    Header,
    ContextId,
    Container,
    SessionKey,
    GameId,
}

impl LoginField {
    /// The field's name, for messages.
    pub fn name(&self) -> (s: &'static str)
        ensures
            s@ == match *self {
                LoginField::Header => "header"@,
                LoginField::ContextId => "context_id"@,
                LoginField::Container => "message_container"@,
                LoginField::SessionKey => "encrypted_session_key"@,
                LoginField::GameId => "game_id"@,
            },
    {
        match self {
            LoginField::Header => "header",
            LoginField::ContextId => "context_id",
            LoginField::Container => "message_container",
            LoginField::SessionKey => "encrypted_session_key",
            LoginField::GameId => "game_id",
        }
    }
}

/// A failed parse: the first field that did not decode, and why.
#[derive(Clone, Copy, Debug, PartialEq, Eq, Structural)]
pub struct DecodeError {
    pub field: LoginField,
    pub fault: DecodeFault,
}

/// A decoded login request.
#[derive(Debug)]
pub struct LoginRequest {
    pub header: VersionedHeader,
    pub context_id: PrefixedString,
    pub encrypted_session_key: PrefixedString,
    pub game_id: PrefixedString,
}

/// What a login request holds, as mathematical values.
pub struct LoginRequestView {
    pub header: VersionedHeader,
    pub context_id: Seq<char>,
    pub encrypted_session_key: Seq<char>,
    pub game_id: Seq<char>,
}

impl View for LoginRequest {
    type V = LoginRequestView;

    open spec fn view(&self) -> LoginRequestView {
        LoginRequestView {
            header: self.header,
            context_id: self.context_id.string@,
            encrypted_session_key: self.encrypted_session_key.string@,
            game_id: self.game_id.string@,
        }
    }
}

/// The bytes of `bytes` from index `from` on; nothing when `from` is past
/// the end.
pub open spec fn tail(bytes: Seq<u8>, from: int) -> Seq<u8> {
    if 0 <= from <= bytes.len() {
        bytes.subrange(from, bytes.len() as int)
    } else {
        Seq::empty()
    }
}

/// Wire size of the prefixed field at the front of `bytes`.
pub open spec fn field_size(bytes: Seq<u8>) -> int {
    2 + u16_at(bytes, 0)
}

/// The bytes behind the context id: the message container.
pub open spec fn container_bytes(bytes: Seq<u8>) -> Seq<u8> {
    tail(bytes, 12 + field_size(tail(bytes, 12)))
}

/// The container's payload, in which offsets start again at zero.
pub open spec fn inner_bytes(bytes: Seq<u8>) -> Seq<u8> {
    tail(container_bytes(bytes), 2)
}

/// The bytes behind the encrypted session key inside the container.
pub open spec fn game_id_bytes(bytes: Seq<u8>) -> Seq<u8> {
    tail(inner_bytes(bytes), field_size(inner_bytes(bytes)))
}

/// Bytes that the fields of a login packet take, counted from its start.
pub open spec fn consumed(bytes: Seq<u8>) -> int {
    12 + field_size(tail(bytes, 12)) + 2 + field_size(inner_bytes(bytes)) + field_size(
        game_id_bytes(bytes),
    )
}

/// The result of parsing `bytes` as a login packet. Fields are read strictly
/// left to right; the first one that fails names the error. The fields may
/// not run past the length that the header declares.
pub open spec fn spec_parse(bytes: Seq<u8>) -> Result<LoginRequestView, DecodeError> {
    if bytes.len() < 12 {
        Err(DecodeError { field: LoginField::Header, fault: DecodeFault::Truncated })
    } else {
        match spec_prefixed_text(tail(bytes, 12), 0) {
            Err(fault) => Err(DecodeError { field: LoginField::ContextId, fault }),
            Ok(context_id) => if container_bytes(bytes).len() < 2 {
                Err(DecodeError { field: LoginField::Container, fault: DecodeFault::Truncated })
            } else {
                match spec_prefixed_text(inner_bytes(bytes), 0) {
                    Err(fault) => Err(DecodeError { field: LoginField::SessionKey, fault }),
                    Ok(encrypted_session_key) => match spec_prefixed_text(
                        game_id_bytes(bytes),
                        0,
                    ) {
                        Err(fault) => Err(DecodeError { field: LoginField::GameId, fault }),
                        Ok(game_id) => if consumed(bytes) > VersionedHeader::spec_from_bytes(
                            bytes,
                        ).length {
                            Err(
                                DecodeError {
                                    field: LoginField::Header,
                                    fault: DecodeFault::LengthExceeded,
                                },
                            )
                        } else {
                            Ok(
                                LoginRequestView {
                                    header: VersionedHeader::spec_from_bytes(bytes),
                                    context_id,
                                    encrypted_session_key,
                                    game_id,
                                },
                            )
                        },
                    },
                }
            },
        }
    }
}

fn fail<T>(field: LoginField, fault: DecodeFault) -> (r: Result<T, DecodeError>)
    ensures
        r matches Err(e) && e == (DecodeError { field, fault }),
{
    Err(DecodeError { field, fault })
}

impl LoginRequest {
    /// Parses a whole login packet, header included.
    pub fn from_bytes(bytes: &[u8]) -> (r: Result<LoginRequest, DecodeError>)
        ensures
            match r {
                Ok(request) => spec_parse(bytes@) == Ok::<LoginRequestView, DecodeError>(request@)
                    && request.context_id.wf() && request.encrypted_session_key.wf()
                    && request.game_id.wf(),
                Err(e) => spec_parse(bytes@) == Err::<LoginRequestView, DecodeError>(e),
            },
    {
        let header = match VersionedHeader::from_bytes(bytes) {
            Ok(h) => h,
            Err(fault) => return fail(LoginField::Header, fault),
        };
        let after_header = slice_subrange(bytes, 12, bytes.len());
        let context_id = match PrefixedString::from_bytes(after_header) {
            Ok(p) => p,
            Err(fault) => return fail(LoginField::ContextId, fault),
        };
        let context_size: usize = context_id.size();
        let after_context = slice_subrange(after_header, context_size, after_header.len());
        assert(after_context@ =~= container_bytes(bytes@));
        let container = match MessageContainer::from_bytes(after_context) {
            Ok(c) => c,
            Err(fault) => return fail(LoginField::Container, fault),
        };
        let inner = container.data();
        assert(inner@ =~= inner_bytes(bytes@));
        let encrypted_session_key = match PrefixedString::from_bytes(inner) {
            Ok(p) => p,
            Err(fault) => return fail(LoginField::SessionKey, fault),
        };
        let key_size: usize = encrypted_session_key.size();
        let after_key = slice_subrange(inner, key_size, inner.len());
        assert(after_key@ =~= game_id_bytes(bytes@));
        let game_id = match PrefixedString::from_bytes(after_key) {
            Ok(p) => p,
            Err(fault) => return fail(LoginField::GameId, fault),
        };
        let game_size: usize = game_id.size();
        if 12 + context_size + 2 + key_size + game_size > header.length as usize {
            return fail(LoginField::Header, DecodeFault::LengthExceeded);
        }
        Ok(LoginRequest { header, context_id, encrypted_session_key, game_id })
    }

    /// The encrypted session key as received: hex digits, still encrypted.
    pub fn get_encrypted_session_key(&self) -> (key: &str)
        ensures
            key@ == self@.encrypted_session_key,
    {
        self.encrypted_session_key.string.as_str()
    }
}

/// A packet that parses never holds more field bytes than its header
/// declares, nor more than the buffer.
pub proof fn lemma_parsed_fields_stay_in_bounds(bytes: Seq<u8>)
    requires
        spec_parse(bytes) is Ok,
    ensures
        consumed(bytes) <= VersionedHeader::spec_from_bytes(bytes).length,
        consumed(bytes) <= bytes.len(),
{
}

/// A packet that parses stops parsing as soon as it is cut short: every
/// prefix that ends before the last field does is refused as truncated, at
/// the field in which the cut falls.
pub proof fn lemma_truncated_packet_is_rejected(bytes: Seq<u8>, cut: int)
    requires
        spec_parse(bytes) is Ok,
        0 <= cut < consumed(bytes),
    ensures
        spec_parse(bytes.subrange(0, cut)) matches Err(e) && e.fault == DecodeFault::Truncated,
{
    let short = bytes.subrange(0, cut);
    if cut >= 12 {
        let context = tail(bytes, 12);
        assert(tail(short, 12) =~= context.subrange(0, cut - 12));
        if cut - 12 < field_size(context) {
            lemma_truncated_field_is_rejected(context, 0, cut - 12);
        } else {
            lemma_field_ignores_what_follows(context, 0, cut - 12);
            let container = container_bytes(bytes);
            let left = cut - 12 - field_size(context);
            assert(container_bytes(short) =~= container.subrange(0, left));
            if left >= 2 {
                let inner = inner_bytes(bytes);
                assert(inner_bytes(short) =~= inner.subrange(0, left - 2));
                if left - 2 < field_size(inner) {
                    lemma_truncated_field_is_rejected(inner, 0, left - 2);
                } else {
                    lemma_field_ignores_what_follows(inner, 0, left - 2);
                    let game = game_id_bytes(bytes);
                    assert(game_id_bytes(short) =~= game.subrange(
                        0,
                        left - 2 - field_size(inner),
                    ));
                    lemma_truncated_field_is_rejected(game, 0, left - 2 - field_size(inner));
                }
            }
        }
    }
}

} // verus!
