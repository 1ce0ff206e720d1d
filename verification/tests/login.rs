use rusty_motors::login_request::{DecodeError, LoginField, LoginRequest};
use rusty_motors::wire::{DecodeFault, VersionedHeader};

fn prefixed(text: &[u8]) -> Vec<u8> {
    let mut out = vec![(text.len() / 256) as u8, (text.len() % 256) as u8];
    out.extend_from_slice(text);
    out
}

fn packet(declared: Option<u16>, context: &[u8], container_id: u16, key: &[u8], game: &[u8]) -> Vec<u8> {
    let mut body = prefixed(context);
    body.extend_from_slice(&container_id.to_be_bytes());
    body.extend_from_slice(&prefixed(key));
    body.extend_from_slice(&prefixed(game));
    let total = declared.unwrap_or((12 + body.len()) as u16);
    let mut out = vec![0x05, 0x01];
    out.extend_from_slice(&total.to_be_bytes());
    out.extend_from_slice(&[0x01, 0x01, 0x00, 0x00, 0x00, 0x00, 0x00, 0x2a]);
    out.extend_from_slice(&body);
    out
}

fn err(field: LoginField, fault: DecodeFault) -> DecodeError {
    DecodeError { field, fault }
}

#[test]
fn parses_fields_in_order() {
    let bytes = packet(None, b"abc", 0, b"00ff", b"game-7");
    let r = LoginRequest::from_bytes(&bytes).unwrap();
    assert_eq!(
        r.header,
        VersionedHeader {
            id: 0x0501,
            length: bytes.len() as u16,
            version: 0x0101,
            reserved: 0,
            checksum: 42,
        }
    );
    assert_eq!(r.context_id.string, "abc");
    assert_eq!(r.encrypted_session_key.string, "00ff");
    assert_eq!(r.game_id.string, "game-7");
    assert_eq!(r.get_encrypted_session_key(), "00ff");
}

#[test]
fn container_id_is_skipped_whatever_it_is() {
    let bytes = packet(None, b"abc", 0xbeef, b"k", b"g");
    let r = LoginRequest::from_bytes(&bytes).unwrap();
    assert_eq!(r.get_encrypted_session_key(), "k");
    assert_eq!(r.game_id.string, "g");
}

#[test]
fn empty_fields_parse() {
    let bytes = packet(None, b"", 0, b"", b"");
    assert_eq!(bytes.len(), 20);
    let r = LoginRequest::from_bytes(&bytes).unwrap();
    assert_eq!(r.context_id.string, "");
    assert_eq!(r.get_encrypted_session_key(), "");
    assert_eq!(r.game_id.string, "");
}

#[test]
fn bytes_behind_the_game_id_are_ignored_within_the_declared_length() {
    let mut bytes = packet(Some(40), b"abc", 0, b"k", b"g");
    bytes.extend_from_slice(&[0xff; 8]);
    assert!(LoginRequest::from_bytes(&bytes).is_ok());
}

#[test]
fn short_header_names_the_header() {
    let r = LoginRequest::from_bytes(&[0x05, 0x01, 0x00, 0x0c]);
    assert_eq!(r.unwrap_err(), err(LoginField::Header, DecodeFault::Truncated));
}

#[test]
fn each_truncation_names_the_field_that_is_cut() {
    let bytes = packet(None, b"abc", 0, b"0011", b"game");
    // header 0..12, context 12..17, container id 17..19, key 19..25, game 25..31
    assert_eq!(bytes.len(), 31);
    for cut in 0..bytes.len() {
        let e = LoginRequest::from_bytes(&bytes[..cut]).unwrap_err();
        let field = if cut < 12 {
            LoginField::Header
        } else if cut < 17 {
            LoginField::ContextId
        } else if cut < 19 {
            LoginField::Container
        } else if cut < 25 {
            LoginField::SessionKey
        } else {
            LoginField::GameId
        };
        assert_eq!(e, err(field, DecodeFault::Truncated));
    }
}

#[test]
fn invalid_utf8_names_its_field() {
    let e = LoginRequest::from_bytes(&packet(None, &[0xff], 0, b"k", b"g")).unwrap_err();
    assert_eq!(e, err(LoginField::ContextId, DecodeFault::InvalidUtf8));
    let e = LoginRequest::from_bytes(&packet(None, b"abc", 0, &[0xc0, 0x80], b"g")).unwrap_err();
    assert_eq!(e, err(LoginField::SessionKey, DecodeFault::InvalidUtf8));
    let e = LoginRequest::from_bytes(&packet(None, b"abc", 0, b"k", &[0xed, 0xa0, 0x80])).unwrap_err();
    assert_eq!(e, err(LoginField::GameId, DecodeFault::InvalidUtf8));
}

#[test]
fn first_failing_field_wins() {
    let e = LoginRequest::from_bytes(&packet(None, &[0xff], 0, &[0xff], &[0xff])).unwrap_err();
    assert_eq!(e.field, LoginField::ContextId);
}

#[test]
fn fields_past_the_declared_length_are_refused() {
    let bytes = packet(Some(30), b"abc", 0, b"0011", b"game");
    let e = LoginRequest::from_bytes(&bytes).unwrap_err();
    assert_eq!(e, err(LoginField::Header, DecodeFault::LengthExceeded));
    let bytes = packet(Some(31), b"abc", 0, b"0011", b"game");
    assert!(LoginRequest::from_bytes(&bytes).is_ok());
}

#[test]
fn field_names() {
    assert_eq!(LoginField::Header.name(), "header");
    assert_eq!(LoginField::ContextId.name(), "context_id");
    assert_eq!(LoginField::Container.name(), "message_container");
    assert_eq!(LoginField::SessionKey.name(), "encrypted_session_key");
    assert_eq!(LoginField::GameId.name(), "game_id");
}
