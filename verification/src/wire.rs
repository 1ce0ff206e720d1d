//! Wire codec: big-endian integers, the fixed packet headers, length-prefixed
//! fields and strings, and the message container.
//!
//! Every decoder checks the declared length against the buffer it was given
//! before it reads, and reports a [`DecodeFault`] instead of reading past the
//! end.
use vstd::prelude::*;
use vstd::slice::*;
use vstd::string::*;
use vstd::utf8::*;

verus! {

/// Why a decoder gave up on its input.
#[derive(Clone, Copy, Debug, PartialEq, Eq, Structural)]
pub enum DecodeFault {
    /// The buffer ends before the bytes that the layout or a length prefix
    /// announces.
    Truncated,
    /// The bytes of a text field are not valid UTF-8.
    InvalidUtf8,
    /// The fields run past the total length that the packet's header declares.
    LengthExceeded,
}

/// The error that `String::from_utf8` returns; carried, never inspected.
#[verifier::external_type_specification]
#[verifier::external_body]
pub struct ExFromUtf8Error(std::string::FromUtf8Error);

/// `String::from_utf8` succeeds exactly on valid UTF-8, and the string it
/// returns is the text that those bytes encode.
pub assume_specification[ String::from_utf8 ](vec: Vec<u8>) -> (r: Result<
    String,
    std::string::FromUtf8Error,
>)
    ensures
        r.is_ok() == valid_utf8(vec@),
        r matches Ok(s) ==> s@ == decode_utf8(vec@),
;

/// The 16-bit value that two bytes spell in big-endian order.
pub open spec fn be16(hi: u8, lo: u8) -> u16 {
    (hi as int * 256 + lo as int) as u16
}

/// The 32-bit value that four bytes spell in big-endian order.
pub open spec fn be32(b0: u8, b1: u8, b2: u8, b3: u8) -> u32 {
    (b0 as int * 16777216 + b1 as int * 65536 + b2 as int * 256 + b3 as int) as u32
}

/// The big-endian `u16` that starts at index `at` of `bytes`.
pub open spec fn u16_at(bytes: Seq<u8>, at: int) -> u16 {
    be16(bytes[at], bytes[at + 1])
}

/// The big-endian `u32` that starts at index `at` of `bytes`.
pub open spec fn u32_at(bytes: Seq<u8>, at: int) -> u32 {
    be32(bytes[at], bytes[at + 1], bytes[at + 2], bytes[at + 3])
}

/// The two bytes of `v`, most significant first.
pub open spec fn u16_be_bytes(v: u16) -> Seq<u8> {
    seq![(v / 256) as u8, (v % 256) as u8]
}

fn read_u16(bytes: &[u8], at: usize) -> (v: u16)
    requires
        at + 2 <= bytes@.len(),
    ensures
        v == u16_at(bytes@, at as int),
{
    let hi: u8 = bytes[at];
    let lo: u8 = bytes[at + 1];
    (hi as u16) * 256 + (lo as u16)
}

fn read_u32(bytes: &[u8], at: usize) -> (v: u32)
    requires
        at + 4 <= bytes@.len(),
    ensures
        v == u32_at(bytes@, at as int),
{
    let b0: u8 = bytes[at];
    let b1: u8 = bytes[at + 1];
    let b2: u8 = bytes[at + 2];
    let b3: u8 = bytes[at + 3];
    (b0 as u32) * 16777216 + (b1 as u32) * 65536 + (b2 as u32) * 256 + (b3 as u32)
}

fn push_u16(out: &mut Vec<u8>, v: u16)
    ensures
        final(out)@ == old(out)@ + u16_be_bytes(v),
{
    out.push((v / 256) as u8);
    out.push((v % 256) as u8);
    assert(out@ =~= old(out)@ + u16_be_bytes(v));
}

/// The fixed four-byte framing prefix: packet id and total packet length,
/// the header's own four bytes included.
#[derive(Clone, Copy, Debug, PartialEq, Eq, Structural)]
pub struct Header {
    pub id: u16,
    pub length: u16,
}

impl Header {
    /// The wire form: id, then length, each big-endian.
    pub open spec fn spec_to_bytes(self) -> Seq<u8> {
        u16_be_bytes(self.id) + u16_be_bytes(self.length)
    }

    /// The header that the first four bytes of `bytes` spell.
    pub open spec fn spec_from_bytes(bytes: Seq<u8>) -> Header {
        Header { id: u16_at(bytes, 0), length: u16_at(bytes, 2) }
    }

    /// A header is well formed when its declared length covers the header.
    pub open spec fn wf(self) -> bool {
        self.length >= 4
    }

    /// Encodes the header into its four wire bytes.
    pub fn to_bytes(&self) -> (bytes: Vec<u8>)
        ensures
            bytes@ == self.spec_to_bytes(),
            bytes@.len() == 4,
    {
        let mut bytes: Vec<u8> = Vec::new();
        push_u16(&mut bytes, self.id);
        push_u16(&mut bytes, self.length);
        assert(bytes@ =~= self.spec_to_bytes());
        bytes
    }

    /// Decodes a header from the first four bytes of `bytes`; fewer than four
    /// bytes are a truncated input.
    pub fn from_bytes(bytes: &[u8]) -> (r: Result<Header, DecodeFault>)
        ensures
            bytes@.len() >= 4 ==> r == Ok::<Header, DecodeFault>(Header::spec_from_bytes(bytes@)),
            bytes@.len() < 4 ==> r == Err::<Header, DecodeFault>(DecodeFault::Truncated),
    {
        if bytes.len() < 4 {
            return Err(DecodeFault::Truncated);
        }
        Ok(Header { id: read_u16(bytes, 0), length: read_u16(bytes, 2) })
    }
}

/// Decoding the encoding of any header gives that header back.
pub proof fn lemma_header_round_trip(h: Header)
    ensures
        h.spec_to_bytes().len() == 4,
        Header::spec_from_bytes(h.spec_to_bytes()) == h,
{
}

/// The twelve-byte framing prefix of the login packet family. `reserved` and
/// `checksum` are carried as read; nothing validates them.
#[derive(Clone, Copy, Debug, PartialEq, Eq, Structural)]
pub struct VersionedHeader {
    pub id: u16,
    pub length: u16,
    pub version: u16,
    pub reserved: u16,
    pub checksum: u32,
}

impl VersionedHeader {
    /// The header that the first twelve bytes of `bytes` spell.
    pub open spec fn spec_from_bytes(bytes: Seq<u8>) -> VersionedHeader {
        VersionedHeader {
            id: u16_at(bytes, 0),
            length: u16_at(bytes, 2),
            version: u16_at(bytes, 4),
            reserved: u16_at(bytes, 6),
            checksum: u32_at(bytes, 8),
        }
    }

    /// Decodes a versioned header from the first twelve bytes of `bytes`;
    /// fewer than twelve bytes are a truncated input.
    pub fn from_bytes(bytes: &[u8]) -> (r: Result<VersionedHeader, DecodeFault>)
        ensures
            bytes@.len() >= 12 ==> r == Ok::<VersionedHeader, DecodeFault>(
                VersionedHeader::spec_from_bytes(bytes@),
            ),
            bytes@.len() < 12 ==> r == Err::<VersionedHeader, DecodeFault>(DecodeFault::Truncated),
    {
        if bytes.len() < 12 {
            return Err(DecodeFault::Truncated);
        }
        Ok(
            VersionedHeader {
                id: read_u16(bytes, 0),
                length: read_u16(bytes, 2),
                version: read_u16(bytes, 4),
                reserved: read_u16(bytes, 6),
                checksum: read_u32(bytes, 8),
            },
        )
    }
}

/// Whether `bytes` holds a two-byte length prefix followed by at least as
/// many bytes as the prefix declares, plus `extra` reserved bytes.
pub open spec fn field_fits(bytes: Seq<u8>, extra: int) -> bool {
    bytes.len() >= 2 && 2 + u16_at(bytes, 0) + extra <= bytes.len()
}

/// The bytes that the length prefix of `bytes` announces.
pub open spec fn field_data(bytes: Seq<u8>) -> Seq<u8> {
    bytes.subrange(2, 2 + u16_at(bytes, 0) as int)
}

/// What decoding a length-prefixed text field from `bytes` yields, when the
/// layout reserves `extra` bytes behind the text.
pub open spec fn spec_prefixed_text(bytes: Seq<u8>, extra: int) -> Result<Seq<char>, DecodeFault> {
    if !field_fits(bytes, extra) {
        Err(DecodeFault::Truncated)
    } else if !valid_utf8(field_data(bytes)) {
        Err(DecodeFault::InvalidUtf8)
    } else {
        Ok(decode_utf8(field_data(bytes)))
    }
}

/// The wire form of a length-prefixed text field, without reserved bytes.
pub open spec fn spec_prefixed_text_bytes(text: Seq<char>) -> Seq<u8> {
    u16_be_bytes(encode_utf8(text).len() as u16) + encode_utf8(text)
}

fn read_field<'a>(bytes: &'a [u8], extra: usize) -> (r: Option<&'a [u8]>)
    requires
        extra <= 1,
    ensures
        field_fits(bytes@, extra as int) ==> (r matches Some(d) && d@ == field_data(bytes@)),
        !field_fits(bytes@, extra as int) ==> r is None,
{
    if bytes.len() < 2 {
        return None;
    }
    let length: usize = read_u16(bytes, 0) as usize;
    if bytes.len() - 2 < length || bytes.len() - 2 - length < extra {
        return None;
    }
    Some(slice_subrange(bytes, 2, 2 + length))
}

fn read_text(data: &[u8]) -> (r: Result<String, DecodeFault>)
    ensures
        valid_utf8(data@) ==> (r matches Ok(s) && s@ == decode_utf8(data@) && encode_utf8(s@)
            == data@),
        !valid_utf8(data@) ==> r == Err::<String, DecodeFault>(DecodeFault::InvalidUtf8),
{
    match String::from_utf8(slice_to_vec(data)) {
        Ok(s) => {
            proof {
                decode_utf8_encode_utf8(data@);
            }
            Ok(s)
        },
        Err(_) => Err(DecodeFault::InvalidUtf8),
    }
}

/// A length-prefixed binary blob: a 16-bit big-endian length, then that many
/// bytes.
#[derive(Debug)]
pub struct PrefixedField {
    pub length: u16,
    pub data: Vec<u8>,
}

impl PrefixedField {
    /// The declared length is the number of bytes held.
    pub open spec fn wf(&self) -> bool {
        self.length == self.data@.len()
    }

    /// The wire form: the length prefix, then the data.
    pub open spec fn spec_to_bytes(&self) -> Seq<u8> {
        u16_be_bytes(self.length) + self.data@
    }

    /// Decodes a field from the front of `bytes`. The input is truncated when
    /// it has no room for the prefix or for the bytes the prefix declares.
    pub fn from_bytes(bytes: &[u8]) -> (r: Result<PrefixedField, DecodeFault>)
        ensures
            field_fits(bytes@, 0) ==> (r matches Ok(f) && f.wf() && f.length == u16_at(bytes@, 0)
                && f.data@ == field_data(bytes@)),
            !field_fits(bytes@, 0) ==> (r matches Err(e) && e == DecodeFault::Truncated),
    {
        match read_field(bytes, 0) {
            Some(d) => Ok(PrefixedField { length: read_u16(bytes, 0), data: slice_to_vec(d) }),
            None => Err(DecodeFault::Truncated),
        }
    }

    /// Encodes the field: prefix, then data.
    pub fn to_bytes(&self) -> (bytes: Vec<u8>)
        ensures
            bytes@ == self.spec_to_bytes(),
    {
        let mut bytes: Vec<u8> = Vec::new();
        push_u16(&mut bytes, self.length);
        let mut data = slice_to_vec(self.data.as_slice());
        bytes.append(&mut data);
        assert(bytes@ =~= self.spec_to_bytes());
        bytes
    }

    /// Bytes the field takes on the wire: the declared length and the prefix.
    pub fn size(&self) -> (n: usize)
        ensures
            n == self.length + 2,
    {
        self.length as usize + 2
    }
}

/// Decoding the encoding of a well-formed field gives the same length and
/// data back, and consumes exactly `size()` bytes.
pub proof fn lemma_prefixed_field_round_trip(f: PrefixedField)
    requires
        f.wf(),
    ensures
        field_fits(f.spec_to_bytes(), 0),
        u16_at(f.spec_to_bytes(), 0) == f.length,
        field_data(f.spec_to_bytes()) == f.data@,
        f.spec_to_bytes().len() == f.length + 2,
{
    assert(field_data(f.spec_to_bytes()) =~= f.data@);
}

/// A length-prefixed UTF-8 string.
#[derive(Debug)]
pub struct PrefixedString {
    pub string: String,
}

impl PrefixedString {
    /// The text's UTF-8 form fits a 16-bit length prefix.
    pub open spec fn wf(&self) -> bool {
        encode_utf8(self.string@).len() <= 65535
    }

    /// Decodes a string from the front of `bytes`: truncated when the prefix
    /// or the declared bytes are missing, else invalid when those bytes are
    /// not UTF-8, else the text they encode.
    pub fn from_bytes(bytes: &[u8]) -> (r: Result<PrefixedString, DecodeFault>)
        ensures
            match r {
                Ok(p) => spec_prefixed_text(bytes@, 0) == Ok::<Seq<char>, DecodeFault>(p.string@)
                    && p.wf() && encode_utf8(p.string@) == field_data(bytes@),
                Err(e) => spec_prefixed_text(bytes@, 0) == Err::<Seq<char>, DecodeFault>(e),
            },
    {
        match read_field(bytes, 0) {
            Some(d) => match read_text(d) {
                Ok(string) => Ok(PrefixedString { string }),
                Err(e) => Err(e),
            },
            None => Err(DecodeFault::Truncated),
        }
    }

    /// Encodes the string: the byte length of its UTF-8 form, then that form.
    pub fn to_bytes(&self) -> (bytes: Vec<u8>)
        requires
            self.wf(),
        ensures
            bytes@ == spec_prefixed_text_bytes(self.string@),
    {
        let text = self.string.as_str().as_bytes();
        let mut bytes: Vec<u8> = Vec::new();
        push_u16(&mut bytes, text.len() as u16);
        let mut data = slice_to_vec(text);
        bytes.append(&mut data);
        assert(bytes@ =~= spec_prefixed_text_bytes(self.string@));
        bytes
    }

    /// Bytes the string takes on the wire: its UTF-8 length and the prefix.
    pub fn size(&self) -> (n: usize)
        requires
            self.wf(),
        ensures
            n == encode_utf8(self.string@).len() + 2,
    {
        self.string.as_str().len() + 2
    }
}

/// A length-prefixed UTF-8 string whose wire form reserves one trailing byte
/// for a null terminator. The terminator is not part of the text, and its
/// value is not examined.
#[derive(Debug)]
pub struct PrefixedStringWithNull {
    pub string: String,
}

impl PrefixedStringWithNull {
    /// The text's UTF-8 form fits a 16-bit length prefix.
    pub open spec fn wf(&self) -> bool {
        encode_utf8(self.string@).len() <= 65535
    }

    /// The wire form: prefix, text, and a null byte.
    pub open spec fn spec_to_bytes(&self) -> Seq<u8> {
        spec_prefixed_text_bytes(self.string@) + seq![0u8]
    }

    /// Decodes a string from the front of `bytes`, which must also hold the
    /// reserved byte behind the text.
    pub fn from_bytes(bytes: &[u8]) -> (r: Result<PrefixedStringWithNull, DecodeFault>)
        ensures
            match r {
                Ok(p) => spec_prefixed_text(bytes@, 1) == Ok::<Seq<char>, DecodeFault>(p.string@)
                    && p.wf() && encode_utf8(p.string@) == field_data(bytes@),
                Err(e) => spec_prefixed_text(bytes@, 1) == Err::<Seq<char>, DecodeFault>(e),
            },
    {
        match read_field(bytes, 1) {
            Some(d) => match read_text(d) {
                Ok(string) => Ok(PrefixedStringWithNull { string }),
                Err(e) => Err(e),
            },
            None => Err(DecodeFault::Truncated),
        }
    }

    /// Encodes the string: prefix, UTF-8 form, null terminator.
    pub fn to_bytes(&self) -> (bytes: Vec<u8>)
        requires
            self.wf(),
        ensures
            bytes@ == self.spec_to_bytes(),
    {
        let text = self.string.as_str().as_bytes();
        let mut bytes: Vec<u8> = Vec::new();
        push_u16(&mut bytes, text.len() as u16);
        let mut data = slice_to_vec(text);
        bytes.append(&mut data);
        bytes.push(0u8);
        assert(bytes@ =~= self.spec_to_bytes());
        bytes
    }

    /// Bytes the string takes on the wire: its UTF-8 length, the prefix and
    /// the terminator.
    pub fn size(&self) -> (n: usize)
        requires
            self.wf(),
        ensures
            n == encode_utf8(self.string@).len() + 3,
    {
        self.string.as_str().len() + 2 + 1
    }
}

/// Any text whose UTF-8 form is at most 65535 bytes long survives encoding
/// and decoding as a prefixed string, and the encoding is two bytes longer
/// than the text's UTF-8 form.
pub proof fn lemma_prefixed_string_round_trip(text: Seq<char>)
    requires
        encode_utf8(text).len() <= 65535,
    ensures
        spec_prefixed_text(spec_prefixed_text_bytes(text), 0) == Ok::<Seq<char>, DecodeFault>(text),
        spec_prefixed_text_bytes(text).len() == encode_utf8(text).len() + 2,
{
    let wire = spec_prefixed_text_bytes(text);
    assert(field_data(wire) =~= encode_utf8(text));
    encode_utf8_valid_utf8(text);
    encode_utf8_decode_utf8(text);
}

/// The same holds of the null-terminated form, which is three bytes longer
/// than the text's UTF-8 form.
pub proof fn lemma_prefixed_string_with_null_round_trip(text: Seq<char>)
    requires
        encode_utf8(text).len() <= 65535,
    ensures
        spec_prefixed_text(spec_prefixed_text_bytes(text) + seq![0u8], 1) == Ok::<
            Seq<char>,
            DecodeFault,
        >(text),
        (spec_prefixed_text_bytes(text) + seq![0u8]).len() == encode_utf8(text).len() + 3,
{
    let wire = spec_prefixed_text_bytes(text) + seq![0u8];
    assert(wire[0] == u16_be_bytes(encode_utf8(text).len() as u16)[0]);
    assert(wire[1] == u16_be_bytes(encode_utf8(text).len() as u16)[1]);
    assert(field_data(wire) =~= encode_utf8(text));
    encode_utf8_valid_utf8(text);
    encode_utf8_decode_utf8(text);
}

/// A field that declares more bytes than the buffer holds behind the prefix
/// never decodes, whatever the buffer contains.
pub proof fn lemma_overlong_declaration_is_rejected(bytes: Seq<u8>, extra: int)
    requires
        extra >= 0,
        bytes.len() < 2 || u16_at(bytes, 0) > bytes.len() - 2,
    ensures
        !field_fits(bytes, extra),
        spec_prefixed_text(bytes, extra) == Err::<Seq<char>, DecodeFault>(DecodeFault::Truncated),
{
}

/// A field that decodes stops decoding as soon as its input is cut short:
/// every proper prefix of its wire form is reported as truncated.
pub proof fn lemma_truncated_field_is_rejected(bytes: Seq<u8>, extra: int, cut: int)
    requires
        extra >= 0,
        field_fits(bytes, extra),
        0 <= cut < 2 + u16_at(bytes, 0) + extra,
    ensures
        !field_fits(bytes.subrange(0, cut), extra),
        spec_prefixed_text(bytes.subrange(0, cut), extra) == Err::<Seq<char>, DecodeFault>(
            DecodeFault::Truncated,
        ),
{
}

/// Bytes behind a field do not matter to it: a cut behind the field's end
/// leaves its length, its data and what it decodes to as they were.
pub proof fn lemma_field_ignores_what_follows(bytes: Seq<u8>, extra: int, cut: int)
    requires
        extra >= 0,
        field_fits(bytes, extra),
        2 + u16_at(bytes, 0) + extra <= cut <= bytes.len(),
    ensures
        field_fits(bytes.subrange(0, cut), extra),
        u16_at(bytes.subrange(0, cut), 0) == u16_at(bytes, 0),
        field_data(bytes.subrange(0, cut)) == field_data(bytes),
        spec_prefixed_text(bytes.subrange(0, cut), extra) == spec_prefixed_text(bytes, extra),
{
    assert(field_data(bytes.subrange(0, cut)) =~= field_data(bytes));
}

/// A UTF-8 string of a length given beside it, with no prefix.
#[derive(Debug)]
pub struct PlainString {
    pub string: String,
}

impl PlainString {
    /// Decodes the first `length` bytes of `bytes` as UTF-8 text.
    pub fn from_bytes(bytes: &[u8], length: usize) -> (r: Result<PlainString, DecodeFault>)
        ensures
            length > bytes@.len() ==> (r matches Err(e) && e == DecodeFault::Truncated),
            length <= bytes@.len() && !valid_utf8(bytes@.subrange(0, length as int)) ==> (r matches Err(
                e,
            ) && e == DecodeFault::InvalidUtf8),
            length <= bytes@.len() && valid_utf8(bytes@.subrange(0, length as int)) ==> (r matches Ok(
                p,
            ) && p.string@ == decode_utf8(bytes@.subrange(0, length as int))),
    {
        if length > bytes.len() {
            return Err(DecodeFault::Truncated);
        }
        match read_text(slice_subrange(bytes, 0, length)) {
            Ok(string) => Ok(PlainString { string }),
            Err(e) => Err(e),
        }
    }
}

/// A nested sub-record: a 16-bit big-endian id, then all remaining bytes.
#[derive(Debug)]
pub struct MessageContainer {
    id: u16,
    data: Vec<u8>,
}

impl MessageContainer {
    /// The container's id.
    pub closed spec fn spec_id(&self) -> u16 {
        self.id
    }

    /// The container's payload.
    pub closed spec fn spec_data(&self) -> Seq<u8> {
        self.data@
    }

    /// The wire form: the id, then the payload.
    pub open spec fn spec_to_bytes(&self) -> Seq<u8> {
        u16_be_bytes(self.spec_id()) + self.spec_data()
    }

    /// Decodes a container that fills `bytes`: the first two bytes are its
    /// id, all the rest its payload. Fewer than two bytes are truncated.
    pub fn from_bytes(bytes: &[u8]) -> (r: Result<MessageContainer, DecodeFault>)
        ensures
            bytes@.len() >= 2 ==> (r matches Ok(c) && c.spec_id() == u16_at(bytes@, 0)
                && c.spec_data() == bytes@.subrange(2, bytes@.len() as int)),
            bytes@.len() < 2 ==> (r matches Err(e) && e == DecodeFault::Truncated),
    {
        if bytes.len() < 2 {
            return Err(DecodeFault::Truncated);
        }
        let id: u16 = read_u16(bytes, 0);
        let data = slice_to_vec(slice_subrange(bytes, 2, bytes.len()));
        Ok(MessageContainer { id, data })
    }

    /// Encodes the container: id, then payload.
    pub fn to_bytes(&self) -> (bytes: Vec<u8>)
        ensures
            bytes@ == self.spec_to_bytes(),
    {
        let mut bytes: Vec<u8> = Vec::new();
        push_u16(&mut bytes, self.id);
        let mut data = slice_to_vec(self.data.as_slice());
        bytes.append(&mut data);
        assert(bytes@ =~= self.spec_to_bytes());
        bytes
    }

    pub fn id(&self) -> (id: u16)
        ensures
            id == self.spec_id(),
    {
        self.id
    }

    pub fn data(&self) -> (data: &[u8])
        ensures
            data@ == self.spec_data(),
    {
        self.data.as_slice()
    }

    /// Hands out the payload for changes; the id stays as it is.
    pub fn data_mut(&mut self) -> (data: &mut Vec<u8>)
        ensures
            data@ == old(self).spec_data(),
            final(self).spec_data() == final(data)@,
            final(self).spec_id() == old(self).spec_id(),
    {
        &mut self.data
    }

    /// The payload's length plus four bytes of framing.
    pub fn size(&self) -> (n: usize)
        requires
            self.spec_data().len() + 4 <= usize::MAX,
        ensures
            n == self.spec_data().len() + 4,
    {
        self.data.len() + 4
    }

    /// Replaces the id; the payload stays as it is.
    pub fn set_id(&mut self, id: u16)
        ensures
            final(self).spec_id() == id,
            final(self).spec_data() == old(self).spec_data(),
    {
        self.id = id;
    }
}

/// Decoding the encoding of any container gives its id and payload back.
pub proof fn lemma_container_round_trip(c: MessageContainer)
    ensures
        c.spec_to_bytes().len() >= 2,
        u16_at(c.spec_to_bytes(), 0) == c.spec_id(),
        c.spec_to_bytes().subrange(2, c.spec_to_bytes().len() as int) == c.spec_data(),
{
    let wire = c.spec_to_bytes();
    assert(wire.subrange(2, wire.len() as int) =~= c.spec_data());
}

} // verus!
