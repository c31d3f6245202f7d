//! The ICMP message model: the closed set of message types with their
//! (type byte, code byte) table, and the bit-exact codec for the
//! 8-byte header followed by the payload.

use crate::checksum::{
    checksum_of, compute_checksum, lemma_oc_fold_closed, lemma_words_sum_from_agree, oc_fold,
    word_at, words_sum, words_sum_from,
};
use vstd::arithmetic::div_mod::{
    lemma_add_mod_noop, lemma_fundamental_div_mod, lemma_mod_multiples_vanish, lemma_small_mod,
};
use vstd::pervasive::VecAdditionalExecFns;
use vstd::prelude::*;

verus! {

/// The ICMP message types this model defines, carrying the code byte
/// where the protocol gives the type sub-codes.
#[derive(Debug, Clone, Copy, PartialEq, Eq, Structural)]
pub enum IcmpMessageType {
    EchoResponse,
    EchoRequest,
    DestinationUnreachable(u8),
    SourceQuench,
    Redirect(u8),
    TimeExceeded(u8),
    ParameterProblem,
    Timestamp,
    TimestampReply,
    InformationRequest,
    InformationReply,
}

/// Why a buffer failed to decode.
#[derive(Debug, Clone, Copy, PartialEq, Eq, Structural)]
pub enum IcmpError {
    /// The (type byte, code byte) pair is outside the defined table.
    InvalidTypeCode,
    /// Fewer than the 8 header bytes were supplied.
    BufferTooShort,
}

/// The (type byte, code byte) pair of a message type.
pub open spec fn spec_type_and_code(m: IcmpMessageType) -> (u8, u8) {
    match m {
        IcmpMessageType::EchoResponse => (0, 0),
        IcmpMessageType::EchoRequest => (8, 0),
        IcmpMessageType::DestinationUnreachable(code) => (3, code),
        IcmpMessageType::SourceQuench => (4, 0),
        IcmpMessageType::Redirect(code) => (5, code),
        IcmpMessageType::TimeExceeded(code) => (11, code),
        IcmpMessageType::ParameterProblem => (12, 0),
        IcmpMessageType::Timestamp => (13, 0),
        IcmpMessageType::TimestampReply => (14, 0),
        IcmpMessageType::InformationRequest => (15, 0),
        IcmpMessageType::InformationReply => (16, 0),
    }
}

/// Whether the table of defined messages holds the pair: types 3, 5
/// and 11 with any code, the other defined types with code 0 only.
pub open spec fn pair_in_table(t: u8, c: u8) -> bool {
    t == 3 || t == 5 || t == 11 || ((t == 0 || t == 4 || t == 8 || t == 12 || t == 13 || t == 14
        || t == 15 || t == 16) && c == 0)
}

/// The message type a (type byte, code byte) pair decodes to, `None`
/// outside the table.
pub open spec fn spec_from_type_and_code(t: u8, c: u8) -> Option<IcmpMessageType> {
    if t == 0 && c == 0 {
        Some(IcmpMessageType::EchoResponse)
    } else if t == 8 && c == 0 {
        Some(IcmpMessageType::EchoRequest)
    } else if t == 3 {
        Some(IcmpMessageType::DestinationUnreachable(c))
    } else if t == 4 && c == 0 {
        Some(IcmpMessageType::SourceQuench)
    } else if t == 5 {
        Some(IcmpMessageType::Redirect(c))
    } else if t == 11 {
        Some(IcmpMessageType::TimeExceeded(c))
    } else if t == 12 && c == 0 {
        Some(IcmpMessageType::ParameterProblem)
    } else if t == 13 && c == 0 {
        Some(IcmpMessageType::Timestamp)
    } else if t == 14 && c == 0 {
        Some(IcmpMessageType::TimestampReply)
    } else if t == 15 && c == 0 {
        Some(IcmpMessageType::InformationRequest)
    } else if t == 16 && c == 0 {
        Some(IcmpMessageType::InformationReply)
    } else {
        None
    }
}

impl IcmpMessageType {
    /// The (type byte, code byte) pair of this message type, per the
    /// table: fixed-code types always yield code 0.
    pub fn into_type_and_code(&self) -> (r: (u8, u8))
        ensures
            r == spec_type_and_code(*self),
    {
        match *self {
            IcmpMessageType::EchoResponse => (0, 0),
            IcmpMessageType::EchoRequest => (8, 0),
            IcmpMessageType::DestinationUnreachable(code) => (3, code),
            IcmpMessageType::SourceQuench => (4, 0),
            IcmpMessageType::Redirect(code) => (5, code),
            IcmpMessageType::TimeExceeded(code) => (11, code),
            IcmpMessageType::ParameterProblem => (12, 0),
            IcmpMessageType::Timestamp => (13, 0),
            IcmpMessageType::TimestampReply => (14, 0),
            IcmpMessageType::InformationRequest => (15, 0),
            IcmpMessageType::InformationReply => (16, 0),
        }
    }

    /// Decodes a (type byte, code byte) pair; exactly the pairs of the
    /// table succeed.
    pub fn from_type_and_code(icmp_type: u8, icmp_code: u8) -> (r: Result<Self, IcmpError>)
        ensures
            r == (match spec_from_type_and_code(icmp_type, icmp_code) {
                Some(m) => Ok::<IcmpMessageType, IcmpError>(m),
                None => Err::<IcmpMessageType, IcmpError>(IcmpError::InvalidTypeCode),
            }),
    {
        match (icmp_type, icmp_code) {
            (0, 0) => Ok(IcmpMessageType::EchoResponse),
            (8, 0) => Ok(IcmpMessageType::EchoRequest),
            (3, code) => Ok(IcmpMessageType::DestinationUnreachable(code)),
            (4, 0) => Ok(IcmpMessageType::SourceQuench),
            (5, code) => Ok(IcmpMessageType::Redirect(code)),
            (11, code) => Ok(IcmpMessageType::TimeExceeded(code)),
            (12, 0) => Ok(IcmpMessageType::ParameterProblem),
            (13, 0) => Ok(IcmpMessageType::Timestamp),
            (14, 0) => Ok(IcmpMessageType::TimestampReply),
            (15, 0) => Ok(IcmpMessageType::InformationRequest),
            (16, 0) => Ok(IcmpMessageType::InformationReply),
            (_, _) => Err(IcmpError::InvalidTypeCode),
        }
    }
}

/// What an `IcmpMessage` is mathematically: its fields, the payload as
/// a byte sequence.
pub ghost struct IcmpView {
    pub message_type: IcmpMessageType,
    pub chksum: u16,
    pub identifier: u16,
    pub seq_no: u16,
    pub message: Seq<u8>,
}

/// An ICMP message: type, checksum, identifier, sequence number and
/// payload. Immutable once constructed.
#[derive(Debug, Clone)]
pub struct IcmpData {
    _type: IcmpMessageType,
    chksum: u16,
    identifier: u16,
    seq_no: u16,
    message: Vec<u8>,
}

impl View for IcmpData {
    type V = IcmpView;

    closed spec fn view(&self) -> IcmpView {
        IcmpView {
            message_type: self._type,
            chksum: self.chksum,
            identifier: self.identifier,
            seq_no: self.seq_no,
            message: self.message@,
        }
    }
}

/// The 8 header bytes: type, code, then checksum, identifier and
/// sequence number, each big-endian.
pub open spec fn header_seq(t: u8, c: u8, ck: u16, id: u16, sq: u16) -> Seq<u8> {
    seq![
        t,
        c,
        ((ck as int) / 256) as u8,
        ((ck as int) % 256) as u8,
        ((id as int) / 256) as u8,
        ((id as int) % 256) as u8,
        ((sq as int) / 256) as u8,
        ((sq as int) % 256) as u8,
    ]
}

/// The wire bytes of `v` with `ck` written in the checksum field.
pub open spec fn encode_with_checksum(v: IcmpView, ck: u16) -> Seq<u8> {
    header_seq(
        spec_type_and_code(v.message_type).0,
        spec_type_and_code(v.message_type).1,
        ck,
        v.identifier,
        v.seq_no,
    ) + v.message
}

/// The wire bytes of `v`: the checksum field carries the Internet
/// checksum of the whole buffer taken with that field zeroed.
pub open spec fn spec_encode(v: IcmpView) -> Seq<u8> {
    encode_with_checksum(v, checksum_of(encode_with_checksum(v, 0)))
}

/// What a buffer decodes to: the header fields read big-endian and the
/// rest as payload, or the error the buffer earns.
pub open spec fn spec_parse(data: Seq<u8>) -> Result<IcmpView, IcmpError> {
    if data.len() < 8 {
        Err(IcmpError::BufferTooShort)
    } else {
        match spec_from_type_and_code(data[0], data[1]) {
            Some(mt) => Ok(
                IcmpView {
                    message_type: mt,
                    chksum: ((data[2] as int) * 256 + (data[3] as int)) as u16,
                    identifier: ((data[4] as int) * 256 + (data[5] as int)) as u16,
                    seq_no: ((data[6] as int) * 256 + (data[7] as int)) as u16,
                    message: data.skip(8),
                },
            ),
            None => Err(IcmpError::InvalidTypeCode),
        }
    }
}

/// A decode result under the view: what `parse` promises, compared
/// against `spec_parse`.
pub open spec fn parse_view(r: Result<IcmpData, IcmpError>) -> Result<IcmpView, IcmpError> {
    match r {
        Ok(d) => Ok(d@),
        Err(e) => Err(e),
    }
}

impl IcmpData {
    /// Builds a message from the type and the optional fields; every
    /// absent optional defaults to zero or to the empty payload.
    /// Construction never fails.
    pub fn new(
        _type: IcmpMessageType,
        chksum: Option<u16>,
        identifier: Option<u16>,
        seq_no: Option<u16>,
        message: Option<Vec<u8>>,
    ) -> (r: Result<Self, IcmpError>)
        ensures
            r matches Ok(d) && d@ == (IcmpView {
                message_type: _type,
                chksum: (match chksum {
                    Some(v) => v,
                    None => 0,
                }),
                identifier: (match identifier {
                    Some(v) => v,
                    None => 0,
                }),
                seq_no: (match seq_no {
                    Some(v) => v,
                    None => 0,
                }),
                message: (match message {
                    Some(v) => v@,
                    None => Seq::<u8>::empty(),
                }),
            }),
    {
        let msg: Vec<u8> = match message {
            Some(v) => v,
            None => Vec::new(),
        };
        Ok(
            IcmpData {
                _type,
                chksum: match chksum {
                    Some(v) => v,
                    None => 0,
                },
                identifier: match identifier {
                    Some(v) => v,
                    None => 0,
                },
                seq_no: match seq_no {
                    Some(v) => v,
                    None => 0,
                },
                message: msg,
            },
        )
    }

    /// Encodes the message: 8 header bytes then the payload verbatim,
    /// with the freshly computed checksum in bytes 2 and 3.
    pub fn encode(&self) -> (r: Vec<u8>)
        ensures
            r@ == spec_encode(self@),
            r@.len() == 8 + self@.message.len(),
    {
        let (icmp_type, icmp_code) = self._type.into_type_and_code();
        let mut data: Vec<u8> = Vec::new();
        data.push(icmp_type);
        data.push(icmp_code);
        data.push(0);
        data.push(0);
        data.push((self.identifier / 256) as u8);
        data.push((self.identifier % 256) as u8);
        data.push((self.seq_no / 256) as u8);
        data.push((self.seq_no % 256) as u8);
        let mut j: usize = 0;
        while j < self.message.len()
            invariant
                j <= self.message.len(),
                data@ == header_seq(
                    spec_type_and_code(self@.message_type).0,
                    spec_type_and_code(self@.message_type).1,
                    0,
                    self@.identifier,
                    self@.seq_no,
                ) + self@.message.take(j as int),
            decreases self.message.len() - j,
        {
            data.push(self.message[j]);
            j = j + 1;
        }
        proof {
            assert(data@ =~= encode_with_checksum(self@, 0));
        }
        let ck = compute_checksum(data.as_slice());
        data.set(2, (ck / 256) as u8);
        data.set(3, (ck % 256) as u8);
        proof {
            assert(data@ =~= encode_with_checksum(self@, ck));
        }
        data
    }

    /// Decodes a buffer: fails with `BufferTooShort` under 8 bytes and
    /// with `InvalidTypeCode` outside the type/code table; otherwise
    /// reads the header fields and takes the rest of the buffer as the
    /// payload.
    pub fn parse(data: &[u8]) -> (r: Result<Self, IcmpError>)
        ensures
            parse_view(r) == spec_parse(data@),
    {
        if data.len() < 8 {
            return Err(IcmpError::BufferTooShort);
        }
        let _type = match IcmpMessageType::from_type_and_code(data[0], data[1]) {
            Ok(m) => m,
            Err(e) => {
                return Err(e);
            },
        };
        let chksum: u16 = (data[2] as u16) * 256 + (data[3] as u16);
        let identifier: u16 = (data[4] as u16) * 256 + (data[5] as u16);
        let seq_no: u16 = (data[6] as u16) * 256 + (data[7] as u16);
        let mut message: Vec<u8> = Vec::new();
        let mut j: usize = 8;
        while j < data.len()
            invariant
                8 <= j <= data.len(),
                message@ == data@.subrange(8, j as int),
            decreases data.len() - j,
        {
            message.push(data[j]);
            j = j + 1;
        }
        proof {
            assert(message@ =~= data@.skip(8));
        }
        Ok(IcmpData { _type, chksum, identifier, seq_no, message })
    }

    /// The decoded message type.
    pub fn get_type(&self) -> (r: &IcmpMessageType)
        ensures
            *r == self@.message_type,
    {
        &self._type
    }

    /// The sequence number field.
    pub fn get_seq_no(&self) -> (r: u16)
        ensures
            r == self@.seq_no,
    {
        self.seq_no
    }
}

/// Builds an echo request carrying `message` with the given identifier
/// and sequence number; the checksum field stays zero until encoding.
pub fn new_echo_request(message: Vec<u8>, identifier: u16, seq_no: u16) -> (r: IcmpData)
    ensures
        r@ == (IcmpView {
            message_type: IcmpMessageType::EchoRequest,
            chksum: 0,
            identifier,
            seq_no,
            message: message@,
        }),
{
    IcmpData { _type: IcmpMessageType::EchoRequest, chksum: 0, identifier, seq_no, message }
}

/// Law: every defined message type maps to its (type byte, code byte)
/// pair and decodes back to itself.
pub proof fn lemma_type_code_round_trip(m: IcmpMessageType)
    ensures
        spec_from_type_and_code(spec_type_and_code(m).0, spec_type_and_code(m).1) == Some(m),
{
}

/// Law: a (type byte, code byte) pair decodes exactly when the table
/// holds it, and a decoded type maps back to the same pair.
pub proof fn lemma_from_type_and_code_exact(t: u8, c: u8)
    ensures
        spec_from_type_and_code(t, c) is Some <==> pair_in_table(t, c),
        spec_from_type_and_code(t, c) matches Some(m) ==> spec_type_and_code(m) == (t, c),
{
}

/// Law: decoding an encoded message gives back every field as it was,
/// except the checksum, which encoding computes afresh.
pub proof fn lemma_encode_parse_round_trip(v: IcmpView)
    ensures
        spec_parse(spec_encode(v)) == Ok::<IcmpView, IcmpError>(
            IcmpView { chksum: checksum_of(encode_with_checksum(v, 0)), ..v },
        ),
{
    let ck = checksum_of(encode_with_checksum(v, 0));
    let tc = spec_type_and_code(v.message_type);
    let h = header_seq(tc.0, tc.1, ck, v.identifier, v.seq_no);
    let e = spec_encode(v);
    assert(e == h + v.message);
    assert(e.len() == 8 + v.message.len());
    assert(e[0] == tc.0);
    assert(e[1] == tc.1);
    lemma_type_code_round_trip(v.message_type);
    lemma_be_bytes_round_trip(ck, e, 2);
    lemma_be_bytes_round_trip(v.identifier, e, 4);
    lemma_be_bytes_round_trip(v.seq_no, e, 6);
    assert(e.skip(8) =~= v.message);
}

/// Writing a 16-bit value as two big-endian bytes and reading them
/// back gives the value again.
proof fn lemma_be_bytes_round_trip(x: u16, e: Seq<u8>, i: int)
    requires
        0 <= i,
        i + 1 < e.len(),
        e[i] == ((x as int) / 256) as u8,
        e[i + 1] == ((x as int) % 256) as u8,
    ensures
        ((e[i] as int) * 256 + (e[i + 1] as int)) as u16 == x,
{
    lemma_fundamental_div_mod(x as int, 256);
}

/// Law: including the checksum field in the ones'-complement sum over
/// the whole encoded buffer folds the total to 0xFFFF, whose
/// complement is zero — the Internet checksum self-verification.
pub proof fn lemma_encoded_checksum_self_verifies(v: IcmpView)
    ensures
        oc_fold(words_sum(spec_encode(v))) == 0xFFFF,
{
    let z = encode_with_checksum(v, 0);
    let ck = checksum_of(z);
    let e = spec_encode(v);
    let sz = words_sum(z);
    let se = words_sum(e);
    lemma_oc_fold_closed(sz);
    let f = oc_fold(sz);
    assert(ck as int == 0xFFFF - f);

    // The two buffers differ only in the checksum word.
    assert(z.len() == e.len());
    assert(forall|k: int| 4 <= k < e.len() ==> e[k] == z[k]);
    lemma_words_sum_from_agree(e, z, 4);
    assert(words_sum_from(e, 0) == word_at(e, 0) + words_sum_from(e, 2));
    assert(words_sum_from(e, 2) == word_at(e, 2) + words_sum_from(e, 4));
    assert(words_sum_from(z, 0) == word_at(z, 0) + words_sum_from(z, 2));
    assert(words_sum_from(z, 2) == word_at(z, 2) + words_sum_from(z, 4));
    assert(word_at(e, 0) == word_at(z, 0));
    lemma_fundamental_div_mod(ck as int, 256);
    assert(word_at(e, 2) == ck as nat);
    assert(word_at(z, 2) == 0);
    assert(se == sz + ck);

    // The folded total is congruent to fold(sz) + ck == 0xFFFF.
    lemma_oc_fold_closed(se);
    lemma_add_mod_noop(sz as int, ck as int, 0xFFFF);
    lemma_add_mod_noop(f as int, ck as int, 0xFFFF);
    assert((sz as int) % 0xFFFF == (f as int) % 0xFFFF);
    assert((se as int) % 0xFFFF == (f + ck) % 0xFFFF);
    lemma_mod_multiples_vanish(1, 0, 0xFFFF);
    lemma_small_mod(0, 0xFFFF);
    assert((f + ck) % 0xFFFF == 0);
    assert(se > 0);
}

} // verus!
