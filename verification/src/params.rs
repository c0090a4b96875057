//! The marshaling protocol: a tagged value format and a packed byte encoding
//! for argument lists and single-value returns crossing a native call
//! boundary.
//!
//! `pack` and `unpack` are mutual inverses for every list of supported
//! values (`lemma_round_trip`), and `pack` is deterministic: the bytes are a
//! pure function of the list (`lemma_pack_deterministic`).

use vstd::prelude::*;
use vstd::bytes::*;
use vstd::utf8::*;

verus! {

/// Wire tag for a signed integer value.
pub const TAG_INT: u8 = 1;

/// Wire tag for a 32-bit floating-point bit pattern.
pub const TAG_FLOAT: u8 = 2;

/// Wire tag for an owned text value.
pub const TAG_TEXT: u8 = 3;

/// Wire tag for an opaque object handle.
pub const TAG_HANDLE: u8 = 4;

/// One marshalable value. Floating-point payloads travel as their IEEE 754
/// bit pattern so that the encoding is exact and byte-stable; object payloads
/// travel as opaque handle identifiers owned by the host.
#[derive(Clone, PartialEq, Eq, Debug)]
pub enum ParamValue {
    /// A signed integer.
    Int(i64),
    /// The bit pattern of a 32-bit IEEE 754 floating-point number.
    FloatBits(u32),
    /// An owned text value; no shared buffer survives past a call.
    Text(String),
    /// An opaque handle to a host-owned object.
    Handle(u64),
}

/// The mathematical model of a marshalable value: text is a character
/// sequence.
#[verifier::ext_equal]
pub enum ParamVal {
    Int(i64),
    FloatBits(u32),
    Text(Seq<char>),
    Handle(u64),
}

impl View for ParamValue {
    type V = ParamVal;

    open spec fn view(&self) -> ParamVal {
        match self {
            ParamValue::Int(x) => ParamVal::Int(*x),
            ParamValue::FloatBits(f) => ParamVal::FloatBits(*f),
            ParamValue::Text(s) => ParamVal::Text(s@),
            ParamValue::Handle(h) => ParamVal::Handle(*h),
        }
    }
}

impl DeepView for ParamValue {
    type V = ParamVal;

    open spec fn deep_view(&self) -> ParamVal {
        self.view()
    }
}

/// An ordered list of marshalable values; argument order is significant and
/// preserved by packing.
#[derive(Debug)]
pub struct ParameterList {
    pub values: Vec<ParamValue>,
}

impl View for ParameterList {
    type V = Seq<ParamVal>;

    open spec fn view(&self) -> Seq<ParamVal> {
        self.values.deep_view()
    }
}

/// The serialized, ABI-stable form of a `ParameterList`. It is built by the
/// sender immediately before a call and consumed (by value) by the receiver.
#[derive(Debug)]
pub struct PackedBuffer {
    pub bytes: Vec<u8>,
}

impl View for PackedBuffer {
    type V = Seq<u8>;

    open spec fn view(&self) -> Seq<u8> {
        self.bytes@
    }
}

/// Why a packed buffer was rejected by `unpack`.
#[derive(Clone, Copy, PartialEq, Eq, Debug)]
pub enum DecodeError {
    /// The buffer ends before the declared contents do.
    Truncated,
    /// A value carries a tag outside the supported set.
    UnknownTag,
    /// A text payload is not valid UTF-8.
    InvalidText,
    /// Bytes remain after the declared element count was read.
    TrailingData,
}

/// The two's-complement image of a signed integer on the wire.
pub open spec fn i64_to_wire(x: i64) -> u64 {
    if x >= 0 {
        x as u64
    } else {
        (x + 0x1_0000_0000_0000_0000) as u64
    }
}

/// The signed integer a wire word stands for.
pub open spec fn wire_to_i64(y: u64) -> i64 {
    if y < 0x8000_0000_0000_0000 {
        y as i64
    } else {
        (y - 0x1_0000_0000_0000_0000) as i64
    }
}

/// The byte encoding of one value: a tag byte followed by the payload.
pub open spec fn spec_encode_value(v: ParamVal) -> Seq<u8> {
    match v {
        ParamVal::Int(x) => seq![TAG_INT] + spec_u64_to_le_bytes(i64_to_wire(x)),
        ParamVal::FloatBits(f) => seq![TAG_FLOAT] + spec_u32_to_le_bytes(f),
        ParamVal::Text(t) => seq![TAG_TEXT] + spec_u64_to_le_bytes(encode_utf8(t).len() as u64)
            + encode_utf8(t),
        ParamVal::Handle(h) => seq![TAG_HANDLE] + spec_u64_to_le_bytes(h),
    }
}

/// A value whose encoding a real machine can represent: a text payload is
/// shorter than 2^64 bytes.
pub open spec fn wf_value(v: ParamVal) -> bool {
    v matches ParamVal::Text(t) ==> encode_utf8(t).len() < 0x1_0000_0000_0000_0000
}

/// The concatenated encodings of a sequence of values, in order.
pub open spec fn spec_encode_seq(vs: Seq<ParamVal>) -> Seq<u8>
    decreases vs.len(),
{
    if vs.len() == 0 {
        Seq::<u8>::empty()
    } else {
        spec_encode_value(vs[0]) + spec_encode_seq(vs.drop_first())
    }
}

/// A list whose encoding a real machine can represent.
pub open spec fn wf_list(vs: Seq<ParamVal>) -> bool {
    &&& vs.len() < 0x1_0000_0000_0000_0000
    &&& forall|i: int| 0 <= i < vs.len() ==> wf_value(#[trigger] vs[i])
}

/// The full buffer encoding: the element count as a little-endian word,
/// then each value's encoding in order.
pub open spec fn spec_encode(vs: Seq<ParamVal>) -> Seq<u8> {
    spec_u64_to_le_bytes(vs.len() as u64) + spec_encode_seq(vs)
}

/// Decodes one value from the front of `b`; yields the value and how many
/// bytes it occupied.
pub open spec fn spec_decode_value(b: Seq<u8>) -> Option<(ParamVal, int)> {
    if b.len() < 1 {
        None
    } else if b[0] == TAG_INT {
        if b.len() >= 9 {
            Some((ParamVal::Int(wire_to_i64(spec_u64_from_le_bytes(b.subrange(1, 9)))), 9))
        } else {
            None
        }
    } else if b[0] == TAG_FLOAT {
        if b.len() >= 5 {
            Some((ParamVal::FloatBits(spec_u32_from_le_bytes(b.subrange(1, 5))), 5))
        } else {
            None
        }
    } else if b[0] == TAG_TEXT {
        if b.len() >= 9 {
            let n = spec_u64_from_le_bytes(b.subrange(1, 9)) as int;
            if b.len() >= 9 + n {
                let payload = b.subrange(9, 9 + n);
                if valid_utf8(payload) {
                    Some((ParamVal::Text(decode_utf8(payload)), 9 + n))
                } else {
                    None
                }
            } else {
                None
            }
        } else {
            None
        }
    } else if b[0] == TAG_HANDLE {
        if b.len() >= 9 {
            Some((ParamVal::Handle(spec_u64_from_le_bytes(b.subrange(1, 9))), 9))
        } else {
            None
        }
    } else {
        None
    }
}

/// Decodes exactly `count` values that must use the whole of `b`.
pub open spec fn spec_decode_seq(b: Seq<u8>, count: nat) -> Option<Seq<ParamVal>>
    decreases count,
{
    if count == 0 {
        if b.len() == 0 {
            Some(Seq::<ParamVal>::empty())
        } else {
            None
        }
    } else {
        match spec_decode_value(b) {
            None => None,
            Some((v, used)) => match spec_decode_seq(b.skip(used), (count - 1) as nat) {
                None => None,
                Some(rest) => Some(seq![v] + rest),
            },
        }
    }
}

/// Decodes a whole buffer: the declared element count, then that many
/// values, with nothing left over.
pub open spec fn spec_decode(b: Seq<u8>) -> Option<Seq<ParamVal>> {
    if b.len() < 8 {
        None
    } else {
        spec_decode_seq(b.skip(8), spec_u64_from_le_bytes(b.take(8)) as nat)
    }
}

/// Decoding the encoding of one value, with any suffix behind it, yields the
/// value back and consumes exactly its encoding.
pub proof fn lemma_decode_value_of_encode(v: ParamVal, rest: Seq<u8>)
    requires
        wf_value(v),
    ensures
        spec_decode_value(spec_encode_value(v) + rest) == Some(
            (v, spec_encode_value(v).len() as int),
        ),
{
    lemma_auto_spec_u64_to_from_le_bytes();
    lemma_auto_spec_u32_to_from_le_bytes();
    let b = spec_encode_value(v) + rest;
    match v {
        ParamVal::Int(x) => {
            assert(b.subrange(1, 9) =~= spec_u64_to_le_bytes(i64_to_wire(x)));
            assert(spec_encode_value(v).len() == 9);
        },
        ParamVal::FloatBits(f) => {
            assert(b[0] == TAG_FLOAT);
            assert(b.subrange(1, 5) =~= spec_u32_to_le_bytes(f));
            assert(spec_encode_value(v).len() == 5);
        },
        ParamVal::Text(t) => {
            broadcast use encode_utf8_valid_utf8, encode_utf8_decode_utf8;

            let payload = encode_utf8(t);
            let n = payload.len() as int;
            assert(b[0] == TAG_TEXT);
            assert(b.subrange(1, 9) =~= spec_u64_to_le_bytes(payload.len() as u64));
            assert(spec_u64_from_le_bytes(b.subrange(1, 9)) == payload.len() as u64);
            assert(b.len() >= 9 + n);
            assert(b.subrange(9, 9 + n) =~= payload);
            assert(spec_encode_value(v).len() == 9 + n);
        },
        ParamVal::Handle(h) => {
            assert(b[0] == TAG_HANDLE);
            assert(b.subrange(1, 9) =~= spec_u64_to_le_bytes(h));
            assert(spec_encode_value(v).len() == 9);
        },
    }
}

/// Appending one value to a list appends its encoding to the list's.
pub proof fn lemma_encode_seq_snoc(vs: Seq<ParamVal>, v: ParamVal)
    ensures
        spec_encode_seq(vs.push(v)) == spec_encode_seq(vs) + spec_encode_value(v),
    decreases vs.len(),
{
    if vs.len() == 0 {
        assert(vs.push(v)[0] == v);
        assert(vs =~= Seq::<ParamVal>::empty());
        assert(vs.push(v).drop_first() =~= vs);
        assert(spec_encode_seq(vs) == Seq::<u8>::empty());
        assert(spec_encode_seq(vs.push(v)) == spec_encode_value(v) + spec_encode_seq(vs));
        assert(spec_encode_seq(vs.push(v)) =~= spec_encode_seq(vs) + spec_encode_value(v));
    } else {
        assert(vs.push(v)[0] == vs[0]);
        assert(vs.push(v).drop_first() =~= vs.drop_first().push(v));
        lemma_encode_seq_snoc(vs.drop_first(), v);
        assert(spec_encode_seq(vs.push(v)) == spec_encode_value(vs[0]) + (spec_encode_seq(
            vs.drop_first(),
        ) + spec_encode_value(v)));
        assert(spec_encode_seq(vs.push(v)) =~= spec_encode_seq(vs) + spec_encode_value(v));
    }
}

/// Decoding the encoding of a sequence of values yields the sequence back.
pub proof fn lemma_decode_seq_of_encode(vs: Seq<ParamVal>)
    requires
        forall|i: int| 0 <= i < vs.len() ==> wf_value(#[trigger] vs[i]),
    ensures
        spec_decode_seq(spec_encode_seq(vs), vs.len()) == Some(vs),
    decreases vs.len(),
{
    if vs.len() == 0 {
        assert(spec_decode_seq(spec_encode_seq(vs), 0) =~= Some(vs));
    } else {
        let tail = vs.drop_first();
        let enc_head = spec_encode_value(vs[0]);
        let enc_tail = spec_encode_seq(tail);
        lemma_decode_value_of_encode(vs[0], enc_tail);
        assert((enc_head + enc_tail).skip(enc_head.len() as int) =~= enc_tail);
        lemma_decode_seq_of_encode(tail);
        assert(seq![vs[0]] + tail =~= vs);
    }
}

/// Round-trip: unpacking the packed form of any representable list yields
/// the list itself.
pub proof fn lemma_round_trip(vs: Seq<ParamVal>)
    requires
        wf_list(vs),
    ensures
        spec_decode(spec_encode(vs)) == Some(vs),
{
    lemma_auto_spec_u64_to_from_le_bytes();
    let b = spec_encode(vs);
    assert(b.take(8) =~= spec_u64_to_le_bytes(vs.len() as u64));
    assert(b.skip(8) =~= spec_encode_seq(vs));
    assert(spec_u64_from_le_bytes(b.take(8)) as nat == vs.len());
    lemma_decode_seq_of_encode(vs);
}

/// Determinism: the packed bytes are a pure function of the list's value, so
/// packing equal lists yields byte-identical buffers.
pub proof fn lemma_pack_deterministic(a: ParameterList, b: ParameterList)
    requires
        a@ == b@,
    ensures
        spec_encode(a@) == spec_encode(b@),
{
}

/// Relies on `String::from_utf8`: it succeeds exactly on valid UTF-8 input
/// and yields the characters that the bytes encode.
#[verifier::external_body]
fn string_from_utf8(bytes: Vec<u8>) -> (r: Option<String>)
    ensures
        r is Some <==> valid_utf8(bytes@),
        r matches Some(s) ==> s@ == decode_utf8(bytes@),
{
    String::from_utf8(bytes).ok()
}

/// The two's-complement wire image of a signed integer.
fn i64_wire(x: i64) -> (y: u64)
    ensures
        y == i64_to_wire(x),
{
    if x >= 0 {
        x as u64
    } else {
        let shifted: i64 = x + 0x4000_0000_0000_0000 + 0x4000_0000_0000_0000;
        (shifted as u64) + 0x8000_0000_0000_0000
    }
}

/// The signed integer a wire word stands for.
fn wire_i64(y: u64) -> (x: i64)
    ensures
        x == wire_to_i64(y),
{
    if y < 0x8000_0000_0000_0000 {
        y as i64
    } else {
        let t: u64 = y - 0x8000_0000_0000_0000;
        (t as i64) - 0x4000_0000_0000_0000 - 0x4000_0000_0000_0000
    }
}

/// Appends the encoding of one value to `out`.
fn encode_value_into(out: &mut Vec<u8>, v: &ParamValue)
    ensures
        final(out)@ == old(out)@ + spec_encode_value(v@),
        wf_value(v@),
{
    match v {
        ParamValue::Int(x) => {
            out.push(TAG_INT);
            let mut payload = u64_to_le_bytes(i64_wire(*x));
            out.append(&mut payload);
            assert(out@ =~= old(out)@ + spec_encode_value(v@));
        },
        ParamValue::FloatBits(f) => {
            out.push(TAG_FLOAT);
            let mut payload = u32_to_le_bytes(*f);
            out.append(&mut payload);
            assert(out@ =~= old(out)@ + spec_encode_value(v@));
        },
        ParamValue::Text(s) => {
            out.push(TAG_TEXT);
            let text_bytes = s.as_str().as_bytes();
            let byte_len: usize = text_bytes.len();
            proof {
                assert(encode_utf8(s@).len() == byte_len);
            }
            let mut len_payload = u64_to_le_bytes(byte_len as u64);
            out.append(&mut len_payload);
            let mut payload = vstd::slice::slice_to_vec(text_bytes);
            out.append(&mut payload);
            assert(out@ =~= old(out)@ + spec_encode_value(v@));
        },
        ParamValue::Handle(h) => {
            out.push(TAG_HANDLE);
            let mut payload = u64_to_le_bytes(*h);
            out.append(&mut payload);
            assert(out@ =~= old(out)@ + spec_encode_value(v@));
        },
    }
}

impl ParameterList {
    /// An empty argument list.
    pub fn new() -> (r: ParameterList)
        ensures
            r@ == Seq::<ParamVal>::empty(),
    {
        let r = ParameterList { values: Vec::new() };
        proof {
            assert(r@ =~= Seq::<ParamVal>::empty());
        }
        r
    }

    /// The number of values in the list.
    pub fn size(&self) -> (n: usize)
        ensures
            n == self@.len(),
    {
        self.values.len()
    }

    /// Appends one value; order is preserved.
    pub fn push(&mut self, v: ParamValue)
        ensures
            final(self)@ == old(self)@.push(v@),
    {
        self.values.push(v);
        proof {
            assert(self@ =~= old(self)@.push(v@));
        }
    }

    /// The value at position `i`.
    pub fn get(&self, i: usize) -> (r: &ParamValue)
        requires
            i < self@.len(),
        ensures
            r@ == self@[i as int],
    {
        &self.values[i]
    }

    /// Serializes the list into its packed, ABI-stable byte form. The bytes
    /// are a pure function of the list, so packing is deterministic.
    pub fn pack(&self) -> (r: PackedBuffer)
        ensures
            r@ == spec_encode(self@),
            wf_list(self@),
    {
        let ghost all = self@;
        let mut bytes = u64_to_le_bytes(self.values.len() as u64);
        let ghost header = bytes@;
        let mut i: usize = 0;
        while i < self.values.len()
            invariant
                i <= self.values.len(),
                all == self@,
                header == spec_u64_to_le_bytes(self@.len() as u64),
                bytes@ == header + spec_encode_seq(all.take(i as int)),
                forall|j: int| 0 <= j < i ==> wf_value(#[trigger] all[j]),
            decreases self.values.len() - i,
        {
            encode_value_into(&mut bytes, &self.values[i]);
            proof {
                lemma_encode_seq_snoc(all.take(i as int), all[i as int]);
                assert(all.take(i as int).push(all[i as int]) =~= all.take(i as int + 1));
            }
            i = i + 1;
        }
        proof {
            assert(all.take(all.len() as int) =~= all);
        }
        PackedBuffer { bytes }
    }
}

/// Decodes one value beginning at position `pos` of `bytes`.
fn decode_one(bytes: &Vec<u8>, pos: usize) -> (r: Result<(ParamValue, usize), DecodeError>)
    requires
        pos <= bytes@.len(),
    ensures
        r matches Ok(p) ==> {
            &&& spec_decode_value(bytes@.skip(pos as int)) == Some((p.0@, p.1 as int))
            &&& 1 <= p.1
            &&& pos + p.1 <= bytes@.len()
        },
        r is Err ==> spec_decode_value(bytes@.skip(pos as int)) is None,
{
    let ghost b = bytes@.skip(pos as int);
    let avail: usize = bytes.len() - pos;
    if avail < 1 {
        return Err(DecodeError::Truncated);
    }
    let tag: u8 = bytes[pos];
    assert(b[0] == tag);
    if tag == TAG_INT {
        if avail < 9 {
            return Err(DecodeError::Truncated);
        }
        let word: u64 = u64_from_le_bytes(vstd::slice::slice_subrange(bytes.as_slice(), pos + 1, pos + 9));
        proof {
            assert(bytes@.subrange(pos + 1, pos + 9) =~= b.subrange(1, 9));
        }
        Ok((ParamValue::Int(wire_i64(word)), 9))
    } else if tag == TAG_FLOAT {
        if avail < 5 {
            return Err(DecodeError::Truncated);
        }
        let word: u32 = u32_from_le_bytes(vstd::slice::slice_subrange(bytes.as_slice(), pos + 1, pos + 5));
        proof {
            assert(bytes@.subrange(pos + 1, pos + 5) =~= b.subrange(1, 5));
        }
        Ok((ParamValue::FloatBits(word), 5))
    } else if tag == TAG_TEXT {
        if avail < 9 {
            return Err(DecodeError::Truncated);
        }
        let word: u64 = u64_from_le_bytes(vstd::slice::slice_subrange(bytes.as_slice(), pos + 1, pos + 9));
        proof {
            assert(bytes@.subrange(pos + 1, pos + 9) =~= b.subrange(1, 9));
        }
        if word > (avail - 9) as u64 {
            return Err(DecodeError::Truncated);
        }
        let n: usize = word as usize;
        let payload = vstd::slice::slice_to_vec(
            vstd::slice::slice_subrange(bytes.as_slice(), pos + 9, pos + 9 + n),
        );
        proof {
            assert(payload@ =~= b.subrange(9, 9 + n as int));
        }
        match string_from_utf8(payload) {
            Some(s) => Ok((ParamValue::Text(s), 9 + n)),
            None => Err(DecodeError::InvalidText),
        }
    } else if tag == TAG_HANDLE {
        if avail < 9 {
            return Err(DecodeError::Truncated);
        }
        let word: u64 = u64_from_le_bytes(vstd::slice::slice_subrange(bytes.as_slice(), pos + 1, pos + 9));
        proof {
            assert(bytes@.subrange(pos + 1, pos + 9) =~= b.subrange(1, 9));
        }
        Ok((ParamValue::Handle(word), 9))
    } else {
        Err(DecodeError::UnknownTag)
    }
}

/// Deserializes a packed buffer, consuming it. Succeeds exactly on the
/// buffers whose declared element count and tags are consistent with the
/// payload, and then yields the encoded list.
pub fn unpack(buf: PackedBuffer) -> (r: Result<ParameterList, DecodeError>)
    ensures
        r matches Ok(list) ==> spec_decode(buf@) == Some(list@),
        r is Err ==> spec_decode(buf@) is None,
{
    let bytes = buf.bytes;
    if bytes.len() < 8 {
        return Err(DecodeError::Truncated);
    }
    let count: u64 = u64_from_le_bytes(vstd::slice::slice_subrange(bytes.as_slice(), 0, 8));
    proof {
        assert(bytes@.subrange(0, 8) =~= bytes@.take(8));
    }
    let total: usize = bytes.len();
    let mut values: Vec<ParamValue> = Vec::new();
    let mut pos: usize = 8;
    let mut k: u64 = 0;
    while k < count
        invariant
            bytes@ == buf@,
            total == bytes@.len(),
            8 <= pos <= bytes@.len(),
            k <= count,
            count == spec_u64_from_le_bytes(bytes@.take(8)),
            values.deep_view().len() == k,
            spec_decode_seq(bytes@.skip(8), count as nat) == (match spec_decode_seq(
                bytes@.skip(pos as int),
                (count - k) as nat,
            ) {
                None => None::<Seq<ParamVal>>,
                Some(rest) => Some(values.deep_view() + rest),
            }),
        decreases count - k,
    {
        let ghost pre_values = values.deep_view();
        match decode_one(&bytes, pos) {
            Ok((v, used)) => {
                proof {
                    assert(bytes@.skip(pos as int).skip(used as int) =~= bytes@.skip(
                        pos as int + used as int,
                    ));
                }
                values.push(v);
                proof {
                    assert(values.deep_view() =~= pre_values.push(v@));
                    assert forall|rest: Seq<ParamVal>|
                        pre_values + (seq![v@] + rest) =~= pre_values.push(v@) + rest by {}
                }
                pos = pos + used;
                k = k + 1;
            },
            Err(e) => {
                proof {
                    assert(spec_decode_seq(bytes@.skip(pos as int), (count - k) as nat) is None);
                    assert(spec_decode(bytes@) is None);
                }
                return Err(e);
            },
        }
    }
    if pos != bytes.len() {
        proof {
            assert(bytes@.skip(pos as int).len() > 0);
        }
        return Err(DecodeError::TrailingData);
    }
    proof {
        assert(bytes@.skip(pos as int).len() == 0);
        assert(values.deep_view() + Seq::<ParamVal>::empty() =~= values.deep_view());
    }
    Ok(ParameterList { values })
}

} // verus!

