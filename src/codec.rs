use vstd::bytes::*;
use vstd::prelude::*;
use vstd::string::*;
use vstd::utf8::*;

use byteorder::{ByteOrder, LittleEndian};

use crate::error::{ErrorKind, TritonError};

verus! {

broadcast use {encode_utf8_valid_utf8, encode_utf8_decode_utf8};

/// What `String::from_utf8_lossy` makes of bytes that are not valid UTF-8.
pub uninterp spec fn lossy_decoding(b: Seq<u8>) -> Seq<char>;

/// The characters that bytes decode to, invalid sequences replaced.
pub open spec fn utf8_lossy(b: Seq<u8>) -> Seq<char> {
    if valid_utf8(b) {
        decode_utf8(b)
    } else {
        lossy_decoding(b)
    }
}

/// Relies on `String::from_utf8_lossy`: valid UTF-8 is decoded unchanged,
/// anything else gets replacement characters.
#[verifier::external_body]
fn utf8_lossy_string(b: &[u8]) -> (r: String)
    ensures
        valid_utf8(b@) ==> r@ == decode_utf8(b@),
        !valid_utf8(b@) ==> r@ == lossy_decoding(b@),
{
    String::from_utf8_lossy(b).into_owned()
}

/// The text of bytes meant as UTF-8 (such as a serialized JSON message):
/// valid UTF-8 is decoded as it is, invalid sequences are replaced.
pub fn lossy_string(b: &[u8]) -> (r: String)
    ensures
        r@ == utf8_lossy(b@),
{
    utf8_lossy_string(b)
}

/// Relies on byteorder's `LittleEndian::read_u32`: the first four bytes,
/// least significant first (it panics on fewer than four).
#[verifier::external_body]
fn read_u32_le(buf: &[u8]) -> (r: u32)
    requires
        buf@.len() >= 4,
    ensures
        r == spec_u32_from_le_bytes(buf@.subrange(0, 4)),
{
    LittleEndian::read_u32(buf)
}

/// Relies on byteorder's `LittleEndian::write_u32`: the four bytes of `n`,
/// least significant first.
#[verifier::external_body]
fn write_u32_le(n: u32) -> (r: Vec<u8>)
    ensures
        r@ == spec_u32_to_le_bytes(n),
{
    let mut b = vec![0u8; 4];
    LittleEndian::write_u32(&mut b, n);
    b
}

/// Relies on byteorder's `LittleEndian::read_u64`: the first eight bytes,
/// least significant first (it panics on fewer than eight).
#[verifier::external_body]
pub(crate) fn read_u64_le(buf: &[u8]) -> (r: u64)
    requires
        buf@.len() >= 8,
    ensures
        r == spec_u64_from_le_bytes(buf@.subrange(0, 8)),
{
    LittleEndian::read_u64(buf)
}

/// Relies on byteorder's `LittleEndian::write_u64`: the eight bytes of `n`,
/// least significant first.
#[verifier::external_body]
pub(crate) fn write_u64_le(n: u64) -> (r: Vec<u8>)
    ensures
        r@ == spec_u64_to_le_bytes(n),
{
    let mut b = vec![0u8; 8];
    LittleEndian::write_u64(&mut b, n);
    b
}

/// Words laid out as 4-byte little-endian elements, concatenated.
pub open spec fn words32_le(s: Seq<u32>) -> Seq<u8>
    decreases s.len(),
{
    if s.len() == 0 {
        Seq::empty()
    } else {
        words32_le(s.drop_last()) + spec_u32_to_le_bytes(s.last())
    }
}

/// Words laid out as 8-byte little-endian elements, concatenated.
pub open spec fn words64_le(s: Seq<u64>) -> Seq<u8>
    decreases s.len(),
{
    if s.len() == 0 {
        Seq::empty()
    } else {
        words64_le(s.drop_last()) + spec_u64_to_le_bytes(s.last())
    }
}

/// The 4-byte little-endian words a buffer holds, one per whole element.
pub open spec fn le32_words(b: Seq<u8>) -> Seq<u32> {
    Seq::new((b.len() / 4) as nat, |i: int| spec_u32_from_le_bytes(b.subrange(4 * i, 4 * i + 4)))
}

/// The 8-byte little-endian words a buffer holds, one per whole element.
pub open spec fn le64_words(b: Seq<u8>) -> Seq<u64> {
    Seq::new((b.len() / 8) as nat, |i: int| spec_u64_from_le_bytes(b.subrange(8 * i, 8 * i + 8)))
}

/// The two's-complement reading of each 32-bit word.
pub open spec fn as_i32s(s: Seq<u32>) -> Seq<i32> {
    s.map_values(|w: u32| w as i32)
}

/// The 32-bit two's-complement pattern of each value.
pub open spec fn i32_patterns(s: Seq<i32>) -> Seq<u32> {
    s.map_values(|x: i32| x as u32)
}

/// The two's-complement reading of each 64-bit word.
pub open spec fn as_i64s(s: Seq<u64>) -> Seq<i64> {
    s.map_values(|w: u64| w as i64)
}

/// The 64-bit two's-complement pattern of each value.
pub open spec fn i64_patterns(s: Seq<i64>) -> Seq<u64> {
    s.map_values(|x: i64| x as u64)
}

/// Lays out 32-bit words as 4-byte little-endian elements.
fn encode_words32(words: &Vec<u32>) -> (r: Vec<u8>)
    ensures
        r@ == words32_le(words@),
{
    let mut out: Vec<u8> = Vec::new();
    let mut i: usize = 0;
    assert(words@.take(0) =~= Seq::<u32>::empty());
    while i < words.len()
        invariant
            i <= words@.len(),
            out@ == words32_le(words@.take(i as int)),
        decreases words@.len() - i,
    {
        let mut b = write_u32_le(words[i]);
        assert(words@.take(i + 1).drop_last() =~= words@.take(i as int));
        out.append(&mut b);
        i = i + 1;
    }
    assert(words@.take(i as int) =~= words@);
    out
}

/// Lays out 64-bit words as 8-byte little-endian elements.
fn encode_words64(words: &Vec<u64>) -> (r: Vec<u8>)
    ensures
        r@ == words64_le(words@),
{
    let mut out: Vec<u8> = Vec::new();
    let mut i: usize = 0;
    assert(words@.take(0) =~= Seq::<u64>::empty());
    while i < words.len()
        invariant
            i <= words@.len(),
            out@ == words64_le(words@.take(i as int)),
        decreases words@.len() - i,
    {
        let mut b = write_u64_le(words[i]);
        assert(words@.take(i + 1).drop_last() =~= words@.take(i as int));
        out.append(&mut b);
        i = i + 1;
    }
    assert(words@.take(i as int) =~= words@);
    out
}

/// Reads 4-byte little-endian words; fails where the buffer ends inside an element.
fn decode_words32(data: &[u8]) -> (r: Result<Vec<u32>, TritonError>)
    ensures
        r is Ok <==> data@.len() % 4 == 0,
        r matches Ok(v) ==> v@ == le32_words(data@),
        r matches Err(e) ==> e.kind == ErrorKind::DecodeError,
{
    if data.len() % 4 != 0 {
        return Err(TritonError::with_kind(ErrorKind::DecodeError, "truncated 4-byte element"));
    }
    let mut out: Vec<u32> = Vec::new();
    let mut pos: usize = 0;
    while pos < data.len()
        invariant
            pos <= data@.len(),
            data@.len() % 4 == 0,
            pos % 4 == 0,
            out@.len() == pos / 4,
            forall|j: int|
                0 <= j < out@.len() ==> out@[j] == spec_u32_from_le_bytes(
                    #[trigger] data@.subrange(4 * j, 4 * j + 4),
                ),
        decreases data@.len() - pos,
    {
        let w = read_u32_le(&data[pos..pos + 4]);
        assert(data@.subrange(pos as int, pos + 4).subrange(0, 4) =~= data@.subrange(
            4 * (pos / 4),
            4 * (pos / 4) + 4,
        ));
        out.push(w);
        pos = pos + 4;
    }
    assert(out@ =~= le32_words(data@));
    Ok(out)
}

/// Reads 8-byte little-endian words; fails where the buffer ends inside an element.
fn decode_words64(data: &[u8]) -> (r: Result<Vec<u64>, TritonError>)
    ensures
        r is Ok <==> data@.len() % 8 == 0,
        r matches Ok(v) ==> v@ == le64_words(data@),
        r matches Err(e) ==> e.kind == ErrorKind::DecodeError,
{
    if data.len() % 8 != 0 {
        return Err(TritonError::with_kind(ErrorKind::DecodeError, "truncated 8-byte element"));
    }
    let mut out: Vec<u64> = Vec::new();
    let mut pos: usize = 0;
    while pos < data.len()
        invariant
            pos <= data@.len(),
            data@.len() % 8 == 0,
            pos % 8 == 0,
            out@.len() == pos / 8,
            forall|j: int|
                0 <= j < out@.len() ==> out@[j] == spec_u64_from_le_bytes(
                    #[trigger] data@.subrange(8 * j, 8 * j + 8),
                ),
        decreases data@.len() - pos,
    {
        let w = read_u64_le(&data[pos..pos + 8]);
        assert(data@.subrange(pos as int, pos + 8).subrange(0, 8) =~= data@.subrange(
            8 * (pos / 8),
            8 * (pos / 8) + 8,
        ));
        out.push(w);
        pos = pos + 8;
    }
    assert(out@ =~= le64_words(data@));
    Ok(out)
}

/// Encodes FP32 values, given by their IEEE-754 bit patterns, as 4-byte
/// little-endian elements.
pub fn encode_fp32_tensor(bits: &Vec<u32>) -> (r: Vec<u8>)
    ensures
        r@ == words32_le(bits@),
{
    encode_words32(bits)
}

/// Decodes an FP32 tensor into the IEEE-754 bit patterns of its values.
pub fn decode_fp32_tensor(data: &[u8]) -> (r: Result<Vec<u32>, TritonError>)
    ensures
        r is Ok <==> data@.len() % 4 == 0,
        r matches Ok(v) ==> v@ == le32_words(data@),
        r matches Err(e) ==> e.kind == ErrorKind::DecodeError,
{
    decode_words32(data)
}

/// Encodes FP64 values, given by their IEEE-754 bit patterns, as 8-byte
/// little-endian elements.
pub fn encode_fp64_tensor(bits: &Vec<u64>) -> (r: Vec<u8>)
    ensures
        r@ == words64_le(bits@),
{
    encode_words64(bits)
}

/// Decodes an FP64 tensor into the IEEE-754 bit patterns of its values.
pub fn decode_fp64_tensor(data: &[u8]) -> (r: Result<Vec<u64>, TritonError>)
    ensures
        r is Ok <==> data@.len() % 8 == 0,
        r matches Ok(v) ==> v@ == le64_words(data@),
        r matches Err(e) ==> e.kind == ErrorKind::DecodeError,
{
    decode_words64(data)
}

/// Encodes INT32 values as 4-byte little-endian two's-complement elements.
pub fn encode_int32_tensor(values: &Vec<i32>) -> (r: Vec<u8>)
    ensures
        r@ == words32_le(i32_patterns(values@)),
{
    let mut words: Vec<u32> = Vec::new();
    let mut i: usize = 0;
    while i < values.len()
        invariant
            i <= values@.len(),
            words@ =~= i32_patterns(values@.take(i as int)),
        decreases values@.len() - i,
    {
        words.push(values[i] as u32);
        i = i + 1;
    }
    assert(values@.take(i as int) =~= values@);
    encode_words32(&words)
}

/// Decodes an INT32 tensor.
pub fn decode_int32_tensor(data: &[u8]) -> (r: Result<Vec<i32>, TritonError>)
    ensures
        r is Ok <==> data@.len() % 4 == 0,
        r matches Ok(v) ==> v@ == as_i32s(le32_words(data@)),
        r matches Err(e) ==> e.kind == ErrorKind::DecodeError,
{
    let words = decode_words32(data)?;
    let mut out: Vec<i32> = Vec::new();
    let mut i: usize = 0;
    while i < words.len()
        invariant
            i <= words@.len(),
            out@ =~= as_i32s(words@.take(i as int)),
        decreases words@.len() - i,
    {
        out.push(words[i] as i32);
        i = i + 1;
    }
    assert(words@.take(i as int) =~= words@);
    Ok(out)
}

/// Encodes INT64 values as 8-byte little-endian two's-complement elements.
pub fn encode_int64_tensor(values: &Vec<i64>) -> (r: Vec<u8>)
    ensures
        r@ == words64_le(i64_patterns(values@)),
{
    let mut words: Vec<u64> = Vec::new();
    let mut i: usize = 0;
    while i < values.len()
        invariant
            i <= values@.len(),
            words@ =~= i64_patterns(values@.take(i as int)),
        decreases values@.len() - i,
    {
        words.push(values[i] as u64);
        i = i + 1;
    }
    assert(values@.take(i as int) =~= values@);
    encode_words64(&words)
}

/// Decodes an INT64 tensor.
pub fn decode_int64_tensor(data: &[u8]) -> (r: Result<Vec<i64>, TritonError>)
    ensures
        r is Ok <==> data@.len() % 8 == 0,
        r matches Ok(v) ==> v@ == as_i64s(le64_words(data@)),
        r matches Err(e) ==> e.kind == ErrorKind::DecodeError,
{
    let words = decode_words64(data)?;
    let mut out: Vec<i64> = Vec::new();
    let mut i: usize = 0;
    while i < words.len()
        invariant
            i <= words@.len(),
            out@ =~= as_i64s(words@.take(i as int)),
        decreases words@.len() - i,
    {
        out.push(words[i] as i64);
        i = i + 1;
    }
    assert(words@.take(i as int) =~= words@);
    Ok(out)
}

/// One BYTES element: a 4-byte little-endian length, then the payload.
pub open spec fn frame(payload: Seq<u8>) -> Seq<u8> {
    spec_u32_to_le_bytes(payload.len() as u32) + payload
}

/// The BYTES buffer holding the given payloads, in order.
pub open spec fn frames(payloads: Seq<Seq<u8>>) -> Seq<u8>
    decreases payloads.len(),
{
    if payloads.len() == 0 {
        Seq::empty()
    } else {
        frame(payloads[0]) + frames(payloads.skip(1))
    }
}

/// The payloads of a BYTES buffer, or `None` where an element is truncated.
pub open spec fn parse_frames(b: Seq<u8>) -> Option<Seq<Seq<u8>>>
    decreases b.len(),
{
    if b.len() == 0 {
        Some(Seq::empty())
    } else if b.len() < 4 {
        None
    } else {
        let n = spec_u32_from_le_bytes(b.subrange(0, 4)) as int;
        if b.len() - 4 < n {
            None
        } else {
            match parse_frames(b.subrange(4 + n, b.len() as int)) {
                Some(rest) => Some(seq![b.subrange(4, 4 + n)] + rest),
                None => None,
            }
        }
    }
}

/// The strings a BYTES buffer decodes to, or `None` where it is truncated.
pub open spec fn decoded_strings(b: Seq<u8>) -> Option<Seq<Seq<char>>> {
    match parse_frames(b) {
        Some(ps) => Some(ps.map_values(|p: Seq<u8>| utf8_lossy(p))),
        None => None,
    }
}

/// The UTF-8 payloads of a list of strings.
pub open spec fn string_payloads(v: Seq<String>) -> Seq<Seq<u8>> {
    v.map_values(|s: String| encode_utf8(s@))
}

/// The characters of a list of strings.
pub open spec fn string_views(v: Seq<String>) -> Seq<Seq<char>> {
    v.map_values(|s: String| s@)
}

/// The payloads `done` put in front of a parse, where it succeeded.
pub open spec fn prepend_payloads(done: Seq<Seq<u8>>, o: Option<Seq<Seq<u8>>>) -> Option<
    Seq<Seq<u8>>,
> {
    match o {
        Some(r) => Some(done + r),
        None => None,
    }
}

/// Encodes one string as a BYTES element.
pub fn encode_string(value: &str) -> (r: Result<Vec<u8>, TritonError>)
    ensures
        r is Ok <==> value.spec_bytes().len() <= u32::MAX,
        r matches Ok(b) ==> b@ == frame(value.spec_bytes()),
        r matches Err(e) ==> e.kind == ErrorKind::EncodeError,
{
    let bytes = value.as_bytes();
    if bytes.len() as u64 > 0xffff_ffffu64 {
        return Err(TritonError::with_kind(ErrorKind::EncodeError, "string too long for its length prefix"));
    }
    let mut out = write_u32_le(bytes.len() as u32);
    out.extend_from_slice(bytes);
    Ok(out)
}

/// Decodes a BYTES buffer into its strings; fails where an element is truncated.
pub fn decode_string(data: &[u8]) -> (r: Result<Vec<String>, TritonError>)
    ensures
        r is Ok <==> parse_frames(data@) is Some,
        r matches Ok(v) ==> decoded_strings(data@) == Some(string_views(v@)),
        r matches Err(e) ==> e.kind == ErrorKind::DecodeError,
{
    let mut strings: Vec<String> = Vec::new();
    let mut pos: usize = 0;
    let ghost mut done: Seq<Seq<u8>> = Seq::empty();
    assert(data@.subrange(0, data@.len() as int) =~= data@);
    proof {
        if let Some(r) = parse_frames(data@) {
            assert(Seq::<Seq<u8>>::empty() + r =~= r);
        }
    }
    while pos < data.len()
        invariant
            pos <= data@.len(),
            parse_frames(data@) == prepend_payloads(
                done,
                parse_frames(data@.subrange(pos as int, data@.len() as int)),
            ),
            string_views(strings@) == done.map_values(|p: Seq<u8>| utf8_lossy(p)),
        decreases data@.len() - pos,
    {
        let ghost tail = data@.subrange(pos as int, data@.len() as int);
        if data.len() - pos < 4 {
            return Err(TritonError::with_kind(ErrorKind::DecodeError, "truncated length prefix"));
        }
        let n = read_u32_le(&data[pos..pos + 4]) as usize;
        assert(data@.subrange(pos as int, pos + 4).subrange(0, 4) =~= tail.subrange(0, 4));
        if data.len() - pos - 4 < n {
            return Err(TritonError::with_kind(ErrorKind::DecodeError, "truncated string element"));
        }
        let s = utf8_lossy_string(&data[pos + 4..pos + 4 + n]);
        let ghost payload = data@.subrange(pos + 4, pos + 4 + n);
        assert(tail.subrange(4, 4 + n) =~= payload);
        assert(tail.subrange(4 + n, tail.len() as int) =~= data@.subrange(
            pos + 4 + n,
            data@.len() as int,
        ));
        assert(s@ == utf8_lossy(payload));
        let ghost before = strings@;
        strings.push(s);
        proof {
            assert(string_views(strings@) =~= string_views(before).push(utf8_lossy(payload)));
            let o = parse_frames(data@.subrange(pos + 4 + n, data@.len() as int));
            if let Some(rest) = o {
                assert(done + (seq![payload] + rest) =~= done.push(payload) + rest);
            }
            assert(string_views(strings@) =~= done.push(payload).map_values(
                |p: Seq<u8>| utf8_lossy(p),
            ));
            done = done.push(payload);
        }
        pos = pos + 4 + n;
    }
    assert(data@.subrange(pos as int, data@.len() as int) =~= Seq::<u8>::empty());
    assert(done + Seq::<Seq<u8>>::empty() =~= done);
    Ok(strings)
}

/// Encodes a list of strings as a BYTES buffer, one element each, in order.
pub fn encode_string_tensor(values: &Vec<String>) -> (r: Result<Vec<u8>, TritonError>)
    ensures
        r is Ok <==> forall|i: int|
            0 <= i < values@.len() ==> encode_utf8((#[trigger] values@[i])@).len()
                <= u32::MAX,
        r matches Ok(b) ==> b@ == frames(string_payloads(values@)),
        r matches Err(e) ==> e.kind == ErrorKind::EncodeError,
{
    let mut out: Vec<u8> = Vec::new();
    let mut i: usize = values.len();
    let ghost all = string_payloads(values@);
    // Built from the back, so that each step puts one element in front.
    assert(all.skip(values@.len() as int) =~= Seq::<Seq<u8>>::empty());
    while i > 0
        invariant
            i <= values@.len(),
            all == string_payloads(values@),
            out@ == frames(all.skip(i as int)),
            forall|j: int|
                i <= j < values@.len() ==> encode_utf8((#[trigger] values@[j])@).len()
                    <= u32::MAX,
        decreases i,
    {
        i = i - 1;
        let element = encode_string(values[i].as_str());
        match element {
            Err(e) => {
                return Err(e);
            },
            Ok(mut bytes) => {
                assert(all.skip(i as int).skip(1) =~= all.skip(i + 1));
                bytes.append(&mut out);
                out = bytes;
            },
        }
    }
    assert(all.skip(0) =~= all);
    Ok(out)
}

/// Decodes a BYTES tensor into its strings; fails where an element is truncated.
pub fn decode_string_tensor(data: &[u8]) -> (r: Result<Vec<String>, TritonError>)
    ensures
        r is Ok <==> parse_frames(data@) is Some,
        r matches Ok(v) ==> decoded_strings(data@) == Some(string_views(v@)),
        r matches Err(e) ==> e.kind == ErrorKind::DecodeError,
{
    decode_string(data)
}

/// A string framed as one BYTES element and followed by any bytes decodes to
/// that string first, then to whatever those bytes decode to alone.
pub proof fn lemma_string_frame_round_trip(s: Seq<char>, rest: Seq<u8>)
    requires
        encode_utf8(s).len() <= u32::MAX,
    ensures
        decoded_strings(frame(encode_utf8(s)) + rest) == match decoded_strings(rest) {
            Some(l) => Some(seq![s] + l),
            None => None,
        },
{
    let p = encode_utf8(s);
    let b = frame(p) + rest;
    let n = p.len() as int;
    lemma_auto_spec_u32_to_from_le_bytes();
    assert(b.subrange(0, 4) =~= spec_u32_to_le_bytes(p.len() as u32));
    assert(b.subrange(4, 4 + n) =~= p);
    assert(b.subrange(4 + n, b.len() as int) =~= rest);
    if let Some(ps) = parse_frames(rest) {
        assert((seq![p] + ps).map_values(|q: Seq<u8>| utf8_lossy(q)) =~= seq![s] + ps.map_values(
            |q: Seq<u8>| utf8_lossy(q),
        ));
    }
}

/// A list of strings, each short enough for its length prefix, encoded as
/// BYTES and decoded gives back exactly that list.
pub proof fn lemma_string_list_round_trip(l: Seq<Seq<char>>)
    requires
        forall|i: int| 0 <= i < l.len() ==> (#[trigger] encode_utf8(l[i])).len() <= u32::MAX,
    ensures
        decoded_strings(frames(l.map_values(|s: Seq<char>| encode_utf8(s)))) == Some(l),
    decreases l.len(),
{
    let ps = l.map_values(|s: Seq<char>| encode_utf8(s));
    if l.len() == 0 {
        assert(Seq::<Seq<char>>::empty() =~= l);
        assert(Seq::<Seq<u8>>::empty().map_values(|q: Seq<u8>| utf8_lossy(q)) =~= l);
    } else {
        let t = l.skip(1);
        assert(ps.skip(1) =~= t.map_values(|s: Seq<char>| encode_utf8(s)));
        assert(encode_utf8(l[0]).len() <= u32::MAX);
        lemma_string_list_round_trip(t);
        lemma_string_frame_round_trip(l[0], frames(ps.skip(1)));
        assert(seq![l[0]] + t =~= l);
    }
}

/// A well-formed BYTES buffer whose payloads are valid UTF-8 decodes to
/// strings that encode back to exactly the same bytes.
pub proof fn lemma_string_bytes_round_trip(b: Seq<u8>)
    requires
        parse_frames(b) is Some,
        forall|i: int|
            0 <= i < parse_frames(b)->Some_0.len() ==> valid_utf8(
                #[trigger] parse_frames(b)->Some_0[i],
            ),
    ensures
        decoded_strings(b) matches Some(l) && frames(l.map_values(|s: Seq<char>| encode_utf8(s)))
            == b,
    decreases b.len(),
{
    broadcast use decode_utf8_encode_utf8;

    let ps = parse_frames(b)->Some_0;
    let l = ps.map_values(|p: Seq<u8>| utf8_lossy(p));
    if b.len() == 0 {
        assert(l.map_values(|s: Seq<char>| encode_utf8(s)) =~= Seq::<Seq<u8>>::empty());
        assert(frames(Seq::<Seq<u8>>::empty()) =~= b);
    } else {
        lemma_auto_spec_u32_to_from_le_bytes();
        let n = spec_u32_from_le_bytes(b.subrange(0, 4)) as int;
        let tail = b.subrange(4 + n, b.len() as int);
        let p = b.subrange(4, 4 + n);
        let rest = parse_frames(tail)->Some_0;
        assert(ps == seq![p] + rest);
        assert forall|i: int| 0 <= i < rest.len() implies valid_utf8(#[trigger] rest[i]) by {
            assert(ps[i + 1] == rest[i]);
        }
        lemma_string_bytes_round_trip(tail);
        assert(ps[0] == p);
        assert(valid_utf8(p));
        let lt = rest.map_values(|q: Seq<u8>| utf8_lossy(q));
        let es = l.map_values(|s: Seq<char>| encode_utf8(s));
        assert(es[0] == p);
        assert(es.skip(1) =~= lt.map_values(|s: Seq<char>| encode_utf8(s)));
        assert(p.len() as u32 == spec_u32_from_le_bytes(b.subrange(0, 4)));
        assert(spec_u32_to_le_bytes(spec_u32_from_le_bytes(b.subrange(0, 4))) == b.subrange(0, 4));
        assert(frame(p) + tail =~= b);
    }
}

/// Element `j` of a 4-byte layout is the layout of word `j`.
proof fn lemma_words32_element(v: Seq<u32>, j: int)
    requires
        0 <= j < v.len(),
    ensures
        words32_le(v).len() == 4 * v.len(),
        words32_le(v).subrange(4 * j, 4 * j + 4) == spec_u32_to_le_bytes(v[j]),
    decreases v.len(),
{
    lemma_auto_spec_u32_to_from_le_bytes();
    let w = v.drop_last();
    if j < v.len() - 1 {
        lemma_words32_element(w, j);
        assert(words32_le(v).subrange(4 * j, 4 * j + 4) =~= words32_le(w).subrange(4 * j, 4 * j + 4));
    } else {
        lemma_words32_len(w);
        assert(words32_le(v).subrange(4 * j, 4 * j + 4) =~= spec_u32_to_le_bytes(v[j]));
    }
}

proof fn lemma_words32_len(v: Seq<u32>)
    ensures
        words32_le(v).len() == 4 * v.len(),
    decreases v.len(),
{
    lemma_auto_spec_u32_to_from_le_bytes();
    if v.len() > 0 {
        lemma_words32_len(v.drop_last());
    }
}

/// Element `j` of an 8-byte layout is the layout of word `j`.
proof fn lemma_words64_element(v: Seq<u64>, j: int)
    requires
        0 <= j < v.len(),
    ensures
        words64_le(v).len() == 8 * v.len(),
        words64_le(v).subrange(8 * j, 8 * j + 8) == spec_u64_to_le_bytes(v[j]),
    decreases v.len(),
{
    lemma_auto_spec_u64_to_from_le_bytes();
    let w = v.drop_last();
    if j < v.len() - 1 {
        lemma_words64_element(w, j);
        assert(words64_le(v).subrange(8 * j, 8 * j + 8) =~= words64_le(w).subrange(8 * j, 8 * j + 8));
    } else {
        lemma_words64_len(w);
        assert(words64_le(v).subrange(8 * j, 8 * j + 8) =~= spec_u64_to_le_bytes(v[j]));
    }
}

proof fn lemma_words64_len(v: Seq<u64>)
    ensures
        words64_le(v).len() == 8 * v.len(),
    decreases v.len(),
{
    lemma_auto_spec_u64_to_from_le_bytes();
    if v.len() > 0 {
        lemma_words64_len(v.drop_last());
    }
}

/// FP32 bit patterns encoded and decoded come back bit for bit.
pub proof fn lemma_fp32_round_trip(bits: Seq<u32>)
    ensures
        words32_le(bits).len() % 4 == 0,
        le32_words(words32_le(bits)) == bits,
{
    lemma_auto_spec_u32_to_from_le_bytes();
    lemma_words32_len(bits);
    let b = words32_le(bits);
    assert(b.len() / 4 == bits.len());
    assert forall|j: int| 0 <= j < bits.len() implies le32_words(b)[j] == bits[j] by {
        lemma_words32_element(bits, j);
        assert(le32_words(b)[j] == spec_u32_from_le_bytes(b.subrange(4 * j, 4 * j + 4)));
        assert(spec_u32_to_le_bytes(bits[j]).len() == 4);
    }
    assert(le32_words(words32_le(bits)) =~= bits);
}

/// FP64 bit patterns encoded and decoded come back bit for bit.
pub proof fn lemma_fp64_round_trip(bits: Seq<u64>)
    ensures
        words64_le(bits).len() % 8 == 0,
        le64_words(words64_le(bits)) == bits,
{
    lemma_auto_spec_u64_to_from_le_bytes();
    lemma_words64_len(bits);
    let b = words64_le(bits);
    assert(b.len() / 8 == bits.len());
    assert forall|j: int| 0 <= j < bits.len() implies le64_words(b)[j] == bits[j] by {
        lemma_words64_element(bits, j);
        assert(le64_words(b)[j] == spec_u64_from_le_bytes(b.subrange(8 * j, 8 * j + 8)));
    }
    assert(le64_words(words64_le(bits)) =~= bits);
}

/// INT32 values encoded and decoded come back unchanged.
pub proof fn lemma_int32_round_trip(values: Seq<i32>)
    ensures
        words32_le(i32_patterns(values)).len() % 4 == 0,
        as_i32s(le32_words(words32_le(i32_patterns(values)))) == values,
{
    lemma_fp32_round_trip(i32_patterns(values));
    assert forall|j: int| 0 <= j < values.len() implies (values[j] as u32) as i32 == values[j] by {
        let x = values[j];
        assert((x as u32) as i32 == x) by (bit_vector);
    }
    assert(as_i32s(i32_patterns(values)) =~= values);
}

/// INT64 values encoded and decoded come back unchanged.
pub proof fn lemma_int64_round_trip(values: Seq<i64>)
    ensures
        words64_le(i64_patterns(values)).len() % 8 == 0,
        as_i64s(le64_words(words64_le(i64_patterns(values)))) == values,
{
    lemma_fp64_round_trip(i64_patterns(values));
    assert forall|j: int| 0 <= j < values.len() implies (values[j] as u64) as i64 == values[j] by {
        let x = values[j];
        assert((x as u64) as i64 == x) by (bit_vector);
    }
    assert(as_i64s(i64_patterns(values)) =~= values);
}

} // verus!
