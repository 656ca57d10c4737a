use vstd::prelude::*;
use vstd::arithmetic::power2::pow2;
use vstd::string::StringExecFns;

use crate::http_types::{string_from_utf8, ResponseData};
use crate::statsig_err::StatsigErr;

verus! {

/// Size of the decompression buffer and of each read from the decompressor.
pub const BUFFER_SIZE: usize = 4096;

/// A brotli decompressor reading from a byte slice. `brotli::Decompressor` is generic over a
/// parameter bounded by `std::io::Read`, which a type declaration here cannot carry, so the
/// decompressor is held in this opaque struct.
#[verifier::external_body]
pub struct BrotliStream<'a> {
    inner: brotli::Decompressor<&'a [u8]>,
}

/// The decompressed bytes of `input` when it is one complete brotli stream (valid, with
/// nothing after its end); `None` for any other input.
pub uninterp spec fn brotli_decompressed(input: Seq<u8>) -> Option<Seq<u8>>;

/// The decompressed bytes a stream has still to hand out, when its input is a complete
/// brotli stream; `None` otherwise.
pub uninterp spec fn brotli_pending(d: BrotliStream) -> Option<Seq<u8>>;

#[verifier::external_type_specification]
#[verifier::external_body]
pub struct ExBytesMut(bytes::BytesMut);

/// The bytes a `BytesMut` buffer holds.
pub uninterp spec fn bytes_mut_contents(b: bytes::BytesMut) -> Seq<u8>;

/// `BytesMut::new`: an empty buffer.
#[verifier::external_body]
fn bytes_mut_new() -> (r: bytes::BytesMut)
    ensures
        bytes_mut_contents(r) == Seq::<u8>::empty(),
{
    bytes::BytesMut::new()
}

/// `BytesMut::len`: the number of bytes held.
#[verifier::external_body]
fn bytes_mut_len(b: &bytes::BytesMut) -> (r: usize)
    ensures
        r == bytes_mut_contents(*b).len(),
{
    b.len()
}

/// `BytesMut::extend_from_slice`: appends the bytes of a slice.
#[verifier::external_body]
fn bytes_mut_extend(b: &mut bytes::BytesMut, data: &[u8])
    ensures
        bytes_mut_contents(*final(b)) == bytes_mut_contents(*old(b)) + data@,
{
    b.extend_from_slice(data)
}

/// `BytesMut::split_to`: removes the first `at` bytes and returns them as a buffer of their
/// own (it panics when `at` exceeds the length, which `requires` rules out).
#[verifier::external_body]
fn bytes_mut_split_to(b: &mut bytes::BytesMut, at: usize) -> (r: bytes::BytesMut)
    requires
        at <= bytes_mut_contents(*old(b)).len(),
    ensures
        bytes_mut_contents(r) == bytes_mut_contents(*old(b)).take(at as int),
        bytes_mut_contents(*final(b)) == bytes_mut_contents(*old(b)).skip(at as int),
{
    b.split_to(at)
}

/// `BytesMut::to_vec` (through `as_ref`): the bytes held.
#[verifier::external_body]
fn bytes_mut_to_vec(b: &bytes::BytesMut) -> (r: Vec<u8>)
    ensures
        r@ == bytes_mut_contents(*b),
{
    b.as_ref().to_vec()
}

/// `brotli::Decompressor::new` over a byte slice, with the given buffer size: a stream that
/// has handed out nothing yet, so all of the input's decompressed bytes are pending.
#[verifier::external_body]
fn new_decompressor<'a>(data: &'a [u8], buffer_size: usize) -> (r: BrotliStream<'a>)
    ensures
        brotli_pending(r) == brotli_decompressed(data@),
{
    BrotliStream { inner: brotli::Decompressor::new(data, buffer_size) }
}

/// `Read::read` of a brotli decompressor into a non-empty `buf`: the number of bytes written
/// to the start of `buf` (never more than its length), or the text of the I/O error. Over a
/// complete stream a read never fails: it hands out the next pending bytes, at least one
/// while any are pending, and `0` once all were handed out. Over any other input, which
/// bytes come before the failure is not stated: the decompressor reports an error where the
/// input ends early or is corrupt, and may drop the bytes it decoded within that read.
#[verifier::external_body]
fn decompressor_read(d: &mut BrotliStream, buf: &mut Vec<u8>) -> (r: Result<usize, String>)
    requires
        old(buf)@.len() > 0,
    ensures
        final(buf)@.len() == old(buf)@.len(),
        r matches Ok(n) ==> n <= old(buf)@.len(),
        brotli_pending(*old(d)) is None ==> brotli_pending(*final(d)) is None,
        brotli_pending(*old(d)) matches Some(p) ==> (r matches Ok(n) && n <= p.len() && (n == 0
            <==> p.len() == 0) && final(buf)@.take(n as int) == p.take(n as int) && brotli_pending(
            *final(d),
        ) == Some(p.skip(n as int))),
{
    std::io::Read::read(&mut d.inner, buf.as_mut_slice()).map_err(|e| e.to_string())
}

/// The value of the first `n` bytes of a LEB128 varint (seven bits per byte, least
/// significant group first).
pub open spec fn varint_value(bytes: Seq<u8>, n: nat) -> nat
    decreases n,
{
    if n == 0 {
        0
    } else {
        varint_value(bytes, (n - 1) as nat) + ((bytes[n - 1] % 128) as nat) * pow2((7 * (n - 1)) as nat)
    }
}

/// Position of the first byte below `0x80` among the first ten bytes, from `i` on.
pub open spec fn varint_end(bytes: Seq<u8>, i: int) -> Option<int>
    decreases 10 - i,
{
    if i < 0 || i >= 10 || i >= bytes.len() {
        None
    } else if bytes[i] < 128 {
        Some(i)
    } else {
        varint_end(bytes, i + 1)
    }
}

/// `prost::decode_length_delimiter`: the varint at the start of the bytes, when it ends
/// within ten bytes, does not overflow 64 bits (a tenth byte above 1) and fits in a `usize`.
pub open spec fn spec_decode_length_delimiter(bytes: Seq<u8>) -> Option<nat> {
    match varint_end(bytes, 0) {
        None => None,
        Some(i) => if i == 9 && bytes[9] >= 2 {
            None
        } else if varint_value(bytes, (i + 1) as nat) > usize::MAX {
            None
        } else {
            Some(varint_value(bytes, (i + 1) as nat))
        },
    }
}

/// Number of bytes of the varint encoding of `v`: one per started group of seven bits.
pub open spec fn varint_len(v: nat) -> nat
    decreases v,
{
    if v < 128 {
        1
    } else {
        1 + varint_len(v / 128)
    }
}

/// `prost::decode_length_delimiter` on a byte slice; the error is given as text.
#[verifier::external_body]
fn decode_length_delimiter(bytes: &[u8]) -> (r: Result<usize, String>)
    ensures
        r is Ok <==> spec_decode_length_delimiter(bytes@) is Some,
        r matches Ok(v) ==> spec_decode_length_delimiter(bytes@) == Some(v as nat),
{
    prost::decode_length_delimiter(bytes).map_err(|e| e.to_string())
}

/// `prost::length_delimiter_len`: the length of the varint encoding of a length.
#[verifier::external_body]
fn length_delimiter_len(length: usize) -> (r: usize)
    ensures
        r == varint_len(length as nat),
{
    prost::length_delimiter_len(length)
}

/// A frame cut from the front of a stream whose remainder is `rest`: the stream starts with
/// a varint length `d`, and the frame holds the length's canonical size plus `d` bytes.
pub open spec fn frame_fits(frame: Seq<u8>, rest: Seq<u8>) -> bool {
    match spec_decode_length_delimiter(frame + rest) {
        Some(d) => frame.len() == varint_len(d) + d,
        None => false,
    }
}

/// The size of the frame announced at the start of the bytes (the length prefix's canonical
/// size plus the length it gives), when the length decodes and the size fits in a `usize`.
pub open spec fn spec_frame_size(bytes: Seq<u8>) -> Option<nat> {
    match spec_decode_length_delimiter(bytes) {
        Some(d) => if varint_len(d) + d <= usize::MAX {
            Some(varint_len(d) + d)
        } else {
            None
        },
        None => None,
    }
}

/// The size of the complete frame at the start of the bytes: as announced, when the bytes
/// hold all of it.
pub open spec fn spec_next_frame(bytes: Seq<u8>) -> Option<nat> {
    match spec_frame_size(bytes) {
        Some(n) => if n <= bytes.len() {
            Some(n)
        } else {
            None
        },
        None => None,
    }
}

/// The size of the frame announced at the start of the bytes; an error when its length
/// cannot be decoded or the size does not fit in a `usize`.
pub fn frame_length(bytes: &[u8]) -> (r: Result<usize, StatsigErr>)
    ensures
        r is Ok <==> spec_frame_size(bytes@) is Some,
        r matches Ok(n) ==> spec_frame_size(bytes@) == Some(n as nat),
        r matches Err(e) ==> e is ProtobufParseError,
{
    let data_len = match decode_length_delimiter(bytes) {
        Ok(d) => d,
        Err(e) => {
            return Err(StatsigErr::ProtobufParseError(String::from_str("DecodeLengthDelimiter"), e));
        },
    };
    let prefix_len = length_delimiter_len(data_len);
    match data_len.checked_add(prefix_len) {
        Some(total) => Ok(total),
        None => Err(
            StatsigErr::ProtobufParseError(
                String::from_str("DecodeLengthDelimiter"),
                String::from_str("length delimiter too large"),
            ),
        ),
    }
}

/// Cuts the complete frame at the start of the bytes: the frame (length prefix and message)
/// and the bytes after it; `None` when the bytes hold no complete frame.
pub fn cut_frame(bytes: &[u8]) -> (r: Option<(Vec<u8>, Vec<u8>)>)
    ensures
        r is Some <==> spec_next_frame(bytes@) is Some,
        r matches Some((frame, rest)) ==> frame@ == bytes@.take(spec_next_frame(bytes@)->0 as int)
            && rest@ == bytes@.skip(spec_next_frame(bytes@)->0 as int),
{
    let n = match frame_length(bytes) {
        Ok(n) => n,
        Err(_) => return None,
    };
    if n > bytes.len() {
        return None;
    }
    let mut frame: Vec<u8> = Vec::new();
    let mut rest: Vec<u8> = Vec::new();
    let mut i: usize = 0;
    while i < bytes.len()
        invariant
            i <= bytes.len(),
            n <= bytes.len(),
            frame@ == bytes@.take(if i < n { i as int } else { n as int }),
            rest@ == (if i < n { Seq::<u8>::empty() } else { bytes@.subrange(n as int, i as int) }),
        decreases bytes.len() - i,
    {
        if i < n {
            frame.push(bytes[i]);
            assert(bytes@.take(i + 1) =~= bytes@.take(i as int).push(bytes@[i as int]));
        } else {
            rest.push(bytes[i]);
            assert(bytes@.subrange(n as int, i + 1) =~= bytes@.subrange(n as int, i as int).push(
                bytes@[i as int],
            ));
        }
        i = i + 1;
    }
    assert(rest@ =~= bytes@.skip(n as int));
    Some((frame, rest))
}

/// Reads length-delimited protobuf messages from a brotli-compressed body.
pub struct ProtoStreamReader<'a> {
    brotli_decompressor: BrotliStream<'a>,
    scratch: Vec<u8>,
    buf: bytes::BytesMut,
}

/// The first `n` bytes of a vector.
fn prefix_of(v: &Vec<u8>, n: usize) -> (r: Vec<u8>)
    requires
        n <= v.len(),
    ensures
        r@ == v@.take(n as int),
{
    let mut r: Vec<u8> = Vec::new();
    let mut i: usize = 0;
    while i < n
        invariant
            i <= n <= v.len(),
            r@ == v@.take(i as int),
        decreases n - i,
    {
        r.push(v[i]);
        assert(v@.take(i + 1) =~= v@.take(i as int).push(v@[i as int]));
        i = i + 1;
    }
    r
}

/// One read from the decompressor into `scratch`, whose bytes are appended to `buf`: the
/// number of bytes read, or the decompressor's error (the buffer is then unchanged).
fn fill_from(stream: &mut BrotliStream, buf: &mut bytes::BytesMut, scratch: &mut Vec<u8>) -> (r: Result<
    usize,
    String,
>)
    requires
        old(scratch)@.len() > 0,
    ensures
        final(scratch)@.len() == old(scratch)@.len(),
        r matches Ok(n) ==> n <= old(scratch)@.len() && bytes_mut_contents(*final(buf))
            == bytes_mut_contents(*old(buf)) + final(scratch)@.take(n as int),
        r is Err ==> bytes_mut_contents(*final(buf)) == bytes_mut_contents(*old(buf)),
        brotli_pending(*old(stream)) is None ==> brotli_pending(*final(stream)) is None,
        brotli_pending(*old(stream)) matches Some(p) ==> (r matches Ok(n) && n <= p.len() && (n
            == 0 <==> p.len() == 0) && final(scratch)@.take(n as int) == p.take(n as int)
            && brotli_pending(*final(stream)) == Some(p.skip(n as int))),
{
    match decompressor_read(stream, scratch) {
        Ok(n) => {
            let chunk = prefix_of(scratch, n);
            bytes_mut_extend(buf, chunk.as_slice());
            Ok(n)
        },
        Err(e) => Err(e),
    }
}

impl<'a> ProtoStreamReader<'a> {
    /// The bytes read from the stream but not yet handed out.
    pub closed spec fn buffered(&self) -> Seq<u8> {
        bytes_mut_contents(self.buf)
    }

    /// The decompressed bytes not yet handed out, from the reader's position to the end of
    /// the body, when the body is a complete brotli stream; `None` otherwise.
    pub closed spec fn remaining(&self) -> Option<Seq<u8>> {
        match brotli_pending(self.brotli_decompressor) {
            Some(p) => Some(self.buffered() + p),
            None => None,
        }
    }

    /// The scratch space has room for one read.
    pub closed spec fn well_formed(&self) -> bool {
        self.scratch@.len() == BUFFER_SIZE
    }

    /// A reader over the body of a response, at the start of its decompressed bytes.
    pub fn new(data: &'a ResponseData) -> (r: Self)
        ensures
            r.well_formed(),
            r.buffered() == Seq::<u8>::empty(),
            r.remaining() == brotli_decompressed(data.body()),
    {
        let brotli_decompressor = new_decompressor(data.get_stream_ref().as_slice(), BUFFER_SIZE);
        let mut scratch: Vec<u8> = Vec::new();
        let mut i: usize = 0;
        while i < BUFFER_SIZE
            invariant
                i <= BUFFER_SIZE,
                scratch@.len() == i,
            decreases BUFFER_SIZE - i,
        {
            scratch.push(0u8);
            i = i + 1;
        }
        let r = ProtoStreamReader { brotli_decompressor, scratch, buf: bytes_mut_new() };
        assert(r.buffered() + brotli_pending(r.brotli_decompressor)->0 =~= brotli_pending(
            r.brotli_decompressor,
        )->0);
        r
    }

    /// Buffers at least the ten bytes a length prefix may take (fewer only at the end of the
    /// stream) and decodes the length at the start of the buffer; the result is the size of
    /// the whole frame (length prefix and message).
    fn read_length_delimiter(&mut self) -> (r: Result<usize, StatsigErr>)
        requires
            old(self).well_formed(),
        ensures
            final(self).well_formed(),
            exists|read: Seq<u8>| final(self).buffered() == old(self).buffered() + read,
            r matches Ok(n) ==> spec_decode_length_delimiter(final(self).buffered()) matches Some(d)
                && n == varint_len(d) + d,
            r matches Err(e) ==> e is ProtobufParseError,
            old(self).remaining() is None ==> final(self).remaining() is None,
            old(self).remaining() matches Some(rem) ==> final(self).remaining() == Some(rem) && (
            r is Ok <==> spec_frame_size(rem) is Some) && (r matches Ok(n) ==> spec_frame_size(rem)
                == Some(n as nat)),
    {
        let mut len_buf: Vec<u8> = vec![0u8, 0u8, 0u8, 0u8, 0u8, 0u8, 0u8, 0u8, 0u8, 0u8];
        let ghost start = self.buffered();
        assert(self.buffered() == start + Seq::<u8>::empty());
        let mut ended = false;
        while !ended && bytes_mut_len(&self.buf) < 10
            invariant
                self.well_formed(),
                len_buf@.len() == 10,
                exists|read: Seq<u8>| self.buffered() == start + read,
                start == old(self).buffered(),
                old(self).remaining() is None ==> self.remaining() is None,
                old(self).remaining() is Some ==> self.remaining() == old(self).remaining(),
                ended && self.remaining() is Some ==> brotli_pending(self.brotli_decompressor)
                    == Some(Seq::<u8>::empty()),
            decreases (if ended {
                0
            } else if self.buffered().len() >= 10 {
                1
            } else {
                11 - self.buffered().len()
            }),
        {
            let ghost prev = self.buffered();
            match fill_from(&mut self.brotli_decompressor, &mut self.buf, &mut len_buf) {
                Ok(n) => {
                    proof {
                        let read0 = choose|read: Seq<u8>| prev == start + read;
                        assert(self.buffered() =~= start + (read0 + len_buf@.take(n as int)));
                        if old(self).remaining() is Some {
                            let p = brotli_pending(self.brotli_decompressor);
                            assert(self.buffered() + p->0 =~= old(self).remaining()->0);
                        }
                    }
                    if n == 0 {
                        ended = true;
                    }
                },
                Err(e) => {
                    return Err(StatsigErr::ProtobufParseError(String::from_str("ReadLengthDelimiter"), e));
                },
            }
        }
        proof {
            if old(self).remaining() is Some {
                let rem = old(self).remaining()->0;
                let b = self.buffered();
                let p = brotli_pending(self.brotli_decompressor)->0;
                assert(rem == b + p);
                assert(rem.take(b.len() as int) =~= b);
                lemma_decode_leading(b, rem);
            }
        }
        let contents = bytes_mut_to_vec(&self.buf);
        frame_length(contents.as_slice())
    }

    /// The next frame of the stream: its varint length prefix and the message bytes. Over a
    /// complete brotli body, the result is the frame at the reader's position when the rest
    /// of the body holds all of it, and the reader moves past it; otherwise an error (a length
    /// that cannot be decoded, or a body that ends inside the frame). Over any other body,
    /// the frames handed out, followed by what stays buffered, are the bytes read so far in
    /// order, and reading fails where the decompressor does.
    pub fn read_next_delimited_proto(&mut self) -> (r: Result<bytes::BytesMut, StatsigErr>)
        requires
            old(self).well_formed(),
        ensures
            final(self).well_formed(),
            old(self).remaining() matches Some(rem) ==> match spec_next_frame(rem) {
                Some(n) => r matches Ok(frame) && bytes_mut_contents(frame) == rem.take(n as int)
                    && final(self).remaining() == Some(rem.skip(n as int)),
                None => r matches Err(e) && e is ProtobufParseError,
            },
            old(self).remaining() is None ==> final(self).remaining() is None,
            r matches Ok(frame) ==> frame_fits(bytes_mut_contents(frame), final(self).buffered()) && exists|
                read: Seq<u8>,
            | bytes_mut_contents(frame) + final(self).buffered() == old(self).buffered() + read,
            r is Err ==> exists|read: Seq<u8>| final(self).buffered() == old(self).buffered() + read,
            r matches Err(e) ==> e is ProtobufParseError,
    {
        let required_len = match self.read_length_delimiter() {
            Ok(n) => n,
            Err(e) => return Err(e),
        };
        let ghost start = old(self).buffered();
        let ghost header = self.buffered();
        while bytes_mut_len(&self.buf) < required_len
            invariant
                self.well_formed(),
                header.len() <= self.buffered().len(),
                self.buffered().take(header.len() as int) == header,
                spec_decode_length_delimiter(header) matches Some(d) && required_len == varint_len(d)
                    + d,
                start == old(self).buffered(),
                exists|read: Seq<u8>| self.buffered() == start + read,
                old(self).remaining() is None ==> self.remaining() is None,
                old(self).remaining() is Some ==> self.remaining() == old(self).remaining(),
                old(self).remaining() matches Some(rem) ==> spec_frame_size(rem) == Some(
                    required_len as nat,
                ),
            decreases (if self.buffered().len() < required_len {
                required_len - self.buffered().len()
            } else {
                0
            }),
        {
            let ghost prev = self.buffered();
            match fill_from(&mut self.brotli_decompressor, &mut self.buf, &mut self.scratch) {
                Ok(n) => {
                    proof {
                        let read0 = choose|read: Seq<u8>| prev == start + read;
                        assert(self.buffered() =~= start + (read0 + self.scratch@.take(n as int)));
                        assert(self.buffered().take(header.len() as int) =~= prev.take(
                            header.len() as int,
                        ));
                        if old(self).remaining() is Some {
                            let p = brotli_pending(self.brotli_decompressor);
                            assert(self.buffered() + p->0 =~= old(self).remaining()->0);
                        }
                    }
                    if n == 0 {
                        proof {
                            if old(self).remaining() is Some {
                let rem = old(self).remaining()->0;
                                assert(rem =~= prev);
                            }
                        }
                        return Err(
                            StatsigErr::ProtobufParseError(
                                String::from_str("BrotliDecompressorRead"),
                                String::from_str("stream ended inside a message"),
                            ),
                        );
                    }
                },
                Err(e) => {
                    return Err(
                        StatsigErr::ProtobufParseError(String::from_str("BrotliDecompressorRead"), e),
                    );
                },
            }
        }
        let ghost full = self.buffered();
        let frame = bytes_mut_split_to(&mut self.buf, required_len);
        proof {
            assert(bytes_mut_contents(frame) + self.buffered() =~= full);
            lemma_decode_prefix(header, full);
            if old(self).remaining() is Some {
                let rem = old(self).remaining()->0;
                let p = brotli_pending(self.brotli_decompressor)->0;
                assert(rem == full + p);
                assert(bytes_mut_contents(frame) =~= rem.take(required_len as int));
                assert(self.buffered() + p =~= rem.skip(required_len as int));
            }
        }
        Ok(frame)
    }

    /// The start of the buffered bytes (at most a hundred) as text; empty when they are not
    /// valid UTF-8.
    pub fn sample_current_buf(&self) -> (r: String)
        ensures
            ({
                let s = self.buffered().take(
                    if self.buffered().len() < 100 {
                        self.buffered().len() as int
                    } else {
                        100
                    },
                );
                r@ == (if vstd::utf8::valid_utf8(s) {
                    vstd::utf8::decode_utf8(s)
                } else {
                    Seq::empty()
                })
            }),
    {
        let contents = bytes_mut_to_vec(&self.buf);
        let n = if contents.len() < 100 {
            contents.len()
        } else {
            100
        };
        let sample = prefix_of(&contents, n);
        match string_from_utf8(sample) {
            Ok(s) => s,
            Err(_) => String::new(),
        }
    }
}

/// The varint at the start of a byte sequence is read from its first ten bytes at most, so
/// any sequence that starts with the same bytes up to the varint's end decodes the same.
proof fn lemma_varint_end_prefix(a: Seq<u8>, b: Seq<u8>, i: int)
    requires
        0 <= i,
        a.len() <= b.len(),
        b.take(a.len() as int) == a,
        varint_end(a, i) is Some,
    ensures
        varint_end(b, i) == varint_end(a, i),
    decreases 10 - i,
{
    if i < 10 && i < a.len() {
        assert(b[i] == b.take(a.len() as int)[i]);
        if a[i] >= 128 {
            lemma_varint_end_prefix(a, b, i + 1);
        }
    }
}

/// The value of the first `n` bytes only depends on those bytes.
proof fn lemma_varint_value_prefix(a: Seq<u8>, b: Seq<u8>, n: nat)
    requires
        n <= a.len(),
        n <= b.len(),
        forall|k: int| 0 <= k < n ==> a[k] == b[k],
    ensures
        varint_value(a, n) == varint_value(b, n),
    decreases n,
{
    if n > 0 {
        lemma_varint_value_prefix(a, b, (n - 1) as nat);
    }
}

/// Decoding a length reads only the bytes up to the varint's end, so a longer sequence
/// that starts with a decodable one decodes the same.
proof fn lemma_decode_prefix(a: Seq<u8>, b: Seq<u8>)
    requires
        a.len() <= b.len(),
        b.take(a.len() as int) == a,
        spec_decode_length_delimiter(a) is Some,
    ensures
        spec_decode_length_delimiter(b) == spec_decode_length_delimiter(a),
{
    lemma_varint_end_prefix(a, b, 0);
    let i = varint_end(a, 0)->0;
    lemma_varint_end_bounds(a, 0);
    assert forall|k: int| 0 <= k < i + 1 implies a[k] == b[k] by {
        assert(b.take(a.len() as int)[k] == b[k]);
    }
    lemma_varint_value_prefix(a, b, (i + 1) as nat);
}

/// The end of a varint lies within the sequence and within its first ten bytes.
proof fn lemma_varint_end_bounds(a: Seq<u8>, i: int)
    requires
        0 <= i,
    ensures
        varint_end(a, i) matches Some(j) ==> i <= j < 10 && j < a.len() && a[j] < 128,
    decreases 10 - i,
{
    if i < 10 && i < a.len() && a[i] >= 128 {
        lemma_varint_end_bounds(a, i + 1);
    }
}


/// A sequence that holds the first ten bytes of another (or all of it) decodes the same
/// length: the varint ends within those bytes.
proof fn lemma_decode_leading(a: Seq<u8>, b: Seq<u8>)
    requires
        a.len() <= b.len(),
        b.take(a.len() as int) == a,
        a.len() >= 10 || a.len() == b.len(),
    ensures
        spec_decode_length_delimiter(a) == spec_decode_length_delimiter(b),
{
    lemma_varint_end_bounds(b, 0);
    if varint_end(b, 0) is Some {
        let i = varint_end(b, 0)->0;
        let c = b.take(i + 1);
        assert(c =~= a.take(i + 1));
        lemma_varint_end_leading(c, b, 0);
        lemma_varint_end_prefix(c, a, 0);
        assert forall|k: int| 0 <= k < i + 1 implies a[k] == b[k] by {
            assert(b.take(a.len() as int)[k] == b[k]);
        }
        lemma_varint_value_prefix(a, b, (i + 1) as nat);
    } else if varint_end(a, 0) is Some {
        lemma_varint_end_prefix(a, b, 0);
    }
}

/// The end of a varint found in a sequence is found in its prefix up to that end.
proof fn lemma_varint_end_leading(c: Seq<u8>, b: Seq<u8>, i: int)
    requires
        0 <= i,
        varint_end(b, i) matches Some(j) && c == b.take(j + 1),
    ensures
        varint_end(c, i) == varint_end(b, i),
    decreases 10 - i,
{
    lemma_varint_end_bounds(b, i);
    let j = varint_end(b, i)->0;
    if i < j {
        assert(c[i] == b[i]);
        lemma_varint_end_leading(c, b, i + 1);
    } else {
        assert(c[i] == b[i]);
    }
}

/// The first `k` frames at the start of the bytes, cut in turn, with the bytes after them;
/// `None` when fewer than `k` complete frames are there.
pub open spec fn cut_frames(bytes: Seq<u8>, k: nat) -> Option<(Seq<Seq<u8>>, Seq<u8>)>
    decreases k,
{
    if k == 0 {
        Some((Seq::empty(), bytes))
    } else {
        match cut_frames(bytes, (k - 1) as nat) {
            Some((frames, rest)) => match spec_next_frame(rest) {
                Some(n) => Some((frames.push(rest.take(n as int)), rest.skip(n as int))),
                None => None,
            },
            None => None,
        }
    }
}

/// Successive reads hand out the frames of a body in order: when each read of a sequence
/// returned the frame at the position it started from and moved past it (as
/// `read_next_delimited_proto` does over a complete body), the `i`-th read returned the
/// `i`-th frame of the body.
pub proof fn lemma_reads_give_frames_in_order(positions: Seq<Seq<u8>>, frames: Seq<Seq<u8>>)
    requires
        positions.len() == frames.len() + 1,
        forall|i: int|
            0 <= i < frames.len() ==> (#[trigger] spec_next_frame(positions[i])) is Some
                && frames[i] == positions[i].take(spec_next_frame(positions[i])->0 as int)
                && positions[i + 1] == positions[i].skip(spec_next_frame(positions[i])->0 as int),
    ensures
        cut_frames(positions[0], frames.len()) == Some((frames, positions[frames.len() as int])),
    decreases frames.len(),
{
    if frames.len() > 0 {
        let k = (frames.len() - 1) as int;
        let fs = frames.take(k);
        let ps = positions.take(k + 1);
        assert forall|i: int| 0 <= i < fs.len() implies (#[trigger] spec_next_frame(ps[i])) is Some
            && fs[i] == ps[i].take(spec_next_frame(ps[i])->0 as int) && ps[i + 1] == ps[i].skip(
            spec_next_frame(ps[i])->0 as int,
        ) by {
            assert(ps[i] == positions[i] && ps[i + 1] == positions[i + 1] && fs[i] == frames[i]);
            assert(spec_next_frame(positions[i]) is Some);
        }
        lemma_reads_give_frames_in_order(ps, fs);
        assert(spec_next_frame(positions[k]) is Some);
        assert(fs.push(frames[k]) =~= frames);
    }
}

/// The frames written one after another.
pub open spec fn concat_frames(frames: Seq<Seq<u8>>) -> Seq<u8>
    decreases frames.len(),
{
    if frames.len() == 0 {
        Seq::empty()
    } else {
        frames[0] + concat_frames(frames.skip(1))
    }
}

/// The bytes are exactly one complete frame: a length prefix and that many message bytes.
pub open spec fn is_frame(f: Seq<u8>) -> bool {
    spec_next_frame(f) == Some(f.len())
}

/// A complete frame at the start of longer bytes is cut there whatever follows it.
proof fn lemma_frame_then_rest(f: Seq<u8>, rest: Seq<u8>)
    requires
        is_frame(f),
    ensures
        spec_next_frame(f + rest) == Some(f.len()),
        (f + rest).take(f.len() as int) == f,
        (f + rest).skip(f.len() as int) == rest,
{
    assert((f + rest).take(f.len() as int) =~= f);
    assert((f + rest).skip(f.len() as int) =~= rest);
    lemma_decode_prefix(f, f + rest);
}

/// A body made of complete frames reads back as those frames: cutting frames from its
/// start gives each of them in order and leaves nothing, after which no frame is left to
/// read (so a reader over it hands out the `i`-th frame on its `i`-th read, and fails on
/// the read after the last).
pub proof fn lemma_concatenated_frames_read_back(frames: Seq<Seq<u8>>)
    requires
        forall|i: int| 0 <= i < frames.len() ==> is_frame(#[trigger] frames[i]),
    ensures
        cut_frames(concat_frames(frames), frames.len()) == Some((frames, Seq::<u8>::empty())),
        spec_next_frame(Seq::<u8>::empty()) is None,
{
    let k = frames.len();
    let positions = Seq::new((k + 1) as nat, |i: int| concat_frames(frames.skip(i)));
    assert forall|i: int| 0 <= i < k implies (#[trigger] spec_next_frame(positions[i])) is Some
        && frames[i] == positions[i].take(spec_next_frame(positions[i])->0 as int)
        && positions[i + 1] == positions[i].skip(spec_next_frame(positions[i])->0 as int) by {
        let t = frames.skip(i);
        assert(t[0] == frames[i]);
        assert(t.skip(1) =~= frames.skip(i + 1));
        assert(positions[i] == frames[i] + concat_frames(frames.skip(i + 1)));
        lemma_frame_then_rest(frames[i], concat_frames(frames.skip(i + 1)));
    }
    lemma_reads_give_frames_in_order(positions, frames);
    assert(frames.skip(0) =~= frames);
    assert(frames.skip(k as int) =~= Seq::<Seq<u8>>::empty());
}

} // verus!
