use vstd::prelude::*;

verus! {

/// One codec of the fixed set applied to every discovered file.
#[derive(Clone, Copy, PartialEq, Eq, Structural, Debug)]
pub enum Codec {
    Brotli,
    Deflate,
    Gzip,
    Zstd,
}

/// The failure signal of one codec invocation. A codec either succeeds with
/// its compressed bytes or reports this error; the run never aborts on it.
#[derive(Clone, Copy, PartialEq, Eq, Structural, Debug)]
pub struct CodecError {}

/// The output-file suffix of each codec. Suffixes are pairwise distinct, so
/// distinct codecs never collide on an output path.
pub open spec fn suffix_spec(c: Codec) -> Seq<char> {
    match c {
        Codec::Brotli => seq!['.', 'b', 'r'],
        Codec::Deflate => seq!['.', 'd', 'e', 'f', 'l', 'a', 't', 'e'],
        Codec::Gzip => seq!['.', 'g', 'z'],
        Codec::Zstd => seq!['.', 'z', 's', 't', 'd'],
    }
}

/// The suffix appended to a source path to name a codec's output file.
pub fn suffix(c: Codec) -> (r: &'static str)
    ensures
        r@ == suffix_spec(c),
{
    proof {
        reveal_strlit(".br");
        reveal_strlit(".deflate");
        reveal_strlit(".gz");
        reveal_strlit(".zstd");
    }
    match c {
        Codec::Brotli => {
            assert(".br"@ =~= suffix_spec(c));
            ".br"
        },
        Codec::Deflate => {
            assert(".deflate"@ =~= suffix_spec(c));
            ".deflate"
        },
        Codec::Gzip => {
            assert(".gz"@ =~= suffix_spec(c));
            ".gz"
        },
        Codec::Zstd => {
            assert(".zstd"@ =~= suffix_spec(c));
            ".zstd"
        },
    }
}

/// The fixed, ordered codec set bound to every task.
pub open spec fn full_codec_set() -> Seq<Codec> {
    seq![Codec::Brotli, Codec::Deflate, Codec::Gzip, Codec::Zstd]
}

/// The fixed, ordered codec set bound to every task, as a vector.
pub fn codec_set() -> (r: Vec<Codec>)
    ensures
        r@ == full_codec_set(),
{
    let mut r: Vec<Codec> = Vec::new();
    r.push(Codec::Brotli);
    r.push(Codec::Deflate);
    r.push(Codec::Gzip);
    r.push(Codec::Zstd);
    proof {
        assert(r@ =~= full_codec_set());
    }
    r
}

/// What the brotli encoder, at quality 11 with a 22-bit window, produces for
/// given source bytes: a fixed-settings encoder, so a function of the bytes.
pub uninterp spec fn brotli_of(data: Seq<u8>) -> Seq<u8>;

/// What the deflate encoder at its default level produces for given source
/// bytes: a fixed-settings encoder, so a function of the bytes.
pub uninterp spec fn deflate_of(data: Seq<u8>) -> Seq<u8>;

/// What the gzip encoder at level 9 produces for given source bytes. The
/// header it writes is fixed (no name, zero time stamp, fixed system byte),
/// so the whole output is a function of the bytes.
pub uninterp spec fn gzip_of(data: Seq<u8>) -> Seq<u8>;

/// What the zstd encoder at its default level produces for given source
/// bytes: a fixed-settings encoder, so a function of the bytes.
pub uninterp spec fn zstd_of(data: Seq<u8>) -> Seq<u8>;

/// What one codec of the set produces for given source bytes.
pub open spec fn encoded_spec(c: Codec, data: Seq<u8>) -> Seq<u8> {
    match c {
        Codec::Brotli => brotli_of(data),
        Codec::Deflate => deflate_of(data),
        Codec::Gzip => gzip_of(data),
        Codec::Zstd => zstd_of(data),
    }
}

/// Relies on brotli::CompressorWriter with the fixed settings (4096-byte
/// buffer, quality 11, window 22): writing the source bytes once and closing
/// the writer yields output that depends on those bytes alone.
#[verifier::external_body]
fn brotli_bytes(data: &Vec<u8>) -> (r: Result<Vec<u8>, CodecError>)
    ensures
        r is Ok ==> r.unwrap()@ == brotli_of(data@),
{
    let mut out: Vec<u8> = Vec::new();
    let mut w = brotli::CompressorWriter::new(&mut out, 4096, 11, 22);
    if std::io::Write::write_all(&mut w, data.as_slice()).is_err() {
        return Err(CodecError {});
    }
    if std::io::Write::flush(&mut w).is_err() {
        return Err(CodecError {});
    }
    drop(w);
    Ok(out)
}

/// Relies on flate2::write::DeflateEncoder at the default compression level:
/// a raw deflate stream whose bytes depend on the source bytes alone.
#[verifier::external_body]
fn deflate_bytes(data: &Vec<u8>) -> (r: Result<Vec<u8>, CodecError>)
    ensures
        r is Ok ==> r.unwrap()@ == deflate_of(data@),
{
    let mut enc = flate2::write::DeflateEncoder::new(Vec::new(), flate2::Compression::default());
    if std::io::Write::write_all(&mut enc, data.as_slice()).is_err() {
        return Err(CodecError {});
    }
    match enc.finish() {
        Ok(out) => Ok(out),
        Err(_) => Err(CodecError {}),
    }
}

/// Relies on flate2::write::GzEncoder at level 9: its default header holds a
/// zero time stamp and a fixed system byte, so the output depends on the
/// source bytes alone.
#[verifier::external_body]
fn gzip_bytes(data: &Vec<u8>) -> (r: Result<Vec<u8>, CodecError>)
    ensures
        r is Ok ==> r.unwrap()@ == gzip_of(data@),
{
    let mut enc = flate2::write::GzEncoder::new(Vec::new(), flate2::Compression::new(9));
    if std::io::Write::write_all(&mut enc, data.as_slice()).is_err() {
        return Err(CodecError {});
    }
    match enc.finish() {
        Ok(out) => Ok(out),
        Err(_) => Err(CodecError {}),
    }
}

/// Relies on zstd::stream::encode_all at level 0 (the library's default
/// level): one zstd frame whose bytes depend on the source bytes alone.
#[verifier::external_body]
fn zstd_bytes(data: &Vec<u8>) -> (r: Result<Vec<u8>, CodecError>)
    ensures
        r is Ok ==> r.unwrap()@ == zstd_of(data@),
{
    match zstd::stream::encode_all(data.as_slice(), 0) {
        Ok(out) => Ok(out),
        Err(_) => Err(CodecError {}),
    }
}

/// Encode source bytes with one codec of the set. The encoder decides
/// success; on success the output is that codec's one output for these bytes.
pub fn encode(c: Codec, data: &Vec<u8>) -> (r: Result<Vec<u8>, CodecError>)
    ensures
        r is Ok ==> r.unwrap()@ == encoded_spec(c, data@),
{
    match c {
        Codec::Brotli => brotli_bytes(data),
        Codec::Deflate => deflate_bytes(data),
        Codec::Gzip => gzip_bytes(data),
        Codec::Zstd => zstd_bytes(data),
    }
}

/// Law: every codec's settings are fixed, so its output depends on the
/// source bytes alone: encoding the same bytes twice with the same codec
/// gives byte-identical outputs.
pub proof fn lemma_encoding_idempotent(c: Codec, data: Seq<u8>, r1: Seq<u8>, r2: Seq<u8>)
    requires
        r1 == encoded_spec(c, data),
        r2 == encoded_spec(c, data),
    ensures
        r1 == r2,
{
}

} // verus!
