use std::io::Read;

use ui_build_compression::codec::{codec_set, encode, suffix, Codec};
use ui_build_compression::task::{
    apply_codec, execute_task, output_path, summarize, CompressionTask,
};

fn sample_bytes() -> Vec<u8> {
    let mut data = Vec::new();
    for i in 0..2000u32 {
        data.push((i % 251) as u8);
        data.push(b'a');
        data.push(b'b');
    }
    data
}

#[test]
fn codec_set_is_fixed_and_ordered() {
    let set = codec_set();
    assert_eq!(
        set,
        vec![Codec::Brotli, Codec::Deflate, Codec::Gzip, Codec::Zstd]
    );
}

#[test]
fn suffixes_are_the_documented_ones() {
    assert_eq!(suffix(Codec::Brotli), ".br");
    assert_eq!(suffix(Codec::Deflate), ".deflate");
    assert_eq!(suffix(Codec::Gzip), ".gz");
    assert_eq!(suffix(Codec::Zstd), ".zstd");
}

#[test]
fn output_paths_carry_the_codec_suffix() {
    let path = "/data/report.txt".to_string();
    assert_eq!(output_path(&path, Codec::Brotli), "/data/report.txt.br");
    assert_eq!(
        output_path(&path, Codec::Deflate),
        "/data/report.txt.deflate"
    );
    assert_eq!(output_path(&path, Codec::Gzip), "/data/report.txt.gz");
    assert_eq!(output_path(&path, Codec::Zstd), "/data/report.txt.zstd");
}

#[test]
fn gzip_round_trip() {
    let data = sample_bytes();
    let encoded = encode(Codec::Gzip, &data).unwrap();
    assert_ne!(encoded, data);
    let mut decoded = Vec::new();
    flate2::read::GzDecoder::new(&encoded[..])
        .read_to_end(&mut decoded)
        .unwrap();
    assert_eq!(decoded, data);
}

#[test]
fn deflate_round_trip() {
    let data = sample_bytes();
    let encoded = encode(Codec::Deflate, &data).unwrap();
    assert_ne!(encoded, data);
    let mut decoded = Vec::new();
    flate2::read::DeflateDecoder::new(&encoded[..])
        .read_to_end(&mut decoded)
        .unwrap();
    assert_eq!(decoded, data);
}

#[test]
fn brotli_round_trip() {
    let data = sample_bytes();
    let encoded = encode(Codec::Brotli, &data).unwrap();
    assert_ne!(encoded, data);
    let mut decoded = Vec::new();
    brotli::Decompressor::new(&encoded[..], 4096)
        .read_to_end(&mut decoded)
        .unwrap();
    assert_eq!(decoded, data);
}

#[test]
fn zstd_round_trip() {
    let data = sample_bytes();
    let encoded = encode(Codec::Zstd, &data).unwrap();
    assert_ne!(encoded, data);
    let decoded = zstd::stream::decode_all(&encoded[..]).unwrap();
    assert_eq!(decoded, data);
}

#[test]
fn empty_input_encodes() {
    let data: Vec<u8> = Vec::new();
    for c in codec_set() {
        let encoded = encode(c, &data).unwrap();
        assert!(!encoded.is_empty());
    }
}

#[test]
fn encoding_twice_is_byte_identical() {
    let data = sample_bytes();
    let before = data.clone();
    for c in codec_set() {
        let first = encode(c, &data).unwrap();
        let second = encode(c, &data).unwrap();
        assert_eq!(first, second);
    }
    // The source bytes are left untouched.
    assert_eq!(data, before);
}

#[test]
fn task_fans_out_to_every_codec() {
    // Three files and the four-codec set: twelve encode invocations, twelve
    // artifacts with the right suffixes, one task per file.
    let paths = ["/data/a.txt", "/data/b.txt", "/data/c.txt"];
    let data = sample_bytes();
    let mut artifacts = 0;
    for p in paths {
        let task = CompressionTask::new(p.to_string());
        assert_eq!(task.codecs.len(), 4);
        let outcomes = execute_task(&task, &data);
        assert_eq!(outcomes.len(), 4);
        for (i, o) in outcomes.iter().enumerate() {
            assert_eq!(o.codec, task.codecs[i]);
            assert_eq!(o.output_path, format!("{}{}", p, suffix(o.codec)));
            assert!(o.bytes.is_ok());
            artifacts += 1;
        }
        let report = summarize(&outcomes);
        assert_eq!(report.succeeded, 4);
        assert_eq!(report.failed, 0);
    }
    assert_eq!(artifacts, 12);
}

#[test]
fn failed_codec_leaves_other_outcomes_intact() {
    // A report in which one codec failed still carries one entry per codec,
    // with the successful entries untouched.
    let path = "/data/a.txt".to_string();
    let data = sample_bytes();
    let good_brotli = encode(Codec::Brotli, &data);
    let good_gzip = encode(Codec::Gzip, &data);
    let good_zstd = encode(Codec::Zstd, &data);
    let outcomes = vec![
        apply_codec(&path, Codec::Brotli, good_brotli.clone()),
        apply_codec(
            &path,
            Codec::Deflate,
            Err(ui_build_compression::codec::CodecError {}),
        ),
        apply_codec(&path, Codec::Gzip, good_gzip.clone()),
        apply_codec(&path, Codec::Zstd, good_zstd.clone()),
    ];
    assert_eq!(outcomes.len(), 4);
    assert_eq!(outcomes[1].output_path, "/data/a.txt.deflate");
    assert!(outcomes[1].bytes.is_err());
    assert_eq!(outcomes[0].bytes, good_brotli);
    assert_eq!(outcomes[2].bytes, good_gzip);
    assert_eq!(outcomes[3].bytes, good_zstd);
    let report = summarize(&outcomes);
    assert_eq!(report.succeeded, 3);
    assert_eq!(report.failed, 1);
}
