//! Byte sources, codecs, the reading and writing pipelines, text and lines.

use oneio::compressions::decode;
use oneio::compressions::encode;
use oneio::reader::lines_of;
use oneio::ByteSource;
use oneio::ByteStream;
use oneio::Codec;
use oneio::NetworkError;
use oneio::OneIoError;
use std::io::Write;

const TEST_TEXT: &str = "OneIO test file.\nThis is a test.";

fn gzip(data: &[u8]) -> Vec<u8> {
    let mut encoder = flate2::write::GzEncoder::new(Vec::new(), flate2::Compression::default());
    encoder.write_all(data).unwrap();
    encoder.finish().unwrap()
}

fn lz4_frame(data: &[u8]) -> Vec<u8> {
    let mut encoder = lz4::EncoderBuilder::new().build(Vec::new()).unwrap();
    encoder.write_all(data).unwrap();
    let (bytes, result) = encoder.finish();
    result.unwrap();
    bytes
}

/// Bytes of some variety, which do not compress to nothing.
fn sample(len: usize) -> Vec<u8> {
    (0..len).map(|i| ((i * 31 + i / 7) % 251) as u8).collect()
}

#[test]
fn stream_hands_out_chunks_in_order() {
    let mut stream = ByteStream::new(vec![1, 2, 3, 4, 5]);
    assert_eq!(stream.available(), 5);
    assert_eq!(stream.read(2), vec![1, 2]);
    assert_eq!(stream.available(), 3);
    assert_eq!(stream.read(0), Vec::<u8>::new());
    assert_eq!(stream.read(10), vec![3, 4, 5]);
    assert_eq!(stream.read(10), Vec::<u8>::new());
    assert_eq!(stream.available(), 0);
}

#[test]
fn stream_read_to_end_appends_what_is_left() {
    let mut stream = ByteStream::new(vec![1, 2, 3, 4, 5]);
    assert_eq!(stream.read(2), vec![1, 2]);
    let mut out = vec![9];
    assert_eq!(stream.read_to_end(&mut out), 3);
    assert_eq!(out, vec![9, 3, 4, 5]);
    assert_eq!(stream.read_to_end(&mut out), 0);

    let mut stream = ByteStream::new(vec![1, 2, 3]);
    assert_eq!(stream.read(1), vec![1]);
    assert_eq!(stream.into_vec(), vec![2, 3]);
}

#[test]
fn generic_read_to_end_crosses_chunk_borders() {
    let data = sample(3 * oneio::stream::CHUNK_SIZE + 17);
    let mut stream = ByteStream::new(data.clone());
    assert_eq!(oneio::read_to_end(&mut stream), data);
    assert_eq!(oneio::read_to_end(&mut stream), Vec::<u8>::new());
}

#[test]
fn stream_read_to_string_decodes_utf8() {
    let mut stream = ByteStream::new("héllo wörld".as_bytes().to_vec());
    let mut text = "> ".to_string();
    assert_eq!(stream.read_to_string(&mut text).unwrap(), 13);
    assert_eq!(text, "> héllo wörld");

    let mut stream = ByteStream::new(vec![0x66, 0xff, 0x6f]);
    let mut text = "kept".to_string();
    assert!(matches!(stream.read_to_string(&mut text), Err(OneIoError::Io(_))));
    assert_eq!(text, "kept");
}

#[test]
fn every_decoder_restores_the_data() {
    let data = sample(50_000);

    assert_eq!(decode(Codec::Identity, data.clone()).unwrap(), data);
    assert_eq!(decode(Codec::Gzip, gzip(&data)).unwrap(), data);

    let mut bz = bzip2::write::BzEncoder::new(Vec::new(), bzip2::Compression::best());
    bz.write_all(&data).unwrap();
    assert_eq!(decode(Codec::Bzip2, bz.finish().unwrap()).unwrap(), data);

    assert_eq!(decode(Codec::Lz4, lz4_frame(&data)).unwrap(), data);

    let mut xz = xz2::write::XzEncoder::new(Vec::new(), 1);
    xz.write_all(&data).unwrap();
    assert_eq!(decode(Codec::Xz, xz.finish().unwrap()).unwrap(), data);

    assert_eq!(
        decode(Codec::Zstd, zstd::encode_all(&data[..], 1).unwrap()).unwrap(),
        data
    );
}

#[test]
fn every_decoder_rejects_what_is_not_its_stream() {
    let garbage = b"this is not a compressed stream of any kind".to_vec();
    for codec in [Codec::Gzip, Codec::Bzip2, Codec::Lz4, Codec::Xz, Codec::Zstd] {
        assert!(
            matches!(decode(codec, garbage.clone()), Err(OneIoError::Io(_))),
            "{:?} accepted garbage",
            codec
        );
    }
    // a gzip stream cut short
    let mut cut = gzip(&sample(10_000));
    cut.truncate(cut.len() / 2);
    assert!(matches!(decode(Codec::Gzip, cut), Err(OneIoError::Io(_))));
}

#[test]
fn decoders_give_the_same_answer_to_the_same_stream() {
    let mut streams = vec![Vec::new(), vec![0u8; 64], gzip(&sample(2_000)), lz4_frame(&sample(2_000))];
    let mut cut = lz4_frame(&sample(40_000));
    cut.truncate(cut.len() - 100);
    streams.push(cut);
    for stream in streams {
        for codec in [Codec::Identity, Codec::Gzip, Codec::Bzip2, Codec::Lz4, Codec::Xz, Codec::Zstd] {
            let first = decode(codec, stream.clone()).ok();
            let second = decode(codec, stream.clone()).ok();
            assert_eq!(first, second, "{:?}", codec);
        }
    }
}

#[test]
fn every_encoder_produces_a_stream_of_its_format() {
    let data = sample(20_000);

    let gz = encode(Codec::Gzip, data.clone()).unwrap();
    assert_eq!(&gz[..2], &[0x1f, 0x8b]);
    let mut out = Vec::new();
    std::io::Read::read_to_end(&mut flate2::read::GzDecoder::new(&gz[..]), &mut out).unwrap();
    assert_eq!(out, data);

    let bz = encode(Codec::Bzip2, data.clone()).unwrap();
    assert_eq!(&bz[..3], b"BZh");
    let mut out = Vec::new();
    std::io::Read::read_to_end(&mut bzip2::read::BzDecoder::new(&bz[..]), &mut out).unwrap();
    assert_eq!(out, data);

    let xz = encode(Codec::Xz, data.clone()).unwrap();
    assert_eq!(&xz[..6], &[0xfd, b'7', b'z', b'X', b'Z', 0x00]);
    let mut out = Vec::new();
    std::io::Read::read_to_end(&mut xz2::read::XzDecoder::new(&xz[..]), &mut out).unwrap();
    assert_eq!(out, data);

    let zst = encode(Codec::Zstd, data.clone()).unwrap();
    assert_eq!(&zst[..4], &[0x28, 0xb5, 0x2f, 0xfd]);
    assert_eq!(zstd::decode_all(&zst[..]).unwrap(), data);

    assert_eq!(encode(Codec::Identity, data.clone()).unwrap(), data);
    match encode(Codec::Lz4, data) {
        Err(OneIoError::NotSupported(message)) => {
            assert_eq!(message, "lz4 writer is not currently supported.")
        }
        other => panic!("expected a not-supported error, got {:?}", other),
    }
}

#[test]
fn written_then_read_is_unchanged_for_every_encoding_codec() {
    for path in [
        "out/data.bin",
        "out/data.bin.gz",
        "out/data.bin.gzip",
        "out/data.tgz",
        "out/data.bin.bz",
        "out/data.bin.bz2",
        "out/data.bin.xz",
        "out/data.bin.xz2",
        "out/data.bin.lzma",
        "out/data.bin.zst",
        "out/data.bin.zstd",
    ] {
        for data in [Vec::new(), b"x".to_vec(), sample(30_000)] {
            let mut writer = oneio::get_writer(path).unwrap();
            assert_eq!(writer.path(), path);
            let (head, tail) = data.split_at(data.len() / 2);
            writer.write_all(head);
            writer.write_all(tail);
            let file = writer.finish().unwrap();
            if oneio::compressions::file_suffix(path) == "bin" {
                assert_eq!(file, data);
            } else if !data.is_empty() {
                assert_ne!(file, data);
            }
            let mut reader = oneio::get_reader(path, Ok(ByteStream::new(file))).unwrap();
            let mut back = Vec::new();
            reader.read_to_end(&mut back);
            assert_eq!(back, data, "round trip through {}", path);
        }
    }
}

#[test]
fn writers_are_for_local_files_and_encoding_codecs_only() {
    for path in ["out/data.lz4", "out/data.lz"] {
        match oneio::get_writer(path) {
            Err(OneIoError::NotSupported(message)) => {
                assert_eq!(message, "lz4 writer is not currently supported.")
            }
            other => panic!("expected a not-supported error, got {:?}", other),
        }
    }
    for path in ["s3://bucket/data.gz", "https://example.com/data.gz", "ftp://host/data"] {
        match oneio::get_writer(path) {
            Err(OneIoError::NotSupported(message)) => assert_eq!(message, path),
            other => panic!("expected a not-supported error, got {:?}", other),
        }
    }
}

#[test]
fn compression_reader_and_writer_go_by_the_suffix() {
    let data = sample(5_000);
    let stream = oneio::get_compression_reader(ByteStream::new(gzip(&data)), "gz").unwrap();
    assert_eq!(stream.into_vec(), data);
    let stream = oneio::get_compression_reader(ByteStream::new(gzip(&data)), "txt").unwrap();
    assert_eq!(stream.into_vec(), gzip(&data));
    assert!(matches!(
        oneio::get_compression_reader(ByteStream::new(data.clone()), "gz"),
        Err(OneIoError::Io(_))
    ));

    let written = oneio::get_compression_writer(data.clone(), "gz").unwrap();
    assert_eq!(decode(Codec::Gzip, written).unwrap(), data);
    assert_eq!(oneio::get_compression_writer(data.clone(), "dat").unwrap(), data);
    assert!(matches!(
        oneio::get_compression_writer(data, "lz4"),
        Err(OneIoError::NotSupported(_))
    ));
}

#[test]
fn gzip_file_reads_back_as_the_exact_text_and_two_lines() {
    let path = "tests/test_data.txt.gz";
    let text = oneio::read_to_string(path, Ok(ByteStream::new(gzip(TEST_TEXT.as_bytes())))).unwrap();
    assert_eq!(text, "OneIO test file.\nThis is a test.");
    let lines = oneio::read_lines(path, Ok(ByteStream::new(gzip(TEST_TEXT.as_bytes())))).unwrap();
    assert_eq!(lines, vec!["OneIO test file.".to_string(), "This is a test.".to_string()]);
}

#[test]
fn file_named_like_a_suffix_passes_through() {
    // no `.` in the location: there is no suffix, so the bytes are not decoded
    let plain = b"plain bytes, no gzip stream".to_vec();
    let reader = oneio::get_reader("gz", Ok(ByteStream::new(plain.clone()))).unwrap();
    assert_eq!(reader.into_vec(), plain);
    assert_eq!(
        oneio::read_to_string("lz4", Ok(ByteStream::new(plain.clone()))).unwrap().as_bytes(),
        &plain[..]
    );

    // nor encoded
    let mut writer = oneio::get_writer("gz").unwrap();
    writer.write_all(&plain);
    assert_eq!(writer.finish().unwrap(), plain);
    let mut writer = oneio::get_writer("lz4").unwrap();
    writer.write_all(&plain);
    assert_eq!(writer.finish().unwrap(), plain);

    // with a dot before it, the same name is a suffix
    assert!(matches!(
        oneio::get_reader("data.gz", Ok(ByteStream::new(plain))),
        Err(OneIoError::Io(_))
    ));
}

#[test]
fn reader_fails_where_the_source_does_and_hands_the_error_on() {
    let missing: Result<ByteStream, OneIoError> = Err(OneIoError::Io(std::io::Error::new(
        std::io::ErrorKind::NotFound,
        "No such file or directory",
    )));
    match oneio::get_reader("tests/no_such_file.txt.gz", missing) {
        Err(OneIoError::Io(e)) => {
            assert_eq!(e.kind(), std::io::ErrorKind::NotFound);
            assert_eq!(e.to_string(), "No such file or directory");
        }
        other => panic!("expected the I/O error, got {:?}", other),
    }
    assert!(
        !oneio::resource_exists("tests/no_such_file.txt.gz", Ok(oneio::ExistsAnswer::Path(false))).unwrap()
    );

    let refused: Result<ByteStream, OneIoError> =
        Err(OneIoError::Network(NetworkError::Transport("connection refused".to_string())));
    match oneio::read_to_string("https://unreachable.example/x.txt", refused) {
        Err(OneIoError::Network(NetworkError::Transport(message))) => {
            assert_eq!(message, "connection refused")
        }
        other => panic!("expected the network error, got {:?}", other),
    }

    // a location that names no endpoint is refused whatever was opened
    match oneio::get_reader("gopher://example.com/x.gz", Ok(ByteStream::new(vec![1, 2, 3]))) {
        Err(OneIoError::NotSupported(message)) => assert_eq!(message, "gopher://example.com/x.gz"),
        other => panic!("expected a not-supported error, got {:?}", other),
    }

    // and one that exists is read
    let found = oneio::get_reader("tests/test_data.txt", Ok(ByteStream::new(b"abc".to_vec())));
    assert_eq!(found.unwrap().into_vec(), b"abc");
    assert!(oneio::resource_exists("tests/test_data.txt", Ok(oneio::ExistsAnswer::Path(true))).unwrap());
}

#[test]
fn text_that_is_not_utf8_is_an_io_error() {
    let bytes = vec![0xc3, 0x28];
    assert!(matches!(
        oneio::read_to_string("data.txt", Ok(ByteStream::new(bytes.clone()))),
        Err(OneIoError::Io(_))
    ));
    assert!(matches!(
        oneio::read_lines("data.txt", Ok(ByteStream::new(bytes))),
        Err(OneIoError::Io(_))
    ));
}

#[test]
fn lines_end_at_line_feeds() {
    let none: Vec<String> = Vec::new();
    assert_eq!(lines_of(""), none);
    assert_eq!(lines_of("\n"), vec![""]);
    assert_eq!(lines_of("a"), vec!["a"]);
    assert_eq!(lines_of("a\n"), vec!["a"]);
    assert_eq!(lines_of("a\nb"), vec!["a", "b"]);
    assert_eq!(lines_of("a\n\nb\n"), vec!["a", "", "b"]);
    assert_eq!(lines_of("a\r\nb\r\n"), vec!["a", "b"]);
    assert_eq!(lines_of("a\rb"), vec!["a\rb"]);
    assert_eq!(lines_of("a\r"), vec!["a\r"]);
    assert_eq!(lines_of("\r\n"), vec![""]);
    assert_eq!(lines_of("a\r\r\n"), vec!["a\r"]);
    assert_eq!(lines_of("ä\nö"), vec!["ä", "ö"]);
}

#[test]
fn download_copies_the_raw_bytes_without_decoding() {
    let file = gzip(TEST_TEXT.as_bytes());
    let copied =
        oneio::download("https://example.com/test_data.txt.gz", Ok(ByteStream::new(file.clone())))
            .unwrap();
    assert_eq!(copied, file);

    let copied = oneio::download("tests/test_data.txt.gz", Ok(ByteStream::new(file.clone()))).unwrap();
    assert_eq!(copied, file);

    let failed: Result<ByteStream, OneIoError> = Err(OneIoError::Network(NetworkError::Status(503)));
    assert!(matches!(
        oneio::download("https://example.com/x", failed),
        Err(OneIoError::Network(NetworkError::Status(503)))
    ));
    assert!(matches!(
        oneio::download("gopher://example.com/x", Ok(ByteStream::new(file))),
        Err(OneIoError::NotSupported(_))
    ));
}

#[test]
fn digest_is_the_sha256_of_the_raw_bytes_in_hex() {
    assert_eq!(
        oneio::get_sha256_digest("abc.txt", Ok(ByteStream::new(b"abc".to_vec()))).unwrap(),
        "ba7816bf8f01cfea414140de5dae2223b00361a396177a9cb410ff61f20015ad"
    );
    assert_eq!(
        oneio::get_sha256_digest("empty", Ok(ByteStream::new(Vec::new()))).unwrap(),
        "e3b0c44298fc1c149afbf4c8996fb92427ae41e4649b934ca495991b7852b855"
    );

    // more than one chunk, and no decoding whatever the suffix
    let file = gzip(&sample(5 * oneio::digest::DIGEST_CHUNK_SIZE + 3));
    let expected = hex::encode(ring::digest::digest(&ring::digest::SHA256, &file));
    assert_eq!(
        oneio::get_sha256_digest("https://example.com/data.gz", Ok(ByteStream::new(file))).unwrap(),
        expected
    );

    let failed: Result<ByteStream, OneIoError> = Err(OneIoError::Network(NetworkError::Status(404)));
    assert!(matches!(
        oneio::get_sha256_digest("https://example.com/data.gz", failed),
        Err(OneIoError::Network(NetworkError::Status(404)))
    ));
    assert!(matches!(
        oneio::get_sha256_digest("gopher://example.com/x", Ok(ByteStream::new(vec![1]))),
        Err(OneIoError::NotSupported(_))
    ));
}
