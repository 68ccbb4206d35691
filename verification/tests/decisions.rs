//! Lengths, progress, existence, the cache, retries, listings, client settings.

use oneio::length::parse_u64;
use oneio::length::resolve_length;
use oneio::remote::default_headers;
use oneio::s3::s3_list_delimiter;
use oneio::ByteSource;
use oneio::ByteStream;
use oneio::Callback;
use oneio::CacheStep;
use oneio::Endpoint;
use oneio::ExistsAnswer;
use oneio::LengthAnswer;
use oneio::ListPage;
use oneio::NetworkError;
use oneio::ObjectStats;
use oneio::OneIoError;
use oneio::ProgressLog;
use oneio::ProgressReader;
use oneio::ProgressSink;
use oneio::RetryStep;
use std::collections::HashMap;
use std::io::Write;
use std::sync::Arc;
use std::sync::Mutex;

const TEST_TEXT: &str = "OneIO test file.\nThis is a test.";

fn gzip(data: &[u8]) -> Vec<u8> {
    let mut encoder = flate2::write::GzEncoder::new(Vec::new(), flate2::Compression::default());
    encoder.write_all(data).unwrap();
    encoder.finish().unwrap()
}

fn sample(len: usize) -> Vec<u8> {
    (0..len).map(|i| ((i * 31 + i / 7) % 251) as u8).collect()
}

fn not_supported_text<T: std::fmt::Debug>(result: Result<T, OneIoError>) -> String {
    match result {
        Err(OneIoError::NotSupported(message)) => message,
        other => panic!("expected a not-supported error, got {:?}", other),
    }
}

#[test]
fn numbers_are_read_as_decimal_digits_with_an_optional_plus() {
    assert_eq!(parse_u64("0"), Some(0));
    assert_eq!(parse_u64("42"), Some(42));
    assert_eq!(parse_u64("+5"), Some(5));
    assert_eq!(parse_u64("007"), Some(7));
    assert_eq!(parse_u64("18446744073709551615"), Some(u64::MAX));
    assert_eq!(parse_u64("18446744073709551616"), None);
    assert_eq!(parse_u64("99999999999999999999999"), None);
    assert_eq!(parse_u64(""), None);
    assert_eq!(parse_u64("+"), None);
    assert_eq!(parse_u64("-1"), None);
    assert_eq!(parse_u64("++1"), None);
    assert_eq!(parse_u64("1+"), None);
    assert_eq!(parse_u64(" 12"), None);
    assert_eq!(parse_u64("12 "), None);
    assert_eq!(parse_u64("12a"), None);
    assert_eq!(parse_u64("1.5"), None);
    assert_eq!(parse_u64("١٢"), None);
}

#[test]
fn length_of_each_kind_of_answer() {
    assert_eq!(resolve_length(LengthAnswer::Metadata(1234)).unwrap(), 1234);
    assert_eq!(
        resolve_length(LengthAnswer::ContentLength(Some("98765".to_string()))).unwrap(),
        98765
    );
    assert_eq!(
        resolve_length(LengthAnswer::ObjectHead(ObjectStats { content_length: Some(77) }, 200))
            .unwrap(),
        77
    );
}

#[test]
fn zero_length_is_a_length_and_unknown_is_an_error() {
    assert_eq!(oneio::get_content_length("empty.txt", LengthAnswer::Metadata(0)).unwrap(), 0);
    assert_eq!(
        oneio::get_content_length(
            "https://example.com/empty",
            LengthAnswer::ContentLength(Some("0".to_string()))
        )
        .unwrap(),
        0
    );
    assert_eq!(
        not_supported_text(oneio::get_content_length(
            "https://example.com/stream",
            LengthAnswer::ContentLength(None)
        )),
        "Cannot determine file size - server doesn't provide Content-Length"
    );
    assert_eq!(
        not_supported_text(oneio::get_content_length(
            "https://example.com/stream",
            LengthAnswer::ContentLength(Some("chunked".to_string()))
        )),
        "Cannot determine file size - server doesn't provide Content-Length"
    );
    assert_eq!(
        not_supported_text(oneio::get_content_length(
            "s3://bucket/key",
            LengthAnswer::ObjectHead(ObjectStats { content_length: None }, 200)
        )),
        "S3 object doesn't have content length information"
    );
}

#[test]
fn length_errors_by_protocol() {
    assert_eq!(
        not_supported_text(oneio::get_content_length("ftp://host/file", LengthAnswer::Metadata(5))),
        "FTP size determination not yet implemented"
    );
    assert_eq!(
        not_supported_text(oneio::get_content_length(
            "gopher://host/file",
            LengthAnswer::Metadata(5)
        )),
        "Protocol not supported for progress tracking: gopher://host/file"
    );
    assert!(matches!(
        oneio::get_content_length(
            "r2://bucket/key",
            LengthAnswer::ObjectHead(ObjectStats { content_length: Some(5) }, 403)
        ),
        Err(OneIoError::Network(NetworkError::Status(403)))
    ));
    assert!(matches!(
        oneio::content_length_probe("ftp://host/file"),
        Err(OneIoError::NotSupported(_))
    ));
    match oneio::content_length_probe("s3://bucket/a/b").unwrap() {
        Endpoint::Object { bucket, key } => {
            assert_eq!(bucket, "bucket");
            assert_eq!(key, "a/b");
        }
        other => panic!("unexpected endpoint {:?}", other),
    }
    match oneio::content_length_probe("some/file").unwrap() {
        Endpoint::Local { path } => assert_eq!(path, "some/file"),
        other => panic!("unexpected endpoint {:?}", other),
    }
    match oneio::content_length_probe("http://example.com/x").unwrap() {
        Endpoint::Http { url } => assert_eq!(url, "http://example.com/x"),
        other => panic!("unexpected endpoint {:?}", other),
    }
}

#[test]
fn progress_reports_follow_every_read_that_yields_bytes() {
    let calls = Arc::new(Mutex::new(Vec::<(u64, u64)>::new()));
    let log = calls.clone();
    let data = sample(10_000);
    let mut reader = ProgressReader::new(
        ByteStream::new(data.clone()),
        Some(10_000),
        Callback::new(move |count, total| log.lock().unwrap().push((count, total))),
    );

    assert_eq!(reader.read(0), Vec::<u8>::new());
    assert!(calls.lock().unwrap().is_empty());

    let mut read = Vec::new();
    for limit in [1usize, 4096, 0, 4096, 4096, 4096] {
        read.extend(reader.read(limit));
    }
    assert_eq!(read, data);
    assert_eq!(reader.count(), 10_000);
    assert_eq!(
        *calls.lock().unwrap(),
        vec![(1, 10_000), (4097, 10_000), (8193, 10_000), (10_000, 10_000)]
    );

    // the end of the stream reports nothing more
    assert_eq!(reader.read(4096), Vec::<u8>::new());
    assert_eq!(calls.lock().unwrap().len(), 4);
}

#[test]
fn progress_counts_never_decrease_end_at_the_bytes_read_and_stay_within_the_size() {
    for len in [0usize, 1, 8191, 8192, 8193, 50_000] {
        let calls = Arc::new(Mutex::new(Vec::<(u64, u64)>::new()));
        let log = calls.clone();
        let mut reader = ProgressReader::new(
            ByteStream::new(sample(len)),
            Some(len as u64),
            Callback::new(move |count, total| log.lock().unwrap().push((count, total))),
        );
        let read = reader.read_to_end();
        assert_eq!(read.len(), len);
        let calls = calls.lock().unwrap();
        assert_eq!(calls.is_empty(), len == 0);
        for pair in calls.windows(2) {
            assert!(pair[0].0 <= pair[1].0);
        }
        for (count, total) in calls.iter() {
            assert!(*count > 0);
            assert!(*count <= len as u64);
            assert_eq!(*total, len as u64);
        }
        if let Some((count, _)) = calls.last() {
            assert_eq!(*count, len as u64);
        }
        assert_eq!(reader.count(), len as u64);
    }
}

#[test]
fn progress_with_unknown_size_reports_zero_as_the_total() {
    let calls = Arc::new(Mutex::new(Vec::<(u64, u64)>::new()));
    let log = calls.clone();
    let mut reader = ProgressReader::new(ByteStream::new(sample(100)), None, Callback::new(move |count, total| {
        log.lock().unwrap().push((count, total))
    }));
    assert_eq!(reader.read_to_end().len(), 100);
    assert_eq!(*calls.lock().unwrap(), vec![(100, 0)]);
}

#[test]
fn progress_measures_raw_bytes_not_decoded_bytes() {
    let calls = Arc::new(Mutex::new(Vec::<(u64, u64)>::new()));
    let log = calls.clone();
    let text = "a".repeat(100_000);
    let file = gzip(text.as_bytes());
    let size = file.len() as u64;
    assert!(size < 1000);
    let (mut reader, total, _) = oneio::get_reader_with_progress(
        "big.txt.gz",
        Ok(ByteStream::new(file)),
        Ok(size),
        Callback::new(move |count, total| log.lock().unwrap().push((count, total))),
    )
    .unwrap();
    assert_eq!(total, Some(size));
    let mut decoded = String::new();
    reader.read_to_string(&mut decoded).unwrap();
    assert_eq!(decoded, text);
    assert_eq!(*calls.lock().unwrap(), vec![(size, size)]);
}

#[test]
fn progress_read_goes_on_with_an_unknown_size() {
    for length in [
        oneio::get_content_length("ftp://host/file.txt", LengthAnswer::Metadata(10)),
        Err(OneIoError::Network(NetworkError::Status(500))),
        Err(OneIoError::Network(NetworkError::Transport("timed out".to_string()))),
    ] {
        assert!(length.is_err());
        let calls = Arc::new(Mutex::new(Vec::<(u64, u64)>::new()));
        let log = calls.clone();
        let (reader, size, _) = oneio::get_reader_with_progress(
            "ftp://host/file.txt",
            Ok(ByteStream::new(sample(10))),
            length,
            Callback::new(move |count, total| log.lock().unwrap().push((count, total))),
        )
        .unwrap();
        // unknown, which is not the size zero
        assert_eq!(size, None);
        assert_eq!(reader.into_vec(), sample(10));
        assert_eq!(*calls.lock().unwrap(), vec![(10, 0)]);
    }

    // a size of zero is known
    let (reader, size, _) = oneio::get_reader_with_progress(
        "empty.txt",
        Ok(ByteStream::new(Vec::new())),
        oneio::get_content_length("empty.txt", LengthAnswer::Metadata(0)),
        Callback::new(|_, _| panic!("nothing was read")),
    )
    .unwrap();
    assert_eq!(size, Some(0));
    assert_eq!(reader.into_vec(), Vec::<u8>::new());
}

#[test]
fn progress_read_fails_only_where_the_read_fails() {
    // an unrecognized scheme is refused by the raw source provider, with the location
    let result = oneio::get_reader_with_progress(
        "foo://bar",
        Ok(ByteStream::new(sample(10))),
        oneio::get_content_length("foo://bar", LengthAnswer::Metadata(10)),
        Callback::new(|_, _| panic!("nothing is to be read")),
    );
    assert_eq!(not_supported_text(result.map(|(_, size, _)| size)), "foo://bar");

    // a source that does not open
    let failed: Result<ByteStream, OneIoError> = Err(OneIoError::Network(NetworkError::Status(404)));
    let result =
        oneio::get_reader_with_progress("https://h/x", failed, Ok(10), Callback::new(|_, _| panic!("not opened")));
    assert!(matches!(
        result.map(|(_, size, _)| size),
        Err(OneIoError::Network(NetworkError::Status(404)))
    ));

    // bytes that do not decode: the raw bytes were read and reported all the same
    let calls = Arc::new(Mutex::new(Vec::<(u64, u64)>::new()));
    let log = calls.clone();
    let result = oneio::get_reader_with_progress(
        "data.gz",
        Ok(ByteStream::new(sample(10))),
        Ok(10),
        Callback::new(move |count, total| log.lock().unwrap().push((count, total))),
    );
    assert!(matches!(result.map(|(_, size, _)| size), Err(OneIoError::Io(_))));
    assert_eq!(*calls.lock().unwrap(), vec![(10, 10)]);
}

#[test]
fn object_status_404_means_absent_and_other_failures_are_errors() {
    assert!(!oneio::s3_exists(Ok(404)).unwrap());
    assert!(oneio::s3_exists(Ok(200)).unwrap());
    assert!(oneio::s3_exists(Ok(204)).unwrap());
    assert!(oneio::s3_exists(Ok(299)).unwrap());
    for code in [100u16, 199, 300, 301, 400, 401, 403, 405, 500, 503] {
        match oneio::s3_exists(Ok(code)) {
            Err(OneIoError::Network(NetworkError::Status(status))) => assert_eq!(status, code),
            other => panic!("status {} gave {:?}", code, other),
        }
    }
    assert!(!oneio::resource_exists("s3://bucket/key", Ok(ExistsAnswer::ObjectStatus(404))).unwrap());
    assert!(oneio::resource_exists("s3://bucket/key", Ok(ExistsAnswer::ObjectStatus(200))).unwrap());
    assert!(matches!(
        oneio::resource_exists("s3://bucket/key", Ok(ExistsAnswer::ObjectStatus(500))),
        Err(OneIoError::Network(NetworkError::Status(500)))
    ));
}

#[test]
fn failed_request_is_handed_on_and_is_neither_existence_nor_absence() {
    let refused = || OneIoError::Network(NetworkError::Transport("connection refused".to_string()));
    assert!(matches!(
        oneio::s3_exists(Err(refused())),
        Err(OneIoError::Network(NetworkError::Transport(message))) if message == "connection refused"
    ));
    assert!(matches!(
        oneio::s3_stats(Err(refused())),
        Err(OneIoError::Network(NetworkError::Transport(message))) if message == "connection refused"
    ));
    assert!(matches!(
        oneio::s3_download(Err(refused())),
        Err(OneIoError::Network(NetworkError::Transport(message))) if message == "connection refused"
    ));
    for path in ["https://h/x", "s3://bucket/key", "some/file"] {
        assert!(matches!(
            oneio::resource_exists(path, Err(refused())),
            Err(OneIoError::Network(NetworkError::Transport(message))) if message == "connection refused"
        ));
    }
    // the location is judged first
    assert_eq!(
        not_supported_text(oneio::resource_exists("ftp://host/file", Err(refused()))),
        "ftp://host/file"
    );
}

#[test]
fn existence_by_protocol() {
    assert!(oneio::resource_exists("some/file", Ok(ExistsAnswer::Path(true))).unwrap());
    assert!(!oneio::resource_exists("some/file", Ok(ExistsAnswer::Path(false))).unwrap());
    assert!(oneio::resource_exists("http://h/x", Ok(ExistsAnswer::HttpStatus(204))).unwrap());
    assert!(!oneio::resource_exists("https://h/x", Ok(ExistsAnswer::HttpStatus(500))).unwrap());
    assert!(!oneio::resource_exists("https://h/x", Ok(ExistsAnswer::HttpStatus(301))).unwrap());
    for path in ["ftp://host/file", "r2://bucket/key", "gopher://host/x"] {
        assert_eq!(
            not_supported_text(oneio::resource_exists(path, Ok(ExistsAnswer::Path(true)))),
            path
        );
        assert_eq!(not_supported_text(oneio::exists_probe(path)), path);
    }
    match oneio::exists_probe("s3://bucket/dir/key").unwrap() {
        Endpoint::Object { bucket, key } => {
            assert_eq!(bucket, "bucket");
            assert_eq!(key, "dir/key");
        }
        other => panic!("unexpected endpoint {:?}", other),
    }
}

#[test]
fn object_answers_are_judged_by_their_status() {
    let stats = ObjectStats { content_length: Some(10) };
    assert_eq!(oneio::s3_stats(Ok((stats, 200))).unwrap(), stats);
    assert_eq!(oneio::s3_stats(Ok((stats, 299))).unwrap(), stats);
    assert!(matches!(
        oneio::s3_stats(Ok((stats, 404))),
        Err(OneIoError::Network(NetworkError::Status(404)))
    ));
    assert!(matches!(
        oneio::s3_stats(Ok((stats, 199))),
        Err(OneIoError::Network(NetworkError::Status(199)))
    ));
    assert!(oneio::s3_download(Ok(200)).is_ok());
    assert!(oneio::s3_download(Ok(206)).is_ok());
    assert!(matches!(
        oneio::s3_download(Ok(300)),
        Err(OneIoError::Network(NetworkError::Status(300)))
    ));
    assert!(matches!(
        oneio::s3_download(Ok(404)),
        Err(OneIoError::Network(NetworkError::Status(404)))
    ));
}

#[test]
fn listing_collects_keys_or_directories_page_by_page() {
    let pages = vec![
        ListPage {
            common_prefixes: Some(vec!["dir/a/".to_string(), "dir/b/".to_string()]),
            contents: vec!["dir/x.txt".to_string()],
        },
        ListPage { common_prefixes: None, contents: vec![] },
        ListPage {
            common_prefixes: Some(vec!["dir/c/".to_string()]),
            contents: vec!["dir/y.txt".to_string(), "dir/z.txt".to_string()],
        },
    ];
    assert_eq!(oneio::s3_list(&pages, false), vec!["dir/x.txt", "dir/y.txt", "dir/z.txt"]);
    assert_eq!(oneio::s3_list(&pages, true), vec!["dir/a/", "dir/b/", "dir/c/"]);
    let none: Vec<String> = Vec::new();
    assert_eq!(oneio::s3_list(&Vec::new(), true), none);

    assert_eq!(s3_list_delimiter(None, true), Some("/".to_string()));
    assert_eq!(s3_list_delimiter(None, false), None);
    assert_eq!(s3_list_delimiter(Some("|".to_string()), true), Some("|".to_string()));
    assert_eq!(s3_list_delimiter(Some("|".to_string()), false), Some("|".to_string()));
}

/// A cached read against a cache directory and a source that are held in memory.
/// Returns the decoded content, and counts the fetches.
fn cached_read(
    cache_dir: &mut HashMap<String, Vec<u8>>,
    fetches: &mut u32,
    path: &str,
    source: &[u8],
    force: bool,
) -> Vec<u8> {
    let file = oneio::cache_file_path(path, "/cache", None);
    let cached = cache_dir.get(&file).map(|bytes| ByteStream::new(bytes.clone()));
    match oneio::get_cache_reader(path, "/cache", None, force, cached).unwrap() {
        CacheStep::Ready(reader) => reader.into_vec(),
        CacheStep::Fetch { endpoint, cache_file } => {
            match endpoint {
                Endpoint::Http { url } => assert_eq!(url, path),
                other => panic!("unexpected endpoint {:?}", other),
            }
            *fetches += 1;
            let (stored, reader) = oneio::fill_cache(&cache_file, ByteStream::new(source.to_vec()));
            cache_dir.insert(cache_file, stored);
            reader.unwrap().into_vec()
        }
    }
}

#[test]
fn second_cached_read_returns_the_same_without_fetching() {
    let mut cache_dir = HashMap::new();
    let mut fetches = 0;
    let path = "https://example.com/data/test_data.txt.gz";
    let file = gzip(TEST_TEXT.as_bytes());

    let first = cached_read(&mut cache_dir, &mut fetches, path, &file, false);
    assert_eq!(first, TEST_TEXT.as_bytes());
    assert_eq!(fetches, 1);
    // the cache holds the raw bytes, still compressed
    assert_eq!(cache_dir["/cache/test_data.txt.gz"], file);

    // the source has changed since; the cache is served all the same
    let second = cached_read(&mut cache_dir, &mut fetches, path, b"changed", false);
    assert_eq!(second, first);
    assert_eq!(fetches, 1);
    assert_eq!(cache_dir["/cache/test_data.txt.gz"], file);
}

#[test]
fn forced_cached_read_always_fetches_again() {
    let mut cache_dir = HashMap::new();
    let mut fetches = 0;
    let path = "https://example.com/data/test_data.txt";

    assert_eq!(cached_read(&mut cache_dir, &mut fetches, path, b"one", true), b"one");
    assert_eq!(fetches, 1);
    // the entry exists and is identical: a forced read fetches nevertheless
    assert_eq!(cached_read(&mut cache_dir, &mut fetches, path, b"one", true), b"one");
    assert_eq!(fetches, 2);
    assert_eq!(cached_read(&mut cache_dir, &mut fetches, path, b"two", true), b"two");
    assert_eq!(fetches, 3);
    assert_eq!(cache_dir["/cache/test_data.txt"], b"two");
    assert_eq!(cached_read(&mut cache_dir, &mut fetches, path, b"three", false), b"two");
    assert_eq!(fetches, 3);
}

#[test]
fn cached_read_decodes_by_the_name_of_the_cache_file() {
    let file = gzip(TEST_TEXT.as_bytes());
    // stored under a name without a suffix, the bytes come back as they are
    let step = oneio::get_cache_reader(
        "https://example.com/test_data.txt.gz",
        "/cache",
        Some("copy".to_string()),
        false,
        Some(ByteStream::new(file.clone())),
    );
    match step.unwrap() {
        CacheStep::Ready(reader) => assert_eq!(reader.into_vec(), file),
        other => panic!("unexpected step {:?}", other),
    }
    let (stored, reader) = oneio::fill_cache("/cache/copy.gz", ByteStream::new(file.clone()));
    assert_eq!(stored, file);
    assert_eq!(reader.unwrap().into_vec(), TEST_TEXT.as_bytes());

    // bytes that do not decode are stored as fetched, and the read fails
    let (stored, reader) = oneio::fill_cache("/cache/bad.gz", ByteStream::new(b"plain".to_vec()));
    assert_eq!(stored, b"plain");
    assert!(matches!(reader, Err(OneIoError::Io(_))));
}

#[test]
fn cached_read_of_an_unsupported_location_fetches_nothing() {
    let nothing: Option<ByteStream> = None;
    assert_eq!(
        not_supported_text(oneio::get_cache_reader("gopher://h/x.gz", "/cache", None, true, nothing)),
        "gopher://h/x.gz"
    );
    let step = oneio::get_cache_reader(
        "gopher://h/x.txt",
        "/cache",
        None,
        false,
        Some(ByteStream::new(b"cached".to_vec())),
    );
    match step.unwrap() {
        CacheStep::Ready(reader) => assert_eq!(reader.into_vec(), b"cached"),
        other => panic!("unexpected step {:?}", other),
    }
}

#[test]
fn retry_decisions() {
    assert!(matches!(oneio::download_with_retry(Ok(()), 3), RetryStep::Done));
    assert!(matches!(oneio::download_with_retry(Ok(()), 0), RetryStep::Done));
    let failure = || Err(OneIoError::Network(NetworkError::Status(503)));
    assert!(matches!(
        oneio::download_with_retry(failure(), 3),
        RetryStep::Retry { retries_left: 2 }
    ));
    assert!(matches!(
        oneio::download_with_retry(failure(), 1),
        RetryStep::Retry { retries_left: 0 }
    ));
    assert!(matches!(
        oneio::download_with_retry(failure(), 0),
        RetryStep::Failed(OneIoError::Network(NetworkError::Status(503)))
    ));
}

#[test]
fn download_is_attempted_once_more_than_the_retries() {
    for retry in [0usize, 1, 5] {
        let mut attempts = 0;
        let mut left = retry;
        let outcome = loop {
            attempts += 1;
            let outcome = Err(OneIoError::Network(NetworkError::Status(500 + attempts)));
            match oneio::download_with_retry(outcome, left) {
                RetryStep::Done => break Ok(()),
                RetryStep::Retry { retries_left } => left = retries_left,
                RetryStep::Failed(e) => break Err(e),
            }
        };
        assert_eq!(attempts as usize, retry + 1);
        // the error is that of the last attempt
        assert!(matches!(
            outcome,
            Err(OneIoError::Network(NetworkError::Status(code))) if code == 500 + attempts
        ));
    }

    // success on the third attempt ends the operation
    let mut attempts = 0;
    let mut left = 5;
    loop {
        attempts += 1;
        let outcome = if attempts < 3 {
            Err(OneIoError::Network(NetworkError::Status(500)))
        } else {
            Ok(())
        };
        match oneio::download_with_retry(outcome, left) {
            RetryStep::Done => break,
            RetryStep::Retry { retries_left } => left = retries_left,
            RetryStep::Failed(e) => panic!("gave up with {:?}", e),
        }
    }
    assert_eq!(attempts, 3);
}

#[test]
fn certificate_toggle_reads_boolean_like_text() {
    for value in ["true", "TRUE", "True", "tRuE", "yes", "YES", "Yes", "y", "Y", "1"] {
        assert!(oneio::accept_invalid_certs(value), "{value}");
    }
    for value in ["", "false", "no", "n", "0", "2", "truee", "tru", " true", "true ", "on", "yess", "11"] {
        assert!(!oneio::accept_invalid_certs(value), "{value}");
    }
}

#[test]
fn default_headers_of_the_http_client() {
    assert_eq!(
        default_headers(false),
        vec![
            ("user-agent".to_string(), "oneio".to_string()),
            ("content-length".to_string(), "0".to_string()),
        ]
    );
    assert_eq!(
        default_headers(true),
        vec![
            ("user-agent".to_string(), "oneio".to_string()),
            ("content-length".to_string(), "0".to_string()),
            ("cache-control".to_string(), "no-cache".to_string()),
        ]
    );
}

#[test]
fn provider_is_ensured_any_number_of_times() {
    assert!(oneio::ensure_default_provider().is_ok());
    assert!(oneio::ensure_default_provider().is_ok());
    assert!(rustls::crypto::CryptoProvider::get_default().is_some());
}

#[test]
fn provider_that_is_there_counts_as_success() {
    assert!(oneio::crypto::provider_outcome(true, "CryptoProvider { .. }").is_ok());
    assert_eq!(
        not_supported_text(oneio::crypto::provider_outcome(false, "CryptoProvider { .. }")),
        "Failed to install rustls crypto provider: CryptoProvider { .. }"
    );
}

#[test]
fn attempt_succeeds_wherever_the_process_has_a_provider_in_the_end() {
    for attempt in [
        oneio::crypto::ProviderAttempt::AlreadyInstalled,
        oneio::crypto::ProviderAttempt::AwsLcInstalled,
        oneio::crypto::ProviderAttempt::InstalledMeanwhile,
        oneio::crypto::ProviderAttempt::RingInstalled,
        oneio::crypto::ProviderAttempt::RingRefused {
            refused: "CryptoProvider { .. }".to_string(),
            installed: true,
        },
    ] {
        assert!(oneio::crypto::provider_result(attempt).is_ok());
    }
    assert_eq!(
        not_supported_text(oneio::crypto::provider_result(
            oneio::crypto::ProviderAttempt::RingRefused {
                refused: "CryptoProvider { .. }".to_string(),
                installed: false,
            }
        )),
        "Failed to install rustls crypto provider: CryptoProvider { .. }"
    );
}

#[test]
fn progress_log_comes_back_with_the_reports_of_the_read() {
    let data = sample(2 * 8192 + 5);
    let size = data.len() as u64;
    let (reader, total, log) = oneio::get_reader_with_progress(
        "data.bin",
        Ok(ByteStream::new(data.clone())),
        Ok(size),
        ProgressLog::new(),
    )
    .unwrap();
    assert_eq!(total, Some(size));
    assert_eq!(reader.into_vec(), data);
    assert_eq!(log.into_vec(), vec![(8192, size), (16384, size), (size, size)]);

    // a sink keeps what it held before
    let mut log = ProgressLog::new();
    log.report(7, 9);
    let (_, total, log) =
        oneio::get_reader_with_progress("x", Ok(ByteStream::new(vec![1, 2, 3])), Err(OneIoError::status(500)), log)
            .unwrap();
    assert_eq!(total, None);
    assert_eq!(log.into_vec(), vec![(7, 9), (3, 0)]);

    // nothing read, nothing reported
    let (_, _, log) =
        oneio::get_reader_with_progress("x", Ok(ByteStream::new(Vec::new())), Ok(0), ProgressLog::new())
            .unwrap();
    assert_eq!(log.into_vec(), Vec::<(u64, u64)>::new());
}

#[test]
fn decorator_hands_its_sink_back() {
    let mut reader = ProgressReader::new(ByteStream::new(sample(10)), Some(10), ProgressLog::new());
    assert_eq!(reader.read(4).len(), 4);
    assert_eq!(reader.read(0).len(), 0);
    assert_eq!(reader.read(100).len(), 6);
    assert_eq!(reader.read(100).len(), 0);
    assert_eq!(reader.into_sink().into_vec(), vec![(4, 10), (10, 10)]);
}
