use oneio::crypto::ensure_default_provider;
use oneio::s3_url_parse;
use oneio::ByteStream;
use oneio::Callback;
use oneio::LengthAnswer;
use oneio::OneIoError;
use std::io::Write;
use std::sync::Arc;
use std::sync::Mutex;

const TEST_TEXT: &str = "OneIO test file.\nThis is a test.";

/// The bytes of the gzip file of the test text.
fn gzip_file() -> Vec<u8> {
    let mut encoder = flate2::write::GzEncoder::new(Vec::new(), flate2::Compression::default());
    encoder.write_all(TEST_TEXT.as_bytes()).unwrap();
    encoder.finish().unwrap()
}

#[test]
fn test_ensure_default_provider() {
    // Should succeed whether provider is installed or not
    let result = ensure_default_provider();
    assert!(result.is_ok(), "ensure_default_provider should succeed");
}

#[test]
fn test_provider_installed() {
    // After calling ensure_default_provider, a provider should be available
    ensure_default_provider().unwrap();
    assert!(
        rustls::crypto::CryptoProvider::get_default().is_some(),
        "A crypto provider should be installed"
    );
}

#[test]
fn mod_test_progress_tracking_local() {
    // Track progress calls
    let progress_calls = Arc::new(Mutex::new(Vec::<(u64, u64)>::new()));
    let calls_clone = progress_calls.clone();

    // Test with a local compressed file
    let file = gzip_file();
    let file_size = file.len() as u64;
    let opened: Result<ByteStream, OneIoError> = Ok(ByteStream::new(file));
    let result = oneio::get_reader_with_progress(
        "tests/test_data.txt.gz",
        opened,
        oneio::get_content_length("tests/test_data.txt.gz", LengthAnswer::Metadata(file_size)),
        Callback::new(move |bytes_read, total_bytes| {
            calls_clone.lock().unwrap().push((bytes_read, total_bytes));
        }),
    );

    match result {
        Ok((mut reader, total_size, _)) => {
            assert!(total_size.is_some(), "Local file should have known size");
            let size = total_size.unwrap();
            assert!(size > 0, "Total size should be greater than 0");

            // Read the entire file
            let mut content = String::new();
            reader.read_to_string(&mut content).unwrap();
            assert_eq!(content.trim(), TEST_TEXT.trim());

            // Check that progress was tracked
            let calls = progress_calls.lock().unwrap();
            assert!(
                !calls.is_empty(),
                "Progress callback should have been called"
            );

            // Verify progress calls are reasonable
            let (last_bytes, last_total) = calls.last().unwrap();
            assert_eq!(*last_total, size, "Total should match in callbacks");
            assert!(*last_bytes <= size, "Bytes read should not exceed total");
            assert!(*last_bytes > 0, "Should have read some bytes");
        }
        Err(e) => {
            panic!("Progress tracking test skipped: {:?}", e);
        }
    }
}

#[test]
fn mod_test_progress_tracking_remote() {
    // Track progress calls
    let progress_calls = Arc::new(Mutex::new(Vec::<(u64, u64)>::new()));
    let calls_clone = progress_calls.clone();

    // Test with a remote file that has Content-Length
    let opened: Result<ByteStream, OneIoError> =
        Ok(ByteStream::new(TEST_TEXT.as_bytes().to_vec()));
    let result = oneio::get_reader_with_progress(
        "https://spaces.bgpkit.org/oneio/test_data.txt",
        opened,
        oneio::get_content_length(
            "https://spaces.bgpkit.org/oneio/test_data.txt",
            LengthAnswer::ContentLength(Some(TEST_TEXT.len().to_string())),
        ),
        Callback::new(move |bytes_read, total_bytes| {
            calls_clone.lock().unwrap().push((bytes_read, total_bytes));
        }),
    );

    match result {
        Ok((mut reader, total_size, _)) => {
            // Read the file
            let mut content = String::new();
            reader.read_to_string(&mut content).unwrap();
            assert_eq!(content.trim(), TEST_TEXT.trim());

            // Check progress tracking
            let calls = progress_calls.lock().unwrap();
            assert!(
                !calls.is_empty(),
                "Progress callback should have been called"
            );

            let (last_bytes, last_total) = calls.last().unwrap();

            match total_size {
                Some(size) => {
                    assert_eq!(*last_total, size, "Total should match in callbacks");
                    // Known size: verify bytes read doesn't exceed total
                    assert!(*last_bytes <= size);
                    println!(
                        "Progress tracking succeeded with known size: {} bytes",
                        size
                    );
                }
                None => {
                    assert_eq!(*last_total, 0, "Callback should get 0 for unknown size");
                    // Unknown size: just verify we read some bytes
                    assert!(*last_bytes > 0, "Should have read some bytes");
                    println!(
                        "Progress tracking succeeded with unknown size: {} bytes read",
                        last_bytes
                    );
                }
            }
        }
        Err(e) => panic!("Progress tracking remote test skipped: {:?}", e),
    }
}

#[test]
fn mod_test_get_content_length_local() {
    // Test local file content length
    let metadata_len = gzip_file().len() as u64;
    match oneio::get_content_length("tests/test_data.txt.gz", LengthAnswer::Metadata(metadata_len))
    {
        Ok(size) => {
            assert!(size > 0, "Local file should have a size greater than 0");

            // Verify it matches filesystem metadata
            assert_eq!(
                size, metadata_len,
                "Content length should match file metadata"
            );
        }
        Err(e) => {
            panic!("Content length test skipped: {:?}", e);
        }
    }
}

#[test]
fn test_s3_url_parse() {
    const S3_URL: &str = "s3://test-bucket/test-path/test-file.txt";
    let (bucket, path) = s3_url_parse(S3_URL).unwrap();
    assert_eq!(bucket, "test-bucket");
    assert_eq!(path, "test-path/test-file.txt");

    const NON_S3_URL: &str = "http://test-bucket/test-path/test-file.txt";
    assert!(s3_url_parse(NON_S3_URL).is_err());
}
