use std::io;
use std::task::Poll;
use rust_collector::constants::{
    SFTP_DEFAULT_PORT as DEFAULT_PORT, SFTP_DEFAULT_CONCURRENT_CONNECTIONS as DEFAULT_CONCURRENT_CONNECTIONS,
    SFTP_BUFFER_SIZE as DEFAULT_BUFFER_SIZE, DEFAULT_CONNECTION_TIMEOUT_SECS as DEFAULT_CONNECTION_TIMEOUT,
    MAX_UPLOAD_RETRIES, LARGE_FILE_THRESHOLD, S3_UPLOAD_CHUNK_SIZE as UPLOAD_CHUNK_SIZE,
    S3_MIN_PART_SIZE as MIN_PART_SIZE, RETRY_BASE_DELAY_MS, RETRY_MAX_DELAY_SECS,
};
use rust_collector::cloud::sftp::{RetryConfig, SFTPClient, SFTPConfig};
use rust_collector::cloud::s3::{
    choose_region, file_part_step_after, is_multipart_upload, part_batches, part_count, part_range,
    region_choice, s3_object_key, take_batch, RegionChoice,
};
use rust_collector::cloud::streaming::{
    CompletedPartRecord, PartAttempts, PartBuffer, PartOutcome, PartStep, buffer_size_for,
    part_retry_delay_ms, sort_completed_parts,
};
use rust_collector::cloud::streaming_target::StreamingTarget;
use rust_collector::cloud::retry::{backoff_delay_ms, should_retry};

const MAX_RETRIES: usize = MAX_UPLOAD_RETRIES;

#[test]
fn test_upload_chunk_size_constant() {
    assert!(UPLOAD_CHUNK_SIZE >= 5 * 1024 * 1024);
    assert_eq!(UPLOAD_CHUNK_SIZE, 8 * 1024 * 1024);
}

#[test]
fn test_large_file_threshold() {
    assert_eq!(LARGE_FILE_THRESHOLD, 50 * 1024 * 1024);
}

#[test]
fn test_s3_key_generation() {
    let prefix = "test-prefix";
    let filename = "test-file.txt";
    let key = s3_object_key(prefix, filename);
    assert_eq!(key, "test-prefix/test-file.txt");
}

#[test]
fn test_upload_retries_constant() {
    assert_eq!(MAX_UPLOAD_RETRIES, 3);
}

#[test]
fn test_multipart_upload_calculation() {
    let file_sizes = vec![
        (UPLOAD_CHUNK_SIZE as u64 - 1, 1),
        (UPLOAD_CHUNK_SIZE as u64, 1),
        (UPLOAD_CHUNK_SIZE as u64 + 1, 2),
        (UPLOAD_CHUNK_SIZE as u64 * 10, 10),
    ];
    for (file_size, expected_parts) in file_sizes {
        assert_eq!(part_count(file_size), expected_parts, "File size {} should have {} parts", file_size, expected_parts);
    }
}

#[test]
fn test_exponential_backoff_calculation() {
    let delays: Vec<u64> = (1..=MAX_UPLOAD_RETRIES).map(|attempt| part_retry_delay_ms(attempt as u32)).collect();
    assert_eq!(delays[0], 500);
    assert_eq!(delays[1], 1000);
    if MAX_UPLOAD_RETRIES >= 3 {
        assert_eq!(delays[2], 2000);
    }
}

#[test]
fn parts_cover_the_file() {
    let size = UPLOAD_CHUNK_SIZE as u64 * 2 + 7;
    assert_eq!(part_count(size), 3);
    assert_eq!(part_range(1, size), (0, UPLOAD_CHUNK_SIZE as u64));
    assert_eq!(part_range(2, size), (UPLOAD_CHUNK_SIZE as u64, 2 * UPLOAD_CHUNK_SIZE as u64));
    assert_eq!(part_range(3, size), (2 * UPLOAD_CHUNK_SIZE as u64, size));
    assert_eq!(part_batches(10, 4), vec![(1, 4), (5, 8), (9, 10)]);
    assert_eq!(part_batches(0, 4), vec![]);
    assert!(is_multipart_upload(LARGE_FILE_THRESHOLD + 1));
    assert!(!is_multipart_upload(LARGE_FILE_THRESHOLD));
}

#[test]
fn test_sftp_config_default() {
    let config = SFTPConfig::default();
    assert_eq!(config.host, "");
    assert_eq!(config.port, DEFAULT_PORT);
    assert_eq!(config.username, "");
    assert_eq!(config.remote_path, "");
    assert_eq!(config.concurrent_connections, DEFAULT_CONCURRENT_CONNECTIONS);
    assert_eq!(config.buffer_size_mb, DEFAULT_BUFFER_SIZE / (1024 * 1024));
    assert_eq!(config.connection_timeout_sec, DEFAULT_CONNECTION_TIMEOUT);
    assert_eq!(config.max_retries, MAX_UPLOAD_RETRIES);
}

#[test]
fn test_sftp_config_custom() {
    let config = SFTPConfig {
        host: "test.example.com".to_string(),
        port: 2222,
        username: "testuser".to_string(),
        private_key_path: "/home/user/.ssh/id_rsa".to_string(),
        remote_path: "/uploads".to_string(),
        concurrent_connections: 8,
        buffer_size_mb: 16,
        connection_timeout_sec: 60,
        max_retries: 5,
    };
    assert_eq!(config.host, "test.example.com");
    assert_eq!(config.port, 2222);
    assert_eq!(config.username, "testuser");
    assert_eq!(config.private_key_path, "/home/user/.ssh/id_rsa");
    assert_eq!(config.remote_path, "/uploads");
    assert_eq!(config.concurrent_connections, 8);
    assert_eq!(config.buffer_size_mb, 16);
    assert_eq!(config.connection_timeout_sec, 60);
    assert_eq!(config.max_retries, 5);
}

#[test]
fn test_retry_config_default() {
    let retry_config = RetryConfig::default();
    assert_eq!(retry_config.max_attempts, MAX_UPLOAD_RETRIES);
    assert_eq!(retry_config.base_delay_ms, RETRY_BASE_DELAY_MS);
    assert_eq!(retry_config.max_delay_ms, RETRY_MAX_DELAY_SECS * 1000);
}

#[test]
fn test_sftp_client_new() {
    let config = SFTPConfig::default();
    let client = SFTPClient::new(config.clone());
    assert_eq!(client.config.host, config.host);
    assert_eq!(client.config.port, config.port);
    assert_eq!(client.get_progress(), (0, 0));
}

#[test]
fn test_sftp_client_progress_tracking() {
    let config = SFTPConfig::default();
    let mut client = SFTPClient::new(config);
    client.add_total_bytes(1000);
    assert_eq!(client.get_progress(), (0, 1000));
    client.add_uploaded_bytes(500);
    assert_eq!(client.get_progress(), (500, 1000));
    client.add_uploaded_bytes(500);
    assert_eq!(client.get_progress(), (1000, 1000));
}

#[test]
fn test_constants() {
    assert_eq!(DEFAULT_PORT, 22);
    assert_eq!(DEFAULT_CONCURRENT_CONNECTIONS, 4);
    assert_eq!(DEFAULT_BUFFER_SIZE, 8 * 1024 * 1024);
    assert_eq!(DEFAULT_CONNECTION_TIMEOUT, 30);
    assert_eq!(MAX_UPLOAD_RETRIES, 3);
    assert_eq!(LARGE_FILE_THRESHOLD, 50 * 1024 * 1024);
}

#[test]
fn test_calculate_exponential_backoff() {
    let retry_config = RetryConfig::default();
    for attempt in 1..=retry_config.max_attempts {
        let delay = retry_config.delay_ms(attempt as u32);
        if attempt == 1 {
            assert_eq!(delay, 500);
        } else if attempt == 2 {
            assert_eq!(delay, 1000);
        } else if attempt == 3 {
            assert_eq!(delay, 2000);
        }
    }
}

#[test]
fn test_ensure_remote_path_exists_logic() {
    let paths = vec![
        ("/remote/path", "/remote/path"),
        ("/remote/path/", "/remote/path/"),
        ("remote/path", "remote/path"),
        ("", ""),
    ];
    for (input, expected) in paths {
        assert_eq!(input, expected);
    }
}

#[test]
fn test_sftp_url_formatting() {
    let config = SFTPConfig {
        host: "example.com".to_string(),
        port: 2222,
        username: "user".to_string(),
        remote_path: "/uploads".to_string(),
        ..Default::default()
    };
    let client = SFTPClient::new(config);
    assert_eq!(client.sftp_url("test.txt"), "sftp://user@example.com:2222/uploads/test.txt");
}

#[test]
fn test_buffer_size_conversion() {
    let config = SFTPConfig { buffer_size_mb: 16, ..Default::default() };
    let client = SFTPClient::new(config);
    assert_eq!(client.buffer_size_bytes(), 16 * 1024 * 1024);
    let default_mb = DEFAULT_BUFFER_SIZE / (1024 * 1024);
    assert_eq!(default_mb, 8);
}

#[test]
fn test_large_file_detection() {
    let file_sizes = vec![
        (LARGE_FILE_THRESHOLD - 1, false),
        (LARGE_FILE_THRESHOLD, true),
        (LARGE_FILE_THRESHOLD + 1, true),
        (100 * 1024 * 1024, true),
    ];
    for (size, should_chunk) in file_sizes {
        assert_eq!(SFTPClient::is_large_file(size), should_chunk, "File size {} should{} trigger chunking", size, if should_chunk { "" } else { " not" });
    }
}

#[test]
fn sftp_remote_paths_and_chunks() {
    let config = SFTPConfig { remote_path: "/uploads//".to_string(), ..Default::default() };
    let client = SFTPClient::new(config);
    assert_eq!(client.remote_path_for("a.zip"), "/uploads/a.zip");
    assert_eq!(client.chunk_count(8 * 1024 * 1024 + 1), 2);
    assert_eq!(client.chunk_count(0), 0);
    assert!(should_retry(2, 3));
    assert!(!should_retry(3, 3));
    assert_eq!(backoff_delay_ms(250, 10, 30000), 30000);
    assert_eq!(backoff_delay_ms(250, 70, u64::MAX), u64::MAX);
}

#[test]
fn test_min_part_size_constant() {
    assert_eq!(MIN_PART_SIZE, 5 * 1024 * 1024);
}

#[test]
fn test_max_retries_constant() {
    assert_eq!(MAX_RETRIES, 3);
}

#[test]
fn test_bytes_uploaded_atomic() {
    let mut buffer = PartBuffer::new("bucket", "key", 5);
    buffer.part_accepted(100);
    assert_eq!(buffer.bytes_uploaded(), 100);
    buffer.part_accepted(50);
    assert_eq!(buffer.bytes_uploaded(), 150);
}

#[test]
fn test_part_number_atomic() {
    let mut buffer = PartBuffer::new("bucket", "key", 5);
    let first = buffer.write(&vec![0u8; MIN_PART_SIZE]).unwrap();
    assert_eq!(first.0, 1);
    let second = buffer.write(&vec![1u8; MIN_PART_SIZE]).unwrap();
    assert_eq!(second.0, 2);
}

#[test]
fn test_buffer_size_calculation() {
    assert_eq!(buffer_size_for(3), 5 * 1024 * 1024);
    assert_eq!(buffer_size_for(10), 10 * 1024 * 1024);
}

#[test]
fn test_retry_delay_calculation() {
    for attempt in 0..MAX_RETRIES {
        let delay_ms = part_retry_delay_ms(attempt as u32);
        let expected = match attempt {
            0 => 250,
            1 => 500,
            2 => 1000,
            _ => unreachable!(),
        };
        assert_eq!(delay_ms, expected);
    }
}

#[test]
fn test_streaming_target_name_format() {
    let buffer = PartBuffer::new("my-bucket", "path/to/file.txt", 5);
    assert_eq!(buffer.target_name(), "s3://my-bucket/path/to/file.txt");
}

#[test]
fn test_poll_ready_variants() {
    let ready: Poll<Result<(), io::Error>> = Poll::Ready(Ok(()));
    assert!(matches!(ready, Poll::Ready(Ok(()))));
    let pending: Poll<Result<(), io::Error>> = Poll::Pending;
    assert!(matches!(pending, Poll::Pending));
}

#[test]
fn test_io_error_creation() {
    let error = io::Error::new(io::ErrorKind::BrokenPipe, "test error");
    assert_eq!(error.kind(), io::ErrorKind::BrokenPipe);
}

#[test]
fn test_pin_creation() {
    let value = 42;
    let boxed = Box::new(value);
    let pinned = Box::pin(value);
    assert_eq!(*boxed, 42);
    assert_eq!(*pinned, 42);
}

#[test]
fn test_poll_variants() {
    let ready_ok: Poll<io::Result<()>> = Poll::Ready(Ok(()));
    assert!(matches!(ready_ok, Poll::Ready(Ok(()))));
    let ready_err: Poll<io::Result<()>> = Poll::Ready(Err(io::Error::new(io::ErrorKind::Other, "test error")));
    assert!(matches!(ready_err, Poll::Ready(Err(_))));
    let pending: Poll<io::Result<()>> = Poll::Pending;
    assert!(matches!(pending, Poll::Pending));
}

#[test]
fn part_buffer_keeps_every_byte_in_order() {
    let mut buffer = PartBuffer::new("b", "k", 5);
    assert!(buffer.write(b"hello ").is_none());
    let big = vec![7u8; MIN_PART_SIZE];
    let (n, part) = buffer.write(&big).unwrap();
    assert_eq!(n, 1);
    let bytes = part.to_vec();
    assert_eq!(bytes.len(), 6 + MIN_PART_SIZE);
    assert_eq!(&bytes[..6], b"hello ");
    assert!(buffer.write(b"tail").is_none());
    buffer.put_back(&part);
    let (m, rest) = buffer.finish().unwrap();
    assert_eq!(m, 2);
    assert_eq!(rest.to_vec().len(), 6 + MIN_PART_SIZE);
    assert!(buffer.finish().is_none());
}

#[test]
fn sftp_part_buffer_hands_out_whole_buffers() {
    let mut buffer = PartBuffer::for_sftp("/upload/a.zip", 1);
    assert_eq!(buffer.target_name(), "sftp:///upload/a.zip");
    assert!(buffer.write(&vec![1u8; 1024 * 1024 - 1]).is_none());
    let (n, part) = buffer.write(&[2u8]).unwrap();
    assert_eq!(n, 1);
    let bytes = part.to_vec();
    assert_eq!(bytes.len(), 1024 * 1024);
    assert_eq!(bytes[bytes.len() - 1], 2);
    assert!(buffer.finish().is_none());
}

#[test]
fn test_completed_parts_sorting() {
    let parts = vec![
        CompletedPartRecord { e_tag: Some("etag-3".to_string()), part_number: Some(3) },
        CompletedPartRecord { e_tag: Some("etag-1".to_string()), part_number: Some(1) },
        CompletedPartRecord { e_tag: Some("etag-2".to_string()), part_number: Some(2) },
    ];
    let parts = sort_completed_parts(parts);
    assert_eq!(parts[0].part_number, Some(1));
    assert_eq!(parts[1].part_number, Some(2));
    assert_eq!(parts[2].part_number, Some(3));
}

#[test]
fn sorting_parts_keeps_every_part_and_puts_unnumbered_first() {
    let parts = vec![
        CompletedPartRecord { e_tag: Some("b".to_string()), part_number: Some(2) },
        CompletedPartRecord { e_tag: None, part_number: None },
        CompletedPartRecord { e_tag: Some("a".to_string()), part_number: Some(2) },
        CompletedPartRecord { e_tag: Some("z".to_string()), part_number: Some(-1) },
    ];
    let sorted = sort_completed_parts(parts);
    let keys: Vec<Option<i64>> = sorted.iter().map(|p| p.part_number).collect();
    assert_eq!(keys, vec![Some(-1), None, Some(2), Some(2)]);
    assert_eq!(sorted[2].e_tag, Some("b".to_string()));
    assert_eq!(sorted[3].e_tag, Some("a".to_string()));
    assert!(sort_completed_parts(vec![]).is_empty());
}

#[test]
fn part_attempts_retry_with_backoff_then_give_up() {
    let mut attempts = PartAttempts::new(7);
    assert!(attempts.may_attempt());
    attempts.start_attempt();
    assert!(matches!(attempts.after_attempt(PartOutcome::Failed), PartStep::RetryAfter(500)));
    attempts.start_attempt();
    assert!(matches!(attempts.after_attempt(PartOutcome::Accepted(None)), PartStep::RetryAfter(0)));
    assert!(matches!(attempts.after_attempt(PartOutcome::Failed), PartStep::RetryAfter(1000)));
    attempts.start_attempt();
    assert!(!attempts.may_attempt());
    assert!(matches!(attempts.after_attempt(PartOutcome::Failed), PartStep::GiveUpFailed));
    assert!(matches!(attempts.after_attempt(PartOutcome::Accepted(None)), PartStep::GiveUpNoTag));
    match attempts.after_attempt(PartOutcome::Accepted(Some("tag".to_string()))) {
        PartStep::Done(record) => {
            assert_eq!(record.e_tag, Some("tag".to_string()));
            assert_eq!(record.part_number, Some(7));
        }
        _ => panic!("a tagged answer completes the part"),
    }
}

#[test]
fn a_stream_part_waits_for_the_whole_buffer_size() {
    let mut buffer = PartBuffer::new("b", "k", 10);
    assert!(buffer.write(&vec![1u8; 6 * 1024 * 1024]).is_none());
    let (n, part) = buffer.write(&vec![2u8; 4 * 1024 * 1024]).unwrap();
    assert_eq!(n, 1);
    assert_eq!(part.len(), 10 * 1024 * 1024);
    assert!(buffer.write(&vec![3u8; 6 * 1024 * 1024]).is_none());
    let (m, tail) = buffer.finish().unwrap();
    assert_eq!(m, 2);
    assert_eq!(tail.len(), 6 * 1024 * 1024);
}

#[test]
fn a_file_part_without_an_entity_tag_fails_at_once() {
    let mut attempts = PartAttempts::new(4);
    attempts.start_attempt();
    assert!(matches!(file_part_step_after(&attempts, PartOutcome::Accepted(None)), PartStep::GiveUpNoTag));
    assert!(matches!(file_part_step_after(&attempts, PartOutcome::Failed), PartStep::RetryAfter(500)));
    attempts.start_attempt();
    assert!(matches!(file_part_step_after(&attempts, PartOutcome::Failed), PartStep::RetryAfter(1000)));
    match file_part_step_after(&attempts, PartOutcome::Accepted(Some("tag".to_string()))) {
        PartStep::Done(record) => {
            assert_eq!(record.e_tag, Some("tag".to_string()));
            assert_eq!(record.part_number, Some(4));
        }
        _ => panic!("expected the part to be done"),
    }
    attempts.start_attempt();
    assert!(matches!(file_part_step_after(&attempts, PartOutcome::Failed), PartStep::GiveUpFailed));
}

#[test]
fn a_region_name_is_parsed_and_an_invalid_one_falls_back_to_the_default() {
    assert_eq!(choose_region(Some("us-west-2")), RegionChoice::Named("us-west-2".to_string()));
    assert_eq!(choose_region(Some("EU-WEST-1")), RegionChoice::Named("eu-west-1".to_string()));
    assert_eq!(choose_region(Some("apsoutheast2")), RegionChoice::Named("ap-southeast-2".to_string()));
    assert_eq!(choose_region(Some("invalid-region")), RegionChoice::DefaultAfterInvalid);
    assert_eq!(choose_region(None), RegionChoice::Default);
    assert_eq!(region_choice(Some("x".to_string())), RegionChoice::Named("x".to_string()));
    assert_eq!(region_choice(None), RegionChoice::DefaultAfterInvalid);
}

fn record(n: i64) -> CompletedPartRecord {
    CompletedPartRecord { e_tag: Some(format!("etag-{}", n)), part_number: Some(n) }
}

#[test]
fn a_batch_with_a_failed_part_aborts_at_the_first_failure() {
    let mut records = vec![record(1)];
    assert_eq!(take_batch(&mut records, vec![Some(record(2)), Some(record(3))]), None);
    assert_eq!(records.len(), 3);
    assert_eq!(records[2].part_number, Some(3));
    assert_eq!(take_batch(&mut records, vec![Some(record(4)), None, Some(record(6)), None]), Some(1));
    assert_eq!(records.len(), 4);
    assert_eq!(records[3].e_tag, Some("etag-4".to_string()));
}
