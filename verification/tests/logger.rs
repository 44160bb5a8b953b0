use rf_a::logger::inmemory::MemoryLogger;
use rf_a::logger::{build_time_log_level, LevelFilter};

#[test]
fn memory_logger_no_wrap() {
    let buffer = vec![0u8; 5];
    let mut logger = MemoryLogger::new(buffer);

    logger.add_bytes(&[1]);
    assert_eq!(logger.next_offset(), 1);
    assert_eq!(logger.buffer(), [1, 0, 0, 0, 0]);

    logger.add_bytes(&[2, 3]);
    assert_eq!(logger.next_offset(), 3);
    assert_eq!(logger.buffer(), [1, 2, 3, 0, 0]);
}

#[test]
fn memory_logger_too_long() {
    let buffer = vec![0u8; 5];
    let mut logger = MemoryLogger::new(buffer);

    logger.add_bytes(&[1, 2, 3, 4, 5, 6]);
    assert_eq!(logger.next_offset(), 0);
    assert_eq!(logger.buffer(), [2, 3, 4, 5, 6]);

    logger.add_bytes(&[7, 8]);
    assert_eq!(logger.next_offset(), 2);
    assert_eq!(logger.buffer(), [7, 8, 4, 5, 6]);

    logger.add_bytes(&[9, 10, 11, 12, 13]);
    assert_eq!(logger.next_offset(), 2);
    assert_eq!(logger.buffer(), [12, 13, 9, 10, 11]);
}

#[test]
fn memory_logger_wrap() {
    let buffer = vec![0u8; 5];
    let mut logger = MemoryLogger::new(buffer);

    logger.add_bytes(&[1, 2, 3]);
    assert_eq!(logger.next_offset(), 3);
    assert_eq!(logger.buffer(), [1, 2, 3, 0, 0]);

    logger.add_bytes(&[4, 5, 6]);
    assert_eq!(logger.next_offset(), 1);
    assert_eq!(logger.buffer(), [6, 2, 3, 4, 5]);
}

#[test]
fn memory_logger_boundary() {
    let buffer = vec![0u8; 5];
    let mut logger = MemoryLogger::new(buffer);

    logger.add_bytes(&[1, 2, 3]);
    assert_eq!(logger.next_offset(), 3);
    assert_eq!(logger.buffer(), [1, 2, 3, 0, 0]);

    logger.add_bytes(&[4, 5]);
    assert_eq!(logger.next_offset(), 0);
    assert_eq!(logger.buffer(), [1, 2, 3, 4, 5]);

    logger.add_bytes(&[6, 7, 8, 9, 10]);
    assert_eq!(logger.next_offset(), 0);
    assert_eq!(logger.buffer(), [6, 7, 8, 9, 10]);
}

/// The oldest-first contents of the buffer are the last bytes written.
#[test]
fn memory_logger_keeps_last_bytes_in_order() {
    let mut logger = MemoryLogger::new(vec![0u8; 4]);
    let mut history: Vec<u8> = vec![0, 0, 0, 0];
    for chunk in [&[1u8, 2, 3][..], &[4, 5][..], &[6, 7, 8, 9, 10, 11][..], &[12][..]] {
        logger.add_bytes(chunk);
        history.extend_from_slice(chunk);
        let buffer = logger.buffer();
        let off = logger.next_offset();
        let contents: Vec<u8> = buffer[off..].iter().chain(buffer[..off].iter()).copied().collect();
        assert_eq!(contents, history[history.len() - 4..]);
    }
}

#[test]
fn memory_logger_empty_write() {
    let mut logger = MemoryLogger::new(vec![9u8; 3]);
    logger.add_bytes(&[]);
    assert_eq!(logger.next_offset(), 0);
    assert_eq!(logger.buffer(), [0, 0, 0]);
}

#[test]
fn log_level_names() {
    assert_eq!(build_time_log_level(b"off", false), LevelFilter::Off);
    assert_eq!(build_time_log_level(b"error", false), LevelFilter::Error);
    assert_eq!(build_time_log_level(b"warn", true), LevelFilter::Warn);
    assert_eq!(build_time_log_level(b"info", true), LevelFilter::Info);
    assert_eq!(build_time_log_level(b"debug", false), LevelFilter::Debug);
    assert_eq!(build_time_log_level(b"trace", false), LevelFilter::Trace);
    assert_eq!(build_time_log_level(b"", true), LevelFilter::Trace);
    assert_eq!(build_time_log_level(b"", false), LevelFilter::Info);
    assert_eq!(build_time_log_level(b"INFO", false), LevelFilter::Info);
    assert_eq!(build_time_log_level(b"verbose", true), LevelFilter::Trace);
}
