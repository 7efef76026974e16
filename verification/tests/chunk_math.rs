use readengine::chunk::{chunk_start, range_end_inclusive, reply_bytes, request_spans_chunks};
use readengine::options::FileReadOptions;

#[test]
fn chunk_start_floors_to_chunk_boundary() {
    assert_eq!(chunk_start(0, 4096), 0);
    assert_eq!(chunk_start(1, 4096), 0);
    assert_eq!(chunk_start(4095, 4096), 0);
    assert_eq!(chunk_start(4096, 4096), 4096);
    assert_eq!(chunk_start(10000, 4096), 8192);
    assert_eq!(chunk_start(u64::MAX, 1), u64::MAX);
}

#[test]
fn span_detection_matches_chunk_window() {
    assert!(!request_spans_chunks(0, 4096, 4096));
    assert!(request_spans_chunks(0, 4097, 4096));
    assert!(!request_spans_chunks(100, 3996, 4096));
    assert!(request_spans_chunks(100, 3997, 4096));
    assert!(request_spans_chunks(100, 5000, 4096));
    assert!(!request_spans_chunks(8192, 0, 4096));
}

#[test]
fn reply_window_is_cut_to_buffer_length() {
    let chunk: Vec<u8> = (0u32..100).map(|b| b as u8).collect();
    // fully inside the filled part
    assert_eq!(reply_bytes(&chunk, 10, 5, 0), vec![10, 11, 12, 13, 14]);
    // reaching past the filled part gives a short read
    assert_eq!(reply_bytes(&chunk, 90, 50, 0), (90u32..100).map(|b| b as u8).collect::<Vec<u8>>());
    // starting past the filled part gives an empty read
    assert_eq!(reply_bytes(&chunk, 100, 10, 0), Vec::<u8>::new());
    assert_eq!(reply_bytes(&chunk, 500, 10, 0), Vec::<u8>::new());
    // offsets are relative to the chunk's start
    assert_eq!(reply_bytes(&chunk, 4096 + 20, 3, 4096), vec![20, 21, 22]);
}

#[test]
fn inclusive_range_end_covers_exactly_the_size() {
    assert_eq!(range_end_inclusive(0, 500), 499);
    assert_eq!(range_end_inclusive(4096, 4096), 8191);
    assert_eq!(range_end_inclusive(7, 1), 7);
}

#[test]
fn chunk_size_is_block_size_times_multiplier() {
    let options = FileReadOptions {
        readahead_queue_size: 2,
        file_read_cache_blocks: 4,
        read_block_multiplier: 1024,
    };
    assert_eq!(options.chunk_size(), 4096 * 1024);
}
