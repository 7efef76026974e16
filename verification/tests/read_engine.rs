use readengine::engine::{ChunkFetcher, EngineStep, FileReadEngine};
use readengine::errors::{FetchError, ReadError, SubmissionError};
use readengine::handle::FileReadHandle;
use readengine::options::FileReadOptions;
use readengine::request::{FileReadRequest, ReplySink};
use std::cell::RefCell;
use std::rc::Rc;

/// Serves byte `off % 251` for offset `off`, up to a configured file length,
/// recording every fetch attempt; can be told to fail the next fetch.
struct TestFetcher {
    calls: Rc<RefCell<Vec<u64>>>,
    fail_next: Rc<RefCell<bool>>,
    file_len: u64,
}

impl ChunkFetcher for TestFetcher {
    fn fetch(&mut self, start: u64, size: u64, buf: &mut Vec<u8>) -> Result<(), FetchError> {
        self.calls.borrow_mut().push(start);
        if *self.fail_next.borrow() {
            *self.fail_next.borrow_mut() = false;
            return Err(FetchError::Transport);
        }
        let mut i: u64 = 0;
        while i < size {
            let off = start + i;
            if off >= self.file_len {
                break;
            }
            buf.push((off % 251) as u8);
            i += 1;
        }
        Ok(())
    }
}

#[derive(Clone)]
struct RecordingSink {
    slot: Rc<RefCell<Option<Result<Vec<u8>, ReadError>>>>,
}

impl ReplySink for RecordingSink {
    fn data(self, bytes: &[u8]) {
        *self.slot.borrow_mut() = Some(Ok(bytes.to_vec()));
    }

    fn error(self, err: ReadError) {
        *self.slot.borrow_mut() = Some(Err(err));
    }
}

fn new_sink() -> (RecordingSink, Rc<RefCell<Option<Result<Vec<u8>, ReadError>>>>) {
    let slot = Rc::new(RefCell::new(None));
    (RecordingSink { slot: slot.clone() }, slot)
}

fn pattern(start: u64, end: u64) -> Vec<u8> {
    (start..end).map(|off| (off % 251) as u8).collect()
}

type TestEngine = FileReadEngine<TestFetcher, RecordingSink>;

fn new_engine(
    multiplier: u32,
    cache_blocks: usize,
    depth: usize,
    file_len: u64,
) -> (
    TestEngine,
    FileReadHandle<RecordingSink>,
    Rc<RefCell<Vec<u64>>>,
    Rc<RefCell<bool>>,
) {
    let calls = Rc::new(RefCell::new(Vec::new()));
    let fail_next = Rc::new(RefCell::new(false));
    let fetcher = TestFetcher {
        calls: calls.clone(),
        fail_next: fail_next.clone(),
        file_len,
    };
    let options = FileReadOptions {
        readahead_queue_size: depth,
        file_read_cache_blocks: cache_blocks,
        read_block_multiplier: multiplier,
    };
    let (engine, handle) = FileReadEngine::new(fetcher, &options);
    (engine, handle, calls, fail_next)
}

fn user_read(engine: &mut TestEngine, offset: u64, size: u32) -> Option<Result<Vec<u8>, ReadError>> {
    let (sink, slot) = new_sink();
    engine.handle_request(FileReadRequest::user(offset, size, sink));
    let out = slot.borrow().clone();
    out
}

#[test]
fn serves_bytes_within_single_chunk() {
    let (mut engine, _handle, calls, _fail) = new_engine(1, 2, 0, 1 << 30);
    let reply = user_read(&mut engine, 0, 100);
    assert_eq!(reply, Some(Ok(pattern(0, 100))));
    assert_eq!(*calls.borrow(), vec![0]);
}

#[test]
fn cached_chunk_served_without_second_fetch() {
    let (mut engine, _handle, calls, _fail) = new_engine(1, 2, 0, 1 << 30);
    let first = user_read(&mut engine, 0, 100);
    assert_eq!(first, Some(Ok(pattern(0, 100))));
    let second = user_read(&mut engine, 50, 200);
    assert_eq!(second, Some(Ok(pattern(50, 250))));
    assert_eq!(*calls.borrow(), vec![0], "the cached chunk must not be fetched again");
}

#[test]
fn scenario_capacity_two_evicts_one_entry() {
    let (mut engine, _handle, calls, _fail) = new_engine(1, 2, 0, 1 << 30);
    assert_eq!(user_read(&mut engine, 0, 100), Some(Ok(pattern(0, 100))));
    assert_eq!(user_read(&mut engine, 4096, 50), Some(Ok(pattern(4096, 4146))));
    assert!(engine.is_chunk_cached(0));
    assert!(engine.is_chunk_cached(4096));
    assert_eq!(user_read(&mut engine, 8192, 10), Some(Ok(pattern(8192, 8202))));
    assert_eq!(*calls.borrow(), vec![0, 4096, 8192]);
    assert!(engine.is_chunk_cached(8192));
    assert!(!engine.is_chunk_cached(0), "the oldest entry is evicted to reuse its buffer");
    assert!(engine.is_chunk_cached(4096));
}

#[test]
fn scenario_cross_chunk_read_rejected() {
    let (mut engine, _handle, calls, _fail) = new_engine(1, 2, 0, 1 << 30);
    let reply = user_read(&mut engine, 100, 5000);
    assert_eq!(reply, Some(Err(ReadError::UnsupportedSpan)));
    assert!(calls.borrow().is_empty(), "a rejected request never reaches the fetcher");
}

#[test]
fn read_up_to_chunk_boundary_is_served() {
    let (mut engine, _handle, _calls, _fail) = new_engine(1, 2, 0, 1 << 30);
    let reply = user_read(&mut engine, 4000, 96);
    assert_eq!(reply, Some(Ok(pattern(4000, 4096))));
    let over = user_read(&mut engine, 4000, 97);
    assert_eq!(over, Some(Err(ReadError::UnsupportedSpan)));
}

#[test]
fn scenario_transport_failure_recycles_buffer() {
    let (mut engine, _handle, calls, fail) = new_engine(1, 1, 0, 1 << 30);
    *fail.borrow_mut() = true;
    let reply = user_read(&mut engine, 0, 100);
    assert_eq!(reply, Some(Err(ReadError::Io(FetchError::Transport))));
    // the buffer taken for the failed fetch went back to the free list: with
    // a single configured buffer, the retry could not succeed otherwise
    let retry = user_read(&mut engine, 0, 100);
    assert_eq!(retry, Some(Ok(pattern(0, 100))));
    assert_eq!(*calls.borrow(), vec![0, 0]);
}

#[test]
fn failed_fetch_with_no_free_buffer_costs_one_entry() {
    let (mut engine, _handle, _calls, fail) = new_engine(1, 2, 0, 1 << 30);
    assert_eq!(user_read(&mut engine, 0, 10), Some(Ok(pattern(0, 10))));
    assert_eq!(user_read(&mut engine, 4096, 10), Some(Ok(pattern(4096, 4106))));
    // both buffers are keyed now, so the buffer for the next fetch is freed
    // by evicting one entry before the fetch runs; a fetch failure then costs
    // exactly that entry and nothing else
    *fail.borrow_mut() = true;
    assert_eq!(
        user_read(&mut engine, 8192, 10),
        Some(Err(ReadError::Io(FetchError::Transport)))
    );
    assert!(!engine.is_chunk_cached(8192));
    assert!(!engine.is_chunk_cached(0), "the coolest entry paid for the attempt");
    assert!(engine.is_chunk_cached(4096), "the other entry is untouched");
    // the freed buffer is still reusable
    assert_eq!(user_read(&mut engine, 8192, 10), Some(Ok(pattern(8192, 8202))));
}

#[test]
fn short_final_chunk_yields_short_read() {
    let (mut engine, _handle, _calls, _fail) = new_engine(1, 2, 0, 100);
    let reply = user_read(&mut engine, 0, 200);
    assert_eq!(reply, Some(Ok(pattern(0, 100))));
    let past_data = user_read(&mut engine, 150, 20);
    assert_eq!(past_data, Some(Ok(Vec::new())));
}

#[test]
fn readahead_queue_rebuilt_behind_served_chunk() {
    let (mut engine, _handle, _calls, _fail) = new_engine(1, 8, 3, 1 << 30);
    assert_eq!(user_read(&mut engine, 0, 100), Some(Ok(pattern(0, 100))));
    assert_eq!(engine.readahead_offsets(), vec![4096, 8192, 12288]);
}

#[test]
fn readahead_skips_cached_chunks() {
    let (mut engine, _handle, _calls, _fail) = new_engine(1, 8, 3, 1 << 30);
    assert_eq!(user_read(&mut engine, 8192, 10), Some(Ok(pattern(8192, 8202))));
    assert_eq!(user_read(&mut engine, 0, 10), Some(Ok(pattern(0, 10))));
    assert_eq!(engine.readahead_offsets(), vec![4096, 12288]);
}

#[test]
fn user_miss_invalidates_readahead_queue() {
    let (mut engine, _handle, _calls, fail) = new_engine(1, 8, 2, 1 << 30);
    assert_eq!(user_read(&mut engine, 0, 100), Some(Ok(pattern(0, 100))));
    assert_eq!(engine.readahead_offsets(), vec![4096, 8192]);
    *fail.borrow_mut() = true;
    let reply = user_read(&mut engine, 40960, 10);
    assert_eq!(reply, Some(Err(ReadError::Io(FetchError::Transport))));
    assert!(
        engine.readahead_offsets().is_empty(),
        "the stale queue is emptied before any new prefetch is scheduled"
    );
}

#[test]
fn user_miss_reschedules_readahead_past_new_chunk() {
    let (mut engine, _handle, _calls, _fail) = new_engine(1, 8, 2, 1 << 30);
    assert_eq!(user_read(&mut engine, 0, 100), Some(Ok(pattern(0, 100))));
    assert_eq!(user_read(&mut engine, 40960, 10), Some(Ok(pattern(40960, 40970))));
    assert_eq!(engine.readahead_offsets(), vec![45056, 49152]);
}

#[test]
fn poll_serves_user_requests_then_readahead_then_idles() {
    let (mut engine, handle, calls, _fail) = new_engine(1, 8, 1, 1 << 30);
    let (sink, slot) = new_sink();
    assert!(handle.do_read(0, 100, sink).is_ok());
    assert_eq!(engine.poll_once(), EngineStep::Handled);
    assert_eq!(slot.borrow().clone(), Some(Ok(pattern(0, 100))));
    assert_eq!(engine.readahead_offsets(), vec![4096]);
    // nothing is waiting, so the pending read-ahead warms the cache
    assert_eq!(engine.poll_once(), EngineStep::Handled);
    assert!(engine.is_chunk_cached(4096));
    assert!(engine.readahead_offsets().is_empty());
    assert_eq!(*calls.borrow(), vec![0, 4096]);
    assert_eq!(engine.poll_once(), EngineStep::Idle);
    drop(handle);
    assert_eq!(engine.poll_once(), EngineStep::Stopped);
}

#[test]
fn zero_depth_disables_readahead() {
    let (mut engine, _handle, calls, _fail) = new_engine(1, 4, 0, 1 << 30);
    assert_eq!(user_read(&mut engine, 0, 100), Some(Ok(pattern(0, 100))));
    assert!(engine.readahead_offsets().is_empty());
    assert_eq!(engine.poll_once(), EngineStep::Idle);
    assert_eq!(*calls.borrow(), vec![0]);
}

#[test]
fn queued_user_requests_are_served_in_submission_order() {
    let (mut engine, handle, calls, _fail) = new_engine(1, 8, 0, 1 << 30);
    let (first_sink, first_slot) = new_sink();
    let (second_sink, second_slot) = new_sink();
    assert!(handle.do_read(0, 10, first_sink).is_ok());
    assert!(handle.do_read(8192, 10, second_sink).is_ok());
    assert_eq!(engine.poll_once(), EngineStep::Handled);
    assert_eq!(first_slot.borrow().clone(), Some(Ok(pattern(0, 10))));
    assert_eq!(second_slot.borrow().clone(), None);
    assert_eq!(engine.poll_once(), EngineStep::Handled);
    assert_eq!(second_slot.borrow().clone(), Some(Ok(pattern(8192, 8202))));
    assert_eq!(*calls.borrow(), vec![0, 8192]);
}

#[test]
fn failed_readahead_is_silently_discarded() {
    let (mut engine, handle, calls, fail) = new_engine(1, 8, 1, 1 << 30);
    let (sink, slot) = new_sink();
    assert!(handle.do_read(0, 100, sink).is_ok());
    assert_eq!(engine.poll_once(), EngineStep::Handled);
    assert_eq!(slot.borrow().clone(), Some(Ok(pattern(0, 100))));
    *fail.borrow_mut() = true;
    assert_eq!(engine.poll_once(), EngineStep::Handled);
    assert!(!engine.is_chunk_cached(4096));
    assert_eq!(*calls.borrow(), vec![0, 4096]);
    // the engine keeps serving after a failed speculative fetch
    assert_eq!(user_read(&mut engine, 4096, 10), Some(Ok(pattern(4096, 4106))));
}

#[test]
fn waiting_user_request_preempts_queued_readahead() {
    let (mut engine, handle, calls, _fail) = new_engine(1, 8, 1, 1 << 30);
    assert_eq!(user_read(&mut engine, 0, 100), Some(Ok(pattern(0, 100))));
    assert_eq!(engine.readahead_offsets(), vec![4096]);
    let (sink, slot) = new_sink();
    assert!(handle.do_read(8192, 10, sink).is_ok());
    // the queued read-ahead at 4096 is passed over: a miss on the waiting
    // user request discards it and schedules past the new chunk
    assert_eq!(engine.poll_once(), EngineStep::Handled);
    assert_eq!(slot.borrow().clone(), Some(Ok(pattern(8192, 8202))));
    assert_eq!(engine.readahead_offsets(), vec![12288]);
    assert_eq!(engine.poll_once(), EngineStep::Handled);
    assert_eq!(*calls.borrow(), vec![0, 8192, 12288]);
}

#[test]
fn refcount_roundtrip_releases_handle() {
    let (_engine, mut handle, _calls, _fail) = new_engine(1, 1, 0, 1 << 30);
    handle.incref();
    handle.incref();
    handle.incref();
    let handle = handle.decref().expect("two openers remain");
    let handle = handle.decref().expect("one opener remains");
    assert!(handle.decref().is_none(), "the final decref signals shutdown");
}

#[test]
fn read_after_engine_stopped_fails_submission() {
    let (engine, handle, _calls, _fail) = new_engine(1, 1, 0, 1 << 30);
    drop(engine);
    let (sink, _slot) = new_sink();
    assert_eq!(handle.do_read(0, 100, sink), Err(SubmissionError));
}

#[test]
fn readahead_request_shape_never_spans_chunks() {
    // a speculative request always asks for one whole chunk at an aligned
    // offset, so it can never be rejected as a cross-chunk read
    let (mut engine, _handle, calls, _fail) = new_engine(4, 8, 2, 1 << 30);
    assert_eq!(engine.chunk_size(), 16384);
    assert_eq!(user_read(&mut engine, 16384, 100), Some(Ok(pattern(16384, 16484))));
    assert_eq!(engine.readahead_offsets(), vec![32768, 49152]);
    assert_eq!(engine.poll_once(), EngineStep::Handled);
    assert!(engine.is_chunk_cached(32768));
    assert_eq!(*calls.borrow(), vec![16384, 32768]);
}
