use kugou_tui::audio::download::{Downloader, PartFate, StreamOutcome};
use kugou_tui::audio::streaming::{
    Availability, ReadStep, SeekStep, SeekTarget, SpillOutcome, SpillRead, StreamReader,
    StreamingBuffer,
};

/// A buffer with a spill file, which is a list of bytes here.
struct Spilled {
    buffer: StreamingBuffer,
    file: Vec<u8>,
}

impl Spilled {
    fn new(total: Option<u64>, window: Option<(usize, usize)>) -> Self {
        let buffer = match window {
            Some((max, target)) => StreamingBuffer::with_window_for_test(total, max, target),
            None => StreamingBuffer::with_spill(total),
        };
        Spilled { buffer, file: Vec::new() }
    }

    fn write_and_push(&mut self, chunk: &[u8]) {
        self.file.extend_from_slice(chunk);
        self.buffer.push(chunk);
    }

    /// Reads into `out`, from memory or from the file, as many bytes as come at once.
    fn read(&self, reader: &mut StreamReader, out: &mut [u8]) -> Result<usize, String> {
        match reader.read(&self.buffer, out.len(), false) {
            ReadStep::Wait => panic!("nothing to wait for"),
            ReadStep::Failed(reason) => Err(reason),
            ReadStep::Bytes(bytes) => {
                out[..bytes.len()].copy_from_slice(&bytes);
                Ok(bytes.len())
            }
            ReadStep::FromSpill { offset, len } => {
                let mut read = SpillRead::new(offset, len);
                while let Some((at, rest)) = read.next() {
                    let at = at as usize;
                    let count = rest.min(self.file.len().saturating_sub(at)).min(700);
                    let from = read.filled;
                    out[from..from + count].copy_from_slice(&self.file[at..at + count]);
                    read.took(SpillOutcome::Got(count));
                }
                reader.advance(read.filled);
                Ok(read.filled)
            }
        }
    }
}

fn read_all(buffer: &StreamingBuffer, reader: &mut StreamReader, len: usize) -> Vec<u8> {
    match reader.read(buffer, len, false) {
        ReadStep::Bytes(bytes) => bytes,
        other => panic!("{other:?}"),
    }
}

#[test]
fn reads_buffered_data() {
    let mut buffer = StreamingBuffer::new(Some(4));
    buffer.push(b"abcd");
    buffer.finish(None);

    let mut reader = StreamReader::new();
    let out = read_all(&buffer, &mut reader, 4);
    assert_eq!(out.len(), 4);
    assert_eq!(&out, b"abcd");
    assert_eq!(read_all(&buffer, &mut reader, 4).len(), 0);
}

#[test]
fn read_blocks_until_data_arrives() {
    let mut buffer = StreamingBuffer::new(None);
    let mut reader = StreamReader::new();
    assert_eq!(reader.read(&buffer, 4, false), ReadStep::Wait);

    buffer.push(b"late");
    buffer.finish(None);
    let out = read_all(&buffer, &mut reader, 4);
    assert_eq!(out.len(), 4);
    assert_eq!(&out, b"late");
}

#[test]
fn seek_beyond_buffer_reports_error() {
    let mut buffer = StreamingBuffer::new(Some(100));
    buffer.push(b"ab");
    buffer.finish(None);

    let mut reader = StreamReader::new();
    let step = reader.seek(&buffer, SeekTarget::Start(50), false);
    assert_eq!(
        step,
        SeekStep::Failed("音频数据不足：需要 50 字节，实际 2 字节".to_string())
    );
    assert_eq!(reader.pos, 0);
}

#[test]
fn seek_within_buffer_works() {
    let mut buffer = StreamingBuffer::new(Some(6));
    buffer.push(b"abcdef");
    buffer.finish(None);

    let mut reader = StreamReader::new();
    assert_eq!(reader.seek(&buffer, SeekTarget::Start(3), false), SeekStep::Moved(3));
    let out = read_all(&buffer, &mut reader, 3);
    assert_eq!(out.len(), 3);
    assert_eq!(&out, b"def");
}

#[test]
fn download_error_surfaces_after_buffered_bytes_are_consumed() {
    let mut buffer = StreamingBuffer::new(None);
    buffer.push(b"ab");
    buffer.finish(Some("连接被重置".to_string()));

    let mut reader = StreamReader::new();
    let out = read_all(&buffer, &mut reader, 8);
    assert_eq!(out.len(), 2, "已下到的部分应当能读");
    assert_eq!(&out[..2], b"ab");

    assert_eq!(
        reader.read(&buffer, 8, false),
        ReadStep::Failed("连接被重置".to_string()),
        "下载失败应当报错"
    );
}

#[test]
fn keeps_only_a_bounded_window_in_memory() {
    let mut spilled = Spilled::new(None, Some((4 * 1024, 1024)));
    let chunk = vec![7u8; 512];

    for _ in 0..64 {
        spilled.write_and_push(&chunk);
    }
    spilled.buffer.finish(None);

    let held = spilled.buffer.held_bytes();
    assert!(held <= 4 * 1024, "内存窗口不该超过上限：{held} > 4096");
    assert_eq!(spilled.buffer.buffered_bytes(), 64 * 512, "下到哪了不受回收影响");
}

#[test]
fn reads_reclaimed_bytes_back_from_disk() {
    let mut spilled = Spilled::new(None, Some((4 * 1024, 1024)));
    let chunk: Vec<u8> = (0..=255u8).collect();
    let chunk = chunk.repeat(4);
    for _ in 0..32 {
        spilled.write_and_push(&chunk);
    }
    spilled.buffer.finish(None);

    let mut reader = StreamReader::new();
    let mut out = vec![0u8; 1024];
    assert_eq!(spilled.read(&mut reader, &mut out).unwrap(), out.len());
    assert_eq!(&out[..], &chunk[..]);

    assert_eq!(
        reader.seek(&spilled.buffer, SeekTarget::Start(1000), false),
        SeekStep::Moved(1000),
        "落盘数据可回读"
    );
    let mut small = [0u8; 16];
    assert_eq!(spilled.read(&mut reader, &mut small).unwrap(), 16);
    assert_eq!(&small, &chunk[1000 % chunk.len()..1000 % chunk.len() + 16]);
}

#[test]
fn cancel_keeps_buffered_bytes_and_ends_cleanly() {
    let mut spilled = Spilled::new(None, None);
    spilled.write_and_push(b"abcde");

    let mut reader = StreamReader::new();
    spilled.buffer.cancel();

    assert!(spilled.buffer.is_cancelled());
    assert!(!spilled.buffer.is_complete(), "被取消的不算完整下载");
    assert!(spilled.buffer.error().is_none(), "取消不是失败");

    let mut out = [0u8; 8];
    assert_eq!(spilled.read(&mut reader, &mut out).unwrap(), 5);
    assert_eq!(&out[..5], b"abcde");
    assert_eq!(spilled.read(&mut reader, &mut out).unwrap(), 0, "取消后是 EOF，不是报错");
}

#[test]
fn push_after_cancel_is_ignored() {
    let mut spilled = Spilled::new(None, None);
    spilled.write_and_push(b"ab");
    spilled.buffer.cancel();

    let before = spilled.buffer.buffered_bytes();
    spilled.buffer.push(b"cdef");
    assert_eq!(spilled.buffer.buffered_bytes(), before);
}

#[test]
fn finished_and_complete_are_different_things() {
    let mut failed = StreamingBuffer::new(None);
    failed.finish(Some("超时".to_string()));
    assert!(failed.is_finished());
    assert!(!failed.is_complete());

    let mut ok = StreamingBuffer::new(None);
    ok.finish(None);
    assert!(ok.is_finished());
    assert!(ok.is_complete());
}

#[test]
fn a_wait_that_runs_out_says_what_is_missing() {
    let mut buffer = StreamingBuffer::new(None);
    buffer.push(b"abc");
    match buffer.wait_available(10, true) {
        Availability::Failed(text) => {
            assert_eq!(text, "等待音频数据超时：想要 10 字节，只有 3 字节")
        }
        other => panic!("{other:?}"),
    }
    assert!(matches!(buffer.wait_available(3, true), Availability::Ready(3)));
    assert!(matches!(buffer.wait_available(10, false), Availability::Wait));
    buffer.finish(None);
    assert!(matches!(buffer.wait_available(10, false), Availability::End));
}

#[test]
fn seeks_count_from_the_end_and_from_here() {
    let mut buffer = StreamingBuffer::new(Some(6));
    buffer.push(b"abcdef");
    let mut reader = StreamReader::new();
    assert_eq!(reader.seek(&buffer, SeekTarget::End(-2), false), SeekStep::Moved(4));
    assert_eq!(reader.seek(&buffer, SeekTarget::Current(-9), false), SeekStep::Moved(0));
    assert_eq!(reader.seek(&buffer, SeekTarget::Current(5), false), SeekStep::Moved(5));
    assert_eq!(reader.seek(&buffer, SeekTarget::End(1), false), SeekStep::Wait);

    let mut open = StreamingBuffer::new(None);
    open.push(b"abc");
    let mut reader = StreamReader::new();
    assert_eq!(reader.seek(&open, SeekTarget::End(0), false), SeekStep::Wait);
    open.finish(None);
    assert_eq!(reader.seek(&open, SeekTarget::End(-1), false), SeekStep::Moved(2));
}

#[test]
fn without_a_spill_file_everything_stays_in_memory() {
    let mut buffer = StreamingBuffer::new(None);
    let chunk = vec![1u8; 1024 * 1024];
    for _ in 0..6 {
        buffer.push(&chunk);
    }
    assert_eq!(buffer.held_bytes(), 6 * 1024 * 1024);
    buffer.cancel();
    assert_eq!(buffer.held_bytes(), 6 * 1024 * 1024);
}

#[test]
fn interrupted_reads_of_the_spill_file_go_on() {
    let mut read = SpillRead::new(100, 10);
    assert_eq!(read.next(), Some((100, 10)));
    read.took(SpillOutcome::Interrupted);
    assert_eq!(read.next(), Some((100, 10)));
    read.took(SpillOutcome::Got(4));
    assert_eq!(read.next(), Some((104, 6)));
    read.took(SpillOutcome::Got(0));
    assert_eq!(read.next(), None);
    assert_eq!(read.filled, 4);
    assert!(!read.failed);

    let mut broken = SpillRead::new(0, 8);
    broken.took(SpillOutcome::Failed);
    assert_eq!(broken.next(), None);
    assert!(broken.failed);
}

#[test]
fn finished_streams_end_their_buffer() {
    let mut buffer = StreamingBuffer::with_spill(Some(3));
    buffer.push(b"abc");
    let fate = Downloader::finish_streaming(&mut buffer, Ok(()));
    assert_eq!(fate, PartFate::Rename);
    assert!(buffer.is_complete());
    assert_eq!(Downloader::stream_outcome(fate, true), StreamOutcome::Completed);
    assert_eq!(
        Downloader::stream_outcome(PartFate::Rename, false),
        StreamOutcome::Uncached
    );

    let mut broken = StreamingBuffer::with_spill(None);
    let fate = Downloader::finish_streaming(&mut broken, Err("断开".to_string()));
    assert_eq!(fate, PartFate::Remove(StreamOutcome::Failed("断开".to_string())));
    assert_eq!(
        Downloader::stream_outcome(fate, true),
        StreamOutcome::Failed("断开".to_string())
    );
    assert_eq!(broken.error(), Some("断开".to_string()));

    let mut called_off = StreamingBuffer::with_spill(None);
    called_off.cancel();
    assert_eq!(
        Downloader::finish_streaming(&mut called_off, Err("断开".to_string())),
        PartFate::Remove(StreamOutcome::Cancelled)
    );
    assert!(called_off.error().is_none());
}

#[test]
fn calling_off_twice_is_calling_off_once() {
    let mut buffer = StreamingBuffer::with_spill(None);
    buffer.push(b"abc");
    buffer.cancel();
    buffer.cancel();
    assert!(buffer.is_cancelled() && buffer.is_finished() && !buffer.is_complete());
    assert_eq!(buffer.buffered_bytes(), 3);
    let mut done = StreamingBuffer::new(None);
    done.finish(Some("断开".to_string()));
    done.cancel();
    assert!(!done.is_cancelled());
    assert_eq!(done.error(), Some("断开".to_string()));
}
