use yarc_launcher::download::{range_header, Action, StreamEvent, Transfer};
use yarc_launcher::error::{Error, ErrorInfo};
use yarc_launcher::progress::{DownloadProgress, Stage};

const DUE: u128 = 66_666_667;

fn broken(what: &str) -> ErrorInfo {
    ErrorInfo { description: what.to_string(), debug_format: format!("Broken({what:?})") }
}

fn chunk(len: usize) -> StreamEvent {
    StreamEvent::Chunk { len, elapsed_nanos: 0 }
}

fn chunk_after(len: usize, elapsed_nanos: u128) -> StreamEvent {
    StreamEvent::Chunk { len, elapsed_nanos }
}

fn downloading(current: u64, total: u64) -> Action {
    Action::Emit { progress: DownloadProgress { stage: Stage::Downloading, current, total } }
}

#[test]
fn transfer_starts_empty_and_asks_from_the_first_byte() {
    let (transfer, first) = Transfer::begin(1000, 1, 0, true);
    assert_eq!(first, Action::Request { offset: 0 });
    assert_eq!(transfer.downloaded(), 0);
    assert_eq!(transfer.total(), 1000);
}

#[test]
fn chunks_add_up() {
    let (mut transfer, _) = Transfer::begin(1000, 1, 0, true);
    assert_eq!(transfer.step(chunk(100)), Action::Receive);
    assert_eq!(transfer.downloaded(), 100);
    assert_eq!(transfer.step(chunk(250)), Action::Receive);
    assert_eq!(transfer.downloaded(), 350);
    assert_eq!(transfer.step(chunk(0)), Action::Receive);
    assert_eq!(transfer.downloaded(), 350);
}

#[test]
fn counter_is_capped_at_the_declared_length() {
    let (mut transfer, _) = Transfer::begin(1000, 1, 0, true);
    transfer.step(chunk(900));
    transfer.step(chunk(200));
    assert_eq!(transfer.downloaded(), 1000);
    transfer.step(chunk(5000));
    assert_eq!(transfer.downloaded(), 1000);
}

#[test]
fn counter_is_capped_for_a_file_declared_empty() {
    let (mut transfer, _) = Transfer::begin(0, 1, 0, true);
    transfer.step(chunk(17));
    assert_eq!(transfer.downloaded(), 0);
}

#[test]
fn counter_is_capped_near_the_largest_numbers() {
    let (mut transfer, _) = Transfer::begin(u64::MAX, 0, 0, false);
    transfer.step(chunk(usize::MAX));
    transfer.step(chunk(usize::MAX));
    transfer.step(chunk(usize::MAX));
    assert!(transfer.downloaded() <= u64::MAX);
    assert_eq!(transfer.downloaded(), u64::MAX);
    assert_eq!(transfer.total(), u64::MAX);
}

#[test]
fn counter_never_exceeds_the_total_over_a_long_stream() {
    let (mut transfer, _) = Transfer::begin(10_000, 3, 1, true);
    let mut last = 0;
    for i in 0..200usize {
        transfer.step(chunk_after(i * 7 % 131, (i as u128) * 10_000_000));
        assert!(transfer.downloaded() <= 10_000);
        assert!(transfer.downloaded() >= last);
        last = transfer.downloaded();
    }
    assert_eq!(last, 10_000);
}

#[test]
fn progress_is_shown_once_the_interval_has_passed() {
    let (mut transfer, _) = Transfer::begin(1000, 1, 0, true);
    assert_eq!(transfer.step(chunk_after(100, DUE - 1)), Action::Receive);
    assert_eq!(transfer.step(chunk_after(100, DUE)), downloading(200, 1000));
    assert_eq!(transfer.step(chunk_after(100, DUE + 1)), downloading(300, 1000));
    assert_eq!(transfer.step(chunk_after(100, 0)), Action::Receive);
}

#[test]
fn progress_counts_the_files_before_this_one_in_full() {
    let (mut transfer, _) = Transfer::begin(1000, 3, 2, true);
    assert_eq!(transfer.step(chunk_after(250, DUE)), downloading(2250, 3000));
    assert_eq!(transfer.step(chunk_after(750, DUE)), downloading(3000, 3000));
    assert_eq!(transfer.step(chunk_after(1, DUE)), downloading(3000, 3000));
}

#[test]
fn progress_of_the_first_of_two_files_fills_half_the_bar() {
    let (mut transfer, _) = Transfer::begin(400, 2, 0, true);
    assert_eq!(transfer.step(chunk_after(0, DUE)), downloading(0, 800));
    assert_eq!(transfer.step(chunk_after(400, DUE)), downloading(400, 800));
    let (mut second, _) = Transfer::begin(400, 2, 1, true);
    assert_eq!(second.step(chunk_after(0, DUE)), downloading(400, 800));
    assert_eq!(second.step(chunk_after(400, DUE)), downloading(800, 800));
}

#[test]
fn progress_never_moves_back_over_files_of_different_lengths() {
    let lengths: [u64; 3] = [1000, 10, 777];
    let mut shown: Vec<(u64, u64)> = Vec::new();
    for (index, length) in lengths.iter().enumerate() {
        let (mut transfer, _) = Transfer::begin(*length, 3, index as u64, true);
        for _ in 0..12 {
            if let Action::Emit { progress } = transfer.step(chunk_after(97, DUE)) {
                assert!(progress.current <= progress.total);
                shown.push((progress.current, progress.total));
            }
        }
    }
    assert_eq!(shown.len(), 36);
    for pair in shown.windows(2) {
        let (earlier, later) = (pair[0], pair[1]);
        assert!(
            (earlier.0 as u128) * (later.1 as u128) <= (later.0 as u128) * (earlier.1 as u128)
        );
    }
}

#[test]
fn nothing_is_shown_without_a_sink() {
    let (mut transfer, _) = Transfer::begin(1000, 0, 0, false);
    assert_eq!(transfer.step(chunk_after(100, DUE)), Action::Receive);
    assert_eq!(transfer.step(chunk_after(100, u128::MAX)), Action::Receive);
    assert_eq!(transfer.downloaded(), 200);
}

#[test]
fn broken_stream_is_resumed_from_the_bytes_that_are_there() {
    let (mut transfer, _) = Transfer::begin(1000, 1, 0, true);
    transfer.step(chunk(300));
    transfer.step(chunk(123));
    assert_eq!(
        transfer.step(StreamEvent::Failed { error: broken("reset") }),
        Action::Request { offset: 423 }
    );
    assert_eq!(transfer.downloaded(), 423);
}

#[test]
fn every_resumption_starts_where_the_last_chunk_ended() {
    let (mut transfer, _) = Transfer::begin(10, 1, 0, true);
    for written in 1..=10u64 {
        transfer.step(chunk(1));
        assert_eq!(
            transfer.step(StreamEvent::Failed { error: broken("stall") }),
            Action::Request { offset: written }
        );
    }
    assert_eq!(
        transfer.step(StreamEvent::Failed { error: broken("stall") }),
        Action::Abort { error: Error::DownloadFail { error: broken("stall") } }
    );
}

#[test]
fn broken_stream_without_new_bytes_ends_the_transfer() {
    let (mut transfer, _) = Transfer::begin(1000, 1, 0, true);
    assert_eq!(
        transfer.step(StreamEvent::Failed { error: broken("refused") }),
        Action::Abort { error: Error::DownloadFail { error: broken("refused") } }
    );
}

#[test]
fn second_break_at_the_same_offset_ends_the_transfer() {
    let (mut transfer, _) = Transfer::begin(1000, 1, 0, true);
    transfer.step(chunk(500));
    assert_eq!(
        transfer.step(StreamEvent::Failed { error: broken("first") }),
        Action::Request { offset: 500 }
    );
    assert_eq!(
        transfer.step(StreamEvent::Failed { error: broken("second") }),
        Action::Abort { error: Error::DownloadFail { error: broken("second") } }
    );
    assert_eq!(transfer.downloaded(), 500);
}

#[test]
fn empty_chunk_is_no_progress() {
    let (mut transfer, _) = Transfer::begin(1000, 1, 0, true);
    transfer.step(chunk(500));
    transfer.step(StreamEvent::Failed { error: broken("first") });
    transfer.step(chunk(0));
    assert_eq!(
        transfer.step(StreamEvent::Failed { error: broken("second") }),
        Action::Abort { error: Error::DownloadFail { error: broken("second") } }
    );
}

#[test]
fn bytes_beyond_the_declared_length_are_no_progress() {
    let (mut transfer, _) = Transfer::begin(100, 1, 0, true);
    transfer.step(chunk(100));
    assert_eq!(
        transfer.step(StreamEvent::Failed { error: broken("first") }),
        Action::Request { offset: 100 }
    );
    transfer.step(chunk(50));
    assert_eq!(
        transfer.step(StreamEvent::Failed { error: broken("second") }),
        Action::Abort { error: Error::DownloadFail { error: broken("second") } }
    );
}

#[test]
fn end_of_stream_finishes_the_transfer() {
    let (mut transfer, _) = Transfer::begin(1000, 1, 0, true);
    transfer.step(chunk(1000));
    assert_eq!(transfer.step(StreamEvent::Ended), Action::Finish);
    assert_eq!(transfer.downloaded(), 1000);
}

#[test]
fn end_of_stream_finishes_a_short_transfer_too() {
    let (mut transfer, _) = Transfer::begin(1000, 1, 0, true);
    transfer.step(chunk(10));
    assert_eq!(transfer.step(StreamEvent::Ended), Action::Finish);
    assert_eq!(transfer.downloaded(), 10);
}

#[test]
fn range_header_asks_from_an_offset_on() {
    assert_eq!(range_header(0), "bytes=0-");
    assert_eq!(range_header(7), "bytes=7-");
    assert_eq!(range_header(10), "bytes=10-");
    assert_eq!(range_header(423), "bytes=423-");
    assert_eq!(range_header(1_000_000), "bytes=1000000-");
    assert_eq!(range_header(9_876_543_210), "bytes=9876543210-");
}

#[test]
fn range_header_of_the_largest_offset() {
    assert_eq!(range_header(u64::MAX), "bytes=18446744073709551615-");
}

#[test]
fn range_header_is_what_formatting_gives() {
    for offset in [0u64, 1, 9, 99, 100, 101, 65_535, 4_294_967_296, u64::MAX - 1] {
        assert_eq!(range_header(offset), format!("bytes={offset}-"));
    }
}

#[test]
fn checked_start_is_the_same_start() {
    let (transfer, first) = Transfer::try_begin(1000, 2, 1, true).unwrap();
    assert_eq!(first, Action::Request { offset: 0 });
    assert_eq!(transfer.downloaded(), 0);
    assert_eq!(transfer.total(), 1000);
    let (mut shown, _) = Transfer::try_begin(1000, 2, 1, true).unwrap();
    assert_eq!(shown.step(chunk_after(10, DUE)), downloading(1010, 2000));
}

#[test]
fn checked_start_refuses_a_file_that_is_none_of_the_bundle() {
    assert!(Transfer::try_begin(1000, 2, 2, true).is_none());
    assert!(Transfer::try_begin(1000, 0, 0, true).is_none());
    assert!(Transfer::try_begin(1000, 2, 1, true).is_some());
}

#[test]
fn checked_start_refuses_a_bar_that_cannot_be_counted() {
    assert!(Transfer::try_begin(u64::MAX, 2, 0, true).is_none());
    assert!(Transfer::try_begin(u64::MAX / 2 + 1, 2, 0, true).is_none());
    assert!(Transfer::try_begin(u64::MAX / 2, 2, 0, true).is_some());
    assert!(Transfer::try_begin(u64::MAX, 1, 0, true).is_some());
}

#[test]
fn checked_start_without_a_sink_takes_any_numbers() {
    assert!(Transfer::try_begin(u64::MAX, u64::MAX, u64::MAX, false).is_some());
    assert!(Transfer::try_begin(0, 0, 0, false).is_some());
    assert!(Transfer::try_begin(1000, 0, 0, false).is_some());
}
