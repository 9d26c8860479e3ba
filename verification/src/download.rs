//! A transfer that resumes after a broken stream.
//!
//! The caller owns the connection and the file. It tells the transfer what
//! the stream delivered, and the transfer answers with what to do next: go
//! on reading, show progress, ask again from the bytes that are there, or
//! give up.

use vstd::prelude::*;
use vstd::string::StringExecFns;
use crate::error::{Error, ErrorInfo};
use crate::progress::{bundle_current, bundle_total, emit_due, should_emit, DownloadProgress, Stage};

verus! {

/// What a transfer has counted so far, as numbers without bounds.
pub struct TransferState {
    /// The length of the file as the server declared it.
    pub total: nat,
    /// The bytes that are there, never more than `total`.
    pub downloaded: nat,
    /// The bytes that were there when the stream was last asked for again.
    pub resume_point: nat,
    /// The number of files in the bundle.
    pub file_count: nat,
    /// The index of this file in the bundle.
    pub file_index: nat,
    /// Whether progress is shown.
    pub reporting: bool,
}

/// What the stream of a transfer delivered.
#[derive(Debug, Clone, PartialEq, Eq)]
pub enum StreamEvent {
    /// A chunk of `len` bytes came and was written to the file, when
    /// `elapsed_nanos` had passed since the clock was last restarted.
    Chunk { len: usize, elapsed_nanos: u128 },
    /// The stream broke.
    Failed { error: ErrorInfo },
    /// The stream came to its end.
    Ended,
}

/// What the caller of a transfer does next.
#[derive(Debug, Clone, PartialEq, Eq)]
pub enum Action {
    /// Ask the server for the bytes from `offset` on, restart the clock and
    /// read what comes.
    Request { offset: u64 },
    /// Read on.
    Receive,
    /// Show this progress, restart the clock and read on.
    Emit { progress: DownloadProgress },
    /// The file is there.
    Finish,
    /// Give up with this failure.
    Abort { error: Error },
}

impl TransferState {
    /// Whether these numbers can be those of a transfer: the counter is
    /// within the declared length, the last resume point is not ahead of
    /// the counter, and where progress is shown the file is one of the
    /// bundle and the bar of the bundle can be counted.
    pub open spec fn wf(self) -> bool {
        &&& self.resume_point <= self.downloaded <= self.total <= u64::MAX
        &&& self.file_count <= u64::MAX
        &&& self.file_index <= u64::MAX
        &&& self.reporting ==> self.file_index < self.file_count && bundle_total(
            self.total,
            self.file_count,
        ) <= u64::MAX
    }

    /// The counter after a chunk of `len` bytes: it grows by `len`, but
    /// not beyond the declared length.
    pub open spec fn after_chunk(self, len: nat) -> nat {
        if self.downloaded + len > self.total {
            self.total
        } else {
            self.downloaded + len
        }
    }

    /// The progress of the bundle that is shown for this transfer.
    pub open spec fn progress(self) -> DownloadProgress {
        DownloadProgress {
            stage: Stage::Downloading,
            current: bundle_current(self.total, self.file_index, self.downloaded) as u64,
            total: bundle_total(self.total, self.file_count) as u64,
        }
    }

    /// The state after `event`.
    pub open spec fn next(self, event: StreamEvent) -> TransferState {
        match event {
            StreamEvent::Chunk { len, .. } => TransferState {
                downloaded: self.after_chunk(len as nat),
                ..self
            },
            StreamEvent::Failed { .. } => TransferState { resume_point: self.downloaded, ..self },
            StreamEvent::Ended => self,
        }
    }

    /// What the caller does after `event`. A chunk is followed by more
    /// reading, with progress shown first where it is shown at all and is
    /// due. A broken stream is asked for again from the bytes that are
    /// there, if there are more of them than when it was last asked for;
    /// if not, the transfer is given up.
    pub open spec fn answer(self, event: StreamEvent) -> Action {
        match event {
            StreamEvent::Chunk { elapsed_nanos, .. } => if self.reporting && emit_due(
                elapsed_nanos,
            ) {
                Action::Emit { progress: self.next(event).progress() }
            } else {
                Action::Receive
            },
            StreamEvent::Failed { error } => if self.resume_point < self.downloaded {
                Action::Request { offset: self.downloaded as u64 }
            } else {
                Action::Abort { error: Error::DownloadFail { error } }
            },
            StreamEvent::Ended => Action::Finish,
        }
    }
}

/// One transfer of one file.
pub struct Transfer {
    total: u64,
    downloaded: u64,
    resume_point: u64,
    file_count: u64,
    file_index: u64,
    reporting: bool,
}

impl View for Transfer {
    type V = TransferState;

    closed spec fn view(&self) -> TransferState {
        TransferState {
            total: self.total as nat,
            downloaded: self.downloaded as nat,
            resume_point: self.resume_point as nat,
            file_count: self.file_count as nat,
            file_index: self.file_index as nat,
            reporting: self.reporting,
        }
    }
}

impl Transfer {
    #[verifier::type_invariant]
    spec fn well_formed(self) -> bool {
        self@.wf()
    }

    /// Starts the transfer of a file that the server declared to be
    /// `total` bytes long, the file with index `file_index` of
    /// `file_count`. Nothing is there yet, and the first request asks for
    /// the file from its first byte.
    pub fn begin(total: u64, file_count: u64, file_index: u64, reporting: bool) -> (started: (
        Transfer,
        Action,
    ))
        requires
            reporting ==> file_index < file_count && total * file_count <= u64::MAX,
        ensures
            started.0@ == (TransferState {
                total: total as nat,
                downloaded: 0,
                resume_point: 0,
                file_count: file_count as nat,
                file_index: file_index as nat,
                reporting,
            }),
            started.0@.wf(),
            started.1 == (Action::Request { offset: 0 }),
    {
        let transfer = Transfer {
            total,
            downloaded: 0,
            resume_point: 0,
            file_count,
            file_index,
            reporting,
        };
        (transfer, Action::Request { offset: 0 })
    }

    /// Starts a transfer as `begin` does, if the bar of the bundle can be
    /// counted: where progress is shown, the file has to be one of the
    /// bundle, and the declared length times the number of files has to
    /// fit into 64 bits. If not, no transfer is started.
    pub fn try_begin(total: u64, file_count: u64, file_index: u64, reporting: bool) -> (started:
        Option<(Transfer, Action)>)
        ensures
            started is Some <==> (reporting ==> file_index < file_count && total * file_count
                <= u64::MAX),
            started matches Some(pair) ==> pair.0@ == (TransferState {
                total: total as nat,
                downloaded: 0,
                resume_point: 0,
                file_count: file_count as nat,
                file_index: file_index as nat,
                reporting,
            }) && pair.0@.wf() && pair.1 == (Action::Request { offset: 0 }),
    {
        if reporting {
            if file_index >= file_count {
                return None;
            }
            if total.checked_mul(file_count).is_none() {
                return None;
            }
        }
        Some(Transfer::begin(total, file_count, file_index, reporting))
    }

    /// The bytes that are there: the offset from which the server is asked
    /// when the stream has to be resumed. It never exceeds the declared
    /// length.
    pub fn downloaded(&self) -> (bytes: u64)
        ensures
            bytes == self@.downloaded,
            bytes <= self@.total,
            self@.wf(),
    {
        proof {
            use_type_invariant(self);
        }
        self.downloaded
    }

    /// The length of the file as the server declared it.
    pub fn total(&self) -> (bytes: u64)
        ensures
            bytes == self@.total,
    {
        self.total
    }

    /// The progress of the bundle as it stands: the files before this one
    /// counted in full, and the bytes of this one that are there.
    fn progress(&self) -> (progress: DownloadProgress)
        requires
            self@.reporting,
        ensures
            progress == self@.progress(),
            progress.current == bundle_current(self@.total, self@.file_index, self@.downloaded),
            progress.total == bundle_total(self@.total, self@.file_count),
            progress.current <= progress.total,
    {
        proof {
            use_type_invariant(self);
            crate::progress::lemma_progress_stays_in_slot(
                self@.total,
                self@.file_count,
                self@.file_index,
                self@.downloaded,
            );
            assert(self.total * self.file_index <= self.total * self.file_count)
                by (nonlinear_arith)
                requires
                    self.file_index <= self.file_count,
            ;
        }
        DownloadProgress {
            stage: Stage::Downloading,
            current: self.downloaded + self.total * self.file_index,
            total: self.total * self.file_count,
        }
    }

    /// Takes what the stream delivered and says what to do next.
    ///
    /// A chunk moves the counter on by its length, capped at the declared
    /// length. A broken stream moves the resume point up to the counter.
    pub fn step(&mut self, event: StreamEvent) -> (action: Action)
        ensures
            final(self)@ == old(self)@.next(event),
            action == old(self)@.answer(event),
            old(self)@.wf(),
            final(self)@.wf(),
            final(self)@.downloaded <= final(self)@.total,
            old(self)@.downloaded <= final(self)@.downloaded,
            action is Request ==> old(self)@.resume_point < final(self)@.resume_point,
    {
        proof {
            use_type_invariant(&*self);
        }
        match event {
            StreamEvent::Chunk { len, elapsed_nanos } => {
                let room: u64 = self.total - self.downloaded;
                let counted: u64 = if len as u64 > room {
                    self.total
                } else {
                    self.downloaded + len as u64
                };
                *self = Transfer {
                    total: self.total,
                    downloaded: counted,
                    resume_point: self.resume_point,
                    file_count: self.file_count,
                    file_index: self.file_index,
                    reporting: self.reporting,
                };
                if self.reporting && should_emit(elapsed_nanos) {
                    Action::Emit { progress: self.progress() }
                } else {
                    Action::Receive
                }
            },
            StreamEvent::Failed { error } => {
                if self.resume_point < self.downloaded {
                    *self = Transfer {
                        total: self.total,
                        downloaded: self.downloaded,
                        resume_point: self.downloaded,
                        file_count: self.file_count,
                        file_index: self.file_index,
                        reporting: self.reporting,
                    };
                    Action::Request { offset: self.downloaded }
                } else {
                    Action::Abort { error: Error::DownloadFail { error } }
                }
            },
            StreamEvent::Ended => Action::Finish,
        }
    }
}

/// The state that a transfer is in after the events of `events`, one
/// after the other.
pub open spec fn after_all(start: TransferState, events: Seq<StreamEvent>) -> TransferState
    decreases events.len(),
{
    if events.len() == 0 {
        start
    } else {
        after_all(start, events.drop_last()).next(events.last())
    }
}

/// How often the server is asked again over the events of `events`.
pub open spec fn resumptions(start: TransferState, events: Seq<StreamEvent>) -> nat
    decreases events.len(),
{
    if events.len() == 0 {
        0
    } else if after_all(start, events.drop_last()).answer(events.last()) is Request {
        resumptions(start, events.drop_last()) + 1
    } else {
        resumptions(start, events.drop_last())
    }
}

/// Whatever the stream delivers, and however much more than was declared,
/// the counter never exceeds the declared length, and it never moves back.
pub proof fn lemma_counter_never_exceeds_total(start: TransferState, events: Seq<StreamEvent>)
    requires
        start.wf(),
    ensures
        after_all(start, events).wf(),
        after_all(start, events).total == start.total,
        after_all(start, events).file_count == start.file_count,
        after_all(start, events).file_index == start.file_index,
        after_all(start, events).reporting == start.reporting,
        start.downloaded <= after_all(start, events).downloaded <= start.total,
    decreases events.len(),
{
    if events.len() > 0 {
        lemma_counter_never_exceeds_total(start, events.drop_last());
    }
}

/// A transfer is resumed only after new bytes have come, so it cannot be
/// resumed more often than the file has bytes: every resumption moves the
/// resume point up, and the resume point stays within the declared length.
pub proof fn lemma_resumptions_bounded(start: TransferState, events: Seq<StreamEvent>)
    requires
        start.wf(),
    ensures
        start.resume_point + resumptions(start, events) <= after_all(start, events).resume_point,
        after_all(start, events).resume_point <= start.total,
    decreases events.len(),
{
    lemma_counter_never_exceeds_total(start, events);
    if events.len() > 0 {
        lemma_resumptions_bounded(start, events.drop_last());
        lemma_counter_never_exceeds_total(start, events.drop_last());
    }
}

/// What is shown for a transfer is what the formulas of the bar give, with
/// nothing cut off, and the position never lies beyond the end of the bar.
pub proof fn lemma_shown_progress_is_within_total(state: TransferState)
    requires
        state.wf(),
        state.reporting,
    ensures
        state.progress().stage == Stage::Downloading,
        state.progress().current == bundle_current(
            state.total,
            state.file_index,
            state.downloaded,
        ),
        state.progress().total == bundle_total(state.total, state.file_count),
        state.progress().current <= state.progress().total,
{
    crate::progress::lemma_progress_stays_in_slot(
        state.total,
        state.file_count,
        state.file_index,
        state.downloaded,
    );
}

/// A stream that breaks after new bytes have come is asked for again from
/// exactly the bytes that are there, and the resume point moves up to
/// them. A stream that breaks with no new bytes since it was last asked
/// for ends the transfer with a failed download, and changes nothing.
pub proof fn lemma_broken_stream_resumes_or_ends(state: TransferState, error: ErrorInfo)
    requires
        state.wf(),
    ensures
        state.resume_point < state.downloaded ==> state.answer(StreamEvent::Failed { error }) == (
        Action::Request { offset: state.downloaded as u64 }) && state.next(
            StreamEvent::Failed { error },
        ).resume_point == state.downloaded && (state.downloaded as u64) == state.downloaded,
        state.resume_point >= state.downloaded ==> state.answer(StreamEvent::Failed { error })
            == (Action::Abort { error: Error::DownloadFail { error } }) && state.next(
            StreamEvent::Failed { error },
        ) == state,
{
}

/// The character that stands for a digit.
pub open spec fn digit(d: nat) -> char {
    if d == 0 {
        '0'
    } else if d == 1 {
        '1'
    } else if d == 2 {
        '2'
    } else if d == 3 {
        '3'
    } else if d == 4 {
        '4'
    } else if d == 5 {
        '5'
    } else if d == 6 {
        '6'
    } else if d == 7 {
        '7'
    } else if d == 8 {
        '8'
    } else {
        '9'
    }
}

/// A number written in decimal, without leading zeros.
pub open spec fn decimal(n: nat) -> Seq<char>
    decreases n,
{
    if n < 10 {
        seq![digit(n)]
    } else {
        decimal(n / 10).push(digit(n % 10))
    }
}

/// The value of the `Range` header that asks for a file from `offset` on.
pub open spec fn range_from(offset: nat) -> Seq<char> {
    "bytes="@ + decimal(offset) + "-"@
}

/// Digits that were found from the last to the first, as they are read.
spec fn as_read(digits: Seq<u8>) -> Seq<char> {
    Seq::new(digits.len(), |i: int| digit(digits[digits.len() - 1 - i] as nat))
}

/// One digit as text.
fn digit_text(d: u8) -> (text: &'static str)
    requires
        d < 10,
    ensures
        text@ == seq![digit(d as nat)],
{
    proof {
        reveal_strlit("0");
        reveal_strlit("1");
        reveal_strlit("2");
        reveal_strlit("3");
        reveal_strlit("4");
        reveal_strlit("5");
        reveal_strlit("6");
        reveal_strlit("7");
        reveal_strlit("8");
        reveal_strlit("9");
    }
    let text: &'static str = if d == 0 {
        "0"
    } else if d == 1 {
        "1"
    } else if d == 2 {
        "2"
    } else if d == 3 {
        "3"
    } else if d == 4 {
        "4"
    } else if d == 5 {
        "5"
    } else if d == 6 {
        "6"
    } else if d == 7 {
        "7"
    } else if d == 8 {
        "8"
    } else {
        "9"
    };
    assert(text@ =~= seq![digit(d as nat)]);
    text
}

/// Writes the value of the `Range` header that asks the server for a file
/// from `offset` on: `bytes=`, the offset in decimal, and a hyphen.
pub fn range_header(offset: u64) -> (value: String)
    ensures
        value@ == range_from(offset as nat),
{
    let mut digits: Vec<u8> = Vec::new();
    digits.push((offset % 10) as u8);
    let mut rest: u64 = offset / 10;
    assert(decimal(offset as nat) =~= (if rest > 0 {
        decimal(rest as nat)
    } else {
        Seq::<char>::empty()
    }) + as_read(digits@));
    while rest > 0
        invariant
            digits@.len() > 0,
            forall|i: int| 0 <= i < digits@.len() ==> digits@[i] < 10,
            decimal(offset as nat) == (if rest > 0 {
                decimal(rest as nat)
            } else {
                Seq::<char>::empty()
            }) + as_read(digits@),
        decreases rest,
    {
        let ghost before = digits@;
        let d: u8 = (rest % 10) as u8;
        digits.push(d);
        assert(as_read(digits@) =~= seq![digit(d as nat)] + as_read(before));
        rest = rest / 10;
        assert(decimal(offset as nat) =~= (if rest > 0 {
            decimal(rest as nat)
        } else {
            Seq::<char>::empty()
        }) + as_read(digits@));
    }
    assert(decimal(offset as nat) =~= as_read(digits@));
    let mut value: String = "bytes=".to_owned();
    let mut left: usize = digits.len();
    while left > 0
        invariant
            left <= digits@.len(),
            forall|i: int| 0 <= i < digits@.len() ==> digits@[i] < 10,
            value@ == "bytes="@ + as_read(digits@).subrange(0, digits@.len() - left),
        decreases left,
    {
        left = left - 1;
        let ghost before = value@;
        value.append(digit_text(digits[left]));
        assert(value@ =~= "bytes="@ + as_read(digits@).subrange(0, digits@.len() - left));
    }
    assert(as_read(digits@).subrange(0, digits@.len() as int) =~= as_read(digits@));
    value.append("-");
    value
}

} // verus!
