//! Progress as it is shown for a bundle: one bar over all its files, fed at
//! a bounded rate.

use vstd::prelude::*;

verus! {

/// What the installer is doing with the file at hand.
#[derive(Debug, Clone, Copy, PartialEq, Eq, Structural)]
pub enum Stage {
    Downloading,
    Verifying,
    Installing,
}

/// One progress notification: `current` out of `total`, in the given stage.
#[derive(Debug, Clone, Copy, PartialEq, Eq, Structural)]
pub struct DownloadProgress {
    pub stage: Stage,
    pub current: u64,
    pub total: u64,
}

/// The least time between two notifications of one transfer, in
/// nanoseconds: a fifteenth of a second.
pub const EMIT_INTERVAL_NANOS: u64 = 66_666_667;

/// The name under which a stage is shown.
pub open spec fn stage_name(stage: Stage) -> Seq<char> {
    match stage {
        Stage::Downloading => "downloading"@,
        Stage::Verifying => "verifying"@,
        Stage::Installing => "installing"@,
    }
}

/// Whether a notification is due when `elapsed_nanos` have passed since the
/// last one.
pub open spec fn emit_due(elapsed_nanos: u128) -> bool {
    elapsed_nanos >= EMIT_INTERVAL_NANOS
}

/// The position on the bar of a bundle when `downloaded` bytes of the file
/// with index `file_index` are there, each file counted as `file_total`
/// bytes long.
pub open spec fn bundle_current(file_total: nat, file_index: nat, downloaded: nat) -> nat {
    downloaded + file_total * file_index
}

/// The length of the bar of a bundle of `file_count` files, each counted as
/// `file_total` bytes long.
pub open spec fn bundle_total(file_total: nat, file_count: nat) -> nat {
    file_total * file_count
}

impl Stage {
    /// The name under which this stage is shown.
    pub fn name(&self) -> (text: String)
        ensures
            text@ == stage_name(*self),
    {
        let text: &str = match self {
            Stage::Downloading => "downloading",
            Stage::Verifying => "verifying",
            Stage::Installing => "installing",
        };
        text.to_owned()
    }
}

/// Says whether enough time has passed since the last notification for the
/// next one to be sent.
pub fn should_emit(elapsed_nanos: u128) -> (due: bool)
    ensures
        due == emit_due(elapsed_nanos),
{
    elapsed_nanos >= EMIT_INTERVAL_NANOS as u128
}

/// While a file is being fetched, the bar stays inside the slot of that
/// file: between `file_index` and `file_index + 1` parts out of
/// `file_count`, and never beyond its end.
pub proof fn lemma_progress_stays_in_slot(
    file_total: nat,
    file_count: nat,
    file_index: nat,
    downloaded: nat,
)
    requires
        downloaded <= file_total,
        file_index < file_count,
    ensures
        bundle_current(file_total, file_index, downloaded) <= bundle_total(file_total, file_count),
        file_index * bundle_total(file_total, file_count) <= bundle_current(
            file_total,
            file_index,
            downloaded,
        ) * file_count,
        bundle_current(file_total, file_index, downloaded) * file_count <= (file_index + 1)
            * bundle_total(file_total, file_count),
{
    let current = bundle_current(file_total, file_index, downloaded);
    assert(file_total * (file_index + 1) <= file_total * file_count) by (nonlinear_arith)
        requires
            file_index + 1 <= file_count,
    ;
    assert(file_total * (file_index + 1) == file_total * file_index + file_total)
        by (nonlinear_arith);
    assert(file_index * (file_total * file_count) == (file_total * file_index) * file_count)
        by (nonlinear_arith);
    assert((file_total * file_index) * file_count <= current * file_count) by (nonlinear_arith)
        requires
            file_total * file_index <= current,
    ;
    assert(current * file_count <= (file_total * (file_index + 1)) * file_count)
        by (nonlinear_arith)
        requires
            current <= file_total * (file_index + 1),
    ;
    assert((file_total * (file_index + 1)) * file_count == (file_index + 1) * (file_total
        * file_count)) by (nonlinear_arith);
}

/// The bar is continuous where one file ends and the next begins: a file
/// that is wholly there stands where the next one starts.
pub proof fn lemma_progress_is_continuous(file_total: nat, file_index: nat)
    ensures
        bundle_current(file_total, file_index, file_total) == bundle_current(
            file_total,
            file_index + 1,
            0,
        ),
{
    assert(file_total * (file_index + 1) == file_total * file_index + file_total)
        by (nonlinear_arith);
}

/// Within one file the bar follows the byte counter: more bytes never move
/// it back.
pub proof fn lemma_progress_follows_counter(
    file_total: nat,
    file_index: nat,
    earlier: nat,
    later: nat,
)
    requires
        earlier <= later,
    ensures
        bundle_current(file_total, file_index, earlier) <= bundle_current(
            file_total,
            file_index,
            later,
        ),
{
}

/// Over the files of one bundle the bar never moves back, whatever the
/// lengths of the files: the share shown during an earlier file is at most
/// the share shown during a later one. The shares are compared as
/// fractions, `current / total`, cross-multiplied.
pub proof fn lemma_progress_never_falls_back(
    file_count: nat,
    earlier_total: nat,
    earlier_index: nat,
    earlier_downloaded: nat,
    later_total: nat,
    later_index: nat,
    later_downloaded: nat,
)
    requires
        earlier_index < later_index < file_count,
        earlier_downloaded <= earlier_total,
        later_downloaded <= later_total,
    ensures
        bundle_current(earlier_total, earlier_index, earlier_downloaded) * bundle_total(
            later_total,
            file_count,
        ) <= bundle_current(later_total, later_index, later_downloaded) * bundle_total(
            earlier_total,
            file_count,
        ),
{
    let earlier = bundle_current(earlier_total, earlier_index, earlier_downloaded);
    let later = bundle_current(later_total, later_index, later_downloaded);
    let scale = later_total * file_count;
    assert(earlier <= earlier_total * later_index) by (nonlinear_arith)
        requires
            earlier == earlier_downloaded + earlier_total * earlier_index,
            earlier_downloaded <= earlier_total,
            earlier_index + 1 <= later_index,
    ;
    assert(earlier * scale <= (earlier_total * later_index) * scale) by (nonlinear_arith)
        requires
            earlier <= earlier_total * later_index,
    ;
    assert(later_total * later_index <= later);
    assert((later_total * later_index) * (earlier_total * file_count) <= later * (earlier_total
        * file_count)) by (nonlinear_arith)
        requires
            later_total * later_index <= later,
    ;
    assert((earlier_total * later_index) * (later_total * file_count) == (later_total
        * later_index) * (earlier_total * file_count)) by (nonlinear_arith);
}

} // verus!
