//! The steps of an installation and of an uninstallation, in their order.

use vstd::prelude::*;
use crate::progress::{DownloadProgress, Stage};
use crate::release::{parse_file_type, FileType, ReleaseBundle, ReleaseFile};

verus! {

/// One thing that the caller does on behalf of the installer. A file is
/// named by the index of its bundle and its own index in that bundle.
#[derive(Debug, Clone, Copy, PartialEq, Eq, Structural)]
pub enum Step {
    /// Delete the temporary download and signature files, if they are there.
    RemoveTempFiles,
    /// Delete the install directory with all it holds and create it anew.
    ClearInstallDir,
    /// Fetch the file into the temporary download file, showing progress.
    Download { bundle: usize, file: usize },
    /// Fetch the signature of the file into the temporary signature file,
    /// showing nothing.
    DownloadSignature { bundle: usize, file: usize },
    /// Check the downloaded file against its signature.
    Verify { bundle: usize, file: usize },
    /// Show this progress.
    Report { progress: DownloadProgress },
    /// Unpack the downloaded file into the install directory.
    Extract { bundle: usize, file: usize, file_type: FileType },
    /// Give up: the type of the file is not a known one.
    Reject { bundle: usize, file: usize },
    /// Write the tag of the release into the marker file.
    WriteTag,
    /// Delete the marker file.
    RemoveTag,
    /// Remove the install directory, if it is empty.
    RemoveInstallDir,
    /// Remove the profile directory, if it is empty.
    RemoveProfileDir,
}

impl Step {
    /// Whether a failure of this step ends the whole run. The other steps
    /// are attempts: what comes of them changes nothing.
    pub open spec fn required(self) -> bool {
        match self {
            Step::RemoveTempFiles => false,
            Step::Report { .. } => false,
            Step::RemoveInstallDir => false,
            Step::RemoveProfileDir => false,
            _ => true,
        }
    }

    /// Whether a failure of this step ends the whole run.
    pub fn is_required(&self) -> (required: bool)
        ensures
            required == self.required(),
    {
        match self {
            Step::RemoveTempFiles => false,
            Step::Report { .. } => false,
            Step::RemoveInstallDir => false,
            Step::RemoveProfileDir => false,
            _ => true,
        }
    }

    /// The file that this step handles, as the index of its bundle and its
    /// own index in the bundle.
    pub open spec fn target(self) -> Option<(int, int)> {
        match self {
            Step::Download { bundle, file } => Some((bundle as int, file as int)),
            Step::DownloadSignature { bundle, file } => Some((bundle as int, file as int)),
            Step::Verify { bundle, file } => Some((bundle as int, file as int)),
            Step::Extract { bundle, file, .. } => Some((bundle as int, file as int)),
            Step::Reject { bundle, file } => Some((bundle as int, file as int)),
            _ => None,
        }
    }

    /// Whether this step handles the file `file` of the bundle `bundle`.
    pub open spec fn touches(self, bundle: int, file: int) -> bool {
        self.target() == Some((bundle, file))
    }
}

/// What is shown when the file with index `file` out of `count` enters
/// `stage`: the files counted so far, this one included.
pub open spec fn stage_progress(stage: Stage, file: int, count: int) -> DownloadProgress {
    DownloadProgress { stage, current: (file + 1) as u64, total: count as u64 }
}

/// The steps for one file, the file with index `f` of the `count` files
/// of the bundle with index `b`: fetch it; if it is signed, say so, fetch
/// the signature and check it; then say that it is being installed, and
/// unpack it and clear the temporary files, or give up on an unknown type.
pub open spec fn file_steps(file: ReleaseFile, b: int, f: int, count: int) -> Seq<Step> {
    let fetch = seq![Step::Download { bundle: b as usize, file: f as usize }];
    let check = if file.sig_url is Some {
        seq![
            Step::Report { progress: stage_progress(Stage::Verifying, f, count) },
            Step::DownloadSignature { bundle: b as usize, file: f as usize },
            Step::Verify { bundle: b as usize, file: f as usize },
        ]
    } else {
        Seq::<Step>::empty()
    };
    let announce = seq![Step::Report { progress: stage_progress(Stage::Installing, f, count) }];
    let unpack = match file.kind() {
        Some(file_type) => seq![
            Step::Extract { bundle: b as usize, file: f as usize, file_type },
            Step::RemoveTempFiles,
        ],
        None => seq![Step::Reject { bundle: b as usize, file: f as usize }],
    };
    fetch + check + announce + unpack
}

/// Whether every file from index `from` on has a known type.
pub open spec fn accepted_from(files: Seq<ReleaseFile>, from: int) -> bool {
    forall|i: int| from <= i < files.len() ==> (#[trigger] files[i]).kind() is Some
}

/// The steps for the files of the bundle with index `b` from index `from`
/// on, in their order, up to and including the first file of unknown type.
pub open spec fn files_steps(files: Seq<ReleaseFile>, b: int, from: int) -> Seq<Step>
    decreases files.len() - from,
{
    if from < 0 || from >= files.len() {
        Seq::<Step>::empty()
    } else if files[from].kind() is None {
        file_steps(files[from], b, from, files.len() as int)
    } else {
        file_steps(files[from], b, from, files.len() as int) + files_steps(files, b, from + 1)
    }
}

/// The steps for the bundles from index `from` on: those that are not for
/// `platform` are passed over, the files of the others are handled in
/// their order, and the tag is written at the very end, unless a file of
/// unknown type has ended the run before.
pub open spec fn bundles_steps(bundles: Seq<ReleaseBundle>, platform: Seq<char>, from: int) -> Seq<
    Step,
>
    decreases bundles.len() - from,
{
    if from < 0 || from >= bundles.len() {
        seq![Step::WriteTag]
    } else if !bundles[from].applies_to(platform) {
        bundles_steps(bundles, platform, from + 1)
    } else if accepted_from(bundles[from].files@, 0) {
        files_steps(bundles[from].files@, from, 0) + bundles_steps(bundles, platform, from + 1)
    } else {
        files_steps(bundles[from].files@, from, 0)
    }
}

/// All steps of an installation of `bundles` on `platform`: the temporary
/// files left by an earlier run are cleared, the install directory is
/// emptied, and then the bundles are handled.
pub open spec fn install_steps(bundles: Seq<ReleaseBundle>, platform: Seq<char>) -> Seq<Step> {
    seq![Step::RemoveTempFiles, Step::ClearInstallDir] + bundles_steps(bundles, platform, 0)
}

/// All steps of an uninstallation: the install directory is emptied, the
/// marker file is deleted, and the two directories are removed if they are
/// empty by then.
pub open spec fn uninstall_steps() -> Seq<Step> {
    seq![Step::ClearInstallDir, Step::RemoveTag, Step::RemoveInstallDir, Step::RemoveProfileDir]
}

/// What follows in the plan once the files before index `f` of the bundle
/// with index `b` are done.
spec fn rest_from(bundles: Seq<ReleaseBundle>, platform: Seq<char>, b: int, f: int) -> Seq<Step> {
    if accepted_from(bundles[b].files@, f) {
        files_steps(bundles[b].files@, b, f) + bundles_steps(bundles, platform, b + 1)
    } else {
        files_steps(bundles[b].files@, b, f)
    }
}

/// Appends the steps for one file to `plan` and says whether the run goes
/// on after it.
fn push_file_steps(plan: &mut Vec<Step>, file: &ReleaseFile, b: usize, f: usize, count: usize) -> (goes_on:
    bool)
    requires
        f < count,
    ensures
        final(plan)@ == old(plan)@ + file_steps(*file, b as int, f as int, count as int),
        goes_on == (file.kind() is Some),
{
    let ghost before = plan@;
    plan.push(Step::Download { bundle: b, file: f });
    let index: u64 = f as u64;
    let total: u64 = count as u64;
    if file.sig_url.is_some() {
        plan.push(
            Step::Report {
                progress: DownloadProgress { stage: Stage::Verifying, current: index + 1, total },
            },
        );
        plan.push(Step::DownloadSignature { bundle: b, file: f });
        plan.push(Step::Verify { bundle: b, file: f });
    }
    plan.push(
        Step::Report {
            progress: DownloadProgress { stage: Stage::Installing, current: index + 1, total },
        },
    );
    let goes_on = match parse_file_type(file.file_type.as_str()) {
        Ok(file_type) => {
            plan.push(Step::Extract { bundle: b, file: f, file_type });
            plan.push(Step::RemoveTempFiles);
            true
        },
        Err(_) => {
            plan.push(Step::Reject { bundle: b, file: f });
            false
        },
    };
    assert(plan@ =~= before + file_steps(*file, b as int, f as int, count as int));
    goes_on
}

/// Lays out an installation of `bundles` on `platform`: every step that
/// the caller has to take, in order. A failure of a required step ends the
/// run where it stands; a `Reject` step is always the last one.
pub fn install_plan(bundles: &Vec<ReleaseBundle>, platform: &str) -> (plan: Vec<Step>)
    ensures
        plan@ == install_steps(bundles@, platform@),
{
    let mut plan: Vec<Step> = Vec::new();
    plan.push(Step::RemoveTempFiles);
    plan.push(Step::ClearInstallDir);
    let mut b: usize = 0;
    while b < bundles.len()
        invariant
            b <= bundles.len(),
            install_steps(bundles@, platform@) == plan@ + bundles_steps(
                bundles@,
                platform@,
                b as int,
            ),
        decreases bundles.len() - b,
    {
        let bundle = &bundles[b];
        if bundle.is_for(platform) {
            let count: usize = bundle.files.len();
            let mut f: usize = 0;
            while f < count
                invariant
                    b < bundles.len(),
                    bundle == &bundles@[b as int],
                    count == bundle.files@.len(),
                    f <= count,
                    install_steps(bundles@, platform@) == plan@ + rest_from(
                        bundles@,
                        platform@,
                        b as int,
                        f as int,
                    ),
                decreases count - f,
            {
                let ghost before = plan@;
                let goes_on = push_file_steps(&mut plan, &bundle.files[f], b, f, count);
                proof {
                    let files = bundle.files@;
                    let added = file_steps(files[f as int], b as int, f as int, count as int);
                    if goes_on {
                        assert(accepted_from(files, f as int) == accepted_from(files, f + 1)) by {
                            if accepted_from(files, f + 1) {
                                assert forall|i: int| f <= i < files.len() implies (
                                #[trigger] files[i]).kind() is Some by {
                                    if i != f {
                                        assert(f + 1 <= i);
                                    }
                                }
                            }
                        }
                        assert(before + rest_from(bundles@, platform@, b as int, f as int)
                            =~= plan@ + rest_from(bundles@, platform@, b as int, f + 1));
                    } else {
                        assert(!accepted_from(files, f as int));
                        assert(before + rest_from(bundles@, platform@, b as int, f as int)
                            =~= plan@);
                    }
                }
                if !goes_on {
                    return plan;
                }
                f += 1;
            }
            assert(accepted_from(bundle.files@, f as int));
            assert(files_steps(bundle.files@, b as int, f as int) =~= Seq::<Step>::empty());
            assert(rest_from(bundles@, platform@, b as int, f as int) =~= bundles_steps(
                bundles@,
                platform@,
                b + 1,
            ));
        }
        b += 1;
    }
    plan.push(Step::WriteTag);
    plan
}

/// Lays out an uninstallation: every step that the caller has to take, in
/// order.
pub fn uninstall_plan() -> (plan: Vec<Step>)
    ensures
        plan@ == uninstall_steps(),
{
    let mut plan: Vec<Step> = Vec::new();
    plan.push(Step::ClearInstallDir);
    plan.push(Step::RemoveTag);
    plan.push(Step::RemoveInstallDir);
    plan.push(Step::RemoveProfileDir);
    assert(plan@ =~= uninstall_steps());
    plan
}

} // verus!
