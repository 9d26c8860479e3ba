//! What holds of every installation plan.

use vstd::prelude::*;
use crate::install::{
    accepted_from, bundles_steps, file_steps, files_steps, install_steps, stage_progress, Step,
};
use crate::progress::Stage;
use crate::release::{ReleaseBundle, ReleaseFile};

verus! {

/// Whether `steps` fetch the file with index `f` of the bundle with index
/// `b`, check it against its signature if it has one, and unpack it in the
/// way that its type asks for.
pub open spec fn handles(steps: Seq<Step>, file: ReleaseFile, b: int, f: int) -> bool {
    &&& steps.contains(Step::Download { bundle: b as usize, file: f as usize })
    &&& file.sig_url is Some ==> steps.contains(
        Step::DownloadSignature { bundle: b as usize, file: f as usize },
    ) && steps.contains(Step::Verify { bundle: b as usize, file: f as usize })
    &&& file.kind() matches Some(file_type) && steps.contains(
        Step::Extract { bundle: b as usize, file: f as usize, file_type },
    )
}

/// Whether every file of every bundle for `platform`, from the bundle with
/// index `from` on, has a known type.
pub open spec fn all_known(bundles: Seq<ReleaseBundle>, platform: Seq<char>, from: int) -> bool {
    forall|b: int|
        from <= b < bundles.len() && (#[trigger] bundles[b]).applies_to(platform) ==> accepted_from(
            bundles[b].files@,
            0,
        )
}

/// Whether a step belongs to the handling of a file.
spec fn is_file_work(step: Step) -> bool {
    step is Download || step is DownloadSignature || step is Verify || step is Report
        || step is Extract || step is Reject || step is RemoveTempFiles
}

proof fn lemma_contains_in_concat(front: Seq<Step>, back: Seq<Step>, step: Step)
    ensures
        front.contains(step) ==> (front + back).contains(step),
        back.contains(step) ==> (front + back).contains(step),
{
    if front.contains(step) {
        let i = choose|i: int| 0 <= i < front.len() && front[i] == step;
        assert((front + back)[i] == step);
    }
    if back.contains(step) {
        let i = choose|i: int| 0 <= i < back.len() && back[i] == step;
        assert((front + back)[front.len() + i] == step);
    }
}

proof fn lemma_handles_in_concat(
    front: Seq<Step>,
    back: Seq<Step>,
    file: ReleaseFile,
    b: int,
    f: int,
)
    ensures
        handles(front, file, b, f) ==> handles(front + back, file, b, f),
        handles(back, file, b, f) ==> handles(front + back, file, b, f),
{
    lemma_contains_in_concat(front, back, Step::Download { bundle: b as usize, file: f as usize });
    lemma_contains_in_concat(
        front,
        back,
        Step::DownloadSignature { bundle: b as usize, file: f as usize },
    );
    lemma_contains_in_concat(front, back, Step::Verify { bundle: b as usize, file: f as usize });
    match file.kind() {
        Some(file_type) => {
            lemma_contains_in_concat(
                front,
                back,
                Step::Extract { bundle: b as usize, file: f as usize, file_type },
            );
        },
        None => {},
    }
}

/// What holds of the steps for one file.
spec fn file_facts(steps: Seq<Step>, file: ReleaseFile, b: int, f: int) -> bool {
    &&& steps.len() >= 3
    &&& forall|i: int| 0 <= i < steps.len() ==> is_file_work(#[trigger] steps[i])
    &&& forall|i: int, b2: int, f2: int|
        0 <= i < steps.len() && (#[trigger] steps[i].touches(b2, f2)) ==> b2 == b && f2 == f
    &&& forall|i: int|
        0 <= i < steps.len() && (#[trigger] steps[i]) is Reject ==> i == steps.len() - 1
            && file.kind() is None
    &&& forall|i: int|
        0 <= i < steps.len() ==> ((#[trigger] steps[i]) matches Step::Extract { file_type, .. }
            ==> file.kind() == Some(file_type))
    &&& file.kind() is None ==> steps.last() is Reject
    &&& file.kind() is Some ==> handles(steps, file, b, f)
}

proof fn lemma_file_steps(file: ReleaseFile, b: int, f: int, count: int)
    requires
        0 <= b <= usize::MAX,
        0 <= f < count <= usize::MAX,
    ensures
        file_facts(file_steps(file, b, f, count), file, b, f),
{
    let steps = file_steps(file, b, f, count);
    let fetch = Step::Download { bundle: b as usize, file: f as usize };
    let verifying = Step::Report { progress: stage_progress(Stage::Verifying, f, count) };
    let signature = Step::DownloadSignature { bundle: b as usize, file: f as usize };
    let verify = Step::Verify { bundle: b as usize, file: f as usize };
    let installing = Step::Report { progress: stage_progress(Stage::Installing, f, count) };
    let reject = Step::Reject { bundle: b as usize, file: f as usize };
    match file.kind() {
        Some(file_type) => {
            let extract = Step::Extract { bundle: b as usize, file: f as usize, file_type };
            if file.sig_url is Some {
                assert(steps =~= seq![
                    fetch,
                    verifying,
                    signature,
                    verify,
                    installing,
                    extract,
                    Step::RemoveTempFiles,
                ]);
                assert(steps[0] == fetch && steps[2] == signature && steps[3] == verify
                    && steps[5] == extract);
            } else {
                assert(steps =~= seq![fetch, installing, extract, Step::RemoveTempFiles]);
                assert(steps[0] == fetch && steps[2] == extract);
            }
        },
        None => {
            if file.sig_url is Some {
                assert(steps =~= seq![fetch, verifying, signature, verify, installing, reject]);
            } else {
                assert(steps =~= seq![fetch, installing, reject]);
            }
        },
    }
}

/// What holds of the steps for the files of one bundle from index `from`
/// on.
spec fn files_facts(steps: Seq<Step>, files: Seq<ReleaseFile>, b: int, from: int) -> bool {
    &&& forall|i: int| 0 <= i < steps.len() ==> is_file_work(#[trigger] steps[i])
    &&& forall|i: int, b2: int, f2: int|
        0 <= i < steps.len() && (#[trigger] steps[i].touches(b2, f2)) ==> b2 == b && from <= f2
            < files.len()
    &&& forall|i: int|
        0 <= i < steps.len() ==> ((#[trigger] steps[i]) matches Step::Reject { file, .. } ==> i
            == steps.len() - 1 && files[file as int].kind() is None)
    &&& forall|i: int|
        0 <= i < steps.len() ==> ((#[trigger] steps[i]) matches Step::Extract {
            file,
            file_type,
            ..
        } ==> files[file as int].kind() == Some(file_type))
    &&& !accepted_from(files, from) ==> steps.len() > 0 && steps.last() is Reject
    &&& accepted_from(files, from) ==> forall|f: int|
        from <= f < files.len() ==> handles(steps, #[trigger] files[f], b, f)
}

proof fn lemma_files_steps(files: Seq<ReleaseFile>, b: int, from: int)
    requires
        0 <= b <= usize::MAX,
        0 <= from <= files.len() <= usize::MAX,
    ensures
        files_facts(files_steps(files, b, from), files, b, from),
    decreases files.len() - from,
{
    let steps = files_steps(files, b, from);
    if from >= files.len() {
    } else {
        let front = file_steps(files[from], b, from, files.len() as int);
        lemma_file_steps(files[from], b, from, files.len() as int);
        assert forall|i: int, f2: int|
            0 <= i < front.len() && (#[trigger] front[i].touches(b, f2)) implies f2 == from by {}
        assert forall|i: int| 0 <= i < front.len() implies (
        (#[trigger] front[i]) matches Step::Reject { file, .. } ==> file as int == from) by {
            if front[i] is Reject {
                assert(front[i].touches(
                    front[i]->Reject_bundle as int,
                    front[i]->Reject_file as int,
                ));
            }
        }
        assert forall|i: int| 0 <= i < front.len() implies (
        (#[trigger] front[i]) matches Step::Extract { file, .. } ==> file as int == from) by {
            if front[i] is Extract {
                assert(front[i].touches(
                    front[i]->Extract_bundle as int,
                    front[i]->Extract_file as int,
                ));
            }
        }
        if files[from].kind() is None {
            assert(steps == front);
            assert(!accepted_from(files, from));
        } else {
            let back = files_steps(files, b, from + 1);
            lemma_files_steps(files, b, from + 1);
            assert(steps == front + back);
            assert(accepted_from(files, from) == accepted_from(files, from + 1)) by {
                if accepted_from(files, from + 1) {
                    assert forall|i: int| from <= i < files.len() implies (
                    #[trigger] files[i]).kind() is Some by {
                        if i != from {
                            assert(from + 1 <= i);
                        }
                    }
                }
            }
            assert forall|i: int| 0 <= i < steps.len() implies is_file_work(
                #[trigger] steps[i],
            ) by {
                if i < front.len() {
                    assert(steps[i] == front[i]);
                } else {
                    assert(steps[i] == back[i - front.len()]);
                }
            }
            assert forall|i: int, b2: int, f2: int|
                0 <= i < steps.len() && (#[trigger] steps[i].touches(b2, f2)) implies b2 == b
                && from <= f2 < files.len() by {
                if i < front.len() {
                    assert(steps[i] == front[i]);
                    assert(front[i].touches(b2, f2));
                } else {
                    assert(steps[i] == back[i - front.len()]);
                    assert(back[i - front.len()].touches(b2, f2));
                }
            }
            assert forall|i: int| 0 <= i < steps.len() implies (
            (#[trigger] steps[i]) matches Step::Reject { file, .. } ==> i == steps.len() - 1
                && files[file as int].kind() is None) by {
                if i < front.len() {
                    assert(steps[i] == front[i]);
                } else {
                    assert(steps[i] == back[i - front.len()]);
                }
            }
            assert forall|i: int| 0 <= i < steps.len() implies (
            (#[trigger] steps[i]) matches Step::Extract { file, file_type, .. }
                ==> files[file as int].kind() == Some(file_type)) by {
                if i < front.len() {
                    assert(steps[i] == front[i]);
                } else {
                    assert(steps[i] == back[i - front.len()]);
                }
            }
            if !accepted_from(files, from) {
                assert(steps.last() == back.last());
            } else {
                assert forall|f: int| from <= f < files.len() implies handles(
                    steps,
                    #[trigger] files[f],
                    b,
                    f,
                ) by {
                    lemma_handles_in_concat(front, back, files[f], b, f);
                }
            }
        }
    }
}

/// Whether a step ends a plan.
spec fn is_final(step: Step) -> bool {
    step == Step::WriteTag || step is Reject
}

/// What holds of each step for the bundles from index `from` on.
spec fn step_facts(
    step: Step,
    bundles: Seq<ReleaseBundle>,
    platform: Seq<char>,
    from: int,
) -> bool {
    &&& is_file_work(step) || step == Step::WriteTag
    &&& forall|b: int, f: int| #[trigger]
        step.touches(b, f) ==> from <= b < bundles.len() && bundles[b].applies_to(platform) && 0
            <= f < bundles[b].files@.len()
    &&& step matches Step::Reject { bundle, file }
        ==> bundles[bundle as int].files@[file as int].kind() is None
    &&& step matches Step::Extract { bundle, file, file_type }
        ==> bundles[bundle as int].files@[file as int].kind() == Some(file_type)
}

/// What holds of the steps for the bundles from index `from` on.
spec fn bundles_facts(
    steps: Seq<Step>,
    bundles: Seq<ReleaseBundle>,
    platform: Seq<char>,
    from: int,
) -> bool {
    &&& steps.len() > 0
    &&& forall|i: int|
        0 <= i < steps.len() ==> step_facts(#[trigger] steps[i], bundles, platform, from)
    &&& forall|i: int|
        0 <= i < steps.len() && is_final(#[trigger] steps[i]) ==> i == steps.len() - 1
    &&& all_known(bundles, platform, from) ==> steps.last() == Step::WriteTag
    &&& !all_known(bundles, platform, from) ==> steps.last() is Reject
    &&& all_known(bundles, platform, from) ==> forall|b: int, f: int|
        #![trigger bundles[b].files@[f]]
        from <= b < bundles.len() && bundles[b].applies_to(platform) && 0 <= f
            < bundles[b].files@.len() ==> handles(steps, bundles[b].files@[f], b, f)
}

/// The facts of a bundle whose files all have a known type, joined with
/// those of the bundles after it.
proof fn lemma_join_accepted(bundles: Seq<ReleaseBundle>, platform: Seq<char>, from: int)
    requires
        0 <= from < bundles.len() <= usize::MAX,
        bundles[from].applies_to(platform),
        accepted_from(bundles[from].files@, 0),
        files_facts(files_steps(bundles[from].files@, from, 0), bundles[from].files@, from, 0),
        bundles_facts(bundles_steps(bundles, platform, from + 1), bundles, platform, from + 1),
    ensures
        bundles_facts(bundles_steps(bundles, platform, from), bundles, platform, from),
{
    let steps = bundles_steps(bundles, platform, from);
    let files = bundles[from].files@;
    let front = files_steps(files, from, 0);
    let back = bundles_steps(bundles, platform, from + 1);
    assert(steps == front + back);
    assert(steps.last() == back.last());
    assert(all_known(bundles, platform, from) == all_known(bundles, platform, from + 1)) by {
        if all_known(bundles, platform, from + 1) {
            assert forall|b: int|
                from <= b < bundles.len() && (#[trigger] bundles[b]).applies_to(
                    platform,
                ) implies accepted_from(bundles[b].files@, 0) by {
                if b != from {
                    assert(from + 1 <= b);
                }
            }
        }
    }
    assert forall|i: int| 0 <= i < front.len() implies !((#[trigger] front[i]) is Reject)
        && front[i] != Step::WriteTag by {
        assert(is_file_work(front[i]));
        if front[i] is Reject {
            let rejected = front[i]->Reject_file as int;
            assert(front[i].touches(front[i]->Reject_bundle as int, rejected));
            assert(files[rejected].kind() is None);
        }
    }
    assert forall|i: int| 0 <= i < steps.len() implies step_facts(
        #[trigger] steps[i],
        bundles,
        platform,
        from,
    ) by {
        if i < front.len() {
            lemma_lift_step(front, i, bundles, platform, from);
        } else {
            assert(steps[i] == back[i - front.len()]);
            assert(step_facts(back[i - front.len()], bundles, platform, from + 1));
        }
    }
    assert forall|i: int| 0 <= i < steps.len() && is_final(#[trigger] steps[i]) implies i
        == steps.len() - 1 by {
        if i < front.len() {
            assert(steps[i] == front[i]);
        } else {
            assert(steps[i] == back[i - front.len()]);
        }
    }
    if all_known(bundles, platform, from) {
        assert forall|b: int, f: int|
            #![trigger bundles[b].files@[f]]
            from <= b < bundles.len() && bundles[b].applies_to(platform) && 0 <= f
                < bundles[b].files@.len() implies handles(steps, bundles[b].files@[f], b, f) by {
            lemma_handles_in_concat(front, back, bundles[b].files@[f], b, f);
            if b == from {
                assert(handles(front, files[f], b, f));
            }
        }
    }
}

/// The facts of a bundle that holds a file of unknown type.
proof fn lemma_join_rejected(bundles: Seq<ReleaseBundle>, platform: Seq<char>, from: int)
    requires
        0 <= from < bundles.len() <= usize::MAX,
        bundles[from].applies_to(platform),
        !accepted_from(bundles[from].files@, 0),
        files_facts(files_steps(bundles[from].files@, from, 0), bundles[from].files@, from, 0),
    ensures
        bundles_facts(bundles_steps(bundles, platform, from), bundles, platform, from),
{
    let steps = bundles_steps(bundles, platform, from);
    let files = bundles[from].files@;
    assert(steps == files_steps(files, from, 0));
    assert(!all_known(bundles, platform, from));
    assert forall|i: int| 0 <= i < steps.len() implies step_facts(
        #[trigger] steps[i],
        bundles,
        platform,
        from,
    ) by {
        lemma_lift_step(steps, i, bundles, platform, from);
    }
    assert forall|i: int| 0 <= i < steps.len() && is_final(#[trigger] steps[i]) implies i
        == steps.len() - 1 by {
        assert(is_file_work(steps[i]));
    }
}

/// A step of the files of the bundle with index `from` has what is asked
/// of a step of the bundles from `from` on.
proof fn lemma_lift_step(
    front: Seq<Step>,
    i: int,
    bundles: Seq<ReleaseBundle>,
    platform: Seq<char>,
    from: int,
)
    requires
        0 <= from < bundles.len() <= usize::MAX,
        bundles[from].applies_to(platform),
        files_facts(front, bundles[from].files@, from, 0),
        0 <= i < front.len(),
    ensures
        step_facts(front[i], bundles, platform, from),
{
    let files = bundles[from].files@;
    let step = front[i];
    assert(is_file_work(step));
    assert forall|b: int, f: int| step.touches(b, f) implies b == from && 0 <= f < files.len() by {
        assert(front[i].touches(b, f));
    }
    if step is Reject {
        assert(step.touches(step->Reject_bundle as int, step->Reject_file as int));
    }
    if step is Extract {
        assert(step.touches(step->Extract_bundle as int, step->Extract_file as int));
    }
}

proof fn lemma_bundles_steps(bundles: Seq<ReleaseBundle>, platform: Seq<char>, from: int)
    requires
        0 <= from <= bundles.len() <= usize::MAX,
    ensures
        bundles_facts(bundles_steps(bundles, platform, from), bundles, platform, from),
    decreases bundles.len() - from,
{
    let steps = bundles_steps(bundles, platform, from);
    if from >= bundles.len() {
        assert(steps =~= seq![Step::WriteTag]);
    } else {
        let files = bundles[from].files@;
        assert(bundles[from].files.len() == files.len());
        if !bundles[from].applies_to(platform) {
            lemma_bundles_steps(bundles, platform, from + 1);
            lemma_skip(bundles, platform, from);
        } else {
            lemma_files_steps(files, from, 0);
            if accepted_from(files, 0) {
                lemma_bundles_steps(bundles, platform, from + 1);
                lemma_join_accepted(bundles, platform, from);
            } else {
                lemma_join_rejected(bundles, platform, from);
            }
        }
    }
}

/// The facts of the bundles after one that is passed over hold with that
/// one in front.
proof fn lemma_skip(bundles: Seq<ReleaseBundle>, platform: Seq<char>, from: int)
    requires
        0 <= from < bundles.len() <= usize::MAX,
        !bundles[from].applies_to(platform),
        bundles_facts(bundles_steps(bundles, platform, from + 1), bundles, platform, from + 1),
    ensures
        bundles_facts(bundles_steps(bundles, platform, from), bundles, platform, from),
{
    let steps = bundles_steps(bundles, platform, from);
    assert(steps == bundles_steps(bundles, platform, from + 1));
    assert(all_known(bundles, platform, from) == all_known(bundles, platform, from + 1)) by {
        if all_known(bundles, platform, from + 1) {
            assert forall|b: int|
                from <= b < bundles.len() && (#[trigger] bundles[b]).applies_to(
                    platform,
                ) implies accepted_from(bundles[b].files@, 0) by {
                assert(from + 1 <= b);
            }
        }
    }
    assert forall|i: int| 0 <= i < steps.len() implies step_facts(
        #[trigger] steps[i],
        bundles,
        platform,
        from,
    ) by {
        assert(step_facts(steps[i], bundles, platform, from + 1));
    }
}

/// The install directory is emptied exactly once, as the second step of
/// the plan, and no file of any bundle is handled before that.
pub proof fn lemma_install_dir_cleared_once(bundles: Vec<ReleaseBundle>, platform: Seq<char>)
    ensures
        install_steps(bundles@, platform).len() >= 3,
        install_steps(bundles@, platform)[0] == Step::RemoveTempFiles,
        install_steps(bundles@, platform)[1] == Step::ClearInstallDir,
        forall|i: int|
            0 <= i < install_steps(bundles@, platform).len() && (#[trigger] install_steps(
                bundles@,
                platform,
            )[i]) == Step::ClearInstallDir ==> i == 1,
        forall|i: int, b: int, f: int|
            0 <= i < install_steps(bundles@, platform).len() && (#[trigger] install_steps(
                bundles@,
                platform,
            )[i].touches(b, f)) ==> i > 1,
{
    let steps = install_steps(bundles@, platform);
    let back = lemma_plan_facts(bundles, platform);
    assert forall|i: int|
        0 <= i < steps.len() && (#[trigger] steps[i]) == Step::ClearInstallDir implies i == 1 by {
        if i >= 2 {
            assert(step_facts(back[i - 2], bundles@, platform, 0));
        }
    }
}

/// Splits a plan into its two opening steps and the steps for the bundles,
/// and gives the facts of the latter.
proof fn lemma_plan_facts(bundles: Vec<ReleaseBundle>, platform: Seq<char>) -> (back: Seq<Step>)
    ensures
        back == bundles_steps(bundles@, platform, 0),
        bundles_facts(back, bundles@, platform, 0),
        install_steps(bundles@, platform).len() == back.len() + 2,
        install_steps(bundles@, platform)[0] == Step::RemoveTempFiles,
        install_steps(bundles@, platform)[1] == Step::ClearInstallDir,
        forall|i: int|
            2 <= i < back.len() + 2 ==> (#[trigger] install_steps(bundles@, platform)[i]) == back[i
                - 2],
        install_steps(bundles@, platform).last() == back.last(),
        install_steps(bundles@, platform) == seq![Step::RemoveTempFiles, Step::ClearInstallDir]
            + back,
{
    assert(bundles.len() == bundles@.len());
    lemma_bundles_steps(bundles@, platform, 0);
    bundles_steps(bundles@, platform, 0)
}

/// The tag is written at the very end or not at all. It is written if and
/// only if every file of every bundle for the platform has a known type,
/// and then the plan before it fetches every such file, checks each one
/// that is signed, and unpacks each in the way its type asks for.
pub proof fn lemma_tag_written_last(bundles: Vec<ReleaseBundle>, platform: Seq<char>)
    ensures
        forall|i: int|
            0 <= i < install_steps(bundles@, platform).len() && (#[trigger] install_steps(
                bundles@,
                platform,
            )[i]) == Step::WriteTag ==> i == install_steps(bundles@, platform).len() - 1,
        install_steps(bundles@, platform).last() == Step::WriteTag <==> all_known(
            bundles@,
            platform,
            0,
        ),
        all_known(bundles@, platform, 0) ==> forall|b: int, f: int|
            #![trigger bundles@[b].files@[f]]
            0 <= b < bundles@.len() && bundles@[b].applies_to(platform) && 0 <= f
                < bundles@[b].files@.len() ==> handles(
                install_steps(bundles@, platform),
                bundles@[b].files@[f],
                b,
                f,
            ),
{
    let steps = install_steps(bundles@, platform);
    let front = seq![Step::RemoveTempFiles, Step::ClearInstallDir];
    let back = lemma_plan_facts(bundles, platform);
    assert forall|i: int|
        0 <= i < steps.len() && (#[trigger] steps[i]) == Step::WriteTag implies i == steps.len()
        - 1 by {
        if i >= 2 {
            assert(is_final(back[i - 2]));
        }
    }
    if all_known(bundles@, platform, 0) {
        assert forall|b: int, f: int|
            #![trigger bundles@[b].files@[f]]
            0 <= b < bundles@.len() && bundles@[b].applies_to(platform) && 0 <= f
                < bundles@[b].files@.len() implies handles(steps, bundles@[b].files@[f], b, f) by {
            lemma_handles_in_concat(front, back, bundles@[b].files@[f], b, f);
        }
    }
}

/// A file of unknown type ends the plan: the step that gives up on it is
/// the last one, so nothing is unpacked after it and no tag is written.
/// And a file is only ever unpacked in the way that its type asks for.
pub proof fn lemma_unknown_type_ends_plan(bundles: Vec<ReleaseBundle>, platform: Seq<char>)
    ensures
        forall|i: int|
            0 <= i < install_steps(bundles@, platform).len() ==> ((#[trigger] install_steps(
                bundles@,
                platform,
            )[i]) matches Step::Reject { bundle, file } ==> i == install_steps(
                bundles@,
                platform,
            ).len() - 1 && 0 <= (bundle as int) < bundles@.len() && 0 <= (file as int)
                < bundles@[bundle as int].files@.len()
                && bundles@[bundle as int].files@[file as int].kind() is None),
        forall|i: int|
            0 <= i < install_steps(bundles@, platform).len() ==> ((#[trigger] install_steps(
                bundles@,
                platform,
            )[i]) matches Step::Extract { bundle, file, file_type } ==> 0 <= (bundle as int)
                < bundles@.len() && 0 <= (file as int) < bundles@[bundle as int].files@.len()
                && bundles@[bundle as int].files@[file as int].kind() == Some(file_type)),
        !all_known(bundles@, platform, 0) ==> install_steps(bundles@, platform).last() is Reject
            && !install_steps(bundles@, platform).contains(Step::WriteTag),
{
    let steps = install_steps(bundles@, platform);
    let back = lemma_plan_facts(bundles, platform);
    assert forall|i: int| 0 <= i < steps.len() implies ((#[trigger] steps[i]) matches Step::Reject {
        bundle,
        file,
    } ==> i == steps.len() - 1 && 0 <= (bundle as int) < bundles@.len() && 0 <= (file as int)
        < bundles@[bundle as int].files@.len()
        && bundles@[bundle as int].files@[file as int].kind() is None) by {
        if i >= 2 && steps[i] is Reject {
            let step = back[i - 2];
            assert(step_facts(step, bundles@, platform, 0));
            assert(is_final(step));
            assert(step.touches(step->Reject_bundle as int, step->Reject_file as int));
        }
    }
    assert forall|i: int| 0 <= i < steps.len() implies ((#[trigger] steps[i]) matches Step::Extract {
        bundle,
        file,
        file_type,
    } ==> 0 <= (bundle as int) < bundles@.len() && 0 <= (file as int)
        < bundles@[bundle as int].files@.len()
        && bundles@[bundle as int].files@[file as int].kind() == Some(file_type)) by {
        if i >= 2 && steps[i] is Extract {
            let step = back[i - 2];
            assert(step_facts(step, bundles@, platform, 0));
            assert(step.touches(step->Extract_bundle as int, step->Extract_file as int));
        }
    }
    if !all_known(bundles@, platform, 0) {
        if steps.contains(Step::WriteTag) {
            let i = choose|i: int| 0 <= i < steps.len() && steps[i] == Step::WriteTag;
            if i >= 2 {
                assert(is_final(back[i - 2]));
            }
        }
    }
}

/// A bundle that is not for the platform is passed over: every step that
/// handles a file handles a file of a bundle for the platform.
pub proof fn lemma_only_matching_bundles_touched(bundles: Vec<ReleaseBundle>, platform: Seq<char>)
    ensures
        forall|i: int, b: int, f: int|
            0 <= i < install_steps(bundles@, platform).len() && (#[trigger] install_steps(
                bundles@,
                platform,
            )[i].touches(b, f)) ==> 0 <= b < bundles@.len() && bundles@[b].applies_to(platform)
                && 0 <= f < bundles@[b].files@.len(),
{
    let steps = install_steps(bundles@, platform);
    let back = lemma_plan_facts(bundles, platform);
    assert forall|i: int, b: int, f: int|
        0 <= i < steps.len() && (#[trigger] steps[i].touches(b, f)) implies 0 <= b < bundles@.len()
        && bundles@[b].applies_to(platform) && 0 <= f < bundles@[b].files@.len() by {
        if i >= 2 {
            assert(step_facts(back[i - 2], bundles@, platform, 0));
            assert(back[i - 2].touches(b, f));
        }
    }
}

/// Whether the file `earlier` comes before the file `later` in the order
/// in which bundles and their files are given.
pub open spec fn comes_before(earlier: (int, int), later: (int, int)) -> bool {
    earlier.0 < later.0 || (earlier.0 == later.0 && earlier.1 < later.1)
}

/// Whether `later` may stand after `earlier` in a plan: if both handle a
/// file, `later` handles a later file, or goes on with the same file
/// without fetching it again.
pub open spec fn may_follow(later: Step, earlier: Step) -> bool {
    match (earlier.target(), later.target()) {
        (Some(before), Some(after)) => (before == after && !(later is Download)) || comes_before(
            before,
            after,
        ),
        _ => true,
    }
}

/// Whether `later` handles a file after the one that `earlier` handles, if
/// both handle one.
spec fn moves_on(later: Step, earlier: Step) -> bool {
    match (earlier.target(), later.target()) {
        (Some(before), Some(after)) => comes_before(before, after),
        _ => true,
    }
}

/// Whether the steps handle files in the order in which they are given,
/// and fetch no file twice.
pub open spec fn in_declared_order(steps: Seq<Step>) -> bool {
    forall|i: int, j: int|
        #![trigger steps[i], steps[j]]
        0 <= i < j < steps.len() ==> may_follow(steps[j], steps[i])
}

/// Whether the steps handle no file but files of the bundle with index `b`
/// or of a later bundle, and of the bundle `b` no file before index `f`.
spec fn starts_at(steps: Seq<Step>, b: int, f: int) -> bool {
    forall|i: int|
        0 <= i < steps.len() ==> ((#[trigger] steps[i]).target() matches Some(at) ==> at == (b, f)
            || comes_before((b, f), at))
}

/// Whether the steps handle no file but the file `f` of the bundle `b`.
spec fn stays_at(steps: Seq<Step>, b: int, f: int) -> bool {
    forall|i: int|
        0 <= i < steps.len() ==> ((#[trigger] steps[i]).target() matches Some(at) ==> at == (b, f))
}

/// Steps that are in order, followed by steps that are in order and that
/// handle later files only, are in order.
proof fn lemma_order_of_concat(front: Seq<Step>, back: Seq<Step>)
    requires
        in_declared_order(front),
        in_declared_order(back),
        forall|i: int, j: int|
            #![trigger front[i], back[j]]
            0 <= i < front.len() && 0 <= j < back.len() ==> moves_on(back[j], front[i]),
    ensures
        in_declared_order(front + back),
{
    let steps = front + back;
    assert forall|i: int, j: int|
        #![trigger steps[i], steps[j]]
        0 <= i < j < steps.len() implies may_follow(steps[j], steps[i]) by {
        if j < front.len() {
            assert(steps[i] == front[i] && steps[j] == front[j]);
        } else if i >= front.len() {
            assert(steps[i] == back[i - front.len()] && steps[j] == back[j - front.len()]);
        } else {
            assert(steps[i] == front[i] && steps[j] == back[j - front.len()]);
            assert(moves_on(back[j - front.len()], front[i]));
        }
    }
}

/// What starts at a file stays in place when steps are put before it that
/// start there too.
proof fn lemma_start_of_concat(front: Seq<Step>, back: Seq<Step>, b: int, f: int)
    requires
        starts_at(front, b, f),
        starts_at(back, b, f),
    ensures
        starts_at(front + back, b, f),
{
    let steps = front + back;
    assert forall|i: int| 0 <= i < steps.len() implies (
    (#[trigger] steps[i]).target() matches Some(at) ==> at == (b, f) || comes_before((b, f), at)) by {
        if i < front.len() {
            assert(steps[i] == front[i]);
        } else {
            assert(steps[i] == back[i - front.len()]);
        }
    }
}

proof fn lemma_file_in_order(file: ReleaseFile, b: int, f: int, count: int)
    requires
        0 <= b <= usize::MAX,
        0 <= f < count <= usize::MAX,
    ensures
        in_declared_order(file_steps(file, b, f, count)),
        stays_at(file_steps(file, b, f, count), b, f),
{
    let steps = file_steps(file, b, f, count);
    let fetch = Step::Download { bundle: b as usize, file: f as usize };
    let verifying = Step::Report { progress: stage_progress(Stage::Verifying, f, count) };
    let signature = Step::DownloadSignature { bundle: b as usize, file: f as usize };
    let verify = Step::Verify { bundle: b as usize, file: f as usize };
    let installing = Step::Report { progress: stage_progress(Stage::Installing, f, count) };
    let reject = Step::Reject { bundle: b as usize, file: f as usize };
    match file.kind() {
        Some(file_type) => {
            let extract = Step::Extract { bundle: b as usize, file: f as usize, file_type };
            if file.sig_url is Some {
                assert(steps =~= seq![
                    fetch,
                    verifying,
                    signature,
                    verify,
                    installing,
                    extract,
                    Step::RemoveTempFiles,
                ]);
            } else {
                assert(steps =~= seq![fetch, installing, extract, Step::RemoveTempFiles]);
            }
        },
        None => {
            if file.sig_url is Some {
                assert(steps =~= seq![fetch, verifying, signature, verify, installing, reject]);
            } else {
                assert(steps =~= seq![fetch, installing, reject]);
            }
        },
    }
}

proof fn lemma_files_in_order(files: Seq<ReleaseFile>, b: int, from: int)
    requires
        0 <= b <= usize::MAX,
        0 <= from <= files.len() <= usize::MAX,
    ensures
        in_declared_order(files_steps(files, b, from)),
        starts_at(files_steps(files, b, from), b, from),
        forall|i: int|
            0 <= i < files_steps(files, b, from).len() ==> ((#[trigger] files_steps(
                files,
                b,
                from,
            )[i]).target() matches Some(at) ==> at.0 == b),
    decreases files.len() - from,
{
    let steps = files_steps(files, b, from);
    if from < files.len() {
        let front = file_steps(files[from], b, from, files.len() as int);
        lemma_file_in_order(files[from], b, from, files.len() as int);
        if files[from].kind() is Some {
            let back = files_steps(files, b, from + 1);
            lemma_files_in_order(files, b, from + 1);
            assert(starts_at(back, b, from));
            lemma_order_of_concat(front, back);
            lemma_start_of_concat(front, back, b, from);
            assert forall|i: int| 0 <= i < steps.len() implies (
            (#[trigger] steps[i]).target() matches Some(at) ==> at.0 == b) by {
                if i < front.len() {
                    assert(steps[i] == front[i]);
                } else {
                    assert(steps[i] == back[i - front.len()]);
                }
            }
        }
    }
}

proof fn lemma_bundles_in_order(bundles: Seq<ReleaseBundle>, platform: Seq<char>, from: int)
    requires
        0 <= from <= bundles.len() <= usize::MAX,
    ensures
        in_declared_order(bundles_steps(bundles, platform, from)),
        starts_at(bundles_steps(bundles, platform, from), from, 0),
    decreases bundles.len() - from,
{
    let steps = bundles_steps(bundles, platform, from);
    if from >= bundles.len() {
        assert(steps =~= seq![Step::WriteTag]);
    } else {
        let files = bundles[from].files@;
        assert(bundles[from].files.len() == files.len());
        let back = bundles_steps(bundles, platform, from + 1);
        if !bundles[from].applies_to(platform) || accepted_from(files, 0) {
            lemma_bundles_in_order(bundles, platform, from + 1);
            assert(starts_at(back, from, 0));
        }
        if bundles[from].applies_to(platform) {
            let front = files_steps(files, from, 0);
            lemma_files_in_order(files, from, 0);
            if accepted_from(files, 0) {
                lemma_order_of_concat(front, back);
                lemma_start_of_concat(front, back, from, 0);
            }
        }
    }
}

/// Files are handled strictly in the order in which they are given: the
/// bundles in their order, and within a bundle its files in theirs. Of two
/// steps that handle files, the later one handles the same file or a later
/// one, and a file is fetched only once.
pub proof fn lemma_files_handled_in_declared_order(
    bundles: Vec<ReleaseBundle>,
    platform: Seq<char>,
)
    ensures
        in_declared_order(install_steps(bundles@, platform)),
{
    assert(bundles.len() == bundles@.len());
    let front = seq![Step::RemoveTempFiles, Step::ClearInstallDir];
    let back = bundles_steps(bundles@, platform, 0);
    lemma_bundles_in_order(bundles@, platform, 0);
    lemma_order_of_concat(front, back);
}

} // verus!
