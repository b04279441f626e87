//! What holds of the procedure as a whole: the requests a run hands out for
//! each situation on disk, and the properties that every step keeps.
use vstd::prelude::*;

use crate::entry::{
    entry_plan_of, no_parent_component, parent_component_at, safe_entry_name,
    EntryKind, EntryPlanView,
};
use crate::error::{download_error_of, missing_font_error_of, ErrorKind};
use crate::layout::{
    base_dir_of, font_path_of, join, partial_zip_path_of, zip_path_of, DOWNLOAD_URL, FONT_NAME,
};
use crate::machine::{
    next, request_of, start, well_formed, AnswerView, Phase, ProvisionView, RequestView,
};

verus! {

/// The state after `s` receives the first `k` of `answers` in turn.
pub open spec fn state_after(s: ProvisionView, answers: Seq<AnswerView>, k: nat) -> ProvisionView
    decreases k,
{
    if k == 0 {
        s
    } else {
        next(state_after(s, answers, (k - 1) as nat), answers[k - 1])
    }
}

/// The state after `s` receives each of `answers` in turn.
pub open spec fn run(s: ProvisionView, answers: Seq<AnswerView>) -> ProvisionView {
    state_after(s, answers, answers.len())
}

/// The requests that `s` hands out while it receives each of `answers` in
/// turn: the one pending before each answer.
pub open spec fn requests_along(s: ProvisionView, answers: Seq<AnswerView>) -> Seq<RequestView> {
    Seq::new(answers.len(), |i: int| request_of(state_after(s, answers, i as nat)))
}

/// One more answer moves the state one step on.
proof fn lemma_state_after_next(s: ProvisionView, answers: Seq<AnswerView>, k: nat)
    ensures
        state_after(s, answers, k + 1) == next(state_after(s, answers, k), answers[k as int]),
{
}

/// Every step keeps a state well formed.
pub proof fn lemma_next_well_formed(s: ProvisionView, a: AnswerView)
    requires
        well_formed(s),
    ensures
        well_formed(next(s, a)),
{
}

/// A finished procedure stays as it is, whatever it is told: nothing is
/// retried after a failure, and nothing is redone after success.
pub proof fn lemma_finished_stays(s: ProvisionView, a: AnswerView)
    requires
        s.phase == Phase::Succeeded || s.phase == Phase::Failed,
    ensures
        next(s, a) == s,
{
}

/// The procedure succeeds only on learning that the font file is there.
pub proof fn lemma_success_follows_font_found(s: ProvisionView, a: AnswerView)
    requires
        s.phase != Phase::Succeeded,
        next(s, a).phase == Phase::Succeeded,
    ensures
        request_of(s) == RequestView::IsFile(font_path_of(base_dir_of(s.home))),
        a == AnswerView::Exists(true),
        request_of(next(s, a)) == RequestView::Finished(Ok(font_path_of(base_dir_of(s.home)))),
{
}

/// A download starts only on learning that the archive is absent, and
/// unpacking only after the archive was found or fully downloaded.
pub proof fn lemma_work_follows_probes(s: ProvisionView, a: AnswerView)
    ensures
        s.phase != Phase::Download && next(s, a).phase == Phase::Download ==> {
            &&& request_of(s) == RequestView::IsFile(zip_path_of(base_dir_of(s.home)))
            &&& a == AnswerView::Exists(false)
        },
        s.phase != Phase::Extract && next(s, a).phase == Phase::Extract ==> {
            ||| request_of(s) == RequestView::IsFile(zip_path_of(base_dir_of(s.home)))
                && a == AnswerView::Exists(true)
            ||| s.phase == Phase::Commit && a == AnswerView::Done
        },
{
}

/// Warm path: where the font file is already in place, the procedure asks
/// for the home directory, finds the font directory and the font in it, and
/// returns the font's path. It asks for no network transfer and no write.
pub proof fn warm_path_only_probes(home: Seq<char>)
    requires
        home.len() > 0,
    ensures
        ({
            let base = base_dir_of(home);
            let answers = seq![
                AnswerView::Home(Some(home)),
                AnswerView::Exists(true),
                AnswerView::Exists(true),
            ];
            &&& requests_along(start(), answers) == seq![
                RequestView::HomeDir,
                RequestView::IsDir(base),
                RequestView::IsFile(font_path_of(base)),
            ]
            &&& request_of(run(start(), answers)) == RequestView::Finished(Ok(font_path_of(base)))
        }),
{
    reveal_with_fuel(state_after, 4);
    let base = base_dir_of(home);
    let answers = seq![
        AnswerView::Home(Some(home)),
        AnswerView::Exists(true),
        AnswerView::Exists(true),
    ];
    assert(requests_along(start(), answers) =~= seq![
        RequestView::HomeDir,
        RequestView::IsDir(base),
        RequestView::IsFile(font_path_of(base)),
    ]);
}

/// Cached archive: where the archive is in place and the font is not, the
/// procedure unpacks the archive without any download, then confirms the font
/// and returns its path.
pub proof fn cached_archive_skips_download(home: Seq<char>)
    requires
        home.len() > 0,
    ensures
        ({
            let base = base_dir_of(home);
            let answers = seq![
                AnswerView::Home(Some(home)),
                AnswerView::Exists(true),
                AnswerView::Exists(false),
                AnswerView::Exists(true),
                AnswerView::Done,
                AnswerView::Exists(true),
            ];
            &&& requests_along(start(), answers) == seq![
                RequestView::HomeDir,
                RequestView::IsDir(base),
                RequestView::IsFile(font_path_of(base)),
                RequestView::IsFile(zip_path_of(base)),
                RequestView::Extract { archive: zip_path_of(base), dest: base },
                RequestView::IsFile(font_path_of(base)),
            ]
            &&& request_of(run(start(), answers)) == RequestView::Finished(Ok(font_path_of(base)))
        }),
{
    let base = base_dir_of(home);
    let answers = seq![
        AnswerView::Home(Some(home)),
        AnswerView::Exists(true),
        AnswerView::Exists(false),
        AnswerView::Exists(true),
        AnswerView::Done,
        AnswerView::Exists(true),
    ];
    let s0 = start();
    let s1 = ProvisionView { phase: Phase::CheckBase, home, failure: None };
    assert(state_after(s0, answers, 0) == s0);
    lemma_state_after_next(s0, answers, 0);
    assert(state_after(s0, answers, 1) == s1);
    lemma_state_after_next(s0, answers, 1);
    assert(state_after(s0, answers, 2) == ProvisionView { phase: Phase::CheckFont, ..s1 });
    lemma_state_after_next(s0, answers, 2);
    assert(state_after(s0, answers, 3) == ProvisionView { phase: Phase::CheckZip, ..s1 });
    lemma_state_after_next(s0, answers, 3);
    assert(state_after(s0, answers, 4) == ProvisionView { phase: Phase::Extract, ..s1 });
    lemma_state_after_next(s0, answers, 4);
    assert(state_after(s0, answers, 5) == ProvisionView { phase: Phase::ConfirmFont, ..s1 });
    lemma_state_after_next(s0, answers, 5);
    assert(state_after(s0, answers, 6) == ProvisionView { phase: Phase::Succeeded, ..s1 });
    assert(requests_along(start(), answers) =~= seq![
        RequestView::HomeDir,
        RequestView::IsDir(base),
        RequestView::IsFile(font_path_of(base)),
        RequestView::IsFile(zip_path_of(base)),
        RequestView::Extract { archive: zip_path_of(base), dest: base },
        RequestView::IsFile(font_path_of(base)),
    ]);
}

/// Cold path: from a font directory that holds neither font nor archive, the
/// procedure downloads the archive into its partial file, moves it into
/// place, unpacks it into the font directory, confirms the font and returns
/// the font's path.
pub proof fn cold_path_downloads_then_unpacks(home: Seq<char>, code: u16)
    requires
        home.len() > 0,
        200 <= code <= 299,
    ensures
        ({
            let base = base_dir_of(home);
            let answers = seq![
                AnswerView::Home(Some(home)),
                AnswerView::Exists(true),
                AnswerView::Exists(false),
                AnswerView::Exists(false),
                AnswerView::Transferred(code),
                AnswerView::Done,
                AnswerView::Done,
                AnswerView::Exists(true),
            ];
            &&& requests_along(start(), answers) == seq![
                RequestView::HomeDir,
                RequestView::IsDir(base),
                RequestView::IsFile(font_path_of(base)),
                RequestView::IsFile(zip_path_of(base)),
                RequestView::Download { url: DOWNLOAD_URL@, dest: partial_zip_path_of(base) },
                RequestView::Rename { from: partial_zip_path_of(base), to: zip_path_of(base) },
                RequestView::Extract { archive: zip_path_of(base), dest: base },
                RequestView::IsFile(font_path_of(base)),
            ]
            &&& request_of(run(start(), answers)) == RequestView::Finished(Ok(font_path_of(base)))
        }),
{
    let base = base_dir_of(home);
    let answers = seq![
        AnswerView::Home(Some(home)),
        AnswerView::Exists(true),
        AnswerView::Exists(false),
        AnswerView::Exists(false),
        AnswerView::Transferred(code),
        AnswerView::Done,
        AnswerView::Done,
        AnswerView::Exists(true),
    ];
    let s0 = start();
    let s1 = ProvisionView { phase: Phase::CheckBase, home, failure: None };
    assert(state_after(s0, answers, 0) == s0);
    lemma_state_after_next(s0, answers, 0);
    assert(state_after(s0, answers, 1) == s1);
    lemma_state_after_next(s0, answers, 1);
    assert(state_after(s0, answers, 2) == ProvisionView { phase: Phase::CheckFont, ..s1 });
    lemma_state_after_next(s0, answers, 2);
    assert(state_after(s0, answers, 3) == ProvisionView { phase: Phase::CheckZip, ..s1 });
    lemma_state_after_next(s0, answers, 3);
    assert(state_after(s0, answers, 4) == ProvisionView { phase: Phase::Download, ..s1 });
    lemma_state_after_next(s0, answers, 4);
    assert(state_after(s0, answers, 5) == ProvisionView { phase: Phase::Commit, ..s1 });
    lemma_state_after_next(s0, answers, 5);
    assert(state_after(s0, answers, 6) == ProvisionView { phase: Phase::Extract, ..s1 });
    lemma_state_after_next(s0, answers, 6);
    assert(state_after(s0, answers, 7) == ProvisionView { phase: Phase::ConfirmFont, ..s1 });
    lemma_state_after_next(s0, answers, 7);
    assert(state_after(s0, answers, 8) == ProvisionView { phase: Phase::Succeeded, ..s1 });
    assert(requests_along(start(), answers) =~= seq![
        RequestView::HomeDir,
        RequestView::IsDir(base),
        RequestView::IsFile(font_path_of(base)),
        RequestView::IsFile(zip_path_of(base)),
        RequestView::Download { url: DOWNLOAD_URL@, dest: partial_zip_path_of(base) },
        RequestView::Rename { from: partial_zip_path_of(base), to: zip_path_of(base) },
        RequestView::Extract { archive: zip_path_of(base), dest: base },
        RequestView::IsFile(font_path_of(base)),
    ]);
}

/// Font directory: where it is absent the procedure asks to create it and
/// then goes on to look for the font; where creation finds a directory
/// already in place (another process made it meanwhile) it goes on as well;
/// where it is present it is not created again.
pub proof fn font_directory_created_when_absent(home: Seq<char>)
    requires
        home.len() > 0,
    ensures
        ({
            let base = base_dir_of(home);
            let absent = seq![AnswerView::Home(Some(home)), AnswerView::Exists(false)];
            let present = seq![AnswerView::Home(Some(home)), AnswerView::Exists(true)];
            let made = absent.push(AnswerView::Done);
            let raced = absent.push(AnswerView::AlreadyExists).push(AnswerView::Exists(true));
            &&& request_of(run(start(), absent)) == RequestView::CreateDir(base)
            &&& request_of(run(start(), made)) == RequestView::IsFile(font_path_of(base))
            &&& request_of(run(start(), raced)) == RequestView::IsFile(font_path_of(base))
            &&& requests_along(start(), present) == seq![
                RequestView::HomeDir,
                RequestView::IsDir(base),
            ]
            &&& request_of(run(start(), present)) == RequestView::IsFile(font_path_of(base))
        }),
{
    let base = base_dir_of(home);
    let absent = seq![AnswerView::Home(Some(home)), AnswerView::Exists(false)];
    let present = seq![AnswerView::Home(Some(home)), AnswerView::Exists(true)];
    let made = absent.push(AnswerView::Done);
    let raced = absent.push(AnswerView::AlreadyExists).push(AnswerView::Exists(true));
    let s0 = start();
    let s1 = ProvisionView { phase: Phase::CheckBase, home, failure: None };
    let creating = ProvisionView { phase: Phase::CreateBase, ..s1 };
    let looking = ProvisionView { phase: Phase::CheckFont, ..s1 };
    lemma_state_after_next(s0, absent, 0);
    lemma_state_after_next(s0, absent, 1);
    assert(state_after(s0, absent, 2) == creating);
    lemma_state_after_next(s0, present, 0);
    lemma_state_after_next(s0, present, 1);
    assert(state_after(s0, present, 1) == s1);
    assert(state_after(s0, present, 2) == looking);
    lemma_state_after_next(s0, made, 0);
    lemma_state_after_next(s0, made, 1);
    lemma_state_after_next(s0, made, 2);
    assert(state_after(s0, made, 2) == creating);
    assert(state_after(s0, made, 3) == looking);
    lemma_state_after_next(s0, raced, 0);
    lemma_state_after_next(s0, raced, 1);
    lemma_state_after_next(s0, raced, 2);
    lemma_state_after_next(s0, raced, 3);
    assert(state_after(s0, raced, 2) == creating);
    assert(state_after(s0, raced, 3) == ProvisionView { phase: Phase::RecheckBase, ..s1 });
    assert(state_after(s0, raced, 4) == looking);
    assert(requests_along(start(), present) =~= seq![
        RequestView::HomeDir,
        RequestView::IsDir(base),
    ]);
}

/// Missing font: where unpacking completes and the font is still not there,
/// the procedure fails with an extraction error that names the archive.
pub proof fn missing_font_is_extraction_error(s: ProvisionView)
    requires
        s.phase == Phase::Extract,
    ensures
        ({
            let archive = zip_path_of(base_dir_of(s.home));
            let e = missing_font_error_of(archive, FONT_NAME@);
            &&& request_of(run(s, seq![AnswerView::Done, AnswerView::Exists(false)]))
                == RequestView::Finished(Err(e))
            &&& e.kind == ErrorKind::Extraction
        }),
{
    reveal_with_fuel(state_after, 3);
}

/// Network failure: where the transfer fails, the partial download is
/// removed, whether or not that removal succeeds the procedure fails with a
/// network error, and the error's message ends with the cause it was given.
pub proof fn network_failure_is_network_error(s: ProvisionView, cause: Seq<char>, cleanup: AnswerView)
    requires
        s.phase == Phase::Download,
        cleanup == AnswerView::Done || cleanup is Failed,
    ensures
        ({
            let partial = partial_zip_path_of(base_dir_of(s.home));
            let answers = seq![AnswerView::Unreachable(cause), cleanup];
            let e = download_error_of(DOWNLOAD_URL@, cause);
            &&& requests_along(s, answers) == seq![
                RequestView::Download { url: DOWNLOAD_URL@, dest: partial },
                RequestView::Remove(partial),
            ]
            &&& request_of(run(s, answers)) == RequestView::Finished(Err(e))
            &&& e.kind == ErrorKind::Network
            &&& e.message.len() >= cause.len()
            &&& e.message.subrange(e.message.len() - cause.len(), e.message.len() as int) == cause
        }),
{
    reveal_with_fuel(state_after, 3);
    let partial = partial_zip_path_of(base_dir_of(s.home));
    let answers = seq![AnswerView::Unreachable(cause), cleanup];
    let e = download_error_of(DOWNLOAD_URL@, cause);
    assert(requests_along(s, answers) =~= seq![
        RequestView::Download { url: DOWNLOAD_URL@, dest: partial },
        RequestView::Remove(partial),
    ]);
    let head = "could not download the font from "@ + DOWNLOAD_URL@ + ": "@;
    assert(e.message == head + cause);
    assert(e.message.subrange(head.len() as int, e.message.len() as int) =~= cause);
}

/// A name that may be unpacked, with a separator put in front, still holds no
/// `..` component.
proof fn lemma_separator_then_safe_name(name: Seq<char>)
    requires
        safe_entry_name(name),
    ensures
        no_parent_component(seq!['/'] + name),
{
    let t = seq!['/'] + name;
    assert forall|i: int| !#[trigger] parent_component_at(t, i) by {
        if parent_component_at(t, i) {
            assert(i >= 1);
            assert(parent_component_at(name, i - 1));
        }
    }
}

/// Archive entries stay inside: an entry that is written or created lands at
/// the destination followed by a path with no `..` component and no drive
/// prefix; where the destination itself holds no `..` component, neither does
/// the target. Symbolic links are never followed, and an entry whose name
/// would leave the destination refuses the archive.
pub proof fn entry_targets_stay_inside(dest: Seq<char>, name: Seq<char>, kind: EntryKind)
    ensures
        kind == EntryKind::Symlink ==> entry_plan_of(dest, name, kind) == EntryPlanView::Skip,
        kind != EntryKind::Symlink && !safe_entry_name(name) ==> entry_plan_of(dest, name, kind)
            == EntryPlanView::Reject,
        ({
            let plan = entry_plan_of(dest, name, kind);
            let target = join(dest, name);
            let rest = target.subrange(dest.len() as int, target.len() as int);
            plan is WriteFile || plan is CreateDir ==> {
                &&& plan == EntryPlanView::WriteFile(target) || plan == EntryPlanView::CreateDir(
                    target,
                )
                &&& target.len() > dest.len()
                &&& target.subrange(0, dest.len() as int) == dest
                &&& no_parent_component(rest)
                &&& forall|i: int| 0 <= i < rest.len() ==> #[trigger] rest[i] != ':'
                &&& no_parent_component(dest) ==> no_parent_component(target)
            }
        }),
{
    let plan = entry_plan_of(dest, name, kind);
    if plan is WriteFile || plan is CreateDir {
        assert(safe_entry_name(name));
        let target = join(dest, name);
        let rest = target.subrange(dest.len() as int, target.len() as int);
        assert(target.subrange(0, dest.len() as int) =~= dest);
        if dest.len() == 0 || dest.last() == '/' {
            assert(rest =~= name);
        } else {
            assert(rest =~= seq!['/'] + name);
            lemma_separator_then_safe_name(name);
        }
        if no_parent_component(dest) {
            assert forall|i: int| !#[trigger] parent_component_at(target, i) by {
                if parent_component_at(target, i) {
                    let d = dest.len() as int;
                    if i + 1 < d {
                        assert(parent_component_at(dest, i));
                    } else if i >= d {
                        assert(parent_component_at(rest, i - d));
                    } else {
                        assert(i + 1 == d);
                        assert(target[i + 1] == '.');
                    }
                }
            }
        }
    }
}

} // verus!
