//! Which files a task works on: how they are asked of version control, and
//! which of them are left out.

use crate::error::{DevtoolError, DevtoolErrorView};
use crate::text::{is_prefix, lines_of, push_text, push_texts, split_lines, starts_with};
use crate::tool::{ProcessOutcome, ProcessOutcomeView, ToolInvocation, ToolInvocationView};
use vstd::prelude::*;

verus! {

/// Which of the tracked files are listed.
#[derive(Debug, PartialEq, Eq)]
pub enum SelectionMode {
    /// Every tracked file.
    AllTracked,
    /// The tracked files with local changes that are not committed.
    ModifiedOnly,
    /// The tracked files that differ between the working tree and the branch
    /// of this name.
    DiffAgainst(String),
}

/// A `SelectionMode` as plain mathematical data.
pub enum SelectionModeView {
    AllTracked,
    ModifiedOnly,
    DiffAgainst(Seq<char>),
}

impl View for SelectionMode {
    type V = SelectionModeView;

    open spec fn view(&self) -> SelectionModeView {
        match self {
            SelectionMode::AllTracked => SelectionModeView::AllTracked,
            SelectionMode::ModifiedOnly => SelectionModeView::ModifiedOnly,
            SelectionMode::DiffAgainst(branch) => SelectionModeView::DiffAgainst(branch@),
        }
    }
}

impl Clone for SelectionMode {
    fn clone(&self) -> (r: Self)
        ensures
            r@ == self@,
    {
        match self {
            SelectionMode::AllTracked => SelectionMode::AllTracked,
            SelectionMode::ModifiedOnly => SelectionMode::ModifiedOnly,
            SelectionMode::DiffAgainst(branch) => SelectionMode::DiffAgainst(branch.clone()),
        }
    }
}

/// The one mode that the two selection flags stand for. A branch to compare
/// against wins over the request for all files; without either, only the
/// modified files are taken.
pub open spec fn mode_for(all_files: bool, diff_branch: Option<Seq<char>>) -> SelectionModeView {
    match diff_branch {
        Some(branch) => SelectionModeView::DiffAgainst(branch),
        None => if all_files {
            SelectionModeView::AllTracked
        } else {
            SelectionModeView::ModifiedOnly
        },
    }
}

/// Resolves the two selection flags to one mode. Giving both is no error:
/// the branch is taken and the request for all files is passed over.
pub fn resolve_mode(all_files: bool, diff_branch: Option<String>) -> (r: SelectionMode)
    ensures
        r@ == mode_for(all_files, diff_branch.deep_view()),
        diff_branch matches Some(branch) ==> r@ == SelectionModeView::DiffAgainst(branch@),
{
    match diff_branch {
        Some(branch) => SelectionMode::DiffAgainst(branch),
        None => if all_files {
            SelectionMode::AllTracked
        } else {
            SelectionMode::ModifiedOnly
        },
    }
}

/// How the file list of one run comes about.
#[derive(Debug, PartialEq, Eq)]
pub struct FileSelector {
    /// Glob patterns, such as `*.cpp`; a file is listed when it matches one.
    pub extensions: Vec<String>,
    /// Which of the tracked files are listed.
    pub mode: SelectionMode,
    /// A listed path that begins with one of these is left out.
    pub exclude_prefixes: Vec<String>,
}

/// A `FileSelector` as plain mathematical data.
pub struct FileSelectorView {
    pub extensions: Seq<Seq<char>>,
    pub mode: SelectionModeView,
    pub exclude_prefixes: Seq<Seq<char>>,
}

impl View for FileSelector {
    type V = FileSelectorView;

    open spec fn view(&self) -> FileSelectorView {
        FileSelectorView {
            extensions: self.extensions.deep_view(),
            mode: self.mode@,
            exclude_prefixes: self.exclude_prefixes.deep_view(),
        }
    }
}

impl Clone for FileSelector {
    fn clone(&self) -> (r: Self)
        ensures
            r@ == self@,
    {
        let extensions = self.extensions.clone();
        let exclude_prefixes = self.exclude_prefixes.clone();
        FileSelector { extensions, mode: self.mode.clone(), exclude_prefixes }
    }
}

/// `path` begins with one of `prefixes`. The match is on characters alone and
/// knows nothing of path segments: the prefix `third_party` also matches
/// `third_party2/x`.
pub open spec fn excluded(path: Seq<char>, prefixes: Seq<Seq<char>>) -> bool {
    exists|i: int| 0 <= i < prefixes.len() && is_prefix(#[trigger] prefixes[i], path)
}

/// The paths of `list` that begin with none of `prefixes`, in the order of
/// `list`.
pub open spec fn filtered(list: Seq<Seq<char>>, prefixes: Seq<Seq<char>>) -> Seq<Seq<char>> {
    list.filter(|path: Seq<char>| !excluded(path, prefixes))
}

/// Tells whether `path` begins with one of `prefixes`.
pub fn is_excluded(path: &str, prefixes: &Vec<String>) -> (r: bool)
    ensures
        r == excluded(path@, prefixes.deep_view()),
{
    let mut i: usize = 0;
    while i < prefixes.len()
        invariant
            i <= prefixes.len(),
            forall|j: int| 0 <= j < i ==> !is_prefix(#[trigger] prefixes.deep_view()[j], path@),
        decreases prefixes.len() - i,
    {
        if starts_with(path, prefixes[i].as_str()) {
            proof {
                assert(is_prefix(prefixes.deep_view()[i as int], path@));
            }
            return true;
        }
        i = i + 1;
    }
    false
}

/// Removes from `list` every path that begins with one of
/// `exclude_prefixes`, and keeps the others in their order. It never fails;
/// of an empty list it makes an empty list.
pub fn filter(list: Vec<String>, exclude_prefixes: &Vec<String>) -> (r: Vec<String>)
    ensures
        r.deep_view() == filtered(list.deep_view(), exclude_prefixes.deep_view()),
{
    let ghost keep = |path: Seq<char>| !excluded(path, exclude_prefixes.deep_view());
    let mut kept: Vec<String> = Vec::new();
    let mut i: usize = 0;
    proof {
        reveal(Seq::filter);
    }
    while i < list.len()
        invariant
            i <= list.len(),
            keep == |path: Seq<char>| !excluded(path, exclude_prefixes.deep_view()),
            kept.deep_view() == list.deep_view().take(i as int).filter(keep),
        decreases list.len() - i,
    {
        let path = list[i].as_str();
        proof {
            reveal(Seq::filter);
            let next = list.deep_view().take(i + 1);
            assert(next.drop_last() == list.deep_view().take(i as int));
        }
        if !is_excluded(path, exclude_prefixes) {
            push_text(&mut kept, path);
        }
        i = i + 1;
    }
    proof {
        assert(list.deep_view().take(list.len() as int) == list.deep_view());
    }
    kept
}

/// Filtering returns exactly the paths of the list that begin with none of
/// the prefixes: it drops no such path, it returns no path that begins with
/// a prefix, and it returns no path that the list does not hold.
pub proof fn lemma_filter_exact(list: Seq<Seq<char>>, prefixes: Seq<Seq<char>>)
    ensures
        forall|path: Seq<char>| #[trigger]
            filtered(list, prefixes).contains(path) <==> list.contains(path) && !excluded(
                path,
                prefixes,
            ),
{
    let keep = |path: Seq<char>| !excluded(path, prefixes);
    assert forall|path: Seq<char>| #[trigger]
        filtered(list, prefixes).contains(path) <==> list.contains(path) && !excluded(
            path,
            prefixes,
        ) by {
        if filtered(list, prefixes).contains(path) {
            let i = choose|i: int| 0 <= i < list.filter(keep).len() && list.filter(keep)[i] == path;
            list.lemma_filter_pred(keep, i);
            list.lemma_filter_contains_rev(keep, path);
        }
        if list.contains(path) && !excluded(path, prefixes) {
            let i = choose|i: int| 0 <= i < list.len() && list[i] == path;
            list.lemma_filter_contains(keep, i);
        }
    }
}

/// Filtering a list in two parts gives the two filtered parts, one after the
/// other, so the paths that are kept stay in their order; and filtering
/// never makes a list longer.
pub proof fn lemma_filter_keeps_order(
    list: Seq<Seq<char>>,
    more: Seq<Seq<char>>,
    prefixes: Seq<Seq<char>>,
)
    ensures
        filtered(list + more, prefixes) == filtered(list, prefixes) + filtered(more, prefixes),
        filtered(list, prefixes).len() <= list.len(),
{
    let keep = |path: Seq<char>| !excluded(path, prefixes);
    Seq::filter_distributes_over_add(list, more, keep);
    list.lemma_filter_len(keep);
}

/// The version-control query that lists the files of `selector`: matching
/// the patterns is left to the query itself, and both of its streams are
/// captured.
pub open spec fn enumeration(selector: FileSelectorView) -> ToolInvocationView {
    ToolInvocationView {
        executable: "git"@,
        args: match selector.mode {
            SelectionModeView::AllTracked => seq!["ls-files"@] + selector.extensions,
            SelectionModeView::ModifiedOnly => seq!["ls-files"@] + selector.extensions + seq![
                "-m"@,
            ],
            SelectionModeView::DiffAgainst(branch) => seq![
                "diff"@,
                "--name-only"@,
                branch,
                "--"@,
            ] + selector.extensions,
        },
        stream_output: false,
        working_directory: None,
    }
}

/// Builds the version-control query that lists the files of `selector`.
pub fn enumerate_invocation(selector: &FileSelector) -> (r: ToolInvocation)
    ensures
        r@ == enumeration(selector@),
{
    let mut args: Vec<String> = Vec::new();
    match &selector.mode {
        SelectionMode::AllTracked => {
            push_text(&mut args, "ls-files");
            push_texts(&mut args, &selector.extensions);
        },
        SelectionMode::ModifiedOnly => {
            push_text(&mut args, "ls-files");
            push_texts(&mut args, &selector.extensions);
            push_text(&mut args, "-m");
        },
        SelectionMode::DiffAgainst(branch) => {
            push_text(&mut args, "diff");
            push_text(&mut args, "--name-only");
            push_text(&mut args, branch.as_str());
            push_text(&mut args, "--");
            push_texts(&mut args, &selector.extensions);
        },
    }
    proof {
        assert(args.deep_view() =~= enumeration(selector@).args);
    }
    ToolInvocation {
        executable: "git".to_owned(),
        args,
        stream_output: false,
        working_directory: None,
    }
}

/// The file list that the outcome of the version-control query stands for:
/// the lines of its standard output, in their order, where it reported
/// success. A query that could not be run, or that reported a failure, is an
/// error that carries what it wrote to standard error.
pub open spec fn listing_of(outcome: ProcessOutcomeView) -> Result<
    Seq<Seq<char>>,
    DevtoolErrorView,
> {
    match outcome {
        ProcessOutcomeView::NotFound => Err(
            DevtoolErrorView::VcsQueryFailed { stderr: Seq::empty() },
        ),
        ProcessOutcomeView::LaunchFailed => Err(
            DevtoolErrorView::VcsQueryFailed { stderr: Seq::empty() },
        ),
        ProcessOutcomeView::Exited { success, stdout, stderr } => if success {
            Ok(lines_of(stdout))
        } else {
            Err(DevtoolErrorView::VcsQueryFailed { stderr })
        },
    }
}

/// Reads the file list off the outcome of the version-control query. The
/// list may be empty, which is no error.
pub fn get_project_files(outcome: &ProcessOutcome) -> (r: Result<Vec<String>, DevtoolError>)
    ensures
        match r {
            Ok(files) => listing_of(outcome@) == Ok::<Seq<Seq<char>>, DevtoolErrorView>(
                files.deep_view(),
            ),
            Err(e) => listing_of(outcome@) == Err::<Seq<Seq<char>>, DevtoolErrorView>(e@),
        },
{
    match outcome {
        ProcessOutcome::NotFound => Err(DevtoolError::VcsQueryFailed { stderr: String::new() }),
        ProcessOutcome::LaunchFailed => Err(
            DevtoolError::VcsQueryFailed { stderr: String::new() },
        ),
        ProcessOutcome::Exited { success, stdout, stderr } => {
            if *success {
                Ok(split_lines(stdout.as_str()))
            } else {
                Err(DevtoolError::VcsQueryFailed { stderr: stderr.clone() })
            }
        },
    }
}

/// The files that a run works on: the listing of `outcome` without the paths
/// that `selector` leaves out.
pub open spec fn selection_of(selector: FileSelectorView, outcome: ProcessOutcomeView) -> Result<
    Seq<Seq<char>>,
    DevtoolErrorView,
> {
    match listing_of(outcome) {
        Ok(files) => Ok(filtered(files, selector.exclude_prefixes)),
        Err(e) => Err(e),
    }
}

/// Turns the outcome of the query of `selector` into the files to work on.
pub fn select_files(selector: &FileSelector, outcome: &ProcessOutcome) -> (r: Result<
    Vec<String>,
    DevtoolError,
>)
    ensures
        match r {
            Ok(files) => selection_of(selector@, outcome@) == Ok::<
                Seq<Seq<char>>,
                DevtoolErrorView,
            >(files.deep_view()),
            Err(e) => selection_of(selector@, outcome@) == Err::<Seq<Seq<char>>, DevtoolErrorView>(
                e@,
            ),
        },
{
    match get_project_files(outcome) {
        Ok(files) => Ok(filter(files, &selector.exclude_prefixes)),
        Err(e) => Err(e),
    }
}

} // verus!
