//! Searching more than one file: what to search, and what to make of the
//! files that fail.

use vstd::prelude::*;
use vstd::string::StringExecFns;
use crate::error::SearchError;
use crate::target::{Target, TargetView};

verus! {

/// What a path to search turned out to be.
#[derive(Clone, Copy, Debug, PartialEq, Eq)]
pub enum ScanRoot {
    /// A directory: every source file below it is searched, and a file
    /// that fails is passed over.
    Directory,
    /// A single file: if it fails, the search fails.
    File,
}

/// Decides how to search a path from what the file system says of it. A
/// path that is neither a directory nor a file cannot be searched.
pub fn scan_root(is_dir: bool, is_file: bool) -> (r: Result<ScanRoot, SearchError>)
    ensures
        is_dir ==> r == Ok::<ScanRoot, SearchError>(ScanRoot::Directory),
        !is_dir && is_file ==> r == Ok::<ScanRoot, SearchError>(ScanRoot::File),
        !is_dir && !is_file ==> r == Err::<ScanRoot, SearchError>(SearchError::InvalidPath),
{
    if is_dir {
        Ok(ScanRoot::Directory)
    } else if is_file {
        Ok(ScanRoot::File)
    } else {
        Err(SearchError::InvalidPath)
    }
}

/// Whether a file with this extension is searched: only `rs` is. A file
/// without an extension is not.
pub fn is_source_extension(extension: Option<&str>) -> (r: bool)
    ensures
        r == (extension matches Some(text) && text@ == "rs"@),
{
    match extension {
        Some(text) => String::from_str(text) == String::from_str("rs"),
        None => false,
    }
}

/// What one file adds to a search: its targets, or nothing if it failed.
pub open spec fn outcome_targets(outcome: Result<Vec<Target>, SearchError>) -> Seq<TargetView> {
    match outcome {
        Ok(targets) => targets.deep_view(),
        Err(_) => Seq::empty(),
    }
}

/// The targets of a run of files: those of the files that succeeded, in
/// the order of the files.
pub open spec fn collected(outcomes: Seq<Result<Vec<Target>, SearchError>>) -> Seq<TargetView>
    decreases outcomes.len(),
{
    if outcomes.len() == 0 {
        Seq::empty()
    } else {
        collected(outcomes.drop_last()) + outcome_targets(outcomes.last())
    }
}

/// The targets of one run of files followed by another are those of the
/// first run followed by those of the second.
pub proof fn lemma_collected_in_order(
    first: Seq<Result<Vec<Target>, SearchError>>,
    second: Seq<Result<Vec<Target>, SearchError>>,
)
    ensures
        collected(first + second) == collected(first) + collected(second),
    decreases second.len(),
{
    if second.len() == 0 {
        assert(first + second =~= first);
    } else {
        lemma_collected_in_order(first, second.drop_last());
        assert((first + second).drop_last() =~= first + second.drop_last());
    }
}

/// A file that failed changes nothing: with it or without it, the search
/// finds what the other files hold, in their order.
pub proof fn lemma_failed_file_adds_nothing(
    before: Seq<Result<Vec<Target>, SearchError>>,
    failed: Result<Vec<Target>, SearchError>,
    after: Seq<Result<Vec<Target>, SearchError>>,
)
    requires
        failed is Err,
    ensures
        collected(before.push(failed) + after) == collected(before + after),
{
    lemma_collected_in_order(before.push(failed), after);
    lemma_collected_in_order(before, after);
    assert(before.push(failed).drop_last() =~= before);
}

/// Puts together the outcomes of the files of a directory. A file that
/// could not be read or parsed adds nothing and stops nothing.
pub fn collect_targets(outcomes: Vec<Result<Vec<Target>, SearchError>>) -> (targets: Vec<Target>)
    ensures
        targets.deep_view() == collected(outcomes@),
{
    let mut targets: Vec<Target> = Vec::new();
    let ghost all = outcomes@;
    for outcome in it: outcomes
        invariant
            all == it.seq(),
            targets.deep_view() == collected(all.take(it.index() as int)),
    {
        assert(all.take(it.index() as int + 1).drop_last() =~= all.take(it.index() as int));
        match outcome {
            Ok(mut found) => {
                targets.append(&mut found);
            },
            Err(_) => {},
        }
    }
    assert(all.take(all.len() as int) =~= all);
    targets
}

} // verus!
