//! The rules of a crawl: what is walked, and which directories are pruned.

use vstd::prelude::*;
use crate::structs::EntryKind;
use crate::text::has_prefix;
use crate::text::starts_with;

verus! {

/// What a crawl does with an entry before it descends.
#[derive(Clone, Copy, Debug, PartialEq, Eq, Structural)]
pub enum Filtering {
    /// Yield the entry and, if it is a directory, walk it.
    Continue,
    /// Pass over the entry and everything below it.
    IgnoreDir,
}

/// How the entries under a root are produced.
#[derive(Clone, Copy, Debug, PartialEq, Eq, Structural)]
pub enum CrawlPlan {
    /// The root is itself a file: it is the one entry.
    Single,
    /// The root is walked.
    Walk,
}

/// Whether an entry is a hidden directory: a directory whose name begins
/// with a dot.
pub open spec fn hidden_directory(name: Option<Seq<char>>, kind: EntryKind) -> bool {
    &&& kind == EntryKind::Directory
    &&& name matches Some(n)
    &&& has_prefix(n, "."@)
}

/// Decides, before the crawl descends, whether an entry is pruned: a hidden
/// directory is, with its whole subtree, and nothing else.
pub fn crawl_filter(file_name: Option<&str>, kind: EntryKind) -> (filtering: Filtering)
    ensures
        filtering == (if hidden_directory(
            match file_name {
                Some(n) => Some(n@),
                None => None,
            },
            kind,
        ) {
            Filtering::IgnoreDir
        } else {
            Filtering::Continue
        }),
{
    match kind {
        EntryKind::Directory => match file_name {
            Some(name) => if starts_with(name, ".") {
                Filtering::IgnoreDir
            } else {
                Filtering::Continue
            },
            None => Filtering::Continue,
        },
        _ => Filtering::Continue,
    }
}

/// Decides how a root is crawled: a regular file is the single entry of its
/// crawl, anything else is walked.
pub fn plan_crawl(root: EntryKind) -> (plan: CrawlPlan)
    ensures
        plan == (if root == EntryKind::File {
            CrawlPlan::Single
        } else {
            CrawlPlan::Walk
        }),
{
    match root {
        EntryKind::File => CrawlPlan::Single,
        _ => CrawlPlan::Walk,
    }
}

} // verus!
