//! Work items, the decision whether a file needs transferring, and the
//! producer that turns a listing of the source tree into queued work.

use vstd::prelude::*;

use crate::thmod::put;
use crate::thmod::RunContext;
use crate::thmod::RunView;

verus! {

// Execution mode of a run
pub const _COPY: char = 'c';

pub const _MOVE: char = 'm';

pub const _RENAME: char = 'r';

// Disposition of one work item
pub const DO: i8 = 1;

pub const SKIP: i8 = 2;

// Transfer algorithm of a run
pub const _STD: u8 = 0;

pub const _MAXBUF: u8 = 1;

pub const _CHANNEL: u8 = 2;

pub const _TEST: u8 = 9;

/// One file-level transfer request.
#[derive(Debug, Clone)]
pub struct DD {
    pub input: String,  // source file
    pub output: String,  // destination file
    pub action: i8,  // DO, SKIP
    pub cmr_mode: char,  // copy, move, rename
    pub algorithm: u8,  // transfer algorithm
}

/// What every work item of one run has in common.
#[derive(Debug, Clone, Copy)]
pub struct EE {
    pub cmr_mode: char,  // copy, move, rename
    pub algorithm: u8,  // transfer algorithm
}

/// Size and modification time of a regular file. The time is a count of
/// whole units since the epoch of the caller's clock; two times within the
/// same unit are the same time.
#[derive(Debug, Clone, Copy)]
pub struct Meta {
    pub len: u64,
    pub modified: u128,
}

/// One entry of the source tree, in the order in which the tree is visited.
/// `target` of a file is `None` where the destination is no regular file.
#[derive(Debug, Clone)]
pub enum Entry {
    Dir { output: String },
    File { input: String, output: String, source: Meta, target: Option<Meta> },
}

/// The destination needs no transfer: it exists, has the size of the source,
/// and is as new as the source or newer.
pub open spec fn up_to_date(input: Meta, output: Option<Meta>) -> bool {
    match output {
        Some(o) => o.len == input.len && o.modified >= input.modified,
        None => false,
    }
}

/// The disposition of a pair of files.
pub open spec fn disposition(input: Meta, output: Option<Meta>) -> i8 {
    if up_to_date(input, output) {
        SKIP
    } else {
        DO
    }
}

/// Decides whether a file is transferred (`DO`) or left alone (`SKIP`).
/// Only sizes and modification times are compared, never contents.
pub fn judgment(input: &Meta, output: &Option<Meta>) -> (action: i8)
    ensures
        action == disposition(*input, *output),
        action == DO || action == SKIP,
        *output is None ==> action == DO,
        output matches Some(o) && o.len != input.len ==> action == DO,
        output matches Some(o) && o.len == input.len && o.modified >= input.modified ==> action
            == SKIP,
        output matches Some(o) && o.len == input.len && o.modified < input.modified ==> action
            == DO,
{
    match output {
        None => DO,
        Some(o) => {
            if input.len != o.len {
                DO
            } else if o.modified >= input.modified {
                SKIP
            } else {
                DO
            }
        },
    }
}

/// The work item of a file.
pub open spec fn work_item(
    input: String,
    output: String,
    source: Meta,
    target: Option<Meta>,
    ee: EE,
) -> DD {
    DD {
        input,
        output,
        action: disposition(source, target),
        cmr_mode: ee.cmr_mode,
        algorithm: ee.algorithm,
    }
}

/// Builds the work item of a file and queues it, whatever its disposition:
/// a skipped file still counts in the totals.
pub fn make_dd(
    run: &mut RunContext,
    input: String,
    output: String,
    source: &Meta,
    target: &Option<Meta>,
    ee: EE,
)
    requires
        old(run)@.sequence < i32::MAX,
        old(run)@.outstanding < i32::MAX,
    ensures
        final(run)@ == old(run)@.put(work_item(input, output, *source, *target, ee)),
{
    let action: i8 = judgment(source, target);
    let dd = DD { input, output, action, cmr_mode: ee.cmr_mode, algorithm: ee.algorithm };
    put(run, dd);
}

/// The work items of the files among `entries`, in order.
pub open spec fn walk_items(entries: Seq<Entry>, ee: EE) -> Seq<DD>
    decreases entries.len(),
{
    if entries.len() == 0 {
        Seq::empty()
    } else {
        let rest = walk_items(entries.drop_last(), ee);
        match entries.last() {
            Entry::Dir { .. } => rest,
            Entry::File { input, output, source, target } => rest.push(
                work_item(input, output, source, target, ee),
            ),
        }
    }
}

/// The destination directories among `entries`, in order.
pub open spec fn walk_dirs(entries: Seq<Entry>) -> Seq<String>
    decreases entries.len(),
{
    if entries.len() == 0 {
        Seq::empty()
    } else {
        let rest = walk_dirs(entries.drop_last());
        match entries.last() {
            Entry::Dir { output } => rest.push(output),
            Entry::File { .. } => rest,
        }
    }
}

/// Walks a listing of the source tree. Every file becomes a queued work
/// item; the destination directories to create are returned, each before any
/// directory below it as long as the listing names parents first.
pub fn search_fils(run: &mut RunContext, entries: &Vec<Entry>, ee: EE) -> (dirs: Vec<String>)
    requires
        old(run)@.sequence + walk_items(entries@, ee).len() <= i32::MAX,
        old(run)@.outstanding + walk_items(entries@, ee).len() <= i32::MAX,
    ensures
        final(run)@ == old(run)@.put_all(walk_items(entries@, ee)),
        dirs@ == walk_dirs(entries@),
{
    let mut dirs: Vec<String> = Vec::new();
    let mut i: usize = 0;
    assert(entries@.take(0) =~= Seq::<Entry>::empty());
    while i < entries.len()
        invariant
            i <= entries.len(),
            run@ == old(run)@.put_all(walk_items(entries@.take(i as int), ee)),
            dirs@ == walk_dirs(entries@.take(i as int)),
            old(run)@.sequence + walk_items(entries@, ee).len() <= i32::MAX,
            old(run)@.outstanding + walk_items(entries@, ee).len() <= i32::MAX,
        decreases entries.len() - i,
    {
        proof {
            lemma_walk_prefix(entries@, ee, i as int + 1);
            assert(entries@.take(i as int + 1).drop_last() =~= entries@.take(i as int));
            RunView::lemma_put_all_counts(old(run)@, walk_items(entries@.take(i as int), ee));
        }
        match &entries[i] {
            Entry::Dir { output } => {
                dirs.push(output.clone());
            },
            Entry::File { input, output, source, target } => {
                make_dd(run, input.clone(), output.clone(), source, target, ee);
                proof {
                    let before = walk_items(entries@.take(i as int), ee);
                    let item = work_item(*input, *output, *source, *target, ee);
                    assert(before.push(item).drop_last() =~= before);
                }
            },
        }
        i = i + 1;
    }
    assert(entries@.take(i as int) =~= entries@);
    dirs
}

/// A prefix of a listing yields no more work items than the whole listing.
pub proof fn lemma_walk_prefix(entries: Seq<Entry>, ee: EE, n: int)
    requires
        0 <= n <= entries.len(),
    ensures
        walk_items(entries.take(n), ee).len() <= walk_items(entries, ee).len(),
    decreases entries.len(),
{
    if n < entries.len() {
        lemma_walk_prefix(entries.drop_last(), ee, n);
        assert(entries.drop_last().take(n) =~= entries.take(n));
    } else {
        assert(entries.take(n) =~= entries);
    }
}

} // verus!
