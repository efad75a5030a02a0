//! The shared work queue, the counters of one run, and the lines that
//! report its progress.
//!
//! A run owns one queue, first-in-first-out or last-in-first-out as chosen
//! when the run is set up, and three counters: how many items were ever
//! queued, how many of them are not processed yet, and whether the producer
//! has finished. Whatever changes a run takes it by exclusive borrow, so
//! queueing and dequeueing never overlap; callers that share a run between
//! threads keep it behind a lock.

use std::collections::VecDeque;
use vstd::prelude::*;
use vstd::string::*;
use vstd::utf8::encode_utf8;

use crate::atomic::atomic_add;
use crate::atomic::atomic_bool_get;
use crate::atomic::atomic_bool_set;
use crate::atomic::atomic_get;
use crate::atomic::AtomicInt;
use crate::files::DD;
use crate::iomod::cyan;
use crate::iomod::painted;
use crate::iomod::path_to_unix;
use crate::iomod::unix_form;
use crate::iomod::CYAN;
use crate::pattern::has_head;
use crate::pattern::head_len;
use crate::pattern::head_replaced;
use crate::pattern::lemma_ellipsis;
use crate::pattern::lemma_head_len_bound;
use crate::pattern::lemma_head_len_concat;
use crate::pattern::Patterns;
use crate::pattern::ELLIPSIS;
use crate::text::decimal;
use crate::text::decimal_text;
use crate::text::digits;
use crate::text::lemma_digits_len;
use crate::text::padded;
use crate::text::zero_padded;

verus! {

/// The queue and the counters of one run.
#[derive(Debug)]
pub struct RunContext {
    fifo: bool,
    queue: VecDeque<DD>,  // holds the items of a first-in-first-out run
    stack: Vec<DD>,  // holds the items of a last-in-first-out run
    seq_no: AtomicInt,  // items ever queued
    req_no: AtomicInt,  // items queued and not yet processed
    is_eof: AtomicInt,  // the producer has finished
}

/// What a run is, mathematically.
pub struct RunView {
    /// First in, first out; otherwise last in, first out.
    pub fifo: bool,
    /// The waiting items, oldest first.
    pub items: Seq<DD>,
    /// How many items were ever queued.
    pub sequence: int,
    /// How many items were queued and are not yet processed.
    pub outstanding: int,
    /// The producer has finished: nothing more will be queued.
    pub closed: bool,
}

impl RunView {
    /// A run before anything was queued.
    pub open spec fn fresh(fifo: bool) -> RunView {
        RunView { fifo, items: Seq::empty(), sequence: 0, outstanding: 0, closed: false }
    }

    /// The run after `dd` was queued.
    pub open spec fn put(self, dd: DD) -> RunView {
        RunView {
            items: self.items.push(dd),
            sequence: self.sequence + 1,
            outstanding: self.outstanding + 1,
            ..self
        }
    }

    /// The run after each of `dds` was queued, in order.
    pub open spec fn put_all(self, dds: Seq<DD>) -> RunView
        decreases dds.len(),
    {
        if dds.len() == 0 {
            self
        } else {
            self.put_all(dds.drop_last()).put(dds.last())
        }
    }

    /// The item that the next dequeue hands out, if any.
    pub open spec fn head(self) -> Option<DD> {
        if self.items.len() == 0 {
            None
        } else if self.fifo {
            Some(self.items.first())
        } else {
            Some(self.items.last())
        }
    }

    /// The run after a dequeue.
    pub open spec fn pop(self) -> RunView {
        if self.items.len() == 0 {
            self
        } else if self.fifo {
            RunView { items: self.items.drop_first(), ..self }
        } else {
            RunView { items: self.items.drop_last(), ..self }
        }
    }

    /// The run after one dequeued item was processed.
    pub open spec fn complete(self) -> RunView {
        RunView { outstanding: self.outstanding - 1, ..self }
    }

    /// The run after the producer has finished.
    pub open spec fn close(self) -> RunView {
        RunView { closed: true, ..self }
    }

    /// The run is complete: the producer has finished and nothing is
    /// outstanding.
    pub open spec fn done(self) -> bool {
        self.closed && self.outstanding <= 0
    }

    /// Queueing several items appends them in order and counts each once.
    pub proof fn lemma_put_all_counts(self, dds: Seq<DD>)
        ensures
            self.put_all(dds).items == self.items + dds,
            self.put_all(dds).sequence == self.sequence + dds.len(),
            self.put_all(dds).outstanding == self.outstanding + dds.len(),
            self.put_all(dds).fifo == self.fifo,
            self.put_all(dds).closed == self.closed,
        decreases dds.len(),
    {
        if dds.len() == 0 {
            assert(self.items + dds =~= self.items);
        } else {
            self.lemma_put_all_counts(dds.drop_last());
            assert((self.items + dds.drop_last()).push(dds.last()) =~= self.items + dds);
        }
    }
}

/// One operation on a run, as it appears in the history of the run.
pub enum Op {
    /// An item is queued.
    Put(DD),
    /// A worker asks for an item.
    Get,
    /// A worker has processed an item that it was handed.
    Complete,
    /// The producer finishes.
    Close,
}

impl RunView {
    /// The run after one operation.
    pub open spec fn step(self, op: Op) -> RunView {
        match op {
            Op::Put(dd) => self.put(dd),
            Op::Get => self.pop(),
            Op::Complete => self.complete(),
            Op::Close => self.close(),
        }
    }

    /// The run after a history of operations, whoever issued them and
    /// however the issuers took turns.
    pub open spec fn after(self, ops: Seq<Op>) -> RunView
        decreases ops.len(),
    {
        if ops.len() == 0 {
            self
        } else {
            self.after(ops.drop_last()).step(ops.last())
        }
    }

    /// How many items a history handed out without their having been
    /// reported as processed. Negative where more were reported than handed
    /// out.
    pub open spec fn in_flight(self, ops: Seq<Op>) -> int
        decreases ops.len(),
    {
        if ops.len() == 0 {
            0
        } else {
            let before = self.in_flight(ops.drop_last());
            match ops.last() {
                Op::Get => if self.after(ops.drop_last()).head() is Some {
                    before + 1
                } else {
                    before
                },
                Op::Complete => before - 1,
                _ => before,
            }
        }
    }

    /// What `n` dequeues in a row hand out, in order.
    pub open spec fn handed_out(self, n: nat) -> Seq<DD>
        decreases n,
    {
        if n == 0 {
            Seq::empty()
        } else {
            match self.head() {
                Some(dd) => seq![dd] + self.pop().handed_out((n - 1) as nat),
                None => Seq::empty(),
            }
        }
    }
}

/// How many items a history queues.
pub open spec fn puts(ops: Seq<Op>) -> int
    decreases ops.len(),
{
    if ops.len() == 0 {
        0
    } else {
        puts(ops.drop_last()) + if ops.last() is Put {
            1int
        } else {
            0int
        }
    }
}

/// How many processed items a history reports.
pub open spec fn completions(ops: Seq<Op>) -> int
    decreases ops.len(),
{
    if ops.len() == 0 {
        0
    } else {
        completions(ops.drop_last()) + if ops.last() is Complete {
            1int
        } else {
            0int
        }
    }
}

/// After any history of operations the outstanding count has grown by the
/// number of items queued less the number reported as processed, and the
/// sequence number by the number of items queued. The order of the queue and
/// a finished producer stay as they are.
pub proof fn law_counters(start: RunView, ops: Seq<Op>)
    ensures
        start.after(ops).outstanding == start.outstanding + puts(ops) - completions(ops),
        start.after(ops).sequence == start.sequence + puts(ops),
        start.after(ops).sequence >= start.sequence,
        start.after(ops).fifo == start.fifo,
        start.closed ==> start.after(ops).closed,
    decreases ops.len(),
{
    if ops.len() > 0 {
        law_counters(start, ops.drop_last());
    }
}

/// On a fresh run the outstanding count is the number of items queued less
/// the number reported as processed.
pub proof fn law_outstanding_from_fresh(fifo: bool, ops: Seq<Op>)
    ensures
        RunView::fresh(fifo).after(ops).outstanding == puts(ops) - completions(ops),
        RunView::fresh(fifo).after(ops).sequence == puts(ops),
{
    law_counters(RunView::fresh(fifo), ops);
}

/// The outstanding count of a fresh run is the number of waiting items plus
/// the number of items in flight. So it is negative only where more items
/// were reported as processed than were handed out.
pub proof fn law_outstanding_accounts(fifo: bool, ops: Seq<Op>)
    ensures
        RunView::fresh(fifo).after(ops).outstanding == RunView::fresh(fifo).after(ops).items.len()
            + RunView::fresh(fifo).in_flight(ops),
        RunView::fresh(fifo).in_flight(ops) >= 0 ==> RunView::fresh(fifo).after(ops).outstanding
            >= 0,
    decreases ops.len(),
{
    if ops.len() > 0 {
        law_outstanding_accounts(fifo, ops.drop_last());
    }
}

/// A run is complete exactly when the producer has finished and as many
/// items were reported as processed as were queued, or more.
pub proof fn law_completion(fifo: bool, ops: Seq<Op>)
    ensures
        RunView::fresh(fifo).after(ops).done() <==> RunView::fresh(fifo).after(ops).closed
            && puts(ops) <= completions(ops),
{
    law_counters(RunView::fresh(fifo), ops);
}

/// A complete run stays complete as long as nothing more is queued: whoever
/// waits for completion cannot miss it.
pub proof fn law_done_is_stable(start: RunView, ops: Seq<Op>)
    requires
        start.done(),
        puts(ops) == 0,
    ensures
        start.after(ops).done(),
    decreases ops.len(),
{
    law_counters(start, ops);
    lemma_completions_nonnegative(ops);
}

/// A history reports no negative number of processed items.
pub proof fn lemma_completions_nonnegative(ops: Seq<Op>)
    ensures
        completions(ops) >= 0,
        puts(ops) >= 0,
    decreases ops.len(),
{
    if ops.len() > 0 {
        lemma_completions_nonnegative(ops.drop_last());
    }
}

// What a first-in-first-out run hands out is a prefix of what waits.
proof fn lemma_fifo_prefix(s: RunView, n: nat)
    requires
        s.fifo,
        n <= s.items.len(),
    ensures
        s.handed_out(n) == s.items.take(n as int),
        s.handed_out(n).len() == n,
    decreases n,
{
    if n > 0 {
        lemma_fifo_prefix(s.pop(), (n - 1) as nat);
        assert(seq![s.items.first()] + s.items.drop_first().take(n - 1) =~= s.items.take(
            n as int,
        ));
    } else {
        assert(s.items.take(0) =~= Seq::<DD>::empty());
    }
}

// What a last-in-first-out run hands out is a prefix of what waits, read
// backwards.
proof fn lemma_lifo_prefix(s: RunView, n: nat)
    requires
        !s.fifo,
        n <= s.items.len(),
    ensures
        s.handed_out(n) == s.items.reverse().take(n as int),
        s.handed_out(n).len() == n,
    decreases n,
{
    if n > 0 {
        lemma_lifo_prefix(s.pop(), (n - 1) as nat);
        assert(seq![s.items.last()] + s.items.drop_last().reverse().take(n - 1)
            =~= s.items.reverse().take(n as int));
    } else {
        assert(s.items.reverse().take(0) =~= Seq::<DD>::empty());
    }
}

/// Items queued on an empty first-in-first-out run come out in the order in
/// which they went in.
pub proof fn law_fifo_order(start: RunView, dds: Seq<DD>)
    requires
        start.fifo,
        start.items.len() == 0,
    ensures
        start.put_all(dds).handed_out(dds.len()) == dds,
{
    start.lemma_put_all_counts(dds);
    lemma_fifo_prefix(start.put_all(dds), dds.len());
    assert((start.items + dds).take(dds.len() as int) =~= dds);
}

/// Items queued on a last-in-first-out run come out in the reverse of the
/// order in which they went in, whatever waited before.
pub proof fn law_lifo_order(start: RunView, dds: Seq<DD>)
    requires
        !start.fifo,
    ensures
        start.put_all(dds).handed_out(dds.len()) == dds.reverse(),
{
    start.lemma_put_all_counts(dds);
    lemma_lifo_prefix(start.put_all(dds), dds.len());
    assert((start.items + dds).reverse().take(dds.len() as int) =~= dds.reverse());
}

/// An item that was handed out waits no longer: the queue is shorter by
/// that one item, so no later dequeue hands it out again.
pub proof fn law_handed_out_once(s: RunView)
    requires
        s.head() is Some,
    ensures
        s.pop().items.len() == s.items.len() - 1,
        s.fifo ==> s.items == seq![s.head().unwrap()] + s.pop().items,
        !s.fifo ==> s.items == s.pop().items.push(s.head().unwrap()),
{
    if s.fifo {
        assert(s.items =~= seq![s.items.first()] + s.items.drop_first());
    } else {
        assert(s.items =~= s.items.drop_last().push(s.items.last()));
    }
}

impl View for RunContext {
    type V = RunView;

    closed spec fn view(&self) -> RunView {
        RunView {
            fifo: self.fifo,
            items: if self.fifo {
                self.queue@
            } else {
                self.stack@
            },
            sequence: self.seq_no@,
            outstanding: self.req_no@,
            closed: self.is_eof.flag(),
        }
    }
}

/// `VecDeque::try_reserve_exact`: asks for room for `additional` more
/// items. What the queue holds stays as it is, whether the room was had or
/// not.
#[verifier::external_body]
fn make_room(queue: &mut VecDeque<DD>, additional: usize)
    ensures
        final(queue)@ == old(queue)@,
{
    let _ = queue.try_reserve_exact(additional);
}

/// Sets up a run. `capacity` is how many items to make room for in advance;
/// it bounds nothing, and a run that cannot have the room starts without.
pub fn initialize(fifo: bool, capacity: usize) -> (run: RunContext)
    ensures
        run@ == RunView::fresh(fifo),
{
    let mut queue: VecDeque<DD> = VecDeque::new();
    let mut stack: Vec<DD> = Vec::new();
    if fifo {
        make_room(&mut queue, capacity);
    } else {
        let _ = stack.try_reserve(capacity);
    }
    RunContext {
        fifo,
        queue,
        stack,
        seq_no: AtomicInt::new(0),
        req_no: AtomicInt::new(0),
        is_eof: AtomicInt::new(0),
    }
}

// Appends at the tail of a queue, on top of a stack.
fn push(run: &mut RunContext, dd: DD)
    ensures
        final(run)@ == (RunView { items: old(run)@.items.push(dd), ..old(run)@ }),
{
    if run.fifo {
        run.queue.push_back(dd)
    } else {
        run.stack.push(dd)
    }
}

// Removes from the front of a queue, from the top of a stack.
fn pop(run: &mut RunContext) -> (item: Option<DD>)
    ensures
        item == old(run)@.head(),
        final(run)@ == old(run)@.pop(),
{
    if run.fifo {
        let item = run.queue.pop_front();
        assert(run.queue@ =~= old(run).queue@.drop_first() || old(run).queue@.len() == 0);
        item
    } else {
        let item = run.stack.pop();
        assert(run.stack@ =~= old(run).stack@.drop_last() || old(run).stack@.len() == 0);
        item
    }
}

/// Dequeues the next item, or returns `None` where nothing waits. An item
/// handed out is gone from the queue: nobody gets it a second time.
pub fn get(run: &mut RunContext) -> (item: Option<DD>)
    ensures
        item == old(run)@.head(),
        final(run)@ == old(run)@.pop(),
{
    pop(run)
}

/// Queues an item and counts it, once as queued and once as outstanding.
pub fn put(run: &mut RunContext, dd: DD)
    requires
        old(run)@.sequence < i32::MAX,
        old(run)@.outstanding < i32::MAX,
    ensures
        final(run)@ == old(run)@.put(dd),
{
    proof {
        run.seq_no.lemma_in_range();
        run.req_no.lemma_in_range();
    }
    atomic_add(&mut run.seq_no, 1);
    atomic_add(&mut run.req_no, 1);
    push(run, dd);
}

/// The run is complete: the producer has finished and nothing is
/// outstanding.
pub fn is_done(run: &RunContext) -> (done: bool)
    ensures
        done == run@.done(),
{
    let eof: bool = atomic_bool_get(&run.is_eof);
    let req: i32 = atomic_get(&run.req_no);
    eof && req <= 0
}

/// How many items were ever queued.
pub fn sequence_number(run: &RunContext) -> (n: i32)
    ensures
        n == run@.sequence,
{
    atomic_get(&run.seq_no)
}

/// How many items were queued and are not yet processed.
pub fn outstanding_count(run: &RunContext) -> (n: i32)
    ensures
        n == run@.outstanding,
{
    atomic_get(&run.req_no)
}

/// Marks that the producer has finished. There is no way back.
pub fn terminator(run: &mut RunContext)
    ensures
        final(run)@ == old(run)@.close(),
{
    atomic_bool_set(&mut run.is_eof, true);
}

/// How many bytes a shown path may take before it is abbreviated.
pub const PATH_WIDTH: usize = 64;

/// What ends a line of progress: it erases the rest of the line and moves
/// the cursor up again, so that the next line of progress overwrites it.
pub const ERASE_AND_UP: &'static str = "\x1b[K\x1b[1A";

/// How many bytes a text takes.
pub open spec fn byte_len(text: Seq<char>) -> nat {
    encode_utf8(text).len()
}

/// How much of a text lies behind its first segment: what collapsing
/// segments uses up.
pub open spec fn slack(text: Seq<char>) -> int {
    text.len() - head_len(text)
}

/// Collapsing the first segment of a text leaves less behind the first
/// segment.
pub proof fn lemma_collapse_shrinks(text: Seq<char>)
    requires
        has_head(text),
    ensures
        0 <= slack(head_replaced(text, ELLIPSIS@)) < slack(text),
{
    let rest = text.skip(head_len(text) as int + 1);
    lemma_ellipsis();
    lemma_head_len_concat(ELLIPSIS@, rest);
    lemma_head_len_bound(rest);
}

/// A path abbreviated for display: as long as it takes more than
/// `PATH_WIDTH` bytes and begins with a segment, its first segment is
/// collapsed into an ellipsis.
pub open spec fn packed(text: Seq<char>) -> Seq<char>
    decreases slack(text),
{
    if byte_len(text) > PATH_WIDTH && has_head(text) {
        proof {
            lemma_collapse_shrinks(text);
        }
        packed(head_replaced(text, ELLIPSIS@))
    } else {
        text
    }
}

/// An abbreviated path fits the width, or has no segment left to collapse;
/// a path that fits, or has no segment, stays as it is. So abbreviating
/// twice changes nothing more.
pub proof fn law_packed_fits(text: Seq<char>)
    ensures
        byte_len(packed(text)) <= PATH_WIDTH || !has_head(packed(text)),
        byte_len(text) <= PATH_WIDTH ==> packed(text) == text,
        !has_head(text) ==> packed(text) == text,
        packed(packed(text)) == packed(text),
    decreases slack(text),
{
    if byte_len(text) > PATH_WIDTH && has_head(text) {
        lemma_collapse_shrinks(text);
        law_packed_fits(head_replaced(text, ELLIPSIS@));
    }
}

/// Abbreviates a path for display, after turning every `\` into `/`.
pub fn pack_path(patterns: &Patterns, path: &str) -> (rs: String)
    ensures
        rs@ == packed(unix_form(path@)),
{
    broadcast use vstd::slice::group_slice_axioms;

    let mut rs = path_to_unix(path);
    while rs.as_str().as_bytes().len() > PATH_WIDTH && patterns.begins_with_segment(rs.as_str())
        invariant
            packed(rs@) == packed(unix_form(path@)),
        decreases slack(rs@),
    {
        proof {
            lemma_collapse_shrinks(rs@);
        }
        rs = patterns.collapse_segment(rs.as_str());
    }
    rs
}

/// The time since the start of a run as it is shown: hours, minutes and
/// seconds, and after the point the first three digits of the whole time in
/// nanoseconds, written with nine digits at least. Of a time under one
/// second these are its milliseconds.
pub open spec fn clock_form(secs: u64, nanos: u32) -> Seq<char> {
    digits((secs / 3600) as nat) + seq![':'] + digits((secs % 3600 / 60) as nat) + seq![':']
        + padded(digits((secs % 3600 % 60) as nat), 2) + seq!['.'] + padded(
        digits((secs * 1_000_000_000 + nanos) as nat),
        9,
    ).take(3)
}

/// The time since the start of a run as it is shown; nothing where the
/// clock stands before the start.
pub open spec fn elapsed_form(epoch: Option<(u64, u32)>) -> Seq<char> {
    match epoch {
        Some((secs, nanos)) => clock_form(secs, nanos),
        None => Seq::empty(),
    }
}

/// Renders the time since the start of a run, given in whole seconds and
/// the nanoseconds beyond them, or as `None` where the clock stands before
/// the start.
pub fn elapsed_time(epoch: Option<(u64, u32)>) -> (s: String)
    ensures
        s@ == elapsed_form(epoch),
{
    match epoch {
        Some((secs, nanos)) => {
            let hou: u64 = secs / 3600_u64;
            let tmp: u64 = secs % 3600_u64;
            let min: u64 = tmp / 60_u64;
            let sec: u64 = tmp % 60_u64;
            let all: u128 = secs as u128 * 1_000_000_000 + nanos as u128;
            let nine = zero_padded(decimal_text(all as i128).as_str(), 9);
            proof {
                lemma_digits_len(all as nat);
                reveal_strlit(":");
                reveal_strlit(".");
                assert(":"@ =~= seq![':']);
                assert("."@ =~= seq!['.']);
            }
            let mil = nine.as_str().substring_char(0, 3);
            assert(mil@ =~= nine@.take(3));
            let mut s = decimal_text(hou as i128);
            s.append(":");
            s.append(decimal_text(min as i128).as_str());
            s.append(":");
            s.append(zero_padded(decimal_text(sec as i128).as_str(), 2).as_str());
            s.append(".");
            s.append(mil);
            s
        },
        None => String::new(),
    }
}

/// The counts of a line of progress: the time, then how many items are
/// outstanding of how many queued.
pub open spec fn counts_form(ela: Seq<char>, req: int, seq: int) -> Seq<char> {
    ela + seq![' '] + decimal(req) + seq!['/'] + decimal(seq)
}

/// A line of progress: the counts in cyan, then what the line is about.
pub open spec fn line_form(ela: Seq<char>, req: int, seq: int, about: Seq<char>) -> Seq<char> {
    painted(CYAN@, counts_form(ela, req, seq)) + seq![':', ' '] + about
}

// The counts in cyan, and the colon after them.
fn line_start(epoch: Option<(u64, u32)>, req: i32, seq: i32) -> (s: String)
    ensures
        s@ == line_form(elapsed_form(epoch), req as int, seq as int, Seq::empty()),
{
    let mut counts = elapsed_time(epoch);
    proof {
        reveal_strlit(" ");
        reveal_strlit("/");
        reveal_strlit(": ");
        assert(" "@ =~= seq![' ']);
        assert("/"@ =~= seq!['/']);
        assert(": "@ =~= seq![':', ' ']);
    }
    counts.append(" ");
    counts.append(decimal_text(req as i128).as_str());
    counts.append("/");
    counts.append(decimal_text(seq as i128).as_str());
    let mut s = cyan(counts.as_str());
    s.append(": ");
    assert(s@ =~= line_form(elapsed_form(epoch), req as int, seq as int, Seq::empty()));
    s
}

/// Reports that a worker has processed an item, or skipped it: the item
/// is outstanding no longer. Returns the line to show: the time since the
/// start, how many items are still outstanding of how many queued, and the
/// abbreviated path of the item.
pub fn progress(
    run: &mut RunContext,
    patterns: &Patterns,
    epoch: Option<(u64, u32)>,
    input: &str,
) -> (line: String)
    requires
        old(run)@.outstanding > i32::MIN,
    ensures
        final(run)@ == old(run)@.complete(),
        line@ == line_form(
            elapsed_form(epoch),
            old(run)@.outstanding - 1,
            old(run)@.sequence,
            packed(unix_form(input@)) + ERASE_AND_UP@,
        ),
{
    proof {
        run.req_no.lemma_in_range();
    }
    let seq: i32 = atomic_get(&run.seq_no);
    let req: i32 = atomic_add(&mut run.req_no, -1);
    let mut line = line_start(epoch, req, seq);
    let pack: String = pack_path(patterns, input);
    line.append(pack.as_str());
    line.append(ERASE_AND_UP);
    assert(line@ =~= line_form(
        elapsed_form(epoch),
        req as int,
        seq as int,
        packed(unix_form(input@)) + ERASE_AND_UP@,
    ));
    line
}

/// The closing line of a run: the time since the start, how many items
/// are outstanding of how many queued, and a message.
pub fn progress_fin(run: &RunContext, epoch: Option<(u64, u32)>, message: &str) -> (line: String)
    ensures
        line@ == line_form(
            elapsed_form(epoch),
            run@.outstanding,
            run@.sequence,
            message@,
        ),
{
    let seq: i32 = atomic_get(&run.seq_no);
    let req: i32 = atomic_get(&run.req_no);
    let mut line = line_start(epoch, req, seq);
    line.append(message);
    assert(line@ =~= line_form(elapsed_form(epoch), req as int, seq as int, message@));
    line
}

} // verus!
