//! The worker pool: what a worker does next, how long an idle worker
//! sleeps, and what processing one work item consists of.
//!
//! The functions here decide; the caller sleeps, moves the bytes and comes
//! back for the next decision.

use vstd::prelude::*;

use crate::atomic::atomic_get;
use crate::atomic::atomic_set;
use crate::atomic::AtomicInt;
use crate::files::DD;
use crate::files::SKIP;
use crate::files::_COPY;
use crate::files::_MAXBUF;
use crate::files::_RENAME;
use crate::files::_STD;
use crate::files::_TEST;
use crate::thmod::get;
use crate::thmod::is_done;
use crate::thmod::RunContext;

verus! {

/// An idle streak of more than this many polls makes the sleep grow.
pub const IDLE_STEPS: i32 = 10;

/// An idle streak beyond this length starts over.
pub const IDLE_RESET: i32 = 10_000;

/// The sleep of a worker whose idle streak is still short, in microseconds.
pub const SHORT_DELAY: i32 = 1_000;

/// The longest sleep, in microseconds.
pub const MAX_DELAY: i32 = 10_000;

/// The configuration of a pool.
#[derive(Debug)]
pub struct Daemon {
    threads: AtomicInt,
}

impl Daemon {
    /// A pool without workers.
    pub fn new() -> (d: Daemon)
        ensures
            d.threads() == 0,
    {
        Daemon { threads: AtomicInt::new(0) }
    }

    /// The configured number of workers.
    pub closed spec fn threads(&self) -> int {
        self.threads@
    }

    /// How many workers the pool starts: none where the configured number is
    /// not positive.
    pub open spec fn workers(&self) -> nat {
        if self.threads() > 0 {
            self.threads() as nat
        } else {
            0
        }
    }
}

/// Configures the number of workers.
pub fn set_threads(d: &mut Daemon, threads: i32)
    ensures
        final(d).threads() == threads,
{
    atomic_set(&mut d.threads, threads);
}

/// The idle state of one worker, mathematically.
pub struct Nap {
    /// How many polls in a row found nothing.
    pub idle: int,
    /// The last sleep, in microseconds.
    pub delay: int,
}

impl Nap {
    /// The state of a worker that has just found work.
    pub open spec fn rested() -> Nap {
        Nap { idle: 0, delay: 1 }
    }

    /// The state after one more poll that found nothing. `delay` is then how
    /// long the worker sleeps.
    pub open spec fn next(self) -> Nap {
        let idle = if self.idle > IDLE_RESET {
            0
        } else {
            self.idle
        };
        if idle > IDLE_STEPS {
            Nap {
                idle,
                delay: if self.delay * 2 < MAX_DELAY {
                    self.delay * 2
                } else {
                    MAX_DELAY as int
                },
            }
        } else {
            Nap { idle: idle + 1, delay: SHORT_DELAY as int }
        }
    }

    /// The state after `n` polls in a row that found nothing.
    pub open spec fn after(self, n: nat) -> Nap
        decreases n,
    {
        if n == 0 {
            self
        } else {
            self.after((n - 1) as nat).next()
        }
    }
}

/// The idle state of one worker. Every worker has its own.
#[derive(Debug)]
pub struct Sleeper {
    idle: i32,
    delay: i32,
}

impl View for Sleeper {
    type V = Nap;

    closed spec fn view(&self) -> Nap {
        Nap { idle: self.idle as int, delay: self.delay as int }
    }
}

impl Sleeper {
    #[verifier::type_invariant]
    spec fn bounded(self) -> bool {
        0 <= self.delay <= MAX_DELAY
    }

    /// The idle state of a worker that starts.
    pub fn new() -> (s: Sleeper)
        ensures
            s@ == Nap::rested(),
    {
        Sleeper { idle: 0, delay: 1 }
    }
}

/// Ends an idle streak: the worker has found work.
pub fn reset_sleep(s: &mut Sleeper)
    ensures
        final(s)@ == Nap::rested(),
{
    *s = Sleeper { idle: 0, delay: 1 };
}

/// Records one more poll that found nothing and returns how long the worker
/// is to sleep, in microseconds. A short idle streak sleeps a fixed short
/// time; a longer one doubles the sleep each time, up to the longest sleep.
pub fn sleep(s: &mut Sleeper) -> (micros: u64)
    ensures
        final(s)@ == old(s)@.next(),
        micros == final(s)@.delay,
        micros <= MAX_DELAY,
{
    proof {
        use_type_invariant(&*s);
    }
    let mut idle: i32 = s.idle;
    let mut delay: i32 = s.delay;
    if idle > IDLE_RESET {
        idle = 0;
    }
    if idle > IDLE_STEPS {
        delay = if delay * 2 < MAX_DELAY {
            delay * 2
        } else {
            MAX_DELAY
        };
    } else {
        idle += 1;
        delay = SHORT_DELAY;
    }
    s.idle = idle;
    s.delay = delay;
    delay as u64
}

/// A worker that keeps finding nothing sleeps the short time eleven times,
/// then twice, four times and eight times as long, and from then on the
/// longest time; its idle streak stops counting at eleven.
pub proof fn law_backoff_schedule(n: nat)
    requires
        n >= 1,
    ensures
        Nap::rested().after(n).idle == if n <= 11 {
            n as int
        } else {
            11
        },
        n <= 11 ==> Nap::rested().after(n).delay == 1_000,
        n == 12 ==> Nap::rested().after(n).delay == 2_000,
        n == 13 ==> Nap::rested().after(n).delay == 4_000,
        n == 14 ==> Nap::rested().after(n).delay == 8_000,
        n >= 15 ==> Nap::rested().after(n).delay == 10_000,
    decreases n,
{
    if n > 1 {
        law_backoff_schedule((n - 1) as nat);
    } else {
        assert(Nap::rested().after(0) == Nap::rested());
    }
}

/// No sleep is longer than the longest sleep, and a sleep that starts within
/// bounds stays within bounds.
pub proof fn law_backoff_capped(nap: Nap)
    ensures
        nap.next().delay <= MAX_DELAY,
        0 <= nap.delay ==> 0 <= nap.next().delay,
{
}

/// What a worker does after a poll.
#[derive(Debug)]
pub enum Step {
    /// Process this item, then poll again.
    Execute(DD),
    /// Nothing waits, but the run goes on: sleep this many microseconds,
    /// then poll again.
    BackOff(u64),
    /// The run is complete: stop.
    Terminate,
}

/// The state of the pool when it starts: one idle state for each worker.
pub fn spawnx(d: &Daemon) -> (pool: Vec<Sleeper>)
    ensures
        pool@.len() == d.workers(),
        forall|i: int| 0 <= i < pool@.len() ==> (#[trigger] pool@[i])@ == Nap::rested(),
{
    let threads: i32 = atomic_get(&d.threads);
    let mut pool: Vec<Sleeper> = Vec::new();
    let mut i: i32 = 0;
    while i < threads
        invariant
            threads == d.threads(),
            0 <= i,
            i <= threads || threads < 0,
            threads < 0 ==> i == 0,
            pool@.len() == i,
            forall|k: int| 0 <= k < pool@.len() ==> (#[trigger] pool@[k])@ == Nap::rested(),
        decreases threads - i,
    {
        pool.push(Sleeper::new());
        i = i + 1;
    }
    pool
}

/// One poll of a worker. An item that waits is handed out. Where none
/// waits, the worker stops if the run is complete, and otherwise sleeps, the
/// longer the more often it has found nothing.
pub fn poll(run: &mut RunContext, s: &mut Sleeper) -> (step: Step)
    ensures
        final(run)@ == old(run)@.pop(),
        match old(run)@.head() {
            Some(dd) => step == Step::Execute(dd) && final(s)@ == old(s)@,
            None => if old(run)@.done() {
                step == Step::Terminate && final(s)@ == old(s)@
            } else {
                step == Step::BackOff(old(s)@.next().delay as u64) && final(s)@ == old(s)@.next()
            },
        },
{
    match get(run) {
        Some(x) => Step::Execute(x),
        None => {
            if is_done(run) {
                Step::Terminate
            } else {
                Step::BackOff(sleep(s))
            }
        },
    }
}

/// One round of waiting for the run to complete: `None` as soon as the run
/// is complete, and otherwise how many microseconds to sleep before asking
/// again.
pub fn waiting_for_completion(run: &RunContext, s: &mut Sleeper) -> (wait: Option<u64>)
    ensures
        wait is None <==> run@.done(),
        run@.done() ==> final(s)@ == old(s)@,
        !run@.done() ==> wait == Some(old(s)@.next().delay as u64) && final(s)@ == old(s)@.next(),
{
    if is_done(run) {
        None
    } else {
        Some(sleep(s))
    }
}

/// How the bytes of one work item get to the destination.
#[derive(Debug, Clone, Copy, PartialEq, Eq, Structural)]
pub enum Transfer {
    /// Not at all: the destination is up to date.
    Skip,
    /// By renaming the file; no byte is copied.
    Rename,
    /// By one whole-file copy.
    Simple,
    /// By reading and writing through one buffer.
    FixedBuffer,
    /// By one whole-file copy whose failure is ignored.
    Trial,
    /// By a reader and a writer joined by a bounded channel.
    Pipelined,
}

/// What processing one work item consists of.
#[derive(Debug, Clone, Copy)]
pub struct Plan {
    pub transfer: Transfer,
    /// The source file is removed once the transfer has succeeded.
    pub remove_source: bool,
}

/// How the bytes of a work item get to the destination. A skipped item
/// moves nothing; renaming takes precedence over every algorithm; an
/// algorithm that is none of the others is the pipelined one.
pub open spec fn transfer_of(dd: DD) -> Transfer {
    if dd.action == SKIP {
        Transfer::Skip
    } else if dd.cmr_mode == _RENAME {
        Transfer::Rename
    } else if dd.algorithm == _STD {
        Transfer::Simple
    } else if dd.algorithm == _MAXBUF {
        Transfer::FixedBuffer
    } else if dd.algorithm == _TEST {
        Transfer::Trial
    } else {
        Transfer::Pipelined
    }
}

/// What processing a work item consists of. A skipped item is left alone
/// altogether; of any other the source is removed unless the run copies.
pub open spec fn plan_of(dd: DD) -> Plan {
    Plan { transfer: transfer_of(dd), remove_source: dd.action != SKIP && dd.cmr_mode != _COPY }
}

/// Starts processing a work item: the worker's idle streak ends, and the
/// caller learns what to do with the item.
pub fn task(dd: &DD, s: &mut Sleeper) -> (plan: Plan)
    ensures
        plan == plan_of(*dd),
        final(s)@ == Nap::rested(),
{
    reset_sleep(s);
    let transfer = if dd.action == SKIP {
        Transfer::Skip
    } else if dd.cmr_mode == _RENAME {
        Transfer::Rename
    } else if dd.algorithm == _STD {
        Transfer::Simple
    } else if dd.algorithm == _MAXBUF {
        Transfer::FixedBuffer
    } else if dd.algorithm == _TEST {
        Transfer::Trial
    } else {
        Transfer::Pipelined
    };
    Plan { transfer, remove_source: dd.action != SKIP && dd.cmr_mode != _COPY }
}

} // verus!
