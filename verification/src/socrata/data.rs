//! The data-fetch channel's message types and the UI-owned result state
//! holder, mutated only while draining the channel each frame.

use vstd::prelude::*;
use vstd::string::StringExecFns;
use std::time::Duration;

verus! {

/// A progress message from the background fetch task: a chunk size in
/// bytes, or the elapsed time of the whole attempt.
#[derive(Clone, Copy)]
pub enum Channel {
    Data(usize),
    Elapsed(Duration),
}

/// Why a fetch attempt failed: a payload or transport failure, or a
/// failure while recording elapsed time (the latter only resets the
/// displayed duration).
pub enum ErrCause {
    Data(String),
    Elapsed(String),
}

/// The terminal payload of a successful fetch attempt.
pub enum Container {
    Data(Vec<Vec<String>>),
    Elapsed(Duration),
}

/// The three distinguishable terminal outcomes of an attempt: a normal
/// result, a typed error, or an abnormal task termination whose message
/// is forwarded as-is.
pub enum FetchTerminal {
    Success(Container),
    Typed(ErrCause),
    Abnormal(String),
}

/// What a frame's drain asks the surrounding loop to do besides mutating
/// the holder: show a new elapsed time, reset the shown elapsed time, or
/// run the repair transition because the attempt reached a terminal state.
pub struct DrainEffect {
    pub last_elapsed: Option<Duration>,
    pub reset_elapsed: bool,
    pub finalized: bool,
}

/// UI-owned record of the latest fetch's rows, size and error status.
pub struct ResponseData {
    pub data: Option<Vec<Vec<String>>>,
    pub file_size: usize,
    pub tmp_file_size: usize,
    pub is_running: bool,
    pub error: Option<String>,
    pub seed: usize,
}

/// The bytes reported by the progress messages of one drain, summed.
pub open spec fn sum_data(msgs: Seq<Channel>) -> int
    decreases msgs.len(),
{
    if msgs.len() == 0 {
        0
    } else {
        (match msgs[0] {
            Channel::Data(n) => n as int,
            Channel::Elapsed(_) => 0,
        }) + sum_data(msgs.drop_first())
    }
}

/// The last elapsed-time message of one drain, if any.
pub open spec fn last_elapsed(msgs: Seq<Channel>) -> Option<Duration>
    decreases msgs.len(),
{
    if msgs.len() == 0 {
        None
    } else {
        match msgs.last() {
            Channel::Elapsed(d) => Some(d),
            Channel::Data(_) => last_elapsed(msgs.drop_last()),
        }
    }
}

proof fn lemma_sum_data_nonneg(msgs: Seq<Channel>)
    ensures
        sum_data(msgs) >= 0,
    decreases msgs.len(),
{
    if msgs.len() > 0 {
        lemma_sum_data_nonneg(msgs.drop_first());
    }
}

/// Summing distributes over splitting the messages at position `i`.
proof fn lemma_sum_data_split(msgs: Seq<Channel>, i: int)
    requires
        0 <= i <= msgs.len(),
    ensures
        sum_data(msgs) == sum_data(msgs.take(i)) + sum_data(msgs.skip(i)),
    decreases i,
{
    if i == 0 {
        assert(msgs.take(0) =~= Seq::<Channel>::empty());
        assert(msgs.skip(0) =~= msgs);
    } else {
        assert(msgs.take(i).drop_first() =~= msgs.drop_first().take(i - 1));
        assert(msgs.skip(i) =~= msgs.drop_first().skip(i - 1));
        assert(msgs.take(i)[0] == msgs[0]);
        lemma_sum_data_split(msgs.drop_first(), i - 1);
    }
}

impl Default for ResponseData {
    /// The state before any fetch: no rows, no error, nothing running.
    fn default() -> (d: Self)
        ensures
            d.data is None,
            d.file_size == 0,
            d.tmp_file_size == 0,
            !d.is_running,
            d.error is None,
            d.seed == 0,
    {
        ResponseData {
            data: None,
            file_size: 0,
            tmp_file_size: 0,
            is_running: false,
            error: None,
            seed: 0,
        }
    }
}

impl ResponseData {
    /// Stores the rows of a successful attempt and clears any stale error.
    pub fn set_data(&mut self, data: Vec<Vec<String>>)
        ensures
            final(self).data == Some(data),
            final(self).error is None,
            final(self).file_size == old(self).file_size,
            final(self).tmp_file_size == old(self).tmp_file_size,
            final(self).is_running == old(self).is_running,
            final(self).seed == old(self).seed,
    {
        self.error = None;
        self.data = Some(data);
    }

    /// Stores the error message of a failed attempt and clears any stale rows.
    pub fn set_error(&mut self, e: String)
        ensures
            final(self).error == Some(e),
            final(self).data is None,
            final(self).file_size == old(self).file_size,
            final(self).tmp_file_size == old(self).tmp_file_size,
            final(self).is_running == old(self).is_running,
            final(self).seed == old(self).seed,
    {
        self.data = None;
        self.error = Some(e);
    }

    /// The repair transition run when an attempt reaches a terminal or
    /// canceled state: folds the accumulated byte count into the displayed
    /// size in KB (truncating division, only from 1000 bytes up), clears
    /// the running flag and zeroes the accumulator.
    pub fn repair(&mut self)
        ensures
            old(self).tmp_file_size >= 1000 ==> final(self).file_size == old(self).tmp_file_size
                / 1000,
            old(self).tmp_file_size < 1000 ==> final(self).file_size == old(self).file_size,
            final(self).tmp_file_size == 0,
            !final(self).is_running,
            final(self).data == old(self).data,
            final(self).error == old(self).error,
            final(self).seed == old(self).seed,
    {
        if self.tmp_file_size >= 1000 {
            self.file_size = self.tmp_file_size / 1000;
        }
        self.is_running = false;
        self.tmp_file_size = 0;
    }

    /// Marks a new attempt as running and clears the stale error, as the
    /// UI does right before spawning a fetch.
    pub fn start_running(&mut self)
        ensures
            final(self).error is None,
            final(self).is_running,
            final(self).data == old(self).data,
            final(self).file_size == old(self).file_size,
            final(self).tmp_file_size == old(self).tmp_file_size,
            final(self).seed == old(self).seed,
    {
        self.error = None;
        self.is_running = true;
    }

    /// One frame's drain of the channel: folds every buffered progress
    /// message into the holder, then applies the terminal outcome if one
    /// arrived. Progress is always applied before the terminal outcome.
    #[verifier::loop_isolation(false)]
    pub fn drain_frame(&mut self, msgs: Vec<Channel>, terminal: Option<FetchTerminal>) -> (eff:
        DrainEffect)
        requires
            old(self).tmp_file_size + sum_data(msgs@) <= usize::MAX,
        ensures
            final(self).tmp_file_size == old(self).tmp_file_size + sum_data(msgs@),
            final(self).file_size == old(self).file_size,
            final(self).is_running == old(self).is_running,
            final(self).seed == old(self).seed,
            eff.last_elapsed == last_elapsed(msgs@),
            match terminal {
                None => final(self).data == old(self).data && final(self).error == old(self).error
                    && !eff.finalized && !eff.reset_elapsed,
                Some(FetchTerminal::Success(Container::Data(d))) => final(self).data == Some(d)
                    && final(self).error is None && eff.finalized && !eff.reset_elapsed,
                Some(FetchTerminal::Success(Container::Elapsed(_))) => final(self).data == old(self).data && final(self).error == old(self).error && !eff.finalized
                    && !eff.reset_elapsed,
                Some(FetchTerminal::Typed(ErrCause::Elapsed(_))) => final(self).data == old(self).data && final(self).error == old(self).error && eff.finalized
                    && eff.reset_elapsed,
                Some(FetchTerminal::Typed(ErrCause::Data(e))) => final(self).error == Some(e)
                    && final(self).data is None && eff.finalized && !eff.reset_elapsed,
                Some(FetchTerminal::Abnormal(e)) => final(self).error == Some(e) && final(self).data is None && eff.finalized && !eff.reset_elapsed,
            },
    {
        let n = msgs.len();
        let mut i: usize = 0;
        let mut cur_elapsed: Option<Duration> = None;
        proof {
            assert(msgs@.take(0) =~= Seq::<Channel>::empty());
        }
        while i < n
            invariant
                i <= n,
                self.tmp_file_size == old(self).tmp_file_size + sum_data(msgs@.take(i as int)),
                self.file_size == old(self).file_size,
                self.is_running == old(self).is_running,
                self.seed == old(self).seed,
                self.data == old(self).data,
                self.error == old(self).error,
                cur_elapsed == last_elapsed(msgs@.take(i as int)),
            decreases n - i,
        {
            proof {
                lemma_sum_data_split(msgs@, i as int);
                lemma_sum_data_split(msgs@.skip(i as int), 1);
                assert(msgs@.skip(i as int).take(1) =~= seq![msgs@[i as int]]);
                assert(msgs@.skip(i as int).skip(1) =~= msgs@.skip(i + 1));
                lemma_sum_data_nonneg(msgs@.skip(i + 1));
                assert(sum_data(seq![msgs@[i as int]]) == match msgs@[i as int] {
                    Channel::Data(b) => b as int,
                    Channel::Elapsed(_) => 0,
                }) by {
                    assert(seq![msgs@[i as int]].drop_first() =~= Seq::<Channel>::empty());
                }
                lemma_sum_data_split(msgs@.take(i + 1), i as int);
                assert(msgs@.take(i + 1).take(i as int) =~= msgs@.take(i as int));
                assert(msgs@.take(i + 1).skip(i as int) =~= seq![msgs@[i as int]]);
                assert(msgs@.take(i + 1).drop_last() =~= msgs@.take(i as int));
            }
            let msg = msgs[i];
            match msg {
                Channel::Data(b) => {
                    self.tmp_file_size = self.tmp_file_size + b;
                },
                Channel::Elapsed(e) => {
                    cur_elapsed = Some(e);
                },
            }
            i = i + 1;
        }
        proof {
            assert(msgs@.take(n as int) =~= msgs@);
        }
        let mut finalized = false;
        let mut reset_elapsed = false;
        match terminal {
            None => {},
            Some(FetchTerminal::Success(Container::Data(d))) => {
                self.set_data(d);
                finalized = true;
            },
            Some(FetchTerminal::Success(Container::Elapsed(_))) => {},
            Some(FetchTerminal::Typed(ErrCause::Elapsed(_))) => {
                reset_elapsed = true;
                finalized = true;
            },
            Some(FetchTerminal::Typed(ErrCause::Data(e))) => {
                self.set_error(e);
                finalized = true;
            },
            Some(FetchTerminal::Abnormal(e)) => {
                self.set_error(e);
                finalized = true;
            },
        }
        DrainEffect { last_elapsed: cur_elapsed, reset_elapsed, finalized }
    }

    /// The bookkeeping run once an attempt has finalized: the repair
    /// transition, then the retry-seed and button-label step. `get_data`
    /// says whether the finished attempt was a data fetch, `canceled`
    /// whether the attempt's handle reports cancellation. Returns the new
    /// button label, if it changes.
    pub fn reset_fetch(&mut self, get_data: bool, canceled: bool) -> (label: Option<String>)
        requires
            !get_data && canceled ==> old(self).seed < usize::MAX,
        ensures
            old(self).tmp_file_size >= 1000 ==> final(self).file_size == old(self).tmp_file_size
                / 1000,
            old(self).tmp_file_size < 1000 ==> final(self).file_size == old(self).file_size,
            final(self).tmp_file_size == 0,
            !final(self).is_running,
            final(self).data == old(self).data,
            final(self).error == old(self).error,
            get_data && canceled ==> {
                &&& (old(self).seed > 1 ==> final(self).seed == old(self).seed - 1)
                &&& (old(self).seed <= 1 ==> final(self).seed == old(self).seed)
                &&& label matches Some(l) && l@ == "Retry?"@
            },
            !get_data && canceled ==> final(self).seed == old(self).seed + 1 && label is None,
            !canceled ==> final(self).seed == old(self).seed && (label matches Some(l) && l@
                == "Run Query"@),
    {
        self.repair();
        if get_data && canceled {
            if self.seed > 1 {
                self.seed = self.seed - 1;
            }
            Some(String::from_str("Retry?"))
        } else if !get_data && canceled {
            self.seed = self.seed + 1;
            None
        } else {
            Some(String::from_str("Run Query"))
        }
    }
}

} // verus!
