//! Sending a batch of packets through a ring of requests.

use vstd::prelude::*;
use crate::text::{concat2, decimal, decimal_string};
use crate::transport::{enabled_by_default, on_by_default, text_of};

verus! {

/// The most requests that are submitted at once.
pub const URING_CHUNK: usize = 64;

/// Whether the ring is used, by `ST_IO_URING`.
pub fn io_uring_requested(value: Option<&str>) -> (on: bool)
    ensures
        on == on_by_default(text_of(value)),
{
    enabled_by_default(value)
}

/// Why a batch was not sent.
#[derive(Debug, PartialEq, Eq)]
pub enum UringError {
    /// No request could be queued.
    QueueFull,
    /// The requests could not be submitted, and why.
    Submit(String),
    /// A request failed, with this error number of the system.
    Os(i32),
    /// Fewer requests were completed than were submitted.
    Short { got: usize, expected: usize },
}

impl UringError {
    /// What the error says; nothing for an error of the system, which has its own words.
    pub open spec fn text(self) -> Seq<char> {
        match self {
            UringError::QueueFull => "uring SQ full; could not push any SendMsg SQE"@,
            UringError::Submit(why) => "uring submit: "@ + why@,
            UringError::Os(_) => Seq::empty(),
            UringError::Short { got, expected } => "uring got "@ + decimal(got as nat)
                + " CQEs, expected at least "@ + decimal(expected as nat),
        }
    }

    pub fn message(&self) -> (out: String)
        ensures
            out@ == self.text(),
    {
        match self {
            UringError::QueueFull => "uring SQ full; could not push any SendMsg SQE".to_owned(),
            UringError::Submit(why) => concat2("uring submit: ", why.as_str()),
            UringError::Os(_) => String::new(),
            UringError::Short { got, expected } => {
                let head = concat2("uring got ", decimal_string(*got as u64).as_str());
                let tail = concat2(
                    " CQEs, expected at least ",
                    decimal_string(*expected as u64).as_str(),
                );
                let out = concat2(head.as_str(), tail.as_str());
                proof {
                    assert(out@ =~= self.text());
                }
                out
            },
        }
    }
}

/// How much of a batch has been submitted, and what has gone wrong.
#[derive(Debug, PartialEq, Eq)]
pub struct UringBatch {
    pub total: usize,
    pub submitted: usize,
    /// The first error.
    pub error: Option<UringError>,
    /// Whether the ring takes no more.
    pub stopped: bool,
}

/// What came of queueing a chunk.
pub struct UringRound {
    /// How many packets were queued.
    pub pushed: usize,
    /// Whether they could be submitted, and why not.
    pub submit: Result<(), String>,
    /// The results of the completed requests, in order.
    pub results: Vec<i32>,
}

impl UringRound {
    /// Results are error numbers of the system, which can be negated.
    pub open spec fn wf(self) -> bool {
        forall|i: int| 0 <= i < self.results@.len() ==> #[trigger] self.results@[i] > i32::MIN
    }

    /// Whether the ring has taken in what there was.
    pub open spec fn taken(self) -> bool {
        self.pushed > 0 && self.submit is Ok
    }

    /// What went wrong: the first failed request counts, then a completion that is missing.
    pub open spec fn error(self) -> Option<UringError> {
        if self.pushed == 0 {
            Some(UringError::QueueFull)
        } else {
            match self.submit {
                Err(why) => Some(UringError::Submit(why)),
                Ok(_) => match first_failure(self.results@, 0) {
                    Some(result) => Some(UringError::Os(error_number(result))),
                    None => if self.results@.len() < self.pushed {
                        Some(
                            UringError::Short {
                                got: self.results@.len() as usize,
                                expected: self.pushed,
                            },
                        )
                    } else {
                        None
                    },
                },
            }
        }
    }

    fn into_error(self) -> (out: Option<UringError>)
        requires
            self.wf(),
        ensures
            out == self.error(),
    {
        if self.pushed == 0 {
            return Some(UringError::QueueFull);
        }
        if let Err(why) = self.submit {
            return Some(UringError::Submit(why));
        }
        let mut i: usize = 0;
        while i < self.results.len()
            invariant
                i <= self.results@.len(),
                self.wf(),
                self.taken(),
                first_failure(self.results@, 0) == first_failure(self.results@, i as int),
            decreases self.results@.len() - i,
        {
            let result: i32 = self.results[i];
            if result < 0 {
                return Some(UringError::Os(-result));
            }
            i = i + 1;
        }
        let got: usize = self.results.len();
        if got < self.pushed {
            return Some(UringError::Short { got, expected: self.pushed });
        }
        None
    }
}

/// The first negative result, and none where there is none.
pub open spec fn first_failure(results: Seq<i32>, from: int) -> Option<i32>
    decreases results.len() - from,
{
    if from < 0 || from >= results.len() {
        None
    } else if results[from] < 0 {
        Some(results[from])
    } else {
        first_failure(results, from + 1)
    }
}

/// The error number of a negative result.
pub open spec fn error_number(result: i32) -> i32 {
    (-result) as i32
}

impl UringBatch {
    pub open spec fn wf(self) -> bool {
        &&& self.submitted <= self.total
        &&& self.stopped ==> self.error is Some
    }

    pub fn new(total: usize) -> (out: Self)
        ensures
            out.wf(),
            out == (UringBatch { total, submitted: 0, error: None, stopped: false }),
    {
        UringBatch { total, submitted: 0, error: None, stopped: false }
    }

    /// The packets to queue next, from the first up to before the last; `None` once all
    /// are submitted or the ring takes no more.
    pub open spec fn chunk(self) -> Option<(int, int)> {
        if self.stopped || self.submitted == self.total {
            None
        } else if self.total - self.submitted < URING_CHUNK {
            Some((self.submitted as int, self.total as int))
        } else {
            Some((self.submitted as int, self.submitted + URING_CHUNK))
        }
    }

    /// The packets to queue next.
    pub fn next_chunk(&self) -> (out: Option<(usize, usize)>)
        requires
            self.wf(),
        ensures
            match out {
                Some((from, to)) => self.chunk() == Some((from as int, to as int)),
                None => self.chunk() is None,
            },
    {
        if self.stopped || self.submitted == self.total {
            None
        } else if self.total - self.submitted < URING_CHUNK {
            Some((self.submitted, self.total))
        } else {
            Some((self.submitted, self.submitted + URING_CHUNK))
        }
    }

    /// The batch after a round: what was submitted counts whatever became of it, the first
    /// error is kept, and only a ring that takes nothing ends the batch early.
    pub open spec fn after(self, round: UringRound) -> UringBatch {
        UringBatch {
            total: self.total,
            submitted: if round.taken() {
                (self.submitted + round.pushed) as usize
            } else {
                self.submitted
            },
            error: if self.error is Some {
                self.error
            } else {
                round.error()
            },
            stopped: self.stopped || !round.taken(),
        }
    }

    /// The batch after some rounds.
    pub open spec fn after_all(self, rounds: Seq<UringRound>) -> UringBatch
        decreases rounds.len(),
    {
        if rounds.len() == 0 {
            self
        } else {
            self.after_all(rounds.drop_last()).after(rounds.last())
        }
    }

    /// Takes in what came of a chunk.
    pub fn advance(&mut self, round: UringRound)
        requires
            old(self).wf(),
            round.wf(),
            round.pushed <= old(self).total - old(self).submitted,
        ensures
            final(self).wf(),
            *final(self) == old(self).after(round),
    {
        if round.pushed > 0 && round.submit.is_ok() {
            self.submitted = self.submitted + round.pushed;
        } else {
            self.stopped = true;
        }
        if self.error.is_none() {
            self.error = round.into_error();
        }
    }

    /// What is reported of the batch: its first error.
    pub fn finish(self) -> (out: Result<(), UringError>)
        ensures
            match out {
                Ok(_) => self.error is None,
                Err(error) => self.error == Some(error),
            },
    {
        match self.error {
            Some(error) => Err(error),
            None => Ok(()),
        }
    }
}

/// A batch of which nothing is submitted yet.
pub open spec fn unsent(total: usize) -> UringBatch {
    UringBatch { total, submitted: 0, error: None, stopped: false }
}

/// That each round queues no more than the chunk that is due.
pub open spec fn keeps_to_chunks(total: usize, rounds: Seq<UringRound>) -> bool
    decreases rounds.len(),
{
    rounds.len() == 0 || {
        &&& keeps_to_chunks(total, rounds.drop_last())
        &&& unsent(total).after_all(rounds.drop_last()).chunk() matches Some((from, to))
            && rounds.last().pushed <= to - from
    }
}

/// How many packets the ring has taken in.
pub open spec fn taken_in(rounds: Seq<UringRound>) -> nat
    decreases rounds.len(),
{
    if rounds.len() == 0 {
        0
    } else if rounds.last().taken() {
        taken_in(rounds.drop_last()) + rounds.last().pushed as nat
    } else {
        taken_in(rounds.drop_last())
    }
}

/// That the packet `p` is submitted in the round `i`.
pub open spec fn submitted_in(total: usize, rounds: Seq<UringRound>, p: int, i: int) -> bool {
    let before = unsent(total).after_all(rounds.subrange(0, i)).submitted as int;
    &&& 0 <= i < rounds.len()
    &&& rounds[i].taken()
    &&& before <= p < before + rounds[i].pushed
}

/// The first error of some rounds.
pub open spec fn first_error(rounds: Seq<UringRound>) -> Option<UringError>
    decreases rounds.len(),
{
    if rounds.len() == 0 {
        None
    } else if first_error(rounds.drop_last()) is Some {
        first_error(rounds.drop_last())
    } else {
        rounds.last().error()
    }
}

/// What comes of a batch, whatever the ring does. A failed request holds nothing back: what the
/// ring takes in counts, whatever the results are. The batch reports the first error of its
/// rounds, and none exactly where there was none. It ends early only where the ring takes nothing,
/// which is an error, so a batch without one has submitted all its packets. Nothing is queued of
/// an empty batch.
pub proof fn failures_hold_nothing_back(total: usize, rounds: Seq<UringRound>)
    requires
        keeps_to_chunks(total, rounds),
    ensures
        ({
            let end = unsent(total).after_all(rounds);
            &&& end.wf()
            &&& end.total == total
            &&& end.submitted == taken_in(rounds)
            &&& end.error == first_error(rounds)
            &&& end.error is None <==> forall|i: int|
                0 <= i < rounds.len() ==> (#[trigger] rounds[i]).error() is None
            &&& end.stopped <==> exists|i: int|
                0 <= i < rounds.len() && !(#[trigger] rounds[i]).taken()
            &&& end.chunk() is None && end.error is None ==> end.submitted == total
            &&& total == 0 ==> rounds.len() == 0
        }),
    decreases rounds.len(),
{
    if rounds.len() > 0 {
        let before = rounds.drop_last();
        let last = rounds.last();
        failures_hold_nothing_back(total, before);
        assert forall|i: int| 0 <= i < before.len() implies #[trigger] before[i] == rounds[i] by {}
        assert(rounds[rounds.len() - 1] == last);
        let end = unsent(total).after_all(rounds);
        if end.error is None {
            assert forall|i: int| 0 <= i < rounds.len() implies (#[trigger] rounds[i]).error()
                is None by {
                if i < before.len() {
                    assert(before[i].error() is None);
                }
            }
        } else if unsent(total).after_all(before).error is Some {
            let i = choose|i: int| 0 <= i < before.len() && (#[trigger] before[i]).error() is Some;
            assert(rounds[i].error() is Some);
        }
        if unsent(total).after_all(before).stopped {
            let i = choose|i: int| 0 <= i < before.len() && !(#[trigger] before[i]).taken();
            assert(!rounds[i].taken());
        }
        if !last.taken() {
            assert(last.error() is Some);
        } else {
            assert forall|i: int| 0 <= i < rounds.len() implies (#[trigger] rounds[i]).taken() by {
                if i < before.len() {
                    assert(before[i].taken());
                }
            }
        }
    }
}

/// Every packet that counts as submitted is submitted in one round.
pub proof fn packets_are_submitted(total: usize, rounds: Seq<UringRound>, p: int)
    requires
        keeps_to_chunks(total, rounds),
        0 <= p < unsent(total).after_all(rounds).submitted,
    ensures
        exists|i: int| submitted_in(total, rounds, p, i),
    decreases rounds.len(),
{
    let before = rounds.drop_last();
    failures_hold_nothing_back(total, rounds);
    failures_hold_nothing_back(total, before);
    let done = unsent(total).after_all(before).submitted as int;
    if p < done {
        packets_are_submitted(total, before, p);
        let i = choose|i: int| submitted_in(total, before, p, i);
        assert(before.subrange(0, i) =~= rounds.subrange(0, i));
        assert(submitted_in(total, rounds, p, i));
    } else {
        assert(rounds.subrange(0, rounds.len() - 1) =~= before);
        assert(submitted_in(total, rounds, p, rounds.len() - 1));
    }
}

/// And no packet is submitted in two.
pub proof fn no_packet_is_submitted_twice(
    total: usize,
    rounds: Seq<UringRound>,
    p: int,
    i: int,
    j: int,
)
    requires
        keeps_to_chunks(total, rounds),
        submitted_in(total, rounds, p, i),
        submitted_in(total, rounds, p, j),
    ensures
        i == j,
{
    if i < j {
        lemma_submitted_grows(total, rounds, i, j);
    } else if j < i {
        lemma_submitted_grows(total, rounds, j, i);
    }
}

proof fn lemma_chunks_of_a_start(total: usize, rounds: Seq<UringRound>, n: int)
    requires
        keeps_to_chunks(total, rounds),
        0 <= n <= rounds.len(),
    ensures
        keeps_to_chunks(total, rounds.subrange(0, n)),
    decreases rounds.len(),
{
    if n == rounds.len() {
        assert(rounds.subrange(0, n) =~= rounds);
    } else {
        lemma_chunks_of_a_start(total, rounds.drop_last(), n);
        assert(rounds.drop_last().subrange(0, n) =~= rounds.subrange(0, n));
    }
}

/// What a round submits lies before what a later one starts with.
proof fn lemma_submitted_grows(total: usize, rounds: Seq<UringRound>, i: int, j: int)
    requires
        keeps_to_chunks(total, rounds),
        0 <= i < j <= rounds.len(),
        rounds[i].taken(),
    ensures
        unsent(total).after_all(rounds.subrange(0, i)).submitted + rounds[i].pushed <= unsent(
            total,
        ).after_all(rounds.subrange(0, j)).submitted,
    decreases j,
{
    let upto = rounds.subrange(0, j);
    assert(upto.drop_last() =~= rounds.subrange(0, j - 1));
    assert(upto.last() == rounds[j - 1]);
    lemma_chunks_of_a_start(total, rounds, j);
    failures_hold_nothing_back(total, upto);
    lemma_chunks_of_a_start(total, rounds, j - 1);
    failures_hold_nothing_back(total, upto.drop_last());
    if i < j - 1 {
        lemma_submitted_grows(total, rounds, i, j - 1);
    }
}

/// A ring that takes nothing ends the batch, with an error, and what was submitted before
/// stays submitted.
pub proof fn a_full_ring_ends_the_batch(batch: UringBatch, round: UringRound)
    requires
        batch.wf(),
        !round.taken(),
    ensures
        batch.after(round).wf(),
        batch.after(round).stopped,
        batch.after(round).error is Some,
        batch.after(round).submitted == batch.submitted,
{
}

} // verus!
