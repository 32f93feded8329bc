//! The range fetcher: a state machine that walks an inclusive block-number
//! range in ascending order, is driven by a caller performing the RPC
//! calls it requests, and accumulates the normalized records.
//!
//! The caller owns the transport: it asks [`RangeFetcher::next_request`]
//! what to fetch, performs the call, and reports the outcome through
//! [`RangeFetcher::on_header`], [`RangeFetcher::on_ommer_count`] or
//! [`RangeFetcher::on_ommer`]. A transport failure or a malformed header
//! aborts the whole run: the machine enters `Failed` and the records can
//! no longer be taken out, so no output is ever produced from a partial
//! run. A block whose header is absent is skipped without aborting, and a
//! missing ommer is dropped from its record without aborting.

use vstd::prelude::*;
use crate::range::BlockRange;
use crate::record::BlockRecord;
use crate::record::OmmerHeader;
use crate::record::RawHeader;
use crate::record::build_record;
use crate::record::check_header_texts;
use crate::record::record_matches_header;

verus! {

/// Why a run aborted.
#[derive(Clone, Copy, Debug, PartialEq, Eq, Structural)]
pub enum FailReason {
    /// A header fetch failed at the transport or protocol level.
    Transport,
    /// A header arrived malformed: wrong number or a field outside the
    /// canonical text form.
    Malformed,
}

/// What one header fetch came back with.
#[derive(Debug)]
pub enum HeaderOutcome {
    /// The header, with every field in the upstream canonical text form.
    Found(RawHeader),
    /// The block does not exist upstream; it is skipped, not an error.
    Absent,
    /// The call failed at the transport level; fatal for the whole run.
    Failed,
}

/// What one ommer-count fetch came back with. A failed call and a missing
/// count are alike unavailable; neither aborts the run.
#[derive(Debug)]
pub enum OmmerCountOutcome {
    Count(u64),
    Unavailable,
}

/// What one ommer fetch came back with. A failed call and an absent ommer
/// are alike missing; the ommer is dropped and the run continues.
#[derive(Debug)]
pub enum OmmerOutcome {
    Found(OmmerHeader),
    Missing,
}

/// The next action the driving caller must perform.
#[derive(Clone, Copy, Debug, PartialEq, Eq, Structural)]
pub enum Request {
    /// Fetch the header of this block number and report it to `on_header`.
    FetchHeader(u64),
    /// Fetch the ommer count of this block number and report it to
    /// `on_ommer_count`.
    FetchOmmerCount(u64),
    /// Fetch the ommer of this block number at this index and report it
    /// to `on_ommer`.
    FetchOmmer(u64, u64),
    /// The whole range is processed; take the records out.
    Finished,
    /// The run failed; nothing may be written.
    Aborted,
}

/// Where the machine stands within the current block.
pub enum Phase {
    /// Awaiting the header of the current block.
    NeedHeader,
    /// Header received and checked; awaiting the ommer count.
    NeedOmmerCount { header: RawHeader },
    /// Fetching ommers one index at a time, in ascending index order.
    NeedOmmers { header: RawHeader, count: u64, next_index: u64, got: Vec<OmmerHeader> },
    /// Every block number of the range has been decided.
    Done,
    /// The run aborted; the partial records are unreachable.
    Failed { reason: FailReason },
}

/// The range-fetch state machine.
pub struct RangeFetcher {
    /// The inclusive range this run covers.
    pub range: BlockRange,
    /// The block number currently being decided (meaningless once `Done`).
    pub current: u64,
    /// Where the machine stands within the current block.
    pub phase: Phase,
    /// The records collected so far, in ascending block-number order.
    pub records: Vec<BlockRecord>,
    /// The block numbers skipped so far because their header was absent.
    pub skipped: Ghost<Seq<u64>>,
}

impl RangeFetcher {
    /// How many block numbers of the range have been fully decided.
    pub open spec fn decided(self) -> int {
        if self.phase is Done {
            self.range.size()
        } else {
            self.current - self.range.start
        }
    }

    /// Record numbers lie strictly below this bound.
    pub open spec fn number_bound(self) -> int {
        if self.phase is Done {
            self.range.end + 1
        } else {
            self.current as int
        }
    }

    /// The machine's invariant.
    pub open spec fn wf(self) -> bool {
        &&& self.range.wf()
        &&& !(self.phase is Done) ==> self.range.start <= self.current <= self.range.end
        &&& self.phase is Done ==> self.current == self.range.end
        &&& self.records@.len() + self.skipped@.len() == self.decided()
        &&& forall|i: int|
            0 <= i < self.records@.len() ==> self.range.start <= (
            #[trigger] self.records@[i]).number < self.number_bound()
        &&& forall|i: int, j: int|
            0 <= i < j < self.records@.len() ==> (#[trigger] self.records@[i]).number < (
            #[trigger] self.records@[j]).number
        &&& forall|i: int| 0 <= i < self.records@.len() ==> (#[trigger] self.records@[i]).texts_wf()
        &&& forall|i: int|
            0 <= i < self.skipped@.len() ==> self.range.start <= #[trigger] self.skipped@[i]
                < self.number_bound()
        &&& match self.phase {
            Phase::NeedOmmerCount { header } => header.wf_for(self.current),
            Phase::NeedOmmers { header, count, next_index, got } => {
                &&& header.wf_for(self.current)
                &&& got@.len() <= next_index < count
            },
            _ => true,
        }
    }

    /// After finishing a block: the machine moved to the next block
    /// number, or to `Done` at the end of the range.
    pub open spec fn stepped(self, prev: RangeFetcher) -> bool {
        if prev.current < prev.range.end {
            self.current == prev.current + 1 && self.phase is NeedHeader
        } else {
            self.current == prev.current && self.phase is Done
        }
    }

    /// The machine appended exactly one record, normalized from header
    /// `h` of block `prev.current` with the given ommers, and moved on.
    pub open spec fn pushed_record(
        self,
        prev: RangeFetcher,
        h: RawHeader,
        ommers: Seq<OmmerHeader>,
    ) -> bool {
        &&& self.records@.len() == prev.records@.len() + 1
        &&& forall|i: int|
            0 <= i < prev.records@.len() ==> #[trigger] self.records@[i] == prev.records@[i]
        &&& record_matches_header(self.records@.last(), prev.current, h, ommers)
        &&& self.skipped == prev.skipped
        &&& self.stepped(prev)
    }

    /// Starts a run over a well-formed range, at its first block number.
    pub fn new(range: BlockRange) -> (f: RangeFetcher)
        requires
            range.wf(),
        ensures
            f.wf(),
            f.range == range,
            f.current == range.start,
            f.phase is NeedHeader,
            f.records@.len() == 0,
            f.skipped@.len() == 0,
    {
        RangeFetcher {
            range,
            current: range.start,
            phase: Phase::NeedHeader,
            records: Vec::new(),
            skipped: Ghost(Seq::empty()),
        }
    }

    /// The action the machine asks for in its present phase.
    pub open spec fn spec_request(self) -> Request {
        match self.phase {
            Phase::NeedHeader => Request::FetchHeader(self.current),
            Phase::NeedOmmerCount { .. } => Request::FetchOmmerCount(self.current),
            Phase::NeedOmmers { next_index, .. } => Request::FetchOmmer(self.current, next_index),
            Phase::Done => Request::Finished,
            Phase::Failed { .. } => Request::Aborted,
        }
    }

    /// Tells the driving caller what to do next.
    pub fn next_request(&self) -> (r: Request)
        ensures
            r == self.spec_request(),
    {
        match &self.phase {
            Phase::NeedHeader => Request::FetchHeader(self.current),
            Phase::NeedOmmerCount { .. } => Request::FetchOmmerCount(self.current),
            Phase::NeedOmmers { next_index, .. } => Request::FetchOmmer(
                self.current,
                *next_index,
            ),
            Phase::Done => Request::Finished,
            Phase::Failed { .. } => Request::Aborted,
        }
    }

    /// Feeds in the outcome of the requested header fetch.
    ///
    /// A transport failure aborts the run with nothing preserved for
    /// output. An absent header skips the block: no record, and the walk
    /// continues with the next number. A present header is checked; a
    /// malformed one aborts, a well-formed one moves on to the ommers.
    pub fn on_header(self, outcome: HeaderOutcome) -> (r: Self)
        requires
            self.wf(),
            self.phase is NeedHeader,
        ensures
            r.wf(),
            r.range == self.range,
            match outcome {
                HeaderOutcome::Failed => {
                    &&& r.phase == Phase::Failed { reason: FailReason::Transport }
                    &&& r.current == self.current
                    &&& r.records == self.records
                    &&& r.skipped == self.skipped
                },
                HeaderOutcome::Absent => {
                    &&& r.records == self.records
                    &&& r.skipped@ == self.skipped@.push(self.current)
                    &&& r.stepped(self)
                },
                HeaderOutcome::Found(h) => {
                    if h.wf_for(self.current) {
                        &&& r.phase == (Phase::NeedOmmerCount { header: h })
                        &&& r.current == self.current
                        &&& r.records == self.records
                        &&& r.skipped == self.skipped
                    } else {
                        &&& r.phase == Phase::Failed { reason: FailReason::Malformed }
                        &&& r.current == self.current
                        &&& r.records == self.records
                        &&& r.skipped == self.skipped
                    }
                },
            },
    {
        let RangeFetcher { range, current, phase: _, records, skipped } = self;
        match outcome {
            HeaderOutcome::Failed => RangeFetcher {
                range,
                current,
                phase: Phase::Failed { reason: FailReason::Transport },
                records,
                skipped,
            },
            HeaderOutcome::Absent => {
                let new_skipped: Ghost<Seq<u64>> = Ghost(skipped@.push(current));
                if current < range.end {
                    RangeFetcher {
                        range,
                        current: current + 1,
                        phase: Phase::NeedHeader,
                        records,
                        skipped: new_skipped,
                    }
                } else {
                    RangeFetcher {
                        range,
                        current,
                        phase: Phase::Done,
                        records,
                        skipped: new_skipped,
                    }
                }
            },
            HeaderOutcome::Found(h) => {
                let number_ok = match h.number {
                    Some(m) => m == current,
                    None => false,
                };
                if number_ok && check_header_texts(&h) {
                    RangeFetcher {
                        range,
                        current,
                        phase: Phase::NeedOmmerCount { header: h },
                        records,
                        skipped,
                    }
                } else {
                    RangeFetcher {
                        range,
                        current,
                        phase: Phase::Failed { reason: FailReason::Malformed },
                        records,
                        skipped,
                    }
                }
            },
        }
    }

    /// Feeds in the outcome of the requested ommer-count fetch.
    ///
    /// An unavailable or zero count closes the block at once with an
    /// empty ommer sequence — never an error. A positive count starts the
    /// ommer walk at index zero.
    pub fn on_ommer_count(self, outcome: OmmerCountOutcome) -> (r: Self)
        requires
            self.wf(),
            self.phase is NeedOmmerCount,
        ensures
            r.wf(),
            r.range == self.range,
            self.phase matches Phase::NeedOmmerCount { header } ==> match outcome {
                OmmerCountOutcome::Count(k) => {
                    if k > 0 {
                        &&& r.phase matches Phase::NeedOmmers {
                            header: h2,
                            count,
                            next_index,
                            got,
                        } && h2 == header && count == k && next_index == 0 && got@.len() == 0
                        &&& r.records == self.records
                        &&& r.skipped == self.skipped
                        &&& r.current == self.current
                    } else {
                        r.pushed_record(self, header, Seq::empty())
                    }
                },
                OmmerCountOutcome::Unavailable => r.pushed_record(self, header, Seq::empty()),
            },
    {
        let RangeFetcher { range, current, phase, mut records, skipped } = self;
        let header = match phase {
            Phase::NeedOmmerCount { header } => header,
            _ => unreached(),
        };
        let positive = match outcome {
            OmmerCountOutcome::Count(k) => k > 0,
            OmmerCountOutcome::Unavailable => false,
        };
        if positive {
            let k = match outcome {
                OmmerCountOutcome::Count(k) => k,
                OmmerCountOutcome::Unavailable => unreached(),
            };
            RangeFetcher {
                range,
                current,
                phase: Phase::NeedOmmers { header, count: k, next_index: 0, got: Vec::new() },
                records,
                skipped,
            }
        } else {
            let rec = build_record(current, header, Vec::new());
            records.push(rec);
            if current < range.end {
                RangeFetcher { range, current: current + 1, phase: Phase::NeedHeader, records, skipped }
            } else {
                RangeFetcher { range, current, phase: Phase::Done, records, skipped }
            }
        }
    }

    /// Feeds in the outcome of the requested ommer fetch.
    ///
    /// A fetched ommer is appended, so kept ommers stay in ascending
    /// order of their original index; a missing one is dropped silently.
    /// Either way the walk moves to the next index, and past the last
    /// index the block is closed with the ommers that were kept: fewer
    /// than announced exactly when at least one fetch came back missing.
    pub fn on_ommer(self, outcome: OmmerOutcome) -> (r: Self)
        requires
            self.wf(),
            self.phase is NeedOmmers,
        ensures
            r.wf(),
            r.range == self.range,
            self.phase matches Phase::NeedOmmers { header, count, next_index, got } ==> {
                let kept = match outcome {
                    OmmerOutcome::Found(o) => got@.push(o),
                    OmmerOutcome::Missing => got@,
                };
                if next_index + 1 < count {
                    &&& r.phase matches Phase::NeedOmmers {
                        header: h2,
                        count: c2,
                        next_index: i2,
                        got: g2,
                    } && h2 == header && c2 == count && i2 == next_index + 1 && g2@ == kept
                    &&& r.records == self.records
                    &&& r.skipped == self.skipped
                    &&& r.current == self.current
                } else {
                    &&& r.pushed_record(self, header, kept)
                    &&& r.records@.last().ommers@.len() <= count
                    &&& (r.records@.last().ommers@.len() < count <==> (outcome is Missing
                        || got@.len() < next_index))
                }
            },
    {
        let RangeFetcher { range, current, phase, mut records, skipped } = self;
        match phase {
            Phase::NeedOmmers { header, count, next_index, mut got } => {
                match outcome {
                    OmmerOutcome::Found(o) => got.push(o),
                    OmmerOutcome::Missing => (),
                }
                let ni = next_index + 1;
                if ni < count {
                    RangeFetcher {
                        range,
                        current,
                        phase: Phase::NeedOmmers { header, count, next_index: ni, got },
                        records,
                        skipped,
                    }
                } else {
                    let rec = build_record(current, header, got);
                    records.push(rec);
                    if current < range.end {
                        RangeFetcher {
                            range,
                            current: current + 1,
                            phase: Phase::NeedHeader,
                            records,
                            skipped,
                        }
                    } else {
                        RangeFetcher { range, current, phase: Phase::Done, records, skipped }
                    }
                }
            },
            _ => unreached(),
        }
    }

    /// Hands the collected records out. Only a run that decided every
    /// block number of its range may be taken apart: a failed run offers
    /// no sanctioned way to its partial records, so nothing partial is
    /// ever written.
    pub fn into_records(self) -> (rs: Vec<BlockRecord>)
        requires
            self.wf(),
            self.phase is Done,
        ensures
            rs == self.records,
    {
        self.records
    }
}

/// Law: a finished run holds at most one record per block number of its
/// range, and exactly one per number precisely when no block number was
/// skipped for an absent header.
pub proof fn lemma_record_count(f: RangeFetcher)
    requires
        f.wf(),
        f.phase is Done,
    ensures
        f.records@.len() <= f.range.size(),
        f.records@.len() == f.range.size() <==> f.skipped@.len() == 0,
{
}

/// Law: the records of a run stand in strictly ascending block-number
/// order — in particular no two records share a number — and every
/// record's number lies inside the range.
pub proof fn lemma_records_ascending(f: RangeFetcher)
    requires
        f.wf(),
    ensures
        forall|i: int, j: int|
            0 <= i < j < f.records@.len() ==> (#[trigger] f.records@[i]).number < (
            #[trigger] f.records@[j]).number,
        forall|i: int, j: int|
            0 <= i < j < f.records@.len() ==> (#[trigger] f.records@[i]).number != (
            #[trigger] f.records@[j]).number,
        forall|i: int|
            0 <= i < f.records@.len() ==> f.range.start <= (#[trigger] f.records@[i]).number
                <= f.range.end,
{
}

} // verus!
