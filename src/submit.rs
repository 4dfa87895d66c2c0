//! Waiting for a submitted transaction: each status report of the node is
//! turned into the next step, until the status the caller asked for is
//! reached or the transaction fails. There is no retry at this level.

use vstd::prelude::*;
use crate::types::H256;

verus! {

/// How durable a submitted transaction must be before the wait ends,
/// ordered Ready < InBlock < Finalized.
#[derive(Clone, Copy, Debug, PartialEq, Eq)]
pub enum TxStatus {
    Ready,
    InBlock,
    Finalized,
}

pub open spec fn rank(s: TxStatus) -> nat {
    match s {
        TxStatus::Ready => 0,
        TxStatus::InBlock => 1,
        TxStatus::Finalized => 2,
    }
}

/// A status report of the node on a submitted transaction.
#[derive(Clone, Copy, Debug, PartialEq, Eq)]
pub enum WatchEvent {
    Future,
    Ready,
    Broadcast,
    InBlock(H256),
    Retracted(H256),
    FinalityTimeout(H256),
    Finalized(H256),
    Usurped(H256),
    Dropped,
    Invalid,
}

#[derive(Clone, Copy, Debug, PartialEq, Eq)]
pub enum SubmissionError {
    /// The node dropped the transaction from its pool.
    Dropped,
    /// The node found the transaction invalid (a bad signature or nonce).
    Invalid,
    /// Another transaction with the same nonce took its place.
    Usurped,
    /// The block holding it was not finalized in time.
    FinalityTimeout,
}

#[derive(Clone, Copy, Debug, PartialEq, Eq)]
pub enum Step {
    /// Keep waiting for the next report.
    Wait,
    /// The requested status is reached; the block hash when the report carries one.
    Done(Option<H256>),
    Fail(SubmissionError),
}

pub open spec fn step_of(desired: TxStatus, ev: WatchEvent) -> Step {
    match ev {
        WatchEvent::Ready => if desired == TxStatus::Ready {
            Step::Done(None)
        } else {
            Step::Wait
        },
        WatchEvent::InBlock(h) => if rank(desired) <= 1 {
            Step::Done(Some(h))
        } else {
            Step::Wait
        },
        WatchEvent::Finalized(h) => Step::Done(Some(h)),
        WatchEvent::Usurped(_) => Step::Fail(SubmissionError::Usurped),
        WatchEvent::Dropped => Step::Fail(SubmissionError::Dropped),
        WatchEvent::Invalid => Step::Fail(SubmissionError::Invalid),
        WatchEvent::FinalityTimeout(_) => Step::Fail(SubmissionError::FinalityTimeout),
        _ => Step::Wait,
    }
}

impl TxStatus {
    /// The status a report shows the transaction has reached, if any.
    pub open spec fn reached_by(ev: WatchEvent) -> Option<TxStatus> {
        match ev {
            WatchEvent::Ready => Some(TxStatus::Ready),
            WatchEvent::InBlock(_) => Some(TxStatus::InBlock),
            WatchEvent::Finalized(_) => Some(TxStatus::Finalized),
            _ => None,
        }
    }
}

/// What to do after the node reports `ev` on a transaction that must reach
/// `desired`.
pub fn next_step(desired: TxStatus, ev: WatchEvent) -> (r: Step)
    ensures
        r == step_of(desired, ev),
{
    match ev {
        WatchEvent::Ready => match desired {
            TxStatus::Ready => Step::Done(None),
            _ => Step::Wait,
        },
        WatchEvent::InBlock(h) => match desired {
            TxStatus::Finalized => Step::Wait,
            _ => Step::Done(Some(h)),
        },
        WatchEvent::Finalized(h) => Step::Done(Some(h)),
        WatchEvent::Usurped(_) => Step::Fail(SubmissionError::Usurped),
        WatchEvent::Dropped => Step::Fail(SubmissionError::Dropped),
        WatchEvent::Invalid => Step::Fail(SubmissionError::Invalid),
        WatchEvent::FinalityTimeout(_) => Step::Fail(SubmissionError::FinalityTimeout),
        _ => Step::Wait,
    }
}

/// The wait ends with success exactly when a report shows a status at least
/// as durable as the one requested.
pub proof fn done_iff_desired_reached(desired: TxStatus, ev: WatchEvent)
    ensures
        step_of(desired, ev) is Done <==> (TxStatus::reached_by(ev) is Some && rank(desired)
            <= rank(TxStatus::reached_by(ev)->Some_0)),
{
}

} // verus!
