use vstd::prelude::*;

use crate::error::ScrapeError;
use crate::status::{is_success, is_success_spec};

verus! {

/// How one download item ended.
#[derive(Debug, Clone, Copy, PartialEq, Eq, Structural)]
pub enum ItemOutcome {
    /// The body was fetched and written to the output file.
    Written,
    /// The item stopped with this error; other items are not affected.
    Failed(ScrapeError),
}

/// Where one download item stands.
#[derive(Debug, Clone, Copy, PartialEq, Eq, Structural)]
pub enum ItemStage {
    /// The request for the file is to be sent.
    Fetching,
    /// A success response came; its body is to be read.
    Reading,
    /// The body is in hand; it is to be written to the output file.
    Writing,
    /// Nothing more is done for the item.
    Done(ItemOutcome),
}

/// What the outside work of the current stage came to.
#[derive(Debug, Clone, Copy, PartialEq, Eq, Structural)]
pub enum ItemEvent {
    /// The request could not be made.
    RequestFailed,
    /// The server answered with this status.
    Responded(u16),
    /// The response body could not be read.
    BodyFailed,
    /// The response body was read.
    BodyRead,
    /// Writing the output file failed.
    WriteFailed,
    /// The output file was written.
    WriteSucceeded,
}

/// The stage an item moves to when `event` comes in `stage`. An event that
/// does not belong to the stage leaves it as it is, and a finished item
/// stays finished.
pub open spec fn item_step_spec(stage: ItemStage, event: ItemEvent) -> ItemStage {
    match (stage, event) {
        (ItemStage::Fetching, ItemEvent::RequestFailed) => ItemStage::Done(
            ItemOutcome::Failed(ScrapeError::Request),
        ),
        (ItemStage::Fetching, ItemEvent::Responded(s)) => if is_success_spec(s) {
            ItemStage::Reading
        } else {
            ItemStage::Done(ItemOutcome::Failed(ScrapeError::Fetch(s)))
        },
        (ItemStage::Reading, ItemEvent::BodyFailed) => ItemStage::Done(
            ItemOutcome::Failed(ScrapeError::Request),
        ),
        (ItemStage::Reading, ItemEvent::BodyRead) => ItemStage::Writing,
        (ItemStage::Writing, ItemEvent::WriteFailed) => ItemStage::Done(
            ItemOutcome::Failed(ScrapeError::Io),
        ),
        (ItemStage::Writing, ItemEvent::WriteSucceeded) => ItemStage::Done(ItemOutcome::Written),
        _ => stage,
    }
}

/// Moves one download item on by the event its current stage produced.
pub fn item_step(stage: ItemStage, event: ItemEvent) -> (r: ItemStage)
    ensures
        r == item_step_spec(stage, event),
{
    match (stage, event) {
        (ItemStage::Fetching, ItemEvent::RequestFailed) => ItemStage::Done(
            ItemOutcome::Failed(ScrapeError::Request),
        ),
        (ItemStage::Fetching, ItemEvent::Responded(s)) => if is_success(s) {
            ItemStage::Reading
        } else {
            ItemStage::Done(ItemOutcome::Failed(ScrapeError::Fetch(s)))
        },
        (ItemStage::Reading, ItemEvent::BodyFailed) => ItemStage::Done(
            ItemOutcome::Failed(ScrapeError::Request),
        ),
        (ItemStage::Reading, ItemEvent::BodyRead) => ItemStage::Writing,
        (ItemStage::Writing, ItemEvent::WriteFailed) => ItemStage::Done(
            ItemOutcome::Failed(ScrapeError::Io),
        ),
        (ItemStage::Writing, ItemEvent::WriteSucceeded) => ItemStage::Done(ItemOutcome::Written),
        _ => stage,
    }
}

/// What a finished batch reports: the positions of the items written, and
/// the position and error of each item that failed, both in item order.
#[derive(Debug, Clone, PartialEq, Eq)]
pub struct BatchReport {
    pub written: Vec<usize>,
    pub failures: Vec<(usize, ScrapeError)>,
}

/// The positions of the written items among `outcomes`, in order.
pub open spec fn written_positions(outcomes: Seq<ItemOutcome>) -> Seq<usize>
    decreases outcomes.len(),
{
    if outcomes.len() == 0 {
        Seq::empty()
    } else {
        let prev = written_positions(outcomes.drop_last());
        match outcomes.last() {
            ItemOutcome::Written => prev.push((outcomes.len() - 1) as usize),
            ItemOutcome::Failed(_) => prev,
        }
    }
}

/// The position and error of each failed item among `outcomes`, in order.
pub open spec fn failed_items(outcomes: Seq<ItemOutcome>) -> Seq<(usize, ScrapeError)>
    decreases outcomes.len(),
{
    if outcomes.len() == 0 {
        Seq::empty()
    } else {
        let prev = failed_items(outcomes.drop_last());
        match outcomes.last() {
            ItemOutcome::Written => prev,
            ItemOutcome::Failed(e) => prev.push(((outcomes.len() - 1) as usize, e)),
        }
    }
}

/// Collects the outcomes of every item of a batch into one report; a
/// failed item is reported and does not hide any other item.
pub fn batch_report(outcomes: &Vec<ItemOutcome>) -> (r: BatchReport)
    ensures
        r.written@ == written_positions(outcomes@),
        r.failures@ == failed_items(outcomes@),
{
    let mut written: Vec<usize> = Vec::new();
    let mut failures: Vec<(usize, ScrapeError)> = Vec::new();
    let mut i: usize = 0;
    assert(outcomes@.take(0) =~= Seq::<ItemOutcome>::empty());
    while i < outcomes.len()
        invariant
            i <= outcomes.len(),
            written@ == written_positions(outcomes@.take(i as int)),
            failures@ == failed_items(outcomes@.take(i as int)),
        decreases outcomes.len() - i,
    {
        proof {
            assert(outcomes@.take(i + 1).drop_last() =~= outcomes@.take(i as int));
        }
        match outcomes[i] {
            ItemOutcome::Written => written.push(i),
            ItemOutcome::Failed(e) => failures.push((i, e)),
        }
        i = i + 1;
    }
    assert(outcomes@.take(i as int) =~= outcomes@);
    BatchReport { written, failures }
}

} // verus!
