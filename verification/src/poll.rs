//! Asking the service again and again until a task is done.

use crate::model::HistoryItem;
use crate::text::{contains, joined, occurs_in, same_text};
use vstd::prelude::*;

verus! {

/// The seconds between two questions.
pub const POLL_INTERVAL_SECS: u64 = 3;

/// How often the service is asked at most.
pub const POLL_MAX_ATTEMPTS: usize = 120;

/// What to do after a question.
#[derive(Debug, PartialEq)]
pub enum PollStep {
    /// Ask no more.
    Stop,
    /// Ask again.
    Again,
    /// Mark the item as failed, with this message, and ask no more.
    Fail(String),
}

/// What a [`PollStep`] holds.
pub enum PollView {
    Stop,
    Again,
    Fail(Seq<char>),
}

impl View for PollStep {
    type V = PollView;

    open spec fn view(&self) -> PollView {
        match self {
            PollStep::Stop => PollView::Stop,
            PollStep::Again => PollView::Again,
            PollStep::Fail(m) => PollView::Fail(m@),
        }
    }
}

/// Whether asking again cannot mend the error `e`.
pub open spec fn is_final_error(e: Seq<char>) -> bool {
    occurs_in("缺少 task id"@, e) || occurs_in("历史记录不存在"@, e)
}

/// What to do after the question number `attempt`, counted from 0, was answered by `outcome`.
pub open spec fn after_question(attempt: int, outcome: Result<HistoryItem, String>) -> PollView {
    let last = attempt + 1 >= POLL_MAX_ATTEMPTS;
    match outcome {
        Ok(item) => if item@.status != "pending"@ || last {
            PollView::Stop
        } else {
            PollView::Again
        },
        Err(e) => if is_final_error(e@) {
            PollView::Fail(e@)
        } else if last {
            PollView::Fail("轮询超时："@ + e@)
        } else {
            PollView::Again
        },
    }
}

/// Says what to do after the question number `attempt`, counted from 0, was answered by `outcome`.
pub fn poll_step(attempt: usize, outcome: Result<HistoryItem, String>) -> (r: PollStep)
    ensures
        r@ == after_question(attempt as int, outcome),
{
    let last: bool = attempt >= POLL_MAX_ATTEMPTS - 1;
    match outcome {
        Ok(item) => {
            if !same_text(item.status.as_str(), "pending") || last {
                PollStep::Stop
            } else {
                PollStep::Again
            }
        },
        Err(e) => {
            if contains(e.as_str(), "缺少 task id") || contains(e.as_str(), "历史记录不存在") {
                PollStep::Fail(e)
            } else if last {
                PollStep::Fail(joined("轮询超时：", e.as_str()))
            } else {
                PollStep::Again
            }
        },
    }
}

}
