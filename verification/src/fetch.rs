//! Answers to requests for image files, and what each of them means.

use crate::error::{unavailable_text, AppError, AppErrorView};
use crate::url::Extension;
use vstd::prelude::*;

verus! {

/// What came of asking for a file.
#[derive(Debug, PartialEq, Eq)]
pub enum FetchReply<B> {
    /// No answer arrived, or its body broke off.
    Failed,
    /// An answer with its HTTP status and its body.
    Answered { status: u16, body: B },
}

/// What came of asking for the file of an image in one format.
#[derive(Debug, PartialEq, Eq)]
pub struct ProbeReply<B> {
    pub extension: Extension,
    pub reply: FetchReply<B>,
}

impl<B> FetchReply<B> {
    /// Whether the answer carries the file: it came with status 200.
    pub open spec fn delivered(self) -> bool {
        self matches FetchReply::Answered { status, .. } && status == 200
    }

    /// Whether the answer carries the file.
    pub fn is_delivered(&self) -> (yes: bool)
        ensures
            yes == self.delivered(),
    {
        match self {
            FetchReply::Answered { status, .. } => *status == 200,
            FetchReply::Failed => false,
        }
    }

    /// What an answer gives: the file where it was delivered; where it was
    /// not, a wrong address for status 404, an unavailable work for any
    /// other status, and an unreachable server where nothing arrived.
    pub open spec fn outcome(self) -> Result<B, AppErrorView> {
        match self {
            FetchReply::Failed => Err(AppErrorView::ServerUnreachable),
            FetchReply::Answered { status, body } => if status == 200 {
                Ok(body)
            } else if status == 404 {
                Err(AppErrorView::WrongArtworkUrl)
            } else {
                Err(AppErrorView::ArtworkUnavailable { message: unavailable_text() })
            },
        }
    }

    /// The file that the answer carries, or the failure that it stands for.
    pub fn into_result(self) -> (result: Result<B, AppError>)
        ensures
            match result {
                Ok(body) => self.outcome() == Ok::<B, AppErrorView>(body),
                Err(error) => self.outcome() == Err::<B, AppErrorView>(error@),
            },
    {
        match self {
            FetchReply::Failed => Err(AppError::ServerUnreachable),
            FetchReply::Answered { status, body } => {
                if status == 200 {
                    Ok(body)
                } else if status == 404 {
                    Err(AppError::WrongArtworkUrl)
                } else {
                    Err(AppError::unavailable(None))
                }
            },
        }
    }
}

/// The position of the first answer in `replies` that carries the file.
pub open spec fn first_delivered<B>(replies: Seq<ProbeReply<B>>) -> Option<int>
    decreases replies.len(),
{
    if replies.len() == 0 {
        None
    } else {
        match first_delivered(replies.drop_last()) {
            Some(at) => Some(at),
            None => if replies.last().reply.delivered() {
                Some(replies.len() - 1)
            } else {
                None
            },
        }
    }
}

/// `first_delivered` in terms of positions: it names an answer that carries
/// the file and that none such precedes, and names none only where no
/// answer carries the file.
pub proof fn lemma_first_delivered<B>(replies: Seq<ProbeReply<B>>)
    ensures
        match first_delivered(replies) {
            Some(at) => {
                &&& 0 <= at < replies.len()
                &&& replies[at].reply.delivered()
                &&& forall|j: int| 0 <= j < at ==> !(#[trigger] replies[j]).reply.delivered()
            },
            None => forall|j: int| 0 <= j < replies.len() ==> !(#[trigger] replies[j]).reply.delivered(),
        },
    decreases replies.len(),
{
    if replies.len() > 0 {
        let front = replies.drop_last();
        lemma_first_delivered(front);
        assert forall|j: int| 0 <= j < front.len() implies front[j] == replies[j] by {}
        match first_delivered(front) {
            Some(at) => {
                assert forall|j: int| 0 <= j < at implies !(#[trigger] replies[j]).reply.delivered() by {
                    assert(front[j] == replies[j]);
                }
            },
            None => {
                assert forall|j: int| 0 <= j < front.len() implies !(#[trigger] replies[j]).reply.delivered() by {
                    assert(front[j] == replies[j]);
                }
            },
        }
    }
}

/// Finds the first answer that carries the file.
pub fn find_delivered<B>(replies: &Vec<ProbeReply<B>>) -> (found: Option<usize>)
    ensures
        match found {
            Some(at) => first_delivered(replies@) == Some(at as int),
            None => first_delivered(replies@) is None,
        },
{
    let mut i: usize = 0;
    while i < replies.len()
        invariant
            i <= replies.len(),
            first_delivered(replies@.take(i as int)) is None,
        decreases replies.len() - i,
    {
        assert(replies@.take(i + 1).drop_last() == replies@.take(i as int));
        if replies[i].reply.is_delivered() {
            proof {
                lemma_first_delivered_extends(replies@, i + 1);
            }
            return Some(i);
        }
        i += 1;
    }
    assert(replies@.take(i as int) == replies@);
    None
}

proof fn lemma_first_delivered_extends<B>(replies: Seq<ProbeReply<B>>, k: int)
    requires
        0 <= k <= replies.len(),
        first_delivered(replies.take(k)) is Some,
    ensures
        first_delivered(replies) == first_delivered(replies.take(k)),
    decreases replies.len() - k,
{
    if k == replies.len() {
        assert(replies.take(k) == replies);
    } else {
        assert(replies.take(k + 1).drop_last() == replies.take(k));
        lemma_first_delivered_extends(replies, k + 1);
    }
}

} // verus!
