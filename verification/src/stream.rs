//! The decisions of a subscription stream: which frames of a subscription
//! become depth events, and when the stream ends.

use crate::api::subscribe::DepthEvent;
use crate::bus::{Pulled, Subscription};
use crate::api::subscribe::{member, DepthEventModel};
use crate::codec::{decode, decoded, ParseError};
use crate::json::{parsed, Json};
use vstd::prelude::*;

verus! {

/// What a depth stream does with what its subscription had.
#[derive(Clone, Debug, PartialEq, Eq)]
pub enum StreamStep {
    /// Hand this event to the consumer.
    Yield(DepthEvent),
    /// Nothing to hand on: the frame was no depth event, or frames were
    /// lost. Pull again.
    Skip,
    /// Nothing has come yet: wait for the next frame.
    Wait,
    /// The stream is over.
    End,
}

/// Decides the step of a depth stream. A frame that decodes is yielded, any
/// other frame is passed over without a word, and so is a gap left by lost
/// frames: the stream goes on with the frames that are still held. An empty
/// subscription is waited for; the stream ends only when the bus is closed.
pub fn depth_step(pulled: Pulled) -> (r: StreamStep)
    ensures
        match pulled {
            Pulled::Frame(text) => match decoded(text@) {
                Ok(event) => r is Yield && r->Yield_0@ == event,
                Err(_) => r is Skip,
            },
            Pulled::Empty => r is Wait,
            Pulled::Lagged(_) => r is Skip,
            Pulled::Closed => r is End,
        },
{
    match pulled {
        Pulled::Frame(text) => match decode(text.as_str()) {
            Ok(event) => StreamStep::Yield(event),
            Err(_) => StreamStep::Skip,
        },
        Pulled::Empty => StreamStep::Wait,
        Pulled::Lagged(_) => StreamStep::Skip,
        Pulled::Closed => StreamStep::End,
    }
}

/// Whether a JSON value is an object with a member under the key.
pub open spec fn has_member(j: Json, key: Seq<char>) -> bool {
    match j {
        Json::Object(members) => member(members@, key).is_some(),
        _ => false,
    }
}

/// A frame that is JSON but lacks the member `bids` or the member `asks`
/// decodes to no event, so a depth stream passes over it; the step after it
/// is decided by the next frame alone.
pub proof fn lemma_frame_without_side_is_passed_over(text: Seq<char>)
    requires
        parsed(text).is_some(),
        !has_member(parsed(text).unwrap(), "bids"@) || !has_member(parsed(text).unwrap(), "asks"@),
    ensures
        decoded(text) == Err::<DepthEventModel, ParseError>(ParseError::WrongShape),
{
}

/// Pulls from a subscription, without waiting, until a step other than
/// `Skip` comes or `budget` pulls were passed over. What is pulled depends
/// on the bus; the step returned is the one that the pulled values lead to,
/// as [`explains`] says. Without a budget nothing is pulled.
pub fn poll_depth_event(subscription: &mut Subscription, budget: usize) -> (r: StreamStep)
    ensures
        exists|pulls: Seq<Pulled>| #[trigger] explains(pulls, budget as int, r),
        budget == 0 ==> r is Skip && *final(subscription) == *old(subscription),
        final(subscription).channel() == old(subscription).channel(),
{
    let mut left: usize = budget;
    let ghost mut pulls: Seq<Pulled> = Seq::empty();
    while left > 0
        invariant
            left <= budget,
            pulls.len() == budget - left,
            left == budget ==> *subscription == *old(subscription),
            subscription.channel() == old(subscription).channel(),
            forall|i: int| 0 <= i < pulls.len() ==> leads_to(#[trigger] pulls[i], StreamStep::Skip),
        decreases left,
    {
        let pulled = subscription.try_next();
        let ghost taken = pulled;
        let step = depth_step(pulled);
        proof {
            pulls = pulls.push(taken);
            assert(leads_to(taken, step));
        }
        match step {
            StreamStep::Skip => {},
            other => {
                assert(explains(pulls, budget as int, other));
                return other;
            },
        }
        left -= 1;
    }
    assert(explains(pulls, budget as int, StreamStep::Skip));
    StreamStep::Skip
}

/// Whether a pulled value leads a depth stream to a step: a frame that
/// decodes to its event, any other frame and a lag to `Skip`, an empty
/// subscription to `Wait`, a closed bus to `End`.
pub open spec fn leads_to(pulled: Pulled, step: StreamStep) -> bool {
    match pulled {
        Pulled::Frame(text) => match decoded(text@) {
            Ok(event) => step is Yield && step->Yield_0@ == event,
            Err(_) => step is Skip,
        },
        Pulled::Empty => step is Wait,
        Pulled::Lagged(_) => step is Skip,
        Pulled::Closed => step is End,
    }
}

/// Whether a run of pulled values, in the order of pulling, explains the
/// step that a poll with a budget returns: the run is no longer than the
/// budget; every value but the last leads to `Skip`; a step other than `Skip`
/// is what the last value leads to; and `Skip` is returned only when the
/// budget is spent on values that all lead to `Skip`.
pub open spec fn explains(pulls: Seq<Pulled>, budget: int, step: StreamStep) -> bool {
    &&& pulls.len() <= budget
    &&& forall|i: int|
        0 <= i < pulls.len() - 1 ==> leads_to(#[trigger] pulls[i], StreamStep::Skip)
    &&& if step is Skip {
        pulls.len() == budget && (pulls.len() > 0 ==> leads_to(pulls.last(), StreamStep::Skip))
    } else {
        pulls.len() > 0 && leads_to(pulls.last(), step)
    }
}

} // verus!
