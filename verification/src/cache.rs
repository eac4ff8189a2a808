//! The legitimacy cache: a single slot that holds the forkchoiceUpdated
//! request and response most recently accepted, or nothing.
use crate::error::RelayError;
use crate::types::{fcu_pair, PairModel};
use vstd::prelude::*;

verus! {

/// The slot after `pair` replaced whatever it held.
pub open spec fn after_replace(slot: Option<PairModel>, pair: PairModel) -> Option<PairModel> {
    Some(pair)
}

/// The slot after the pairs replaced its content one after the other.
pub open spec fn after_replaces(slot: Option<PairModel>, pairs: Seq<PairModel>) -> Option<
    PairModel,
>
    decreases pairs.len(),
{
    if pairs.len() == 0 {
        slot
    } else {
        after_replace(after_replaces(slot, pairs.drop_last()), pairs.last())
    }
}

/// The pair that is offered as a fallback to the call with identifier `id`:
/// the pair held, its response under that identifier.
pub open spec fn fallback_of(slot: Option<PairModel>, id: u64) -> Option<PairModel> {
    match slot {
        Some(p) => Some(PairModel { req: p.req, resp: p.resp.with_id(id) }),
        None => None,
    }
}

/// A slot for at most one accepted pair.
#[derive(Debug)]
pub struct LegitimacyCache {
    slot: Option<fcu_pair>,
}

impl View for LegitimacyCache {
    type V = Option<PairModel>;

    closed spec fn view(&self) -> Option<PairModel> {
        match self.slot {
            Some(p) => Some(p@),
            None => None,
        }
    }
}

impl LegitimacyCache {
    /// An empty cache.
    pub fn new() -> (r: Self)
        ensures
            r@ is None,
    {
        LegitimacyCache { slot: None }
    }

    /// Whether no pair has been accepted yet.
    pub fn is_empty(&self) -> (r: bool)
        ensures
            r == (self@ is None),
    {
        self.slot.is_none()
    }

    /// A copy of the pair held, if any.
    pub fn read(&self) -> (r: Option<fcu_pair>)
        ensures
            match r {
                Some(p) => self@ == Some(p@),
                None => self@ is None,
            },
    {
        match &self.slot {
            Some(p) => Some(p.clone()),
            None => None,
        }
    }

    /// Puts `pair` in the place of whatever was held.
    pub fn replace(&mut self, pair: fcu_pair)
        ensures
            final(self)@ == after_replace(old(self)@, pair@),
    {
        self.slot = Some(pair);
    }

    /// The pair held, with the identifier `id` attached to its response, for
    /// the recovery of the call that carried `id`; `NoLegitimateState` where
    /// nothing is held.
    pub fn fallback(&self, id: u64) -> (r: Result<fcu_pair, RelayError>)
        ensures
            match r {
                Ok(p) => fallback_of(self@, id) == Some(p@),
                Err(e) => self@ is None && e == RelayError::NoLegitimateState,
            },
    {
        match &self.slot {
            Some(p) => Ok(fcu_pair { req: p.req.clone(), resp: p.resp.with_id(id) }),
            None => Err(RelayError::NoLegitimateState),
        }
    }
}

/// What is read after a replacement is exactly the pair that was put in,
/// whatever the slot held before.
pub proof fn read_after_replace(slot: Option<PairModel>, pair: PairModel)
    ensures
        after_replace(slot, pair) == Some(pair),
{
}

/// After any number of replacements, in whatever order they were applied, the
/// slot holds the last pair put in, whole: one of the pairs submitted, never
/// parts of two.
pub proof fn last_replacement_wins(slot: Option<PairModel>, pairs: Seq<PairModel>)
    requires
        pairs.len() > 0,
    ensures
        after_replaces(slot, pairs) == Some(pairs.last()),
        exists|i: int| 0 <= i < pairs.len() && after_replaces(slot, pairs) == Some(#[trigger] pairs[i]),
{
    assert(after_replaces(slot, pairs) == Some(pairs[pairs.len() - 1]));
}

} // verus!
