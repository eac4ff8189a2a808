//! The decisions of the relay on one forkchoiceUpdated call: what a node's
//! answer amounts to, what to make of the two nodes' outcomes, when the
//! legitimacy cache changes, what is persisted, and what a failed write of
//! the record means for the reply.
//!
//! Nothing here waits or sends: the caller performs the outside work and
//! hands in what came of it.
use crate::cache::{after_replace, fallback_of, LegitimacyCache};
use crate::error::{NodeRole, RelayError};
use crate::text::EncodeError;
use crate::types::{
    fcu_pair, forkchoiceUpdatedV1Response, forkchoiceUpdatedV2, ExecutionStatus,
    ForkchoiceRequestModel, ForkchoiceResponseModel, PairModel,
};
use vstd::prelude::*;

verus! {

/// What was received from a node for one call.
#[derive(Debug, PartialEq, Eq)]
pub enum NodeAnswer {
    /// Nothing within the time budget.
    Silence,
    /// A JSON-RPC error object.
    ErrorObject,
    /// Text that is no forkchoiceUpdated response.
    Undecodable,
    /// A forkchoiceUpdated response.
    Decoded(forkchoiceUpdatedV1Response),
}

pub enum AnswerModel {
    Silence,
    ErrorObject,
    Undecodable,
    Decoded(ForkchoiceResponseModel),
}

impl View for NodeAnswer {
    type V = AnswerModel;

    open spec fn view(&self) -> AnswerModel {
        match self {
            NodeAnswer::Silence => AnswerModel::Silence,
            NodeAnswer::ErrorObject => AnswerModel::ErrorObject,
            NodeAnswer::Undecodable => AnswerModel::Undecodable,
            NodeAnswer::Decoded(r) => AnswerModel::Decoded(r@),
        }
    }
}

/// What came of one call to a node.
#[derive(Debug, PartialEq, Eq)]
pub enum NodeOutcome {
    /// The node answered with a result.
    Response(forkchoiceUpdatedV1Response),
    /// The node answered with a JSON-RPC error object.
    RpcError,
    /// The node did not answer within its time budget.
    Unreachable,
}

pub enum OutcomeModel {
    Response(ForkchoiceResponseModel),
    RpcError,
    Unreachable,
}

impl View for NodeOutcome {
    type V = OutcomeModel;

    open spec fn view(&self) -> OutcomeModel {
        match self {
            NodeOutcome::Response(r) => OutcomeModel::Response(r@),
            NodeOutcome::RpcError => OutcomeModel::RpcError,
            NodeOutcome::Unreachable => OutcomeModel::Unreachable,
        }
    }
}

/// The model of an optional outcome.
pub open spec fn optional_outcome(o: Option<NodeOutcome>) -> Option<OutcomeModel> {
    match o {
        Some(x) => Some(x@),
        None => None,
    }
}

/// The model of a classified answer.
pub open spec fn classified_model(r: Result<NodeOutcome, RelayError>) -> Result<
    OutcomeModel,
    RelayError,
> {
    match r {
        Ok(o) => Ok(o@),
        Err(e) => Err(e),
    }
}

/// What the relay does about a forkchoiceUpdated call.
#[derive(Debug, PartialEq, Eq)]
pub enum Verdict {
    /// The caller gets the authenticated node's response, under the caller's
    /// own identifier. `accepted` says whether the call was judged legitimate:
    /// the request and the node's response are then in the cache and are to
    /// be persisted.
    Reply { response: forkchoiceUpdatedV1Response, accepted: bool },
    /// The authenticated node could not be reached, and this is the pair that
    /// the cache holds, its response under the caller's identifier. It is
    /// offered to the recovery collaborator, which decides whether it takes
    /// the place of a reply.
    Fallback { pair: fcu_pair },
    /// The call fails with this error.
    Fail(RelayError),
}

pub enum VerdictModel {
    Reply { response: ForkchoiceResponseModel, accepted: bool },
    Fallback { pair: PairModel },
    Fail(RelayError),
}

impl View for Verdict {
    type V = VerdictModel;

    open spec fn view(&self) -> VerdictModel {
        match self {
            Verdict::Reply { response, accepted } => VerdictModel::Reply {
                response: response@,
                accepted: *accepted,
            },
            Verdict::Fallback { pair } => VerdictModel::Fallback { pair: pair@ },
            Verdict::Fail(e) => VerdictModel::Fail(*e),
        }
    }
}

/// The model of an optional pair.
pub open spec fn optional_pair(p: Option<fcu_pair>) -> Option<PairModel> {
    match p {
        Some(x) => Some(x@),
        None => None,
    }
}

/// The authoritative outcome of a call, and what there is to log about the
/// advisory node.
#[derive(Debug, PartialEq, Eq)]
pub struct Reconciled {
    pub outcome: NodeOutcome,
    pub note: Option<RelayError>,
}

/// A verdict, and what there is to log about the write of the record.
#[derive(Debug, PartialEq, Eq)]
pub struct Concluded {
    pub verdict: Verdict,
    pub note: Option<RelayError>,
}

/// What a node's answer amounts to: silence is an unreachable node, an error
/// object an RPC error, a well-formed response a response; anything else is
/// a decoding error.
pub open spec fn classified(answer: AnswerModel) -> Result<OutcomeModel, RelayError> {
    match answer {
        AnswerModel::Silence => Ok(OutcomeModel::Unreachable),
        AnswerModel::ErrorObject => Ok(OutcomeModel::RpcError),
        AnswerModel::Undecodable => Err(RelayError::DecodeError),
        AnswerModel::Decoded(resp) => if resp.well_formed() {
            Ok(OutcomeModel::Response(resp))
        } else {
            Err(RelayError::DecodeError)
        },
    }
}

/// What is logged about the advisory node: that it could not be reached.
pub open spec fn advisory_note(advisory: Option<OutcomeModel>) -> Option<RelayError> {
    match advisory {
        Some(OutcomeModel::Unreachable) => Some(RelayError::NodeUnreachable(NodeRole::Unauthenticated)),
        _ => None,
    }
}

/// Whether a response judges the forkchoice legitimate.
pub open spec fn accepts(resp: ForkchoiceResponseModel) -> bool {
    resp.result.payload_status.status == ExecutionStatus::VALID
}

/// The pair that is cached for a request and the response it got: both as
/// they came.
pub open spec fn pair_of(req: ForkchoiceRequestModel, resp: ForkchoiceResponseModel) -> PairModel {
    PairModel { req, resp }
}

/// The cache after the authenticated node's outcome for `req` was settled.
pub open spec fn settled_cache(
    slot: Option<PairModel>,
    req: ForkchoiceRequestModel,
    outcome: OutcomeModel,
) -> Option<PairModel> {
    match outcome {
        OutcomeModel::Response(resp) => if accepts(resp) {
            after_replace(slot, pair_of(req, resp))
        } else {
            slot
        },
        _ => slot,
    }
}

/// The verdict on the authenticated node's outcome for `req`.
pub open spec fn settled_verdict(
    slot: Option<PairModel>,
    req: ForkchoiceRequestModel,
    outcome: OutcomeModel,
) -> VerdictModel {
    match outcome {
        OutcomeModel::Response(resp) => VerdictModel::Reply {
            response: resp.with_id(req.id),
            accepted: accepts(resp),
        },
        OutcomeModel::RpcError => VerdictModel::Fail(RelayError::NodeRpcError),
        OutcomeModel::Unreachable => match fallback_of(slot, req.id) {
            Some(pair) => VerdictModel::Fallback { pair },
            None => VerdictModel::Fail(RelayError::NoLegitimateState),
        },
    }
}

/// The pair whose record is handed to the persistence collaborator after a
/// verdict on `req`: the request and the response of an accepted call, and
/// nothing after any other verdict.
pub open spec fn persisted_pair(verdict: VerdictModel, req: ForkchoiceRequestModel) -> Option<
    PairModel,
> {
    match verdict {
        VerdictModel::Reply { response, accepted } => if accepted {
            Some(PairModel { req, resp: response })
        } else {
            None
        },
        _ => None,
    }
}

/// What is logged about the write of the record: that it failed.
pub open spec fn persistence_note(written: Option<bool>) -> Option<RelayError> {
    if written == Some(false) {
        Some(RelayError::PersistenceError)
    } else {
        None
    }
}

/// Whether a slot is empty or holds a pair that was accepted: one whose
/// response is VALID.
pub open spec fn legitimate(slot: Option<PairModel>) -> bool {
    match slot {
        Some(p) => accepts(p.resp),
        None => true,
    }
}

/// Says what a node's answer amounts to.
pub fn classify(answer: NodeAnswer) -> (r: Result<NodeOutcome, RelayError>)
    ensures
        classified_model(r) == classified(answer@),
{
    match answer {
        NodeAnswer::Silence => Ok(NodeOutcome::Unreachable),
        NodeAnswer::ErrorObject => Ok(NodeOutcome::RpcError),
        NodeAnswer::Undecodable => Err(RelayError::DecodeError),
        NodeAnswer::Decoded(resp) => match resp.validate() {
            Ok(()) => Ok(NodeOutcome::Response(resp)),
            Err(e) => Err(e),
        },
    }
}

/// Puts the outcomes of the two nodes together. The authenticated node's
/// outcome stands as it is; the unauthenticated node's outcome only leaves a
/// note for the log where that node could not be reached. `advisory` is
/// `None` where no such node is configured or it was not waited for.
pub fn reconcile(authoritative: NodeOutcome, advisory: Option<NodeOutcome>) -> (r: Reconciled)
    ensures
        r.outcome == authoritative,
        r.note == advisory_note(optional_outcome(advisory)),
{
    let note = match advisory {
        Some(NodeOutcome::Unreachable) => Some(
            RelayError::NodeUnreachable(NodeRole::Unauthenticated),
        ),
        _ => None,
    };
    Reconciled { outcome: authoritative, note }
}

/// Settles the authenticated node's outcome for the request `req`.
///
/// A response is returned to the caller under the request's identifier,
/// whatever its status. If the status is VALID, the request and the response,
/// both as they came, take the place of the cache's content; any other
/// outcome leaves the cache as it was. A JSON-RPC error is surfaced. If the
/// node could not be reached, the cached pair is offered as a fallback, and
/// the call fails with `NoLegitimateState` where the cache is empty.
pub fn settle(cache: &mut LegitimacyCache, req: &forkchoiceUpdatedV2, outcome: NodeOutcome) -> (r:
    Verdict)
    ensures
        final(cache)@ == settled_cache(old(cache)@, req@, outcome@),
        r@ == settled_verdict(old(cache)@, req@, outcome@),
{
    match outcome {
        NodeOutcome::Response(resp) => {
            let response = resp.with_id(req.id);
            match resp.result.payloadStatus.status {
                ExecutionStatus::VALID => {
                    cache.replace(fcu_pair { req: req.clone(), resp });
                    Verdict::Reply { response, accepted: true }
                },
                _ => Verdict::Reply { response, accepted: false },
            }
        },
        NodeOutcome::RpcError => Verdict::Fail(RelayError::NodeRpcError),
        NodeOutcome::Unreachable => match cache.fallback(req.id) {
            Ok(pair) => Verdict::Fallback { pair },
            Err(e) => Verdict::Fail(e),
        },
    }
}

impl Verdict {
    /// The pair whose record is to be written after this verdict on `req`,
    /// if any.
    pub fn to_persist(&self, req: &forkchoiceUpdatedV2) -> (r: Option<fcu_pair>)
        ensures
            optional_pair(r) == persisted_pair(self@, req@),
    {
        match self {
            Verdict::Reply { response, accepted } => {
                if *accepted {
                    Some(fcu_pair { req: req.clone(), resp: response.clone() })
                } else {
                    None
                }
            },
            _ => None,
        }
    }
}

/// Closes a call after the record was handed to the persistence
/// collaborator: the verdict stands as it was computed, and a failed write
/// only leaves a note for the log. `written` is `None` where there was
/// nothing to write.
pub fn conclude(verdict: Verdict, written: Option<bool>) -> (r: Concluded)
    ensures
        r.verdict == verdict,
        r.note == persistence_note(written),
{
    let note = match written {
        Some(false) => Some(RelayError::PersistenceError),
        _ => None,
    };
    Concluded { verdict, note }
}

impl fcu_pair {
    /// The record of this pair for the persistence collaborator: the
    /// canonical renderings of the request and of the response.
    pub fn record(&self) -> (r: Result<(String, String), EncodeError>)
        ensures
            r matches Ok(texts) && texts.0@ == self@.req.db_text() && texts.1@
                == self@.resp.db_text(),
    {
        let request = match self.req.to_db() {
            Ok(t) => t,
            Err(e) => {
                return Err(e);
            },
        };
        match self.resp.to_db() {
            Ok(response) => Ok((request, response)),
            Err(e) => Err(e),
        }
    }
}

/// A response with status VALID puts the request and the response, as they
/// came, in the cache; a response with any other status, INVALID among them,
/// leaves the cache as it was.
pub proof fn cache_updated_iff_valid(
    slot: Option<PairModel>,
    req: ForkchoiceRequestModel,
    resp: ForkchoiceResponseModel,
)
    ensures
        accepts(resp) ==> settled_cache(slot, req, OutcomeModel::Response(resp)) == Some(
            PairModel { req, resp },
        ),
        !accepts(resp) ==> settled_cache(slot, req, OutcomeModel::Response(resp)) == slot,
{
}

/// Where the node gave no response, the cache stays as it was.
pub proof fn failure_leaves_cache(slot: Option<PairModel>, req: ForkchoiceRequestModel)
    ensures
        settled_cache(slot, req, OutcomeModel::RpcError) == slot,
        settled_cache(slot, req, OutcomeModel::Unreachable) == slot,
{
}

/// A cache that holds nothing but accepted pairs still does after any
/// outcome was settled.
pub proof fn settling_keeps_cache_legitimate(
    slot: Option<PairModel>,
    req: ForkchoiceRequestModel,
    outcome: OutcomeModel,
)
    requires
        legitimate(slot),
    ensures
        legitimate(settled_cache(slot, req, outcome)),
{
}

/// The relay never answers a response with anything but that response: the
/// caller sees the node's own status, and the cache's content is offered
/// only where the node could not be reached.
pub proof fn response_is_never_replaced(
    slot: Option<PairModel>,
    req: ForkchoiceRequestModel,
    resp: ForkchoiceResponseModel,
)
    ensures
        settled_verdict(slot, req, OutcomeModel::Response(resp)) matches VerdictModel::Reply {
            response,
            ..
        } && response == resp.with_id(req.id),
{
}

/// With an empty cache and the node out of reach the call fails with
/// `NoLegitimateState`; with a pair in the cache that pair is offered.
pub proof fn unreachable_node_falls_back(slot: Option<PairModel>, req: ForkchoiceRequestModel)
    ensures
        slot is None ==> settled_verdict(slot, req, OutcomeModel::Unreachable)
            == VerdictModel::Fail(RelayError::NoLegitimateState),
        slot matches Some(p) ==> settled_verdict(slot, req, OutcomeModel::Unreachable)
            == (VerdictModel::Fallback { pair: PairModel { req: p.req, resp: p.resp.with_id(req.id) } }),
{
}

/// After a VALID response, what is persisted is what is cached, but for the
/// identifier of the response, and its record is the canonical text of the
/// request, with identifier `0` and without payload attributes, and the
/// canonical text of the node's response.
pub proof fn accepted_call_is_cached_and_persisted(
    slot: Option<PairModel>,
    req: ForkchoiceRequestModel,
    resp: ForkchoiceResponseModel,
)
    requires
        accepts(resp),
    ensures
        settled_cache(slot, req, OutcomeModel::Response(resp)) == Some(PairModel { req, resp }),
        persisted_pair(settled_verdict(slot, req, OutcomeModel::Response(resp)), req)
            matches Some(p) && p.req == req && p.resp == resp.with_id(req.id) && p.req.db_text()
            == req.canonical().text() && p.resp.db_text() == resp.db_text(),
{
}

/// Nothing is persisted unless the node's response is VALID.
pub proof fn only_accepted_calls_are_persisted(
    slot: Option<PairModel>,
    req: ForkchoiceRequestModel,
    outcome: OutcomeModel,
)
    ensures
        persisted_pair(settled_verdict(slot, req, outcome), req) is Some <==> (outcome
            matches OutcomeModel::Response(resp) && accepts(resp)),
{
}

} // verus!
