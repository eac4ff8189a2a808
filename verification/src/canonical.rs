//! The two renderings of a message.
//!
//! The live rendering carries the caller's request identifier. The canonical
//! rendering has the identifier forced to `0` and, for a forkchoiceUpdated
//! request, the payload attributes removed, so that calls which differ only
//! in these compare and persist as one logical event.
use crate::text::{models, render, rendered, EncodeError, Fragment};
use crate::types::{
    exchangeTransitionConfigurationV1, forkchoiceUpdatedV1Response, forkchoiceUpdatedV2,
    newPayloadV1Response, ForkchoiceRequestModel, ForkchoiceResponseModel,
    NewPayloadResponseModel, TransitionExchangeModel,
};
use vstd::prelude::*;

verus! {

/// The identifier of every canonical rendering.
pub const CANONICAL_ID: u64 = 0;

impl ForkchoiceRequestModel {
    /// The same request under another identifier.
    pub open spec fn with_id(self, id: u64) -> Self {
        ForkchoiceRequestModel { id, ..self }
    }

    /// The request with the identifier forced to `0` and without payload
    /// attributes.
    pub open spec fn canonical(self) -> Self {
        ForkchoiceRequestModel { id: CANONICAL_ID, attributes: None, ..self }
    }

    /// The live rendering.
    pub open spec fn text(self) -> Seq<char> {
        rendered(self.fragments())
    }

    /// The canonical rendering.
    pub open spec fn db_text(self) -> Seq<char> {
        self.canonical().text()
    }
}

impl ForkchoiceResponseModel {
    /// The same response under another identifier.
    pub open spec fn with_id(self, id: u64) -> Self {
        ForkchoiceResponseModel { id, ..self }
    }

    /// The response with the identifier forced to `0`.
    pub open spec fn canonical(self) -> Self {
        self.with_id(CANONICAL_ID)
    }

    /// The live rendering.
    pub open spec fn text(self) -> Seq<char> {
        rendered(self.fragments())
    }

    /// The canonical rendering.
    pub open spec fn db_text(self) -> Seq<char> {
        self.canonical().text()
    }
}

impl NewPayloadResponseModel {
    /// The same response under another identifier.
    pub open spec fn with_id(self, id: u64) -> Self {
        NewPayloadResponseModel { id, ..self }
    }

    /// The response with the identifier forced to `0`.
    pub open spec fn canonical(self) -> Self {
        self.with_id(CANONICAL_ID)
    }

    /// The live rendering.
    pub open spec fn text(self) -> Seq<char> {
        rendered(self.fragments())
    }

    /// The canonical rendering.
    pub open spec fn db_text(self) -> Seq<char> {
        self.canonical().text()
    }
}

impl TransitionExchangeModel {
    /// The same message under another identifier.
    pub open spec fn with_id(self, id: u64) -> Self {
        TransitionExchangeModel { id, ..self }
    }

    /// The message with the identifier forced to `0`.
    pub open spec fn canonical(self) -> Self {
        self.with_id(CANONICAL_ID)
    }

    /// The live rendering.
    pub open spec fn text(self) -> Seq<char> {
        rendered(self.fragments())
    }

    /// The canonical rendering.
    pub open spec fn db_text(self) -> Seq<char> {
        self.canonical().text()
    }
}

impl forkchoiceUpdatedV2 {
    /// A copy of this request under the identifier `id`.
    pub fn with_id(&self, id: u64) -> (r: Self)
        ensures
            r@ == self@.with_id(id),
    {
        let mut copy = self.clone();
        copy.id = id;
        copy
    }

    /// A copy of this request with the identifier forced to `0` and without
    /// payload attributes.
    pub fn canonical(&self) -> (r: Self)
        ensures
            r@ == self@.canonical(),
    {
        forkchoiceUpdatedV2 {
            jsonrpc: self.jsonrpc.clone(),
            id: CANONICAL_ID,
            method: self.method.clone(),
            params: (self.params.0.clone(), None),
        }
    }

    /// The live rendering of this request.
    pub fn to_json(&self) -> (r: Result<String, EncodeError>)
        ensures
            r matches Ok(t) && t@ == self@.text(),
    {
        let mut fragments: Vec<Fragment> = Vec::new();
        self.lay_out(&mut fragments);
        assert(models(fragments@) =~= self@.fragments());
        render(&fragments)
    }

    /// The canonical rendering of this request, as it is persisted.
    pub fn to_db(&self) -> (r: Result<String, EncodeError>)
        ensures
            r matches Ok(t) && t@ == self@.db_text(),
    {
        self.canonical().to_json()
    }
}

impl forkchoiceUpdatedV1Response {
    /// A copy of this response under the identifier `id`.
    pub fn with_id(&self, id: u64) -> (r: Self)
        ensures
            r@ == self@.with_id(id),
    {
        let mut copy = self.clone();
        copy.id = id;
        copy
    }

    /// The live rendering of this response.
    pub fn to_json(&self) -> (r: Result<String, EncodeError>)
        ensures
            r matches Ok(t) && t@ == self@.text(),
    {
        let mut fragments: Vec<Fragment> = Vec::new();
        self.lay_out(&mut fragments);
        assert(models(fragments@) =~= self@.fragments());
        render(&fragments)
    }

    /// The canonical rendering of this response, as it is persisted.
    pub fn to_db(&self) -> (r: Result<String, EncodeError>)
        ensures
            r matches Ok(t) && t@ == self@.db_text(),
    {
        self.with_id(CANONICAL_ID).to_json()
    }

    /// The rendering of this response under the identifier `id`, as it is
    /// returned to the caller that sent `id`.
    pub fn set_id(&self, id: u64) -> (r: Result<String, EncodeError>)
        ensures
            r matches Ok(t) && t@ == self@.with_id(id).text(),
    {
        self.with_id(id).to_json()
    }
}

impl newPayloadV1Response {
    /// A copy of this response under the identifier `id`.
    pub fn with_id(&self, id: u64) -> (r: Self)
        ensures
            r@ == self@.with_id(id),
    {
        let mut copy = self.clone();
        copy.id = id;
        copy
    }

    /// The live rendering of this response.
    pub fn to_json(&self) -> (r: Result<String, EncodeError>)
        ensures
            r matches Ok(t) && t@ == self@.text(),
    {
        let mut fragments: Vec<Fragment> = Vec::new();
        self.lay_out(&mut fragments);
        assert(models(fragments@) =~= self@.fragments());
        render(&fragments)
    }

    /// The canonical rendering of this response, as it is persisted.
    pub fn to_db(&self) -> (r: Result<String, EncodeError>)
        ensures
            r matches Ok(t) && t@ == self@.db_text(),
    {
        self.with_id(CANONICAL_ID).to_json()
    }

    /// The rendering of this response under the identifier `id`, as it is
    /// returned to the caller that sent `id`.
    pub fn set_id(&self, id: u64) -> (r: Result<String, EncodeError>)
        ensures
            r matches Ok(t) && t@ == self@.with_id(id).text(),
    {
        self.with_id(id).to_json()
    }
}

impl exchangeTransitionConfigurationV1 {
    /// A copy of this message under the identifier `id`.
    pub fn with_id(&self, id: u64) -> (r: Self)
        ensures
            r@ == self@.with_id(id),
    {
        let mut copy = self.clone();
        copy.id = id;
        copy
    }

    /// The live rendering of this message.
    pub fn to_json(&self) -> (r: Result<String, EncodeError>)
        ensures
            r matches Ok(t) && t@ == self@.text(),
    {
        let mut fragments: Vec<Fragment> = Vec::new();
        self.lay_out(&mut fragments);
        assert(models(fragments@) =~= self@.fragments());
        render(&fragments)
    }

    /// The canonical rendering of this message, as it is persisted.
    pub fn to_db(&self) -> (r: Result<String, EncodeError>)
        ensures
            r matches Ok(t) && t@ == self@.db_text(),
    {
        self.with_id(CANONICAL_ID).to_json()
    }

    /// The rendering of this message under the identifier `id`, as it is
    /// returned to the caller that sent `id`.
    pub fn set_id(&self, id: u64) -> (r: Result<String, EncodeError>)
        ensures
            r matches Ok(t) && t@ == self@.with_id(id).text(),
    {
        self.with_id(id).to_json()
    }
}

/// Canonicalizing a forkchoiceUpdated request twice is the same as doing it
/// once: the canonical form is its own canonical form, and it persists as the
/// same text as the request it was made from.
pub proof fn canonical_request_is_idempotent(m: ForkchoiceRequestModel)
    ensures
        m.canonical().canonical() == m.canonical(),
        m.canonical().db_text() == m.db_text(),
{
}

/// Canonicalizing a forkchoiceUpdated response twice is the same as doing it
/// once.
pub proof fn canonical_forkchoice_response_is_idempotent(m: ForkchoiceResponseModel)
    ensures
        m.canonical().canonical() == m.canonical(),
        m.canonical().db_text() == m.db_text(),
{
}

/// Canonicalizing a newPayload response twice is the same as doing it once.
pub proof fn canonical_payload_response_is_idempotent(m: NewPayloadResponseModel)
    ensures
        m.canonical().canonical() == m.canonical(),
        m.canonical().db_text() == m.db_text(),
{
}

/// Canonicalizing a transition-configuration message twice is the same as
/// doing it once.
pub proof fn canonical_exchange_is_idempotent(m: TransitionExchangeModel)
    ensures
        m.canonical().canonical() == m.canonical(),
        m.canonical().db_text() == m.db_text(),
{
}

/// Two forkchoiceUpdated requests that agree in everything but the identifier
/// and the payload attributes have the same canonical form and persist as the
/// same text.
pub proof fn canonical_request_ignores_id_and_attributes(
    a: ForkchoiceRequestModel,
    b: ForkchoiceRequestModel,
)
    requires
        a.jsonrpc == b.jsonrpc,
        a.method == b.method,
        a.state == b.state,
    ensures
        a.canonical() == b.canonical(),
        a.db_text() == b.db_text(),
{
}

/// The identifier under which a response was received leaves no trace in its
/// rendering under another identifier.
pub proof fn set_id_forgets_old_id(m: ForkchoiceResponseModel, first: u64, second: u64)
    ensures
        m.with_id(first).with_id(second) == m.with_id(second),
        m.with_id(first).canonical() == m.canonical(),
{
}

} // verus!
