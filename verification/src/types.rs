//! The Engine API messages that the relay handles, each with its model.
//!
//! Field names are the keys of the JSON wire format.
use crate::text::optional_chars;
use vstd::prelude::*;

verus! {

/// A single validator withdrawal.
#[derive(Debug, PartialEq, Eq)]
pub struct WithdrawalV1 {
    pub index: String,
    pub validatorIndex: String,
    pub address: String,
    pub amount: String,
}

pub struct WithdrawalModel {
    pub index: Seq<char>,
    pub validator_index: Seq<char>,
    pub address: Seq<char>,
    pub amount: Seq<char>,
}

impl View for WithdrawalV1 {
    type V = WithdrawalModel;

    open spec fn view(&self) -> WithdrawalModel {
        WithdrawalModel {
            index: self.index@,
            validator_index: self.validatorIndex@,
            address: self.address@,
            amount: self.amount@,
        }
    }
}

/// The head, safe and finalized blocks that the consensus client designates.
#[derive(Debug, PartialEq, Eq)]
pub struct ForkchoiceStateV1 {
    pub headBlockHash: String,
    pub safeBlockHash: String,
    pub finalizedBlockHash: String,
}

pub struct ForkchoiceStateModel {
    pub head_block_hash: Seq<char>,
    pub safe_block_hash: Seq<char>,
    pub finalized_block_hash: Seq<char>,
}

impl View for ForkchoiceStateV1 {
    type V = ForkchoiceStateModel;

    open spec fn view(&self) -> ForkchoiceStateModel {
        ForkchoiceStateModel {
            head_block_hash: self.headBlockHash@,
            safe_block_hash: self.safeBlockHash@,
            finalized_block_hash: self.finalizedBlockHash@,
        }
    }
}

/// Parameters for building a block, optional on a forkchoiceUpdated call.
#[derive(Debug, PartialEq, Eq)]
pub struct PayloadAttributesV2 {
    pub timestamp: String,
    pub prevRandao: String,
    pub suggestedFeeRecipient: String,
    pub withdrawals: Option<Vec<WithdrawalV1>>,
}

pub struct PayloadAttributesModel {
    pub timestamp: Seq<char>,
    pub prev_randao: Seq<char>,
    pub suggested_fee_recipient: Seq<char>,
    pub withdrawals: Option<Seq<WithdrawalModel>>,
}

/// The models of a list of withdrawals, in order.
pub open spec fn withdrawal_models(ws: Seq<WithdrawalV1>) -> Seq<WithdrawalModel> {
    ws.map_values(|w: WithdrawalV1| w@)
}

/// The models of an optional list of withdrawals.
pub open spec fn optional_withdrawals(ws: Option<Vec<WithdrawalV1>>) -> Option<
    Seq<WithdrawalModel>,
> {
    match ws {
        Some(v) => Some(withdrawal_models(v@)),
        None => None,
    }
}

impl View for PayloadAttributesV2 {
    type V = PayloadAttributesModel;

    open spec fn view(&self) -> PayloadAttributesModel {
        PayloadAttributesModel {
            timestamp: self.timestamp@,
            prev_randao: self.prevRandao@,
            suggested_fee_recipient: self.suggestedFeeRecipient@,
            withdrawals: optional_withdrawals(self.withdrawals),
        }
    }
}

/// A block body, built or submitted.
#[derive(Debug, PartialEq, Eq)]
pub struct ExecutionPayloadV2 {
    pub parentHash: String,
    pub feeRecipient: String,
    pub stateRoot: String,
    pub receiptsRoot: String,
    pub logsBloom: String,
    pub prevRandao: String,
    pub blockNumber: String,
    pub gasLimit: String,
    pub gasUsed: String,
    pub timestamp: String,
    pub extraData: String,
    pub baseFeePerGas: String,
    pub blockHash: String,
    pub transactions: Vec<String>,
    pub withdrawals: Option<Vec<WithdrawalV1>>,
}

pub struct ExecutionPayloadModel {
    pub parent_hash: Seq<char>,
    pub fee_recipient: Seq<char>,
    pub state_root: Seq<char>,
    pub receipts_root: Seq<char>,
    pub logs_bloom: Seq<char>,
    pub prev_randao: Seq<char>,
    pub block_number: Seq<char>,
    pub gas_limit: Seq<char>,
    pub gas_used: Seq<char>,
    pub timestamp: Seq<char>,
    pub extra_data: Seq<char>,
    pub base_fee_per_gas: Seq<char>,
    pub block_hash: Seq<char>,
    /// The transactions, in the order of transmission.
    pub transactions: Seq<Seq<char>>,
    pub withdrawals: Option<Seq<WithdrawalModel>>,
}

/// The characters of each string of a list, in order.
pub open spec fn string_models(ts: Seq<String>) -> Seq<Seq<char>> {
    ts.map_values(|t: String| t@)
}

impl View for ExecutionPayloadV2 {
    type V = ExecutionPayloadModel;

    open spec fn view(&self) -> ExecutionPayloadModel {
        ExecutionPayloadModel {
            parent_hash: self.parentHash@,
            fee_recipient: self.feeRecipient@,
            state_root: self.stateRoot@,
            receipts_root: self.receiptsRoot@,
            logs_bloom: self.logsBloom@,
            prev_randao: self.prevRandao@,
            block_number: self.blockNumber@,
            gas_limit: self.gasLimit@,
            gas_used: self.gasUsed@,
            timestamp: self.timestamp@,
            extra_data: self.extraData@,
            base_fee_per_gas: self.baseFeePerGas@,
            block_hash: self.blockHash@,
            transactions: string_models(self.transactions@),
            withdrawals: optional_withdrawals(self.withdrawals),
        }
    }
}

/// An execution node's verdict on a payload or a forkchoice.
#[derive(Debug, Clone, Copy, PartialEq, Eq, Structural)]
pub enum ExecutionStatus {
    VALID,
    INVALID,
    SYNCING,
    ACCEPTED,
    INVALID_BLOCK_HASH,
}

/// The terminal-block settings that the two layers compare.
#[derive(Debug, PartialEq, Eq)]
pub struct TransitionConfigurationV1 {
    terminalTotalDifficulty: String,
    terminalBlockHash: String,
    terminalBlockNumber: String,
}

pub struct TransitionConfigurationModel {
    pub terminal_total_difficulty: Seq<char>,
    pub terminal_block_hash: Seq<char>,
    pub terminal_block_number: Seq<char>,
}

impl View for TransitionConfigurationV1 {
    type V = TransitionConfigurationModel;

    closed spec fn view(&self) -> TransitionConfigurationModel {
        TransitionConfigurationModel {
            terminal_total_difficulty: self.terminalTotalDifficulty@,
            terminal_block_hash: self.terminalBlockHash@,
            terminal_block_number: self.terminalBlockNumber@,
        }
    }
}

impl TransitionConfigurationV1 {
    pub fn new(
        terminalTotalDifficulty: String,
        terminalBlockHash: String,
        terminalBlockNumber: String,
    ) -> (r: Self)
        ensures
            r@ == (TransitionConfigurationModel {
                terminal_total_difficulty: terminalTotalDifficulty@,
                terminal_block_hash: terminalBlockHash@,
                terminal_block_number: terminalBlockNumber@,
            }),
    {
        TransitionConfigurationV1 { terminalTotalDifficulty, terminalBlockHash, terminalBlockNumber }
    }

    pub fn terminal_total_difficulty(&self) -> (r: &str)
        ensures
            r@ == self@.terminal_total_difficulty,
    {
        self.terminalTotalDifficulty.as_str()
    }

    pub fn terminal_block_hash(&self) -> (r: &str)
        ensures
            r@ == self@.terminal_block_hash,
    {
        self.terminalBlockHash.as_str()
    }

    pub fn terminal_block_number(&self) -> (r: &str)
        ensures
            r@ == self@.terminal_block_number,
    {
        self.terminalBlockNumber.as_str()
    }
}

/// The status part of a node's response.
#[derive(Debug, PartialEq, Eq)]
pub struct payloadStatusV1 {
    pub status: ExecutionStatus,
    pub latestValidHash: Option<String>,
    pub ValidationError: Option<String>,
}

pub struct PayloadStatusModel {
    pub status: ExecutionStatus,
    pub latest_valid_hash: Option<Seq<char>>,
    pub validation_error: Option<Seq<char>>,
}

impl View for payloadStatusV1 {
    type V = PayloadStatusModel;

    open spec fn view(&self) -> PayloadStatusModel {
        PayloadStatusModel {
            status: self.status,
            latest_valid_hash: optional_chars(self.latestValidHash),
            validation_error: optional_chars(self.ValidationError),
        }
    }
}

/// What a node returns for a forkchoiceUpdated call.
#[derive(Debug, PartialEq, Eq)]
pub struct forkchoiceUpdatedV1ResponseResult {
    pub payloadStatus: payloadStatusV1,
    pub payloadId: Option<String>,
}

pub struct ForkchoiceResultModel {
    pub payload_status: PayloadStatusModel,
    pub payload_id: Option<Seq<char>>,
}

impl View for forkchoiceUpdatedV1ResponseResult {
    type V = ForkchoiceResultModel;

    open spec fn view(&self) -> ForkchoiceResultModel {
        ForkchoiceResultModel {
            payload_status: self.payloadStatus@,
            payload_id: optional_chars(self.payloadId),
        }
    }
}

/// The response to a forkchoiceUpdated call, in its JSON-RPC envelope.
#[derive(Debug, PartialEq, Eq)]
pub struct forkchoiceUpdatedV1Response {
    pub jsonrpc: String,
    pub id: u64,
    pub result: forkchoiceUpdatedV1ResponseResult,
    pub error: Option<String>,
}

pub struct ForkchoiceResponseModel {
    pub jsonrpc: Seq<char>,
    pub id: u64,
    pub result: ForkchoiceResultModel,
    pub error: Option<Seq<char>>,
}

impl View for forkchoiceUpdatedV1Response {
    type V = ForkchoiceResponseModel;

    open spec fn view(&self) -> ForkchoiceResponseModel {
        ForkchoiceResponseModel {
            jsonrpc: self.jsonrpc@,
            id: self.id,
            result: self.result@,
            error: optional_chars(self.error),
        }
    }
}

/// The response to a newPayload call, in its JSON-RPC envelope.
#[derive(Debug, PartialEq, Eq)]
pub struct newPayloadV1Response {
    pub jsonrpc: String,
    pub id: u64,
    pub result: payloadStatusV1,
    pub error: Option<String>,
}

pub struct NewPayloadResponseModel {
    pub jsonrpc: Seq<char>,
    pub id: u64,
    pub result: PayloadStatusModel,
    pub error: Option<Seq<char>>,
}

impl View for newPayloadV1Response {
    type V = NewPayloadResponseModel;

    open spec fn view(&self) -> NewPayloadResponseModel {
        NewPayloadResponseModel {
            jsonrpc: self.jsonrpc@,
            id: self.id,
            result: self.result@,
            error: optional_chars(self.error),
        }
    }
}

/// A forkchoiceUpdated request: the state, and optionally what to build.
#[derive(Debug, PartialEq, Eq)]
pub struct forkchoiceUpdatedV2 {
    pub jsonrpc: String,
    pub id: u64,
    pub method: String,
    pub params: (ForkchoiceStateV1, Option<PayloadAttributesV2>),
}

pub struct ForkchoiceRequestModel {
    pub jsonrpc: Seq<char>,
    pub id: u64,
    pub method: Seq<char>,
    pub state: ForkchoiceStateModel,
    pub attributes: Option<PayloadAttributesModel>,
}

/// The model of optional payload attributes.
pub open spec fn optional_attributes(a: Option<PayloadAttributesV2>) -> Option<
    PayloadAttributesModel,
> {
    match a {
        Some(p) => Some(p@),
        None => None,
    }
}

impl View for forkchoiceUpdatedV2 {
    type V = ForkchoiceRequestModel;

    open spec fn view(&self) -> ForkchoiceRequestModel {
        ForkchoiceRequestModel {
            jsonrpc: self.jsonrpc@,
            id: self.id,
            method: self.method@,
            state: self.params.0@,
            attributes: optional_attributes(self.params.1),
        }
    }
}

/// A newPayload request.
#[derive(Debug, PartialEq, Eq)]
pub struct newPayloadV2 {
    pub jsonrpc: String,
    pub id: u64,
    pub method: String,
    pub params: Vec<ExecutionPayloadV2>,
}

pub struct NewPayloadRequestModel {
    pub jsonrpc: Seq<char>,
    pub id: u64,
    pub method: Seq<char>,
    pub params: Seq<ExecutionPayloadModel>,
}

/// The models of a list of payloads, in order.
pub open spec fn payload_models(ps: Seq<ExecutionPayloadV2>) -> Seq<ExecutionPayloadModel> {
    ps.map_values(|p: ExecutionPayloadV2| p@)
}

impl View for newPayloadV2 {
    type V = NewPayloadRequestModel;

    open spec fn view(&self) -> NewPayloadRequestModel {
        NewPayloadRequestModel {
            jsonrpc: self.jsonrpc@,
            id: self.id,
            method: self.method@,
            params: payload_models(self.params@),
        }
    }
}

/// An exchangeTransitionConfiguration message: a request carries `method`
/// and `params`, a response carries `result`.
#[derive(Debug, PartialEq, Eq)]
pub struct exchangeTransitionConfigurationV1 {
    pub jsonrpc: String,
    pub id: u64,
    pub method: Option<String>,
    pub params: Option<Vec<TransitionConfigurationV1>>,
    pub result: Option<TransitionConfigurationV1>,
}

pub struct TransitionExchangeModel {
    pub jsonrpc: Seq<char>,
    pub id: u64,
    pub method: Option<Seq<char>>,
    pub params: Option<Seq<TransitionConfigurationModel>>,
    pub result: Option<TransitionConfigurationModel>,
}

/// The models of a list of transition configurations, in order.
pub open spec fn configuration_models(cs: Seq<TransitionConfigurationV1>) -> Seq<
    TransitionConfigurationModel,
> {
    cs.map_values(|c: TransitionConfigurationV1| c@)
}

/// The models of an optional list of transition configurations.
pub open spec fn optional_configurations(cs: Option<Vec<TransitionConfigurationV1>>) -> Option<
    Seq<TransitionConfigurationModel>,
> {
    match cs {
        Some(v) => Some(configuration_models(v@)),
        None => None,
    }
}

/// The model of an optional transition configuration.
pub open spec fn optional_configuration(c: Option<TransitionConfigurationV1>) -> Option<
    TransitionConfigurationModel,
> {
    match c {
        Some(t) => Some(t@),
        None => None,
    }
}

impl View for exchangeTransitionConfigurationV1 {
    type V = TransitionExchangeModel;

    open spec fn view(&self) -> TransitionExchangeModel {
        TransitionExchangeModel {
            jsonrpc: self.jsonrpc@,
            id: self.id,
            method: optional_chars(self.method),
            params: optional_configurations(self.params),
            result: optional_configuration(self.result),
        }
    }
}

/// One forkchoiceUpdated request together with the response it got.
#[derive(Debug, PartialEq, Eq)]
pub struct fcu_pair {
    pub req: forkchoiceUpdatedV2,
    pub resp: forkchoiceUpdatedV1Response,
}

pub struct PairModel {
    pub req: ForkchoiceRequestModel,
    pub resp: ForkchoiceResponseModel,
}

impl View for fcu_pair {
    type V = PairModel;

    open spec fn view(&self) -> PairModel {
        PairModel { req: self.req@, resp: self.resp@ }
    }
}

/// A copy of an optional string.
pub fn clone_optional(s: &Option<String>) -> (r: Option<String>)
    ensures
        optional_chars(r) == optional_chars(*s),
{
    match s {
        Some(t) => Some(t.clone()),
        None => None,
    }
}

impl Clone for WithdrawalV1 {
    fn clone(&self) -> (r: Self)
        ensures
            r@ == self@,
    {
        WithdrawalV1 {
            index: self.index.clone(),
            validatorIndex: self.validatorIndex.clone(),
            address: self.address.clone(),
            amount: self.amount.clone(),
        }
    }
}

/// A copy of a list of withdrawals, in the same order.
pub fn clone_withdrawals(ws: &Vec<WithdrawalV1>) -> (r: Vec<WithdrawalV1>)
    ensures
        withdrawal_models(r@) == withdrawal_models(ws@),
{
    let mut r: Vec<WithdrawalV1> = Vec::new();
    let mut i: usize = 0;
    while i < ws.len()
        invariant
            i <= ws.len(),
            r.len() == i,
            forall|j: int| 0 <= j < i ==> r[j]@ == ws[j]@,
        decreases ws.len() - i,
    {
        r.push(ws[i].clone());
        i = i + 1;
    }
    assert(withdrawal_models(r@) =~= withdrawal_models(ws@));
    r
}

/// A copy of a list of strings, in the same order.
pub fn clone_strings(ts: &Vec<String>) -> (r: Vec<String>)
    ensures
        string_models(r@) == string_models(ts@),
{
    let mut r: Vec<String> = Vec::new();
    let mut i: usize = 0;
    while i < ts.len()
        invariant
            i <= ts.len(),
            r.len() == i,
            forall|j: int| 0 <= j < i ==> r[j]@ == ts[j]@,
        decreases ts.len() - i,
    {
        r.push(ts[i].clone());
        i = i + 1;
    }
    assert(string_models(r@) =~= string_models(ts@));
    r
}

impl Clone for ExecutionPayloadV2 {
    /// A copy with every field as it was; the transactions keep their order.
    fn clone(&self) -> (r: Self)
        ensures
            r@ == self@,
    {
        let withdrawals = match &self.withdrawals {
            Some(ws) => Some(clone_withdrawals(ws)),
            None => None,
        };
        ExecutionPayloadV2 {
            parentHash: self.parentHash.clone(),
            feeRecipient: self.feeRecipient.clone(),
            stateRoot: self.stateRoot.clone(),
            receiptsRoot: self.receiptsRoot.clone(),
            logsBloom: self.logsBloom.clone(),
            prevRandao: self.prevRandao.clone(),
            blockNumber: self.blockNumber.clone(),
            gasLimit: self.gasLimit.clone(),
            gasUsed: self.gasUsed.clone(),
            timestamp: self.timestamp.clone(),
            extraData: self.extraData.clone(),
            baseFeePerGas: self.baseFeePerGas.clone(),
            blockHash: self.blockHash.clone(),
            transactions: clone_strings(&self.transactions),
            withdrawals,
        }
    }
}

impl Clone for newPayloadV2 {
    fn clone(&self) -> (r: Self)
        ensures
            r@ == self@,
    {
        let mut params: Vec<ExecutionPayloadV2> = Vec::new();
        let mut i: usize = 0;
        while i < self.params.len()
            invariant
                i <= self.params.len(),
                params.len() == i,
                forall|j: int| 0 <= j < i ==> params[j]@ == self.params[j]@,
            decreases self.params.len() - i,
        {
            params.push(self.params[i].clone());
            i = i + 1;
        }
        assert(payload_models(params@) =~= payload_models(self.params@));
        newPayloadV2 {
            jsonrpc: self.jsonrpc.clone(),
            id: self.id,
            method: self.method.clone(),
            params,
        }
    }
}

impl Clone for ForkchoiceStateV1 {
    fn clone(&self) -> (r: Self)
        ensures
            r@ == self@,
    {
        ForkchoiceStateV1 {
            headBlockHash: self.headBlockHash.clone(),
            safeBlockHash: self.safeBlockHash.clone(),
            finalizedBlockHash: self.finalizedBlockHash.clone(),
        }
    }
}

impl Clone for PayloadAttributesV2 {
    fn clone(&self) -> (r: Self)
        ensures
            r@ == self@,
    {
        let withdrawals = match &self.withdrawals {
            Some(ws) => Some(clone_withdrawals(ws)),
            None => None,
        };
        PayloadAttributesV2 {
            timestamp: self.timestamp.clone(),
            prevRandao: self.prevRandao.clone(),
            suggestedFeeRecipient: self.suggestedFeeRecipient.clone(),
            withdrawals,
        }
    }
}

impl Clone for TransitionConfigurationV1 {
    fn clone(&self) -> (r: Self)
        ensures
            r@ == self@,
    {
        TransitionConfigurationV1 {
            terminalTotalDifficulty: self.terminalTotalDifficulty.clone(),
            terminalBlockHash: self.terminalBlockHash.clone(),
            terminalBlockNumber: self.terminalBlockNumber.clone(),
        }
    }
}

/// A copy of a list of transition configurations, in the same order.
pub fn clone_configurations(cs: &Vec<TransitionConfigurationV1>) -> (r: Vec<
    TransitionConfigurationV1,
>)
    ensures
        configuration_models(r@) == configuration_models(cs@),
{
    let mut r: Vec<TransitionConfigurationV1> = Vec::new();
    let mut i: usize = 0;
    while i < cs.len()
        invariant
            i <= cs.len(),
            r.len() == i,
            forall|j: int| 0 <= j < i ==> r[j]@ == cs[j]@,
        decreases cs.len() - i,
    {
        r.push(cs[i].clone());
        i = i + 1;
    }
    assert(configuration_models(r@) =~= configuration_models(cs@));
    r
}

impl Clone for payloadStatusV1 {
    fn clone(&self) -> (r: Self)
        ensures
            r@ == self@,
    {
        payloadStatusV1 {
            status: self.status,
            latestValidHash: clone_optional(&self.latestValidHash),
            ValidationError: clone_optional(&self.ValidationError),
        }
    }
}

impl Clone for forkchoiceUpdatedV1ResponseResult {
    fn clone(&self) -> (r: Self)
        ensures
            r@ == self@,
    {
        forkchoiceUpdatedV1ResponseResult {
            payloadStatus: self.payloadStatus.clone(),
            payloadId: clone_optional(&self.payloadId),
        }
    }
}

impl Clone for forkchoiceUpdatedV1Response {
    fn clone(&self) -> (r: Self)
        ensures
            r@ == self@,
    {
        forkchoiceUpdatedV1Response {
            jsonrpc: self.jsonrpc.clone(),
            id: self.id,
            result: self.result.clone(),
            error: clone_optional(&self.error),
        }
    }
}

impl Clone for newPayloadV1Response {
    fn clone(&self) -> (r: Self)
        ensures
            r@ == self@,
    {
        newPayloadV1Response {
            jsonrpc: self.jsonrpc.clone(),
            id: self.id,
            result: self.result.clone(),
            error: clone_optional(&self.error),
        }
    }
}

impl Clone for forkchoiceUpdatedV2 {
    fn clone(&self) -> (r: Self)
        ensures
            r@ == self@,
    {
        let attributes = match &self.params.1 {
            Some(a) => Some(a.clone()),
            None => None,
        };
        forkchoiceUpdatedV2 {
            jsonrpc: self.jsonrpc.clone(),
            id: self.id,
            method: self.method.clone(),
            params: (self.params.0.clone(), attributes),
        }
    }
}

impl Clone for exchangeTransitionConfigurationV1 {
    fn clone(&self) -> (r: Self)
        ensures
            r@ == self@,
    {
        let params = match &self.params {
            Some(cs) => Some(clone_configurations(cs)),
            None => None,
        };
        let result = match &self.result {
            Some(c) => Some(c.clone()),
            None => None,
        };
        exchangeTransitionConfigurationV1 {
            jsonrpc: self.jsonrpc.clone(),
            id: self.id,
            method: clone_optional(&self.method),
            params,
            result,
        }
    }
}

impl Clone for fcu_pair {
    fn clone(&self) -> (r: Self)
        ensures
            r@ == self@,
    {
        fcu_pair { req: self.req.clone(), resp: self.resp.clone() }
    }
}

} // verus!
