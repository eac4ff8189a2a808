//! The wire layout of each message: its compact JSON document as a list of
//! fragments, with the fields in the order of their declaration.
use crate::error::RelayError;
use crate::text::{
    decimal, models, optional_text, push_number, push_optional_text, push_raw, push_text, raw,
    same_text, Fragment, FragmentModel,
};
use crate::types::{
    configuration_models, exchangeTransitionConfigurationV1, forkchoiceUpdatedV1Response,
    forkchoiceUpdatedV1ResponseResult, forkchoiceUpdatedV2, newPayloadV1Response,
    payloadStatusV1, withdrawal_models, ExecutionStatus, ForkchoiceRequestModel,
    ForkchoiceResponseModel, ForkchoiceResultModel, ForkchoiceStateModel, ForkchoiceStateV1,
    NewPayloadResponseModel, PayloadAttributesModel, PayloadAttributesV2, PayloadStatusModel,
    TransitionConfigurationModel, TransitionConfigurationV1, TransitionExchangeModel,
    WithdrawalModel, WithdrawalV1,
};
use vstd::prelude::*;

verus! {

/// The items of a list laid end to end, with a comma between neighbours.
pub open spec fn separated(items: Seq<Seq<FragmentModel>>) -> Seq<FragmentModel>
    decreases items.len(),
{
    if items.len() == 0 {
        Seq::empty()
    } else if items.len() == 1 {
        items[0]
    } else {
        separated(items.drop_last()) + seq![raw(",")] + items.last()
    }
}

/// A JSON array of the given items.
pub open spec fn array(items: Seq<Seq<FragmentModel>>) -> Seq<FragmentModel> {
    seq![raw("[")] + separated(items) + seq![raw("]")]
}

/// How `separated` grows when one more item is taken.
proof fn lemma_separated_step(items: Seq<Seq<FragmentModel>>, i: int)
    requires
        0 <= i < items.len(),
    ensures
        separated(items.take(i + 1)) == if i == 0 {
            items[0]
        } else {
            separated(items.take(i)) + seq![raw(",")] + items[i]
        },
{
    assert(items.take(i + 1).drop_last() =~= items.take(i));
    assert(items.take(i + 1).last() == items[i]);
    assert(items.take(i + 1)[0] == items[0]);
}

impl ExecutionStatus {
    /// The name of the status on the wire.
    pub open spec fn wire_name(self) -> Seq<char> {
        match self {
            ExecutionStatus::VALID => "VALID"@,
            ExecutionStatus::INVALID => "INVALID"@,
            ExecutionStatus::SYNCING => "SYNCING"@,
            ExecutionStatus::ACCEPTED => "ACCEPTED"@,
            ExecutionStatus::INVALID_BLOCK_HASH => "INVALID_BLOCK_HASH"@,
        }
    }

    /// The name of the status on the wire.
    pub fn name(&self) -> (r: &'static str)
        ensures
            r@ == self.wire_name(),
    {
        match self {
            ExecutionStatus::VALID => "VALID",
            ExecutionStatus::INVALID => "INVALID",
            ExecutionStatus::SYNCING => "SYNCING",
            ExecutionStatus::ACCEPTED => "ACCEPTED",
            ExecutionStatus::INVALID_BLOCK_HASH => "INVALID_BLOCK_HASH",
        }
    }

    /// Decodes a status from its name on the wire: the status whose name is
    /// exactly `name`, or `DecodeError` where there is none.
    pub fn from_name(name: &str) -> (r: Result<ExecutionStatus, RelayError>)
        ensures
            match r {
                Ok(s) => s.wire_name() == name@,
                Err(e) => e == RelayError::DecodeError && forall|s: ExecutionStatus|
                    s.wire_name() != name@,
            },
    {
        if same_text(name, "VALID") {
            Ok(ExecutionStatus::VALID)
        } else if same_text(name, "INVALID") {
            Ok(ExecutionStatus::INVALID)
        } else if same_text(name, "SYNCING") {
            Ok(ExecutionStatus::SYNCING)
        } else if same_text(name, "ACCEPTED") {
            Ok(ExecutionStatus::ACCEPTED)
        } else if same_text(name, "INVALID_BLOCK_HASH") {
            Ok(ExecutionStatus::INVALID_BLOCK_HASH)
        } else {
            Err(RelayError::DecodeError)
        }
    }
}

/// No two statuses share a name.
pub proof fn status_names_are_distinct(a: ExecutionStatus, b: ExecutionStatus)
    requires
        a.wire_name() == b.wire_name(),
    ensures
        a == b,
{
    reveal_strlit("VALID");
    reveal_strlit("INVALID");
    reveal_strlit("SYNCING");
    reveal_strlit("ACCEPTED");
    reveal_strlit("INVALID_BLOCK_HASH");
    assert("INVALID"@.len() == 7 && "INVALID"@[0] == 'I');
    assert("SYNCING"@.len() == 7 && "SYNCING"@[0] == 'S');
    assert("VALID"@.len() == 5);
    assert("ACCEPTED"@.len() == 8);
    assert("INVALID_BLOCK_HASH"@.len() == 18);
}

impl WithdrawalModel {
    pub open spec fn fragments(self) -> Seq<FragmentModel> {
        seq![
            raw("{\"index\":"),
            FragmentModel::Text(self.index),
            raw(",\"validatorIndex\":"),
            FragmentModel::Text(self.validator_index),
            raw(",\"address\":"),
            FragmentModel::Text(self.address),
            raw(",\"amount\":"),
            FragmentModel::Text(self.amount),
            raw("}"),
        ]
    }
}

/// The layout of a list of withdrawals: a JSON array.
pub open spec fn withdrawal_array(ws: Seq<WithdrawalModel>) -> Seq<FragmentModel> {
    array(ws.map_values(|w: WithdrawalModel| w.fragments()))
}

impl WithdrawalV1 {
    /// Appends the layout of this withdrawal.
    pub fn lay_out(&self, out: &mut Vec<Fragment>)
        ensures
            models(final(out)@) == models(old(out)@) + self@.fragments(),
    {
        push_raw(out, "{\"index\":");
        push_text(out, self.index.as_str());
        push_raw(out, ",\"validatorIndex\":");
        push_text(out, self.validatorIndex.as_str());
        push_raw(out, ",\"address\":");
        push_text(out, self.address.as_str());
        push_raw(out, ",\"amount\":");
        push_text(out, self.amount.as_str());
        push_raw(out, "}");
        assert(models(out@) =~= models(old(out)@) + self@.fragments());
    }
}

/// Appends the layout of a list of withdrawals.
pub fn lay_out_withdrawals(ws: &Vec<WithdrawalV1>, out: &mut Vec<Fragment>)
    ensures
        models(final(out)@) == models(old(out)@) + withdrawal_array(withdrawal_models(ws@)),
{
    let ghost before = models(out@);
    let ghost items = withdrawal_models(ws@).map_values(|w: WithdrawalModel| w.fragments());
    push_raw(out, "[");
    let mut i: usize = 0;
    assert(separated(items.take(0)) =~= Seq::<FragmentModel>::empty());
    while i < ws.len()
        invariant
            i <= ws.len(),
            items == withdrawal_models(ws@).map_values(|w: WithdrawalModel| w.fragments()),
            models(out@) == before + seq![raw("[")] + separated(items.take(i as int)),
        decreases ws.len() - i,
    {
        if i > 0 {
            push_raw(out, ",");
        }
        ws[i].lay_out(out);
        proof {
            lemma_separated_step(items, i as int);
            assert(items[i as int] == ws[i as int]@.fragments());
            assert(models(out@) =~= before + seq![raw("[")] + separated(items.take(i + 1)));
        }
        i = i + 1;
    }
    push_raw(out, "]");
    proof {
        assert(items.take(i as int) =~= items);
        assert(models(out@) =~= before + withdrawal_array(withdrawal_models(ws@)));
    }
}

impl ForkchoiceStateModel {
    pub open spec fn fragments(self) -> Seq<FragmentModel> {
        seq![
            raw("{\"headBlockHash\":"),
            FragmentModel::Text(self.head_block_hash),
            raw(",\"safeBlockHash\":"),
            FragmentModel::Text(self.safe_block_hash),
            raw(",\"finalizedBlockHash\":"),
            FragmentModel::Text(self.finalized_block_hash),
            raw("}"),
        ]
    }
}

impl ForkchoiceStateV1 {
    /// Appends the layout of this state.
    pub fn lay_out(&self, out: &mut Vec<Fragment>)
        ensures
            models(final(out)@) == models(old(out)@) + self@.fragments(),
    {
        push_raw(out, "{\"headBlockHash\":");
        push_text(out, self.headBlockHash.as_str());
        push_raw(out, ",\"safeBlockHash\":");
        push_text(out, self.safeBlockHash.as_str());
        push_raw(out, ",\"finalizedBlockHash\":");
        push_text(out, self.finalizedBlockHash.as_str());
        push_raw(out, "}");
        assert(models(out@) =~= models(old(out)@) + self@.fragments());
    }
}

/// The layout of an optional list of withdrawals: the array, or `null`.
pub open spec fn optional_withdrawal_array(ws: Option<Seq<WithdrawalModel>>) -> Seq<
    FragmentModel,
> {
    match ws {
        Some(list) => withdrawal_array(list),
        None => seq![raw("null")],
    }
}

impl PayloadAttributesModel {
    pub open spec fn fragments(self) -> Seq<FragmentModel> {
        seq![
            raw("{\"timestamp\":"),
            FragmentModel::Text(self.timestamp),
            raw(",\"prevRandao\":"),
            FragmentModel::Text(self.prev_randao),
            raw(",\"suggestedFeeRecipient\":"),
            FragmentModel::Text(self.suggested_fee_recipient),
            raw(",\"withdrawals\":"),
        ] + optional_withdrawal_array(self.withdrawals) + seq![raw("}")]
    }
}

impl PayloadAttributesV2 {
    /// Appends the layout of these attributes.
    pub fn lay_out(&self, out: &mut Vec<Fragment>)
        ensures
            models(final(out)@) == models(old(out)@) + self@.fragments(),
    {
        push_raw(out, "{\"timestamp\":");
        push_text(out, self.timestamp.as_str());
        push_raw(out, ",\"prevRandao\":");
        push_text(out, self.prevRandao.as_str());
        push_raw(out, ",\"suggestedFeeRecipient\":");
        push_text(out, self.suggestedFeeRecipient.as_str());
        push_raw(out, ",\"withdrawals\":");
        match &self.withdrawals {
            Some(ws) => lay_out_withdrawals(ws, out),
            None => push_raw(out, "null"),
        }
        push_raw(out, "}");
        assert(models(out@) =~= models(old(out)@) + self@.fragments());
    }
}

impl PayloadStatusModel {
    pub open spec fn fragments(self) -> Seq<FragmentModel> {
        seq![
            raw("{\"status\":"),
            FragmentModel::Text(self.status.wire_name()),
            raw(",\"latestValidHash\":"),
            optional_text(self.latest_valid_hash),
            raw(",\"ValidationError\":"),
            optional_text(self.validation_error),
            raw("}"),
        ]
    }
}

impl payloadStatusV1 {
    /// Appends the layout of this status.
    pub fn lay_out(&self, out: &mut Vec<Fragment>)
        ensures
            models(final(out)@) == models(old(out)@) + self@.fragments(),
    {
        push_raw(out, "{\"status\":");
        push_text(out, self.status.name());
        push_raw(out, ",\"latestValidHash\":");
        push_optional_text(out, &self.latestValidHash);
        push_raw(out, ",\"ValidationError\":");
        push_optional_text(out, &self.ValidationError);
        push_raw(out, "}");
        assert(models(out@) =~= models(old(out)@) + self@.fragments());
    }
}

impl ForkchoiceResultModel {
    pub open spec fn fragments(self) -> Seq<FragmentModel> {
        seq![raw("{\"payloadStatus\":")] + self.payload_status.fragments() + seq![
            raw(",\"payloadId\":"),
            optional_text(self.payload_id),
            raw("}"),
        ]
    }
}

impl forkchoiceUpdatedV1ResponseResult {
    /// Appends the layout of this result.
    pub fn lay_out(&self, out: &mut Vec<Fragment>)
        ensures
            models(final(out)@) == models(old(out)@) + self@.fragments(),
    {
        push_raw(out, "{\"payloadStatus\":");
        self.payloadStatus.lay_out(out);
        push_raw(out, ",\"payloadId\":");
        push_optional_text(out, &self.payloadId);
        push_raw(out, "}");
        assert(models(out@) =~= models(old(out)@) + self@.fragments());
    }
}

impl ForkchoiceResponseModel {
    pub open spec fn fragments(self) -> Seq<FragmentModel> {
        seq![
            raw("{\"jsonrpc\":"),
            FragmentModel::Text(self.jsonrpc),
            raw(",\"id\":"),
            FragmentModel::Raw(decimal(self.id as nat)),
            raw(",\"result\":"),
        ] + self.result.fragments() + seq![
            raw(",\"error\":"),
            optional_text(self.error),
            raw("}"),
        ]
    }
}

impl forkchoiceUpdatedV1Response {
    /// Appends the layout of this response.
    pub fn lay_out(&self, out: &mut Vec<Fragment>)
        ensures
            models(final(out)@) == models(old(out)@) + self@.fragments(),
    {
        push_raw(out, "{\"jsonrpc\":");
        push_text(out, self.jsonrpc.as_str());
        push_raw(out, ",\"id\":");
        push_number(out, self.id);
        push_raw(out, ",\"result\":");
        self.result.lay_out(out);
        push_raw(out, ",\"error\":");
        push_optional_text(out, &self.error);
        push_raw(out, "}");
        assert(models(out@) =~= models(old(out)@) + self@.fragments());
    }
}

impl NewPayloadResponseModel {
    pub open spec fn fragments(self) -> Seq<FragmentModel> {
        seq![
            raw("{\"jsonrpc\":"),
            FragmentModel::Text(self.jsonrpc),
            raw(",\"id\":"),
            FragmentModel::Raw(decimal(self.id as nat)),
            raw(",\"result\":"),
        ] + self.result.fragments() + seq![
            raw(",\"error\":"),
            optional_text(self.error),
            raw("}"),
        ]
    }
}

impl newPayloadV1Response {
    /// Appends the layout of this response.
    pub fn lay_out(&self, out: &mut Vec<Fragment>)
        ensures
            models(final(out)@) == models(old(out)@) + self@.fragments(),
    {
        push_raw(out, "{\"jsonrpc\":");
        push_text(out, self.jsonrpc.as_str());
        push_raw(out, ",\"id\":");
        push_number(out, self.id);
        push_raw(out, ",\"result\":");
        self.result.lay_out(out);
        push_raw(out, ",\"error\":");
        push_optional_text(out, &self.error);
        push_raw(out, "}");
        assert(models(out@) =~= models(old(out)@) + self@.fragments());
    }
}

/// The layout of optional payload attributes: the object, or `null`.
pub open spec fn optional_attributes_fragments(a: Option<PayloadAttributesModel>) -> Seq<
    FragmentModel,
> {
    match a {
        Some(p) => p.fragments(),
        None => seq![raw("null")],
    }
}

impl ForkchoiceRequestModel {
    pub open spec fn fragments(self) -> Seq<FragmentModel> {
        seq![
            raw("{\"jsonrpc\":"),
            FragmentModel::Text(self.jsonrpc),
            raw(",\"id\":"),
            FragmentModel::Raw(decimal(self.id as nat)),
            raw(",\"method\":"),
            FragmentModel::Text(self.method),
            raw(",\"params\":["),
        ] + self.state.fragments() + seq![raw(",")] + optional_attributes_fragments(
            self.attributes,
        ) + seq![raw("]}")]
    }
}

impl forkchoiceUpdatedV2 {
    /// Appends the layout of this request.
    pub fn lay_out(&self, out: &mut Vec<Fragment>)
        ensures
            models(final(out)@) == models(old(out)@) + self@.fragments(),
    {
        push_raw(out, "{\"jsonrpc\":");
        push_text(out, self.jsonrpc.as_str());
        push_raw(out, ",\"id\":");
        push_number(out, self.id);
        push_raw(out, ",\"method\":");
        push_text(out, self.method.as_str());
        push_raw(out, ",\"params\":[");
        self.params.0.lay_out(out);
        push_raw(out, ",");
        match &self.params.1 {
            Some(a) => a.lay_out(out),
            None => push_raw(out, "null"),
        }
        push_raw(out, "]}");
        assert(models(out@) =~= models(old(out)@) + self@.fragments());
    }
}

impl TransitionConfigurationModel {
    pub open spec fn fragments(self) -> Seq<FragmentModel> {
        seq![
            raw("{\"terminalTotalDifficulty\":"),
            FragmentModel::Text(self.terminal_total_difficulty),
            raw(",\"terminalBlockHash\":"),
            FragmentModel::Text(self.terminal_block_hash),
            raw(",\"terminalBlockNumber\":"),
            FragmentModel::Text(self.terminal_block_number),
            raw("}"),
        ]
    }
}

/// The layout of a list of transition configurations: a JSON array.
pub open spec fn configuration_array(cs: Seq<TransitionConfigurationModel>) -> Seq<
    FragmentModel,
> {
    array(cs.map_values(|c: TransitionConfigurationModel| c.fragments()))
}

impl TransitionConfigurationV1 {
    /// Appends the layout of this configuration.
    pub fn lay_out(&self, out: &mut Vec<Fragment>)
        ensures
            models(final(out)@) == models(old(out)@) + self@.fragments(),
    {
        push_raw(out, "{\"terminalTotalDifficulty\":");
        push_text(out, self.terminal_total_difficulty());
        push_raw(out, ",\"terminalBlockHash\":");
        push_text(out, self.terminal_block_hash());
        push_raw(out, ",\"terminalBlockNumber\":");
        push_text(out, self.terminal_block_number());
        push_raw(out, "}");
        assert(models(out@) =~= models(old(out)@) + self@.fragments());
    }
}

/// Appends the layout of a list of transition configurations.
pub fn lay_out_configurations(cs: &Vec<TransitionConfigurationV1>, out: &mut Vec<Fragment>)
    ensures
        models(final(out)@) == models(old(out)@) + configuration_array(configuration_models(cs@)),
{
    let ghost before = models(out@);
    let ghost items = configuration_models(cs@).map_values(
        |c: TransitionConfigurationModel| c.fragments(),
    );
    push_raw(out, "[");
    let mut i: usize = 0;
    assert(separated(items.take(0)) =~= Seq::<FragmentModel>::empty());
    while i < cs.len()
        invariant
            i <= cs.len(),
            items == configuration_models(cs@).map_values(
                |c: TransitionConfigurationModel| c.fragments(),
            ),
            models(out@) == before + seq![raw("[")] + separated(items.take(i as int)),
        decreases cs.len() - i,
    {
        if i > 0 {
            push_raw(out, ",");
        }
        cs[i].lay_out(out);
        proof {
            lemma_separated_step(items, i as int);
            assert(items[i as int] == cs[i as int]@.fragments());
            assert(models(out@) =~= before + seq![raw("[")] + separated(items.take(i + 1)));
        }
        i = i + 1;
    }
    push_raw(out, "]");
    proof {
        assert(items.take(i as int) =~= items);
        assert(models(out@) =~= before + configuration_array(configuration_models(cs@)));
    }
}

/// The layout of an optional list of configurations: the array, or `null`.
pub open spec fn optional_configuration_array(
    cs: Option<Seq<TransitionConfigurationModel>>,
) -> Seq<FragmentModel> {
    match cs {
        Some(list) => configuration_array(list),
        None => seq![raw("null")],
    }
}

/// The layout of an optional configuration: the object, or `null`.
pub open spec fn optional_configuration_fragments(c: Option<TransitionConfigurationModel>) -> Seq<
    FragmentModel,
> {
    match c {
        Some(t) => t.fragments(),
        None => seq![raw("null")],
    }
}

impl TransitionExchangeModel {
    pub open spec fn fragments(self) -> Seq<FragmentModel> {
        seq![
            raw("{\"jsonrpc\":"),
            FragmentModel::Text(self.jsonrpc),
            raw(",\"id\":"),
            FragmentModel::Raw(decimal(self.id as nat)),
            raw(",\"method\":"),
            optional_text(self.method),
            raw(",\"params\":"),
        ] + optional_configuration_array(self.params) + seq![raw(",\"result\":")]
            + optional_configuration_fragments(self.result) + seq![raw("}")]
    }
}

impl exchangeTransitionConfigurationV1 {
    /// Appends the layout of this message.
    pub fn lay_out(&self, out: &mut Vec<Fragment>)
        ensures
            models(final(out)@) == models(old(out)@) + self@.fragments(),
    {
        push_raw(out, "{\"jsonrpc\":");
        push_text(out, self.jsonrpc.as_str());
        push_raw(out, ",\"id\":");
        push_number(out, self.id);
        push_raw(out, ",\"method\":");
        push_optional_text(out, &self.method);
        push_raw(out, ",\"params\":");
        match &self.params {
            Some(cs) => lay_out_configurations(cs, out),
            None => push_raw(out, "null"),
        }
        push_raw(out, ",\"result\":");
        match &self.result {
            Some(c) => c.lay_out(out),
            None => push_raw(out, "null"),
        }
        push_raw(out, "}");
        assert(models(out@) =~= models(old(out)@) + self@.fragments());
    }
}

} // verus!
