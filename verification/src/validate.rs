//! What a decoded message must satisfy before the relay acts on it: hashes
//! that are hashes, addresses that are addresses, numbers that are numbers,
//! data that is written in hexadecimal, and a latest valid hash only where
//! the status allows one. A message that fails is a decoding error; nothing
//! is repaired.
use crate::error::RelayError;
use crate::types::{
    configuration_models, exchangeTransitionConfigurationV1, forkchoiceUpdatedV1Response,
    forkchoiceUpdatedV2, newPayloadV1Response, newPayloadV2, optional_withdrawals,
    payloadStatusV1, payload_models, string_models, withdrawal_models, ExecutionPayloadModel,
    ExecutionPayloadV2, ExecutionStatus, ForkchoiceRequestModel, ForkchoiceResponseModel,
    ForkchoiceStateModel, ForkchoiceStateV1, NewPayloadRequestModel, NewPayloadResponseModel,
    PayloadAttributesModel, PayloadAttributesV2, PayloadStatusModel,
    TransitionConfigurationModel, TransitionConfigurationV1, TransitionExchangeModel,
    WithdrawalModel, WithdrawalV1,
};
use vstd::prelude::*;
use vstd::string::{is_ascii, is_ascii_spec_bytes, StringSliceAdditionalSpecFns};
use vstd::utf8::is_ascii_chars;

verus! {

/// The number of hexadecimal digits of a 32-byte hash.
pub const HASH_DIGITS: usize = 64;

/// Whether `c` is a decimal digit.
pub open spec fn decimal_digit(c: char) -> bool {
    '0' <= c <= '9'
}

/// Whether `c` is a hexadecimal digit, in either case.
pub open spec fn hex_digit(c: char) -> bool {
    ('0' <= c <= '9') || ('a' <= c <= 'f') || ('A' <= c <= 'F')
}

/// Whether `s` is `0x` followed by hexadecimal digits only.
pub open spec fn prefixed_hex(s: Seq<char>) -> bool {
    &&& s.len() >= 2
    &&& s[0] == '0'
    &&& s[1] == 'x'
    &&& forall|i: int| 2 <= i < s.len() ==> hex_digit(#[trigger] s[i])
}

/// Whether `s` writes 32 bytes in hexadecimal: `0x` and 64 digits.
pub open spec fn hash_string(s: Seq<char>) -> bool {
    prefixed_hex(s) && s.len() == 2 + HASH_DIGITS
}

/// The number of hexadecimal digits of a 20-byte address.
pub const ADDRESS_DIGITS: usize = 40;

/// Whether `s` writes 20 bytes in hexadecimal: `0x` and 40 digits.
pub open spec fn address_string(s: Seq<char>) -> bool {
    prefixed_hex(s) && s.len() == 2 + ADDRESS_DIGITS
}

/// Whether `s` writes a non-negative integer: decimal digits, or `0x` and
/// hexadecimal digits; in both forms at least one digit, and no sign.
pub open spec fn numeric_string(s: Seq<char>) -> bool {
    ||| s.len() >= 1 && forall|i: int| 0 <= i < s.len() ==> decimal_digit(#[trigger] s[i])
    ||| prefixed_hex(s) && s.len() >= 3
}


impl ForkchoiceStateModel {
    /// All three block identifiers are 32-byte hashes.
    pub open spec fn well_formed(self) -> bool {
        &&& hash_string(self.head_block_hash)
        &&& hash_string(self.safe_block_hash)
        &&& hash_string(self.finalized_block_hash)
    }
}

impl WithdrawalModel {
    /// The two indices and the amount are non-negative integers, and the
    /// address is an address.
    pub open spec fn well_formed(self) -> bool {
        &&& numeric_string(self.index)
        &&& numeric_string(self.validator_index)
        &&& address_string(self.address)
        &&& numeric_string(self.amount)
    }
}

/// Every withdrawal of the list is well formed.
pub open spec fn each_well_formed(list: Seq<WithdrawalModel>) -> bool {
    forall|i: int| 0 <= i < list.len() ==> (#[trigger] list[i]).well_formed()
}

/// Every withdrawal of the list, if there is one, is well formed.
pub open spec fn withdrawals_well_formed(ws: Option<Seq<WithdrawalModel>>) -> bool {
    match ws {
        Some(list) => each_well_formed(list),
        None => true,
    }
}

/// Every string of the list is `0x` followed by hexadecimal digits.
pub open spec fn each_prefixed_hex(list: Seq<Seq<char>>) -> bool {
    forall|i: int| 0 <= i < list.len() ==> prefixed_hex(#[trigger] list[i])
}

impl PayloadAttributesModel {
    /// The timestamp is a number, the randomness a hash, the fee recipient an
    /// address, and every withdrawal is well formed.
    pub open spec fn well_formed(self) -> bool {
        &&& numeric_string(self.timestamp)
        &&& hash_string(self.prev_randao)
        &&& address_string(self.suggested_fee_recipient)
        &&& withdrawals_well_formed(self.withdrawals)
    }
}

impl ExecutionPayloadModel {
    /// The header fields are hashes, an address, numbers and hexadecimal
    /// data, each as its meaning asks.
    pub open spec fn header_well_formed(self) -> bool {
        &&& hash_string(self.parent_hash)
        &&& address_string(self.fee_recipient)
        &&& hash_string(self.state_root)
        &&& hash_string(self.receipts_root)
        &&& prefixed_hex(self.logs_bloom)
        &&& hash_string(self.prev_randao)
        &&& numeric_string(self.block_number)
        &&& numeric_string(self.gas_limit)
        &&& numeric_string(self.gas_used)
        &&& numeric_string(self.timestamp)
        &&& prefixed_hex(self.extra_data)
        &&& numeric_string(self.base_fee_per_gas)
        &&& hash_string(self.block_hash)
    }

    /// The header is well formed, every transaction is hexadecimal data, and
    /// every withdrawal is well formed.
    pub open spec fn well_formed(self) -> bool {
        &&& self.header_well_formed()
        &&& each_prefixed_hex(self.transactions)
        &&& withdrawals_well_formed(self.withdrawals)
    }
}

impl PayloadStatusModel {
    /// A latest valid hash is given only with the status VALID or INVALID,
    /// and is a hash.
    pub open spec fn well_formed(self) -> bool {
        self.latest_valid_hash matches Some(h) ==> {
            &&& hash_string(h)
            &&& self.status == ExecutionStatus::VALID || self.status == ExecutionStatus::INVALID
        }
    }
}

impl TransitionConfigurationModel {
    /// The difficulty and the block number are numbers, the block hash is a
    /// hash.
    pub open spec fn well_formed(self) -> bool {
        &&& numeric_string(self.terminal_total_difficulty)
        &&& hash_string(self.terminal_block_hash)
        &&& numeric_string(self.terminal_block_number)
    }
}

/// Every configuration of the list is well formed.
pub open spec fn each_configuration_well_formed(list: Seq<TransitionConfigurationModel>) -> bool {
    forall|i: int| 0 <= i < list.len() ==> (#[trigger] list[i]).well_formed()
}

impl TransitionExchangeModel {
    /// Every configuration that the message carries is well formed.
    pub open spec fn well_formed(self) -> bool {
        &&& self.params matches Some(list) ==> each_configuration_well_formed(list)
        &&& self.result matches Some(c) ==> c.well_formed()
    }
}

impl ForkchoiceRequestModel {
    /// The state is well formed, and so are the attributes, if any.
    pub open spec fn well_formed(self) -> bool {
        &&& self.state.well_formed()
        &&& self.attributes matches Some(a) ==> a.well_formed()
    }
}

impl ForkchoiceResponseModel {
    /// The payload status is well formed.
    pub open spec fn well_formed(self) -> bool {
        self.result.payload_status.well_formed()
    }
}

impl NewPayloadResponseModel {
    /// The payload status is well formed.
    pub open spec fn well_formed(self) -> bool {
        self.result.well_formed()
    }
}

/// Every payload of the list is well formed.
pub open spec fn each_payload_well_formed(list: Seq<ExecutionPayloadModel>) -> bool {
    forall|i: int| 0 <= i < list.len() ==> (#[trigger] list[i]).well_formed()
}

impl NewPayloadRequestModel {
    /// Every payload is well formed.
    pub open spec fn well_formed(self) -> bool {
        each_payload_well_formed(self.params)
    }
}

fn is_decimal_byte(b: u8) -> (r: bool)
    ensures
        r == (0x30 <= b <= 0x39),
{
    0x30 <= b && b <= 0x39
}

/// Whether the byte is an ASCII hexadecimal digit.
fn is_hex_byte(b: u8) -> (r: bool)
    ensures
        r == ((0x30 <= b <= 0x39) || (0x61 <= b <= 0x66) || (0x41 <= b <= 0x46)),
{
    (0x30 <= b && b <= 0x39) || (0x61 <= b && b <= 0x66) || (0x41 <= b && b <= 0x46)
}

/// The bytes of `s` if it is made of ASCII characters only: then each byte is
/// one character.
fn ascii_bytes(s: &str) -> (r: Option<&[u8]>)
    ensures
        match r {
            Some(bytes) => {
                &&& is_ascii_chars(s@)
                &&& bytes@.len() == s@.len()
                &&& forall|i: int| 0 <= i < s@.len() ==> #[trigger] bytes@[i] == s@[i] as u8
            },
            None => !is_ascii_chars(s@),
        },
{
    if s.is_ascii() {
        let bytes = s.as_bytes();
        proof {
            is_ascii_spec_bytes(s);
            assert(s.spec_bytes() =~= Seq::new(s@.len(), |i| s@.index(i) as u8));
        }
        Some(bytes)
    } else {
        None
    }
}

/// Whether bytes `from` onwards are all hexadecimal digits.
fn hex_from(bytes: &[u8], from: usize, Ghost(s): Ghost<Seq<char>>) -> (r: bool)
    requires
        from <= bytes@.len(),
        is_ascii_chars(s),
        bytes@.len() == s.len(),
        forall|i: int| 0 <= i < s.len() ==> #[trigger] bytes@[i] == s[i] as u8,
    ensures
        r == forall|i: int| from <= i < s.len() ==> hex_digit(#[trigger] s[i]),
{
    let mut i: usize = from;
    while i < bytes.len()
        invariant
            from <= i <= bytes@.len(),
            is_ascii_chars(s),
            bytes@.len() == s.len(),
            forall|j: int| 0 <= j < s.len() ==> #[trigger] bytes@[j] == s[j] as u8,
            forall|j: int| from <= j < i ==> hex_digit(#[trigger] s[j]),
        decreases bytes@.len() - i,
    {
        if !is_hex_byte(bytes[i]) {
            assert(bytes@[i as int] == s[i as int] as u8);
            assert(!hex_digit(s[i as int]));
            return false;
        }
        assert(bytes@[i as int] == s[i as int] as u8);
        assert(hex_digit(s[i as int]));
        i = i + 1;
    }
    true
}

/// Whether `s` is `0x` followed by hexadecimal digits only.
pub fn is_prefixed_hex(s: &str) -> (r: bool)
    ensures
        r == prefixed_hex(s@),
{
    match ascii_bytes(s) {
        Some(bytes) => {
            if bytes.len() < 2 {
                return false;
            }
            assert(bytes@[0] == s@[0] as u8);
            assert(bytes@[1] == s@[1] as u8);
            if bytes[0] != 0x30 || bytes[1] != 0x78 {
                return false;
            }
            hex_from(bytes, 2, Ghost(s@))
        },
        None => {
            proof {
                if prefixed_hex(s@) {
                    assert forall|i: int| 0 <= i < s@.len() implies '\0' <= #[trigger] s@[i]
                        <= '\u{7f}' by {
                        if i >= 2 {
                            assert(hex_digit(s@[i]));
                        }
                    }
                    assert(false);
                }
            }
            false
        },
    }
}

/// Whether `s` writes 32 bytes in hexadecimal: `0x` and 64 digits.
pub fn is_hash(s: &str) -> (r: bool)
    ensures
        r == hash_string(s@),
{
    is_prefixed_hex(s) && s.unicode_len() == 2 + HASH_DIGITS
}

/// Whether `s` is one or more decimal digits.
fn is_decimal(s: &str) -> (r: bool)
    ensures
        r == (s@.len() >= 1 && forall|i: int| 0 <= i < s@.len() ==> decimal_digit(#[trigger] s@[i])),
{
    match ascii_bytes(s) {
        Some(bytes) => {
            if bytes.len() == 0 {
                return false;
            }
            let mut i: usize = 0;
            while i < bytes.len()
                invariant
                    i <= bytes@.len(),
                    is_ascii_chars(s@),
                    bytes@.len() == s@.len(),
                    forall|j: int| 0 <= j < s@.len() ==> #[trigger] bytes@[j] == s@[j] as u8,
                    forall|j: int| 0 <= j < i ==> decimal_digit(#[trigger] s@[j]),
                decreases bytes@.len() - i,
            {
                assert(bytes@[i as int] == s@[i as int] as u8);
                if !is_decimal_byte(bytes[i]) {
                    assert(!decimal_digit(s@[i as int]));
                    return false;
                }
                assert(decimal_digit(s@[i as int]));
                i = i + 1;
            }
            true
        },
        None => {
            proof {
                if forall|i: int| 0 <= i < s@.len() ==> decimal_digit(#[trigger] s@[i]) {
                    assert forall|i: int| 0 <= i < s@.len() implies '\0' <= #[trigger] s@[i]
                        <= '\u{7f}' by {
                        assert(decimal_digit(s@[i]));
                    }
                    assert(false);
                }
            }
            false
        },
    }
}

/// Whether `s` writes a non-negative integer, in decimal or in hexadecimal
/// after `0x`.
pub fn is_numeric(s: &str) -> (r: bool)
    ensures
        r == numeric_string(s@),
{
    if is_decimal(s) {
        true
    } else {
        is_prefixed_hex(s) && s.unicode_len() >= 3
    }
}

/// `Ok` where the condition holds, a decoding error where it does not.
fn decoded_if(ok: bool) -> (r: Result<(), RelayError>)
    ensures
        r is Ok <==> ok,
        r is Err ==> r == Err::<(), RelayError>(RelayError::DecodeError),
{
    if ok {
        Ok(())
    } else {
        Err(RelayError::DecodeError)
    }
}

/// Whether `s` writes 20 bytes in hexadecimal: `0x` and 40 digits.
pub fn is_address(s: &str) -> (r: bool)
    ensures
        r == address_string(s@),
{
    is_prefixed_hex(s) && s.unicode_len() == 2 + ADDRESS_DIGITS
}

impl ForkchoiceStateV1 {
    /// Accepts the state if its three block identifiers are 32-byte hashes.
    pub fn validate(&self) -> (r: Result<(), RelayError>)
        ensures
            r is Ok <==> self@.well_formed(),
            r is Err ==> r == Err::<(), RelayError>(RelayError::DecodeError),
    {
        decoded_if(
            is_hash(self.headBlockHash.as_str()) && is_hash(self.safeBlockHash.as_str())
                && is_hash(self.finalizedBlockHash.as_str()),
        )
    }
}

impl WithdrawalV1 {
    /// Accepts the withdrawal if its indices and its amount are numbers and
    /// its address is an address.
    pub fn validate(&self) -> (r: Result<(), RelayError>)
        ensures
            r is Ok <==> self@.well_formed(),
            r is Err ==> r == Err::<(), RelayError>(RelayError::DecodeError),
    {
        decoded_if(
            is_numeric(self.index.as_str()) && is_numeric(self.validatorIndex.as_str())
                && is_address(self.address.as_str()) && is_numeric(self.amount.as_str()),
        )
    }
}

/// Accepts a list of withdrawals if each of them is well formed.
fn validate_each(list: &Vec<WithdrawalV1>) -> (r: Result<(), RelayError>)
    ensures
        r is Ok <==> each_well_formed(withdrawal_models(list@)),
        r is Err ==> r == Err::<(), RelayError>(RelayError::DecodeError),
{
    let ghost models = withdrawal_models(list@);
    let mut i: usize = 0;
    while i < list.len()
        invariant
            i <= list.len(),
            models == withdrawal_models(list@),
            forall|j: int| 0 <= j < i ==> (#[trigger] models[j]).well_formed(),
        decreases list.len() - i,
    {
        assert(models[i as int] == list[i as int]@);
        if list[i].validate().is_err() {
            assert(!models[i as int].well_formed());
            return Err(RelayError::DecodeError);
        }
        i = i + 1;
    }
    Ok(())
}

/// Accepts an optional list of withdrawals if each of them is well formed.
pub fn validate_withdrawals(ws: &Option<Vec<WithdrawalV1>>) -> (r: Result<(), RelayError>)
    ensures
        r is Ok <==> withdrawals_well_formed(optional_withdrawals(*ws)),
        r is Err ==> r == Err::<(), RelayError>(RelayError::DecodeError),
{
    match ws {
        Some(list) => validate_each(list),
        None => Ok(()),
    }
}

/// Whether every string of the list is `0x` followed by hexadecimal digits.
pub fn each_is_prefixed_hex(list: &Vec<String>) -> (r: bool)
    ensures
        r == each_prefixed_hex(string_models(list@)),
{
    let ghost models = string_models(list@);
    let mut i: usize = 0;
    while i < list.len()
        invariant
            i <= list.len(),
            models == string_models(list@),
            forall|j: int| 0 <= j < i ==> prefixed_hex(#[trigger] models[j]),
        decreases list.len() - i,
    {
        assert(models[i as int] == list[i as int]@);
        if !is_prefixed_hex(list[i].as_str()) {
            assert(!prefixed_hex(models[i as int]));
            return false;
        }
        i = i + 1;
    }
    true
}

impl PayloadAttributesV2 {
    /// Accepts the attributes if the timestamp is a number, the randomness a
    /// hash, the fee recipient an address and every withdrawal well formed.
    pub fn validate(&self) -> (r: Result<(), RelayError>)
        ensures
            r is Ok <==> self@.well_formed(),
            r is Err ==> r == Err::<(), RelayError>(RelayError::DecodeError),
    {
        let fields = is_numeric(self.timestamp.as_str()) && is_hash(self.prevRandao.as_str())
            && is_address(self.suggestedFeeRecipient.as_str());
        if !fields {
            return Err(RelayError::DecodeError);
        }
        validate_withdrawals(&self.withdrawals)
    }
}

impl ExecutionPayloadV2 {
    /// Whether the header fields are well formed.
    pub fn header_is_well_formed(&self) -> (r: bool)
        ensures
            r == self@.header_well_formed(),
    {
        is_hash(self.parentHash.as_str()) && is_address(self.feeRecipient.as_str()) && is_hash(
            self.stateRoot.as_str(),
        ) && is_hash(self.receiptsRoot.as_str()) && is_prefixed_hex(self.logsBloom.as_str())
            && is_hash(self.prevRandao.as_str()) && is_numeric(self.blockNumber.as_str())
            && is_numeric(self.gasLimit.as_str()) && is_numeric(self.gasUsed.as_str())
            && is_numeric(self.timestamp.as_str()) && is_prefixed_hex(self.extraData.as_str())
            && is_numeric(self.baseFeePerGas.as_str()) && is_hash(self.blockHash.as_str())
    }

    /// Accepts the payload if its header is well formed, every transaction is
    /// hexadecimal data and every withdrawal is well formed.
    pub fn validate(&self) -> (r: Result<(), RelayError>)
        ensures
            r is Ok <==> self@.well_formed(),
            r is Err ==> r == Err::<(), RelayError>(RelayError::DecodeError),
    {
        if !self.header_is_well_formed() {
            return Err(RelayError::DecodeError);
        }
        if !each_is_prefixed_hex(&self.transactions) {
            return Err(RelayError::DecodeError);
        }
        validate_withdrawals(&self.withdrawals)
    }
}

impl payloadStatusV1 {
    /// Accepts the status unless it gives a latest valid hash that is no
    /// hash, or gives one with a status other than VALID and INVALID.
    pub fn validate(&self) -> (r: Result<(), RelayError>)
        ensures
            r is Ok <==> self@.well_formed(),
            r is Err ==> r == Err::<(), RelayError>(RelayError::DecodeError),
    {
        match &self.latestValidHash {
            Some(h) => {
                let allowed = match self.status {
                    ExecutionStatus::VALID => true,
                    ExecutionStatus::INVALID => true,
                    _ => false,
                };
                decoded_if(is_hash(h.as_str()) && allowed)
            },
            None => Ok(()),
        }
    }
}

impl TransitionConfigurationV1 {
    /// Accepts the configuration if its difficulty and block number are
    /// numbers and its block hash is a hash.
    pub fn validate(&self) -> (r: Result<(), RelayError>)
        ensures
            r is Ok <==> self@.well_formed(),
            r is Err ==> r == Err::<(), RelayError>(RelayError::DecodeError),
    {
        decoded_if(
            is_numeric(self.terminal_total_difficulty()) && is_hash(self.terminal_block_hash())
                && is_numeric(self.terminal_block_number()),
        )
    }
}

/// Accepts a list of configurations if each of them is well formed.
fn validate_configurations(list: &Vec<TransitionConfigurationV1>) -> (r: Result<(), RelayError>)
    ensures
        r is Ok <==> each_configuration_well_formed(configuration_models(list@)),
        r is Err ==> r == Err::<(), RelayError>(RelayError::DecodeError),
{
    let ghost models = configuration_models(list@);
    let mut i: usize = 0;
    while i < list.len()
        invariant
            i <= list.len(),
            models == configuration_models(list@),
            forall|j: int| 0 <= j < i ==> (#[trigger] models[j]).well_formed(),
        decreases list.len() - i,
    {
        assert(models[i as int] == list[i as int]@);
        if list[i].validate().is_err() {
            assert(!models[i as int].well_formed());
            return Err(RelayError::DecodeError);
        }
        i = i + 1;
    }
    Ok(())
}

impl exchangeTransitionConfigurationV1 {
    /// Accepts the message if every configuration it carries is well formed.
    pub fn validate(&self) -> (r: Result<(), RelayError>)
        ensures
            r is Ok <==> self@.well_formed(),
            r is Err ==> r == Err::<(), RelayError>(RelayError::DecodeError),
    {
        match &self.params {
            Some(list) => {
                if validate_configurations(list).is_err() {
                    return Err(RelayError::DecodeError);
                }
            },
            None => {},
        }
        match &self.result {
            Some(c) => c.validate(),
            None => Ok(()),
        }
    }
}

impl forkchoiceUpdatedV2 {
    /// Accepts the request if its state is well formed and, where it has
    /// attributes, they are.
    pub fn validate(&self) -> (r: Result<(), RelayError>)
        ensures
            r is Ok <==> self@.well_formed(),
            r is Err ==> r == Err::<(), RelayError>(RelayError::DecodeError),
    {
        if self.params.0.validate().is_err() {
            return Err(RelayError::DecodeError);
        }
        match &self.params.1 {
            Some(a) => a.validate(),
            None => Ok(()),
        }
    }
}

impl forkchoiceUpdatedV1Response {
    /// Accepts the response if its payload status is well formed.
    pub fn validate(&self) -> (r: Result<(), RelayError>)
        ensures
            r is Ok <==> self@.well_formed(),
            r is Err ==> r == Err::<(), RelayError>(RelayError::DecodeError),
    {
        self.result.payloadStatus.validate()
    }
}

impl newPayloadV1Response {
    /// Accepts the response if its payload status is well formed.
    pub fn validate(&self) -> (r: Result<(), RelayError>)
        ensures
            r is Ok <==> self@.well_formed(),
            r is Err ==> r == Err::<(), RelayError>(RelayError::DecodeError),
    {
        self.result.validate()
    }
}

impl newPayloadV2 {
    /// Accepts the request if every payload is well formed.
    pub fn validate(&self) -> (r: Result<(), RelayError>)
        ensures
            r is Ok <==> self@.well_formed(),
            r is Err ==> r == Err::<(), RelayError>(RelayError::DecodeError),
    {
        let ghost models = payload_models(self.params@);
        let mut i: usize = 0;
        while i < self.params.len()
            invariant
                i <= self.params.len(),
                models == payload_models(self.params@),
                forall|j: int| 0 <= j < i ==> (#[trigger] models[j]).well_formed(),
            decreases self.params.len() - i,
        {
            assert(models[i as int] == self.params[i as int]@);
            if self.params[i].validate().is_err() {
                assert(!models[i as int].well_formed());
                return Err(RelayError::DecodeError);
            }
            i = i + 1;
        }
        Ok(())
    }
}

/// Canonicalizing a request and giving a message another identifier keep it
/// well formed.
pub proof fn renderings_stay_well_formed(
    req: ForkchoiceRequestModel,
    resp: ForkchoiceResponseModel,
    id: u64,
)
    ensures
        req.well_formed() ==> req.canonical().well_formed() && req.with_id(id).well_formed(),
        resp.well_formed() ==> resp.canonical().well_formed() && resp.with_id(id).well_formed(),
{
}

} // verus!
