//! Building the candidate transaction of one round.
//!
//! A candidate spends one input and creates two outputs: first the NFT
//! output, which carries the tag of the round and takes the deposit that
//! its size asks for, then a basic output that gives the rest of the
//! input's amount back to the owner.  The NFT output comes first, so the
//! NFT's identifier derives from the first output of the transaction.

use crate::mining::remainder_amount;
use crate::mining::round_tag;
use crate::mining::tag_of;
use crate::nft_id::output_id_digest;
use crate::nft_id::NftId;
use crate::output::fit_for_essence;
use crate::output::is_fit_for_essence;
use iota_sdk::types::block::address::Bech32Address;
use iota_sdk::types::block::output::feature::TagFeature;
use iota_sdk::types::block::output::unlock_condition::AddressUnlockCondition;
use iota_sdk::types::block::output::BasicOutputBuilder;
use iota_sdk::types::block::output::NftOutputBuilder;
use iota_sdk::types::block::output::Output;
use iota_sdk::types::block::payload::transaction::RegularTransactionEssenceBuilder;
use iota_sdk::types::block::payload::transaction::TransactionEssence;
use iota_sdk::types::block::payload::transaction::TransactionPayload;
use iota_sdk::types::block::protocol::ProtocolParameters;
use iota_sdk::types::block::unlock::Unlocks;
use vstd::prelude::*;

verus! {

/// The SDK's builder of NFT outputs.
#[verifier::external_type_specification]
#[verifier::external_body]
pub struct ExNftOutputBuilder(NftOutputBuilder);

/// The SDK's output.
#[verifier::external_type_specification]
#[verifier::external_body]
pub struct ExOutput(Output);

/// The SDK's tag feature.
#[verifier::external_type_specification]
#[verifier::external_body]
pub struct ExTagFeature(TagFeature);

/// The SDK's address with its network prefix.
#[verifier::external_type_specification]
#[verifier::external_body]
pub struct ExBech32Address(Bech32Address);

/// The SDK's builder of transaction essences.
#[verifier::external_type_specification]
#[verifier::external_body]
pub struct ExRegularTransactionEssenceBuilder(RegularTransactionEssenceBuilder);

/// The SDK's transaction essence.
#[verifier::external_type_specification]
#[verifier::external_body]
pub struct ExTransactionEssence(TransactionEssence);

/// The SDK's transaction payload.
#[verifier::external_type_specification]
#[verifier::external_body]
pub struct ExTransactionPayload(TransactionPayload);

/// The SDK's protocol parameters.
#[verifier::external_type_specification]
#[verifier::external_body]
pub struct ExProtocolParameters(ProtocolParameters);

/// The SDK's unlocks of a transaction: the signatures, one for each input.
#[verifier::external_type_specification]
#[verifier::external_body]
pub struct ExUnlocks(Unlocks);

/// Why a candidate could not be built.
#[derive(Debug, PartialEq, Eq)]
pub enum CandidateError {
    /// The SDK refused the NFT output, with the error `source`.
    NftOutput { source: iota_sdk::types::block::Error },
    /// The input holds `input_amount`, which is less than the deposit
    /// `nft_amount` of the NFT output.
    InputTooSmall { input_amount: u64, nft_amount: u64 },
    /// The SDK refused the output that takes the rest, `amount`, with the
    /// error `source`.
    RemainderOutput { amount: u64, source: iota_sdk::types::block::Error },
    /// The SDK refused the essence, with the error `source`.
    Essence { source: iota_sdk::types::block::Error },
    /// The SDK refused to join the essence and the unlocks, with the error
    /// `source`.
    Payload { source: iota_sdk::types::block::Error },
    /// The output at `position`, 0 for the NFT output and 1 for the other,
    /// cannot stand in an essence: it lacks a condition that its kind asks
    /// for, or gives a deposit back that cannot be checked.
    UnfitOutput { position: u8 },
}

/// The two outputs of a candidate, with the amounts that they hold.
#[derive(Debug, PartialEq, Eq)]
pub struct CandidateOutputs {
    /// The NFT output.
    pub nft: Output,
    /// The amount that the SDK reports for the NFT output.
    pub nft_amount: u64,
    /// The output that takes the rest.
    pub remainder: Output,
    /// The amount that the output that takes the rest was built with.
    pub remainder_amount: u64,
}

/// The tag feature that the SDK's `TagFeature::new` makes of the bytes
/// `tag`.
pub uninterp spec fn tag_feature_of(tag: Seq<u8>) -> TagFeature;

/// The NFT output that the SDK's `NftOutputBuilder::finish_output` makes
/// of what `builder` holds and the feature `feature`, with `token_supply`
/// as the bound on the amount; `None` where the SDK gives an error.
pub uninterp spec fn finished_nft_output(
    builder: NftOutputBuilder,
    feature: TagFeature,
    token_supply: u64,
) -> Option<Output>;

/// The amount that `output` holds, as the SDK's `Output::amount` gives it.
pub uninterp spec fn amount_of(output: Output) -> u64;

/// The basic output of `amount` that `owner` unlocks, as the SDK's
/// `BasicOutputBuilder::finish_output` makes it with `token_supply` as the
/// bound on the amount; `None` where the SDK gives an error.
pub uninterp spec fn finished_basic_output(
    amount: u64,
    owner: Bech32Address,
    token_supply: u64,
) -> Option<Output>;

/// The transaction that the SDK's `TransactionPayload::new` makes of an
/// essence and its unlocks; `None` where the SDK gives an error.
pub uninterp spec fn joined_payload(essence: TransactionEssence, unlocks: Unlocks) -> Option<
    TransactionPayload,
>;

/// The 32 bytes of the identifier of `payload`, as the SDK's
/// `TransactionPayload::id` gives it.
pub uninterp spec fn payload_digest(payload: TransactionPayload) -> Seq<u8>;

/// Calls the SDK's `TagFeature::new` on the four bytes of a tag.  It
/// accepts tags of 1 to 64 bytes, so it accepts these; the feature depends
/// on the bytes alone, and the contract gives it its name.
#[verifier::external_body]
fn tag_feature(tag: [u8; 4]) -> (r: Result<TagFeature, iota_sdk::types::block::Error>)
    ensures
        r is Ok,
        r matches Ok(feature) ==> feature == tag_feature_of(tag@),
{
    TagFeature::new(tag)
}

/// Adds `feature` to a copy of `builder` and calls the SDK's
/// `NftOutputBuilder::finish_output` on it, with the token supply as the
/// bound on the amount.  The outcome depends on the builder, the feature
/// and the token supply alone, and the contract gives it its name.
#[verifier::external_body]
fn finish_nft_output(builder: &NftOutputBuilder, feature: TagFeature, token_supply: u64) -> (r:
    Result<Output, iota_sdk::types::block::Error>)
    ensures
        r is Ok <==> finished_nft_output(*builder, feature, token_supply) is Some,
        r matches Ok(output) ==> finished_nft_output(*builder, feature, token_supply) == Some(
            output,
        ),
{
    builder.clone().add_feature(feature).finish_output(token_supply)
}

/// Calls the SDK's `Output::amount`.  The amount depends on the output
/// alone, and the contract gives it its name.
#[verifier::external_body]
fn output_amount(output: &Output) -> (amount: u64)
    ensures
        amount == amount_of(*output),
{
    output.amount()
}

/// Builds a basic output of `amount` that `owner` unlocks, with the SDK's
/// `BasicOutputBuilder`, and finishes it with the token supply as the
/// bound on the amount.  The outcome depends on the amount, the owner and
/// the token supply alone, and the contract gives it its name.  The
/// builder holds one address condition and nothing else, which passes
/// every check of `finish_output` but the one on the amount: that one
/// refuses an amount of zero and one above the token supply, and no
/// other.  The output holds the amount that the builder was given.
#[verifier::external_body]
fn finish_basic_output(amount: u64, owner: &Bech32Address, token_supply: u64) -> (r: Result<
    Output,
    iota_sdk::types::block::Error,
>)
    ensures
        r is Ok <==> finished_basic_output(amount, *owner, token_supply) is Some,
        r matches Ok(output) ==> finished_basic_output(amount, *owner, token_supply) == Some(
            output,
        ),
        r is Ok <==> 1 <= amount <= token_supply,
        r matches Ok(output) ==> amount_of(output) == amount,
{
    BasicOutputBuilder::new_with_amount(amount).add_unlock_condition(
        AddressUnlockCondition::new(owner),
    ).finish_output(token_supply)
}

/// The essence that the SDK's
/// `RegularTransactionEssenceBuilder::finish_with_params` makes of what
/// `builder` holds and the outputs `outputs`, under the protocol
/// parameters `protocol_parameters`; `None` where the SDK gives an error.
pub uninterp spec fn finished_essence(
    builder: RegularTransactionEssenceBuilder,
    outputs: Seq<Output>,
    protocol_parameters: ProtocolParameters,
) -> Option<TransactionEssence>;

/// The outputs that a candidate creates, in their order: the NFT output
/// first, then the output that takes the rest.
pub open spec fn created_outputs(outputs: CandidateOutputs) -> Seq<Output> {
    seq![outputs.nft, outputs.remainder]
}

/// Gives a copy of `builder` the outputs `outputs` and calls the SDK's
/// `RegularTransactionEssenceBuilder::finish_with_params` on it.  The SDK
/// reads the chain of every output and checks every deposit that is given
/// back, and stops the program where a foundry output does not name its
/// alias or the smallest output to a return address cannot be built, so
/// such outputs are left out.  The outcome depends on the builder, the
/// outputs and the parameters alone, and the contract gives it its name.
#[verifier::external_body]
fn finish_essence(
    builder: &RegularTransactionEssenceBuilder,
    outputs: Vec<Output>,
    protocol_parameters: &ProtocolParameters,
) -> (r: Result<TransactionEssence, iota_sdk::types::block::Error>)
    requires
        forall|i: int|
            0 <= i < outputs@.len() ==> fit_for_essence(#[trigger] outputs@[i], *protocol_parameters),
    ensures
        r is Ok <==> finished_essence(*builder, outputs@, *protocol_parameters) is Some,
        r matches Ok(essence) ==> finished_essence(*builder, outputs@, *protocol_parameters)
            == Some(essence),
{
    let essence = builder.clone().with_outputs(outputs).finish_with_params(
        protocol_parameters.clone(),
    )?;
    Ok(TransactionEssence::Regular(essence))
}

/// Calls the SDK's `TransactionPayload::new`.  The outcome depends on the
/// essence and the unlocks alone, and the contract gives it its name.
#[verifier::external_body]
fn new_payload(essence: TransactionEssence, unlocks: Unlocks) -> (r: Result<
    TransactionPayload,
    iota_sdk::types::block::Error,
>)
    ensures
        r is Ok <==> joined_payload(essence, unlocks) is Some,
        r matches Ok(payload) ==> joined_payload(essence, unlocks) == Some(payload),
{
    TransactionPayload::new(essence, unlocks)
}

/// Calls the SDK's `TransactionPayload::id` and hands out the 32 bytes of
/// the identifier.  The identifier depends on the payload alone, and the
/// contract gives it its name.
#[verifier::external_body]
fn payload_id(payload: &TransactionPayload) -> (id: [u8; 32])
    ensures
        id@ == payload_digest(*payload),
{
    *payload.id()
}

/// The NFT output of the candidate of `round`: what `builder` holds, with
/// the tag of the round added; `None` where the SDK refuses it.
pub open spec fn nft_of(builder: NftOutputBuilder, round: u32, token_supply: u64) -> Option<
    Output,
> {
    finished_nft_output(builder, tag_feature_of(tag_of(round)), token_supply)
}

/// What the NFT output of the candidate of `round` leaves of an input of
/// `input_amount`; meant for an NFT output that the SDK accepts and whose
/// amount the input covers.
pub open spec fn rest_of(
    builder: NftOutputBuilder,
    round: u32,
    input_amount: u64,
    token_supply: u64,
) -> u64 {
    (input_amount - amount_of(nft_of(builder, round, token_supply)->0)) as u64
}

/// Whether the input of `input_amount` covers the NFT output of the
/// candidate of `round`, which the SDK accepts.
pub open spec fn input_covers_nft(
    builder: NftOutputBuilder,
    round: u32,
    input_amount: u64,
    token_supply: u64,
) -> bool {
    &&& nft_of(builder, round, token_supply) is Some
    &&& amount_of(nft_of(builder, round, token_supply)->0) <= input_amount
}

/// Whether the two outputs of the candidate of `round` can be built: the
/// SDK accepts the NFT output, the input covers its amount, and the SDK
/// accepts the output that takes the rest.
pub open spec fn outputs_can_be_built(
    builder: NftOutputBuilder,
    round: u32,
    input_amount: u64,
    owner: Bech32Address,
    token_supply: u64,
) -> bool {
    &&& input_covers_nft(builder, round, input_amount, token_supply)
    &&& finished_basic_output(
        rest_of(builder, round, input_amount, token_supply),
        owner,
        token_supply,
    ) is Some
}

/// The two outputs of the candidate of `round`, which spends an input of
/// `input_amount`.
///
/// The NFT output is built from `nft_builder` with the tag of the round
/// added; its amount is what the builder decides.  The other output holds
/// what the NFT output leaves of the input's amount, and `owner` unlocks
/// it.
pub fn candidate_outputs(
    nft_builder: &NftOutputBuilder,
    round: u32,
    input_amount: u64,
    owner: &Bech32Address,
    token_supply: u64,
) -> (r: Result<CandidateOutputs, CandidateError>)
    ensures
        r is Ok <==> outputs_can_be_built(*nft_builder, round, input_amount, *owner, token_supply),
        r is Ok <==> input_covers_nft(*nft_builder, round, input_amount, token_supply) && 1
            <= rest_of(*nft_builder, round, input_amount, token_supply) <= token_supply,
        r matches Ok(outputs) ==> {
            &&& Some(outputs.nft) == nft_of(*nft_builder, round, token_supply)
            &&& outputs.nft_amount == amount_of(outputs.nft)
            &&& outputs.nft_amount + outputs.remainder_amount == input_amount
            &&& Some(outputs.remainder) == finished_basic_output(
                outputs.remainder_amount,
                *owner,
                token_supply,
            )
            &&& outputs.remainder_amount == amount_of(outputs.remainder)
            &&& 1 <= outputs.remainder_amount <= token_supply
        },
        r matches Err(e) ==> {
            &&& e is NftOutput <==> nft_of(*nft_builder, round, token_supply) is None
            &&& e is InputTooSmall <==> nft_of(*nft_builder, round, token_supply) is Some
                && amount_of(nft_of(*nft_builder, round, token_supply)->0) > input_amount
            &&& e is RemainderOutput <==> input_covers_nft(
                *nft_builder,
                round,
                input_amount,
                token_supply,
            )
            &&& e matches CandidateError::InputTooSmall { input_amount: held, nft_amount } ==> held
                == input_amount && nft_amount == amount_of(
                nft_of(*nft_builder, round, token_supply)->0,
            )
            &&& e matches CandidateError::RemainderOutput { amount, .. } ==> amount == rest_of(
                *nft_builder,
                round,
                input_amount,
                token_supply,
            )
        },
{
    let feature = match tag_feature(round_tag(round)) {
        Ok(feature) => feature,
        Err(_) => unreached(),
    };
    let nft = match finish_nft_output(nft_builder, feature, token_supply) {
        Ok(output) => output,
        Err(source) => {
            return Err(CandidateError::NftOutput { source });
        },
    };
    let nft_amount = output_amount(&nft);
    let rest = match remainder_amount(input_amount, nft_amount) {
        Some(rest) => rest,
        None => {
            return Err(CandidateError::InputTooSmall { input_amount, nft_amount });
        },
    };
    match finish_basic_output(rest, owner, token_supply) {
        Ok(remainder) => Ok(CandidateOutputs { nft, nft_amount, remainder, remainder_amount: rest }),
        Err(source) => Err(CandidateError::RemainderOutput { amount: rest, source }),
    }
}

/// Whether both outputs of a candidate can stand in an essence that the
/// SDK checks against `protocol_parameters`.
pub open spec fn outputs_fit(outputs: CandidateOutputs, protocol_parameters: ProtocolParameters) -> bool {
    fit_for_essence(outputs.nft, protocol_parameters) && fit_for_essence(
        outputs.remainder,
        protocol_parameters,
    )
}

/// The essence of a candidate: what `essence_builder` holds, and the two
/// outputs, the NFT output first; an error where an output cannot stand
/// in an essence, and where the SDK refuses the outputs.
pub fn candidate_essence(
    essence_builder: &RegularTransactionEssenceBuilder,
    outputs: CandidateOutputs,
    protocol_parameters: &ProtocolParameters,
) -> (r: Result<TransactionEssence, CandidateError>)
    ensures
        r is Ok <==> outputs_fit(outputs, *protocol_parameters) && finished_essence(
            *essence_builder,
            created_outputs(outputs),
            *protocol_parameters,
        ) is Some,
        r matches Ok(essence) ==> finished_essence(
            *essence_builder,
            created_outputs(outputs),
            *protocol_parameters,
        ) == Some(essence),
        r matches Err(e) ==> {
            &&& e is UnfitOutput <==> !outputs_fit(outputs, *protocol_parameters)
            &&& e is Essence <==> outputs_fit(outputs, *protocol_parameters)
            &&& e matches CandidateError::UnfitOutput { position } ==> position == if fit_for_essence(
                outputs.nft,
                *protocol_parameters,
            ) {
                1u8
            } else {
                0u8
            }
        },
{
    if !is_fit_for_essence(&outputs.nft, protocol_parameters) {
        return Err(CandidateError::UnfitOutput { position: 0 });
    }
    if !is_fit_for_essence(&outputs.remainder, protocol_parameters) {
        return Err(CandidateError::UnfitOutput { position: 1 });
    }
    let mut created: Vec<Output> = Vec::new();
    created.push(outputs.nft);
    created.push(outputs.remainder);
    assert(created@ =~= created_outputs(outputs));
    match finish_essence(essence_builder, created, protocol_parameters) {
        Ok(essence) => Ok(essence),
        Err(source) => Err(CandidateError::Essence { source }),
    }
}

/// A candidate that was signed.
#[derive(Debug, PartialEq, Eq)]
pub struct SignedCandidate {
    /// The transaction.
    pub payload: TransactionPayload,
    /// The identifier of the transaction.
    pub transaction_id: [u8; 32],
    /// The identifier that the NFT of the first output would get.
    pub nft_id: NftId,
}

/// Joins the essence of a candidate and the unlocks that signing it gave,
/// and derives the identifiers.
pub fn signed_candidate(essence: TransactionEssence, unlocks: Unlocks) -> (r: Result<
    SignedCandidate,
    CandidateError,
>)
    ensures
        r is Ok <==> joined_payload(essence, unlocks) is Some,
        r matches Ok(candidate) ==> {
            &&& joined_payload(essence, unlocks) == Some(candidate.payload)
            &&& candidate.transaction_id@ == payload_digest(candidate.payload)
            &&& candidate.nft_id@ == output_id_digest(candidate.transaction_id@, 0)
        },
        r matches Err(e) ==> e is Payload,
{
    match new_payload(essence, unlocks) {
        Ok(payload) => {
            let (transaction_id, nft_id) = candidate_ids(&payload);
            Ok(SignedCandidate { payload, transaction_id, nft_id })
        },
        Err(source) => Err(CandidateError::Payload { source }),
    }
}

/// The identifier of a signed candidate, and the identifier that the NFT
/// of its first output would get.
pub fn candidate_ids(payload: &TransactionPayload) -> (r: ([u8; 32], NftId))
    ensures
        r.0@ == payload_digest(*payload),
        r.1@ == output_id_digest(r.0@, 0),
{
    let transaction_id = payload_id(payload);
    let nft_id = NftId::for_first_output(&transaction_id);
    (transaction_id, nft_id)
}

} // verus!
