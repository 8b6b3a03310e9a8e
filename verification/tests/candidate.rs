use iota_sdk::types::block::address::{Address, Bech32Address, Ed25519Address, Hrp};
use iota_sdk::types::block::input::{Input, UtxoInput};
use iota_sdk::types::block::output::feature::{IssuerFeature, TagFeature};
use iota_sdk::packable::PackableExt;
use iota_sdk::types::block::output::unlock_condition::{
    AddressUnlockCondition, StorageDepositReturnUnlockCondition,
};
use iota_sdk::types::block::output::{
    BasicOutputBuilder, InputsCommitment, NftOutputBuilder, Output, OutputId, RentStructure,
};
use iota_sdk::types::block::payload::transaction::{
    RegularTransactionEssence, RegularTransactionEssenceBuilder, TransactionEssence, TransactionId,
    TransactionPayload,
};
use iota_sdk::types::block::protocol::ProtocolParameters;
use iota_sdk::types::block::signature::{Ed25519Signature, Signature};
use iota_sdk::types::block::unlock::{SignatureUnlock, Unlock, Unlocks};
use iota_sdk::types::block::Error;
use tangle_kit::candidate::{
    candidate_essence, candidate_ids, candidate_outputs, signed_candidate, CandidateError,
    CandidateOutputs,
};
use tangle_kit::nft_id::NftId;

const TOKEN_SUPPLY: u64 = 1_813_620_509_061_365;
const INPUT_AMOUNT: u64 = 2_000_000;

fn owner() -> Bech32Address {
    Bech32Address::new(
        Hrp::from_str_unchecked("rms"),
        Address::Ed25519(Ed25519Address::new([17u8; 32])),
    )
}

fn nft_builder() -> NftOutputBuilder {
    NftOutputBuilder::new_with_minimum_storage_deposit(
        RentStructure::default(),
        iota_sdk::types::block::output::NftId::null(),
    )
    .add_unlock_condition(AddressUnlockCondition::new(owner()))
    .add_immutable_feature(IssuerFeature::new(owner()))
}

fn input_output() -> Output {
    BasicOutputBuilder::new_with_amount(INPUT_AMOUNT)
        .add_unlock_condition(AddressUnlockCondition::new(owner()))
        .finish_output(TOKEN_SUPPLY)
        .unwrap()
}

fn essence_builder(network_id: u64) -> RegularTransactionEssenceBuilder {
    let input = input_output();
    let commitment = InputsCommitment::new([&input].into_iter());
    RegularTransactionEssence::builder(network_id, commitment).with_inputs(vec![Input::Utxo(
        UtxoInput::new(TransactionId::new([5u8; 32]), 0).unwrap(),
    )])
}

fn expected_nft(round: u32) -> Output {
    nft_builder()
        .add_feature(TagFeature::new(round.to_be_bytes()).unwrap())
        .finish_output(TOKEN_SUPPLY)
        .unwrap()
}

fn unlocks(signature_byte: u8, count: usize) -> Unlocks {
    let mut unlocks = Vec::new();
    for i in 0..count {
        let signature = Ed25519Signature::from_bytes([1u8 + i as u8; 32], [signature_byte; 64]);
        let signature = Signature::Ed25519(Box::new(signature));
        unlocks.push(Unlock::Signature(SignatureUnlock::new(signature)));
    }
    Unlocks::new(unlocks).unwrap()
}

fn signed(essence: TransactionEssence, signature_byte: u8) -> TransactionPayload {
    TransactionPayload::new(essence, unlocks(signature_byte, 1)).unwrap()
}

#[test]
fn outputs_are_the_tagged_nft_and_the_rest() {
    let outputs = candidate_outputs(&nft_builder(), 7, INPUT_AMOUNT, &owner(), TOKEN_SUPPLY).unwrap();
    let nft = expected_nft(7);
    assert_eq!(outputs.nft, nft);
    assert_eq!(outputs.nft_amount, nft.amount());
    assert_eq!(outputs.remainder_amount, INPUT_AMOUNT - nft.amount());
    assert_eq!(outputs.remainder.amount(), INPUT_AMOUNT - nft.amount());
    let remainder = BasicOutputBuilder::new_with_amount(INPUT_AMOUNT - nft.amount())
        .add_unlock_condition(AddressUnlockCondition::new(owner()))
        .finish_output(TOKEN_SUPPLY)
        .unwrap();
    assert_eq!(outputs.remainder, remainder);
    assert!(nft.amount() > 0);
}

#[test]
fn nft_output_carries_the_tag_of_the_round() {
    let outputs =
        candidate_outputs(&nft_builder(), 0x0a0b_0c0d, INPUT_AMOUNT, &owner(), TOKEN_SUPPLY).unwrap();
    let tag = outputs.nft.features().unwrap().tag().unwrap().tag().to_vec();
    assert_eq!(tag, vec![0x0a, 0x0b, 0x0c, 0x0d]);
    assert!(outputs.remainder.features().unwrap().tag().is_none());
}

#[test]
fn outputs_of_different_rounds_differ() {
    let a = candidate_outputs(&nft_builder(), 1, INPUT_AMOUNT, &owner(), TOKEN_SUPPLY).unwrap();
    let b = candidate_outputs(&nft_builder(), 2, INPUT_AMOUNT, &owner(), TOKEN_SUPPLY).unwrap();
    assert_ne!(a.nft, b.nft);
    assert_eq!(a.remainder, b.remainder);
    assert_eq!(a.nft_amount, b.nft_amount);
}

#[test]
fn amounts_of_the_outputs_add_up_to_the_input() {
    for input_amount in [INPUT_AMOUNT, 1_000_000, 50_000_000] {
        let outputs =
            candidate_outputs(&nft_builder(), 3, input_amount, &owner(), TOKEN_SUPPLY).unwrap();
        assert_eq!(outputs.nft_amount + outputs.remainder_amount, input_amount);
        assert_eq!(outputs.nft.amount() + outputs.remainder.amount(), input_amount);
    }
}

#[test]
fn input_below_the_deposit_is_refused() {
    let deposit = expected_nft(3).amount();
    assert_eq!(
        candidate_outputs(&nft_builder(), 3, deposit - 1, &owner(), TOKEN_SUPPLY),
        Err(CandidateError::InputTooSmall { input_amount: deposit - 1, nft_amount: deposit })
    );
    assert_eq!(
        candidate_outputs(&nft_builder(), 3, 0, &owner(), TOKEN_SUPPLY),
        Err(CandidateError::InputTooSmall { input_amount: 0, nft_amount: deposit })
    );
}

#[test]
fn input_that_leaves_nothing_is_refused() {
    let deposit = expected_nft(3).amount();
    match candidate_outputs(&nft_builder(), 3, deposit, &owner(), TOKEN_SUPPLY) {
        Err(CandidateError::RemainderOutput { amount, source }) => {
            assert_eq!(amount, 0);
            assert_eq!(source, Error::InvalidOutputAmount(0));
        }
        other => panic!("unexpected {other:?}"),
    }
    let outputs = candidate_outputs(&nft_builder(), 3, deposit + 1, &owner(), TOKEN_SUPPLY).unwrap();
    assert_eq!(outputs.remainder_amount, 1);
}

#[test]
fn rest_above_the_token_supply_is_refused() {
    let deposit = expected_nft(3).amount();
    let supply = deposit + 10;
    match candidate_outputs(&nft_builder(), 3, 2 * deposit + 11, &owner(), supply) {
        Err(CandidateError::RemainderOutput { amount, source }) => {
            assert_eq!(amount, deposit + 11);
            assert_eq!(source, Error::InvalidOutputAmount(deposit + 11));
        }
        other => panic!("unexpected {other:?}"),
    }
    assert!(candidate_outputs(&nft_builder(), 3, 2 * deposit + 10, &owner(), supply).is_ok());
}

#[test]
fn nft_output_that_the_sdk_refuses() {
    let no_owner = NftOutputBuilder::new_with_minimum_storage_deposit(
        RentStructure::default(),
        iota_sdk::types::block::output::NftId::null(),
    );
    assert_eq!(
        candidate_outputs(&no_owner, 3, INPUT_AMOUNT, &owner(), TOKEN_SUPPLY),
        Err(CandidateError::NftOutput { source: Error::MissingAddressUnlockCondition })
    );
    let too_dear = NftOutputBuilder::new_with_amount(
        TOKEN_SUPPLY + 1,
        iota_sdk::types::block::output::NftId::null(),
    )
    .add_unlock_condition(AddressUnlockCondition::new(owner()));
    assert_eq!(
        candidate_outputs(&too_dear, 3, INPUT_AMOUNT, &owner(), TOKEN_SUPPLY),
        Err(CandidateError::NftOutput { source: Error::InvalidOutputAmount(TOKEN_SUPPLY + 1) })
    );
}

#[test]
fn essence_holds_the_nft_output_first() {
    let parameters = ProtocolParameters::default();
    let builder = essence_builder(parameters.network_id());
    let outputs = candidate_outputs(&nft_builder(), 9, INPUT_AMOUNT, &owner(), TOKEN_SUPPLY).unwrap();
    let nft = outputs.nft.clone();
    let remainder = outputs.remainder.clone();
    let essence = candidate_essence(&builder, outputs, &parameters).unwrap();
    let TransactionEssence::Regular(regular) = &essence;
    assert_eq!(regular.outputs().len(), 2);
    assert_eq!(regular.outputs()[0], nft);
    assert_eq!(regular.outputs()[1], remainder);
    assert!(regular.outputs()[0].is_nft());
    assert!(regular.outputs()[1].is_basic());
    let expected = builder
        .clone()
        .with_outputs(vec![nft, remainder])
        .finish_with_params(parameters)
        .unwrap();
    assert_eq!(essence, TransactionEssence::Regular(expected));
}

#[test]
fn essence_of_another_network_is_refused() {
    let parameters = ProtocolParameters::default();
    let builder = essence_builder(parameters.network_id() + 1);
    let outputs = candidate_outputs(&nft_builder(), 9, INPUT_AMOUNT, &owner(), TOKEN_SUPPLY).unwrap();
    assert_eq!(
        candidate_essence(&builder, outputs, &parameters),
        Err(CandidateError::Essence {
            source: Error::NetworkIdMismatch {
                expected: parameters.network_id(),
                actual: parameters.network_id() + 1,
            }
        })
    );
}

#[test]
fn ids_are_those_of_the_payload_and_its_first_output() {
    let parameters = ProtocolParameters::default();
    let builder = essence_builder(parameters.network_id());
    let outputs = candidate_outputs(&nft_builder(), 9, INPUT_AMOUNT, &owner(), TOKEN_SUPPLY).unwrap();
    let essence = candidate_essence(&builder, outputs, &parameters).unwrap();
    let payload = signed(essence, 2);
    let (transaction_id, nft_id) = candidate_ids(&payload);
    assert_eq!(transaction_id, *payload.id());
    let expected =
        iota_sdk::types::block::output::NftId::from(&OutputId::new(payload.id(), 0).unwrap());
    assert_eq!(nft_id.bytes, *expected);
    assert_eq!(nft_id, NftId::for_first_output(&transaction_id));
    assert_ne!(nft_id.bytes, transaction_id);
}

#[test]
fn ids_depend_on_round_and_signature() {
    let parameters = ProtocolParameters::default();
    let builder = essence_builder(parameters.network_id());
    let essence_of = |round: u32| {
        let outputs =
            candidate_outputs(&nft_builder(), round, INPUT_AMOUNT, &owner(), TOKEN_SUPPLY).unwrap();
        candidate_essence(&builder, outputs, &parameters).unwrap()
    };
    let a = candidate_ids(&signed(essence_of(1), 2));
    let b = candidate_ids(&signed(essence_of(2), 2));
    let c = candidate_ids(&signed(essence_of(1), 3));
    assert_ne!(a, b);
    assert_ne!(a, c);
    assert_eq!(a, candidate_ids(&signed(essence_of(1), 2)));
}

#[test]
fn signed_candidate_is_the_payload_with_its_ids() {
    let parameters = ProtocolParameters::default();
    let builder = essence_builder(parameters.network_id());
    let outputs = candidate_outputs(&nft_builder(), 4, INPUT_AMOUNT, &owner(), TOKEN_SUPPLY).unwrap();
    let essence = candidate_essence(&builder, outputs, &parameters).unwrap();
    let expected = signed(essence.clone(), 6);
    let candidate = signed_candidate(essence, unlocks(6, 1)).unwrap();
    assert_eq!(candidate.payload, expected);
    assert_eq!(candidate.transaction_id, *expected.id());
    assert_eq!(candidate.nft_id, NftId::for_first_output(&candidate.transaction_id));
    assert_eq!((candidate.transaction_id, candidate.nft_id), candidate_ids(&expected));
}

#[test]
fn unlocks_that_do_not_match_the_inputs_are_refused() {
    let parameters = ProtocolParameters::default();
    let builder = essence_builder(parameters.network_id());
    let outputs = candidate_outputs(&nft_builder(), 4, INPUT_AMOUNT, &owner(), TOKEN_SUPPLY).unwrap();
    let essence = candidate_essence(&builder, outputs, &parameters).unwrap();
    assert_eq!(
        signed_candidate(essence, unlocks(6, 2)),
        Err(CandidateError::Payload { source: Error::InputUnlockCountMismatch { input_count: 1, unlock_count: 2 } })
    );
}

fn returning_builder() -> NftOutputBuilder {
    NftOutputBuilder::new_with_amount(1_000_000, iota_sdk::types::block::output::NftId::null())
        .add_unlock_condition(AddressUnlockCondition::new(owner()))
        .add_unlock_condition(
            StorageDepositReturnUnlockCondition::new(owner(), 500_000, TOKEN_SUPPLY).unwrap(),
        )
}

fn free_parameters() -> ProtocolParameters {
    ProtocolParameters::new(
        2,
        String::from("shimmer"),
        "smr",
        1500,
        15,
        RentStructure::new(0, 10, 1),
        TOKEN_SUPPLY,
    )
    .unwrap()
}

#[test]
fn remainder_holds_what_it_was_built_with() {
    let outputs = candidate_outputs(&nft_builder(), 3, INPUT_AMOUNT, &owner(), TOKEN_SUPPLY).unwrap();
    assert_eq!(outputs.remainder.amount(), outputs.remainder_amount);
    assert_eq!(outputs.nft.amount(), outputs.nft_amount);
}

#[test]
fn deposit_that_is_given_back_is_checked_where_it_has_a_price() {
    let parameters = ProtocolParameters::default();
    let builder = essence_builder(parameters.network_id());
    let outputs =
        candidate_outputs(&returning_builder(), 3, INPUT_AMOUNT, &owner(), TOKEN_SUPPLY).unwrap();
    let nft = outputs.nft.clone();
    let remainder = outputs.remainder.clone();
    let essence = candidate_essence(&builder, outputs, &parameters).unwrap();
    let expected = builder
        .clone()
        .with_outputs(vec![nft, remainder])
        .finish_with_params(parameters)
        .unwrap();
    assert_eq!(essence, TransactionEssence::Regular(expected));
}

#[test]
fn deposit_that_is_given_back_without_a_price_is_refused() {
    let parameters = free_parameters();
    let builder = essence_builder(parameters.network_id());
    let outputs =
        candidate_outputs(&returning_builder(), 3, INPUT_AMOUNT, &owner(), TOKEN_SUPPLY).unwrap();
    assert_eq!(
        candidate_essence(&builder, outputs, &parameters),
        Err(CandidateError::UnfitOutput { position: 0 })
    );
    let plain = candidate_outputs(&nft_builder(), 3, INPUT_AMOUNT, &owner(), TOKEN_SUPPLY).unwrap();
    assert!(candidate_essence(&builder, plain, &parameters).is_ok());
}

#[test]
fn unfit_second_output_is_refused() {
    let parameters = free_parameters();
    let builder = essence_builder(parameters.network_id());
    let plain = candidate_outputs(&nft_builder(), 3, INPUT_AMOUNT, &owner(), TOKEN_SUPPLY).unwrap();
    let returning = BasicOutputBuilder::new_with_amount(plain.remainder_amount)
        .add_unlock_condition(AddressUnlockCondition::new(owner()))
        .add_unlock_condition(
            StorageDepositReturnUnlockCondition::new(owner(), 5, TOKEN_SUPPLY).unwrap(),
        )
        .finish_output(TOKEN_SUPPLY)
        .unwrap();
    let outputs = CandidateOutputs {
        nft: plain.nft.clone(),
        nft_amount: plain.nft_amount,
        remainder: returning,
        remainder_amount: plain.remainder_amount,
    };
    assert_eq!(
        candidate_essence(&builder, outputs, &parameters),
        Err(CandidateError::UnfitOutput { position: 1 })
    );
}

#[test]
fn foundry_without_its_alias_is_refused() {
    let parameters = ProtocolParameters::default();
    let builder = essence_builder(parameters.network_id());
    let plain = candidate_outputs(&nft_builder(), 3, INPUT_AMOUNT, &owner(), TOKEN_SUPPLY).unwrap();
    let mut bytes = vec![5u8];
    bytes.extend_from_slice(&1_000_000u64.to_le_bytes());
    bytes.push(0);
    bytes.extend_from_slice(&1u32.to_le_bytes());
    bytes.push(0);
    bytes.extend_from_slice(&[0u8; 96]);
    bytes.extend_from_slice(&[0, 0, 0]);
    let foundry = Output::unpack_unverified(bytes).unwrap();
    let first = CandidateOutputs {
        nft: foundry.clone(),
        nft_amount: 1_000_000,
        remainder: plain.remainder.clone(),
        remainder_amount: plain.remainder_amount,
    };
    assert_eq!(
        candidate_essence(&builder, first, &parameters),
        Err(CandidateError::UnfitOutput { position: 0 })
    );
    let second = CandidateOutputs {
        nft: plain.nft.clone(),
        nft_amount: plain.nft_amount,
        remainder: foundry,
        remainder_amount: 1_000_000,
    };
    assert_eq!(
        candidate_essence(&builder, second, &parameters),
        Err(CandidateError::UnfitOutput { position: 1 })
    );
}
