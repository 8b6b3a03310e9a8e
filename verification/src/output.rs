//! What the library reads of an output before it hands the output to the
//! SDK.
//!
//! The SDK takes for granted that an output holds the conditions that its
//! kind asks for, as every output does that the SDK itself has checked.
//! An output that was decoded without checks can lack them, and the SDK
//! then stops the program.  The functions of this module tell such outputs
//! apart.

use iota_sdk::types::block::address::Address;
use iota_sdk::types::block::output::unlock_condition::AddressUnlockCondition;
use iota_sdk::types::block::output::unlock_condition::UnlockConditions;
use iota_sdk::types::block::output::BasicOutputBuilder;
use iota_sdk::types::block::output::Output;
use iota_sdk::types::block::output::OutputWithMetadata;
use iota_sdk::types::block::protocol::ProtocolParameters;
use vstd::prelude::*;

verus! {

/// The kind of a treasury output.
pub const TREASURY_KIND: u8 = 2;

/// The kind of a basic output.
pub const BASIC_KIND: u8 = 3;

/// The kind of an alias output.
pub const ALIAS_KIND: u8 = 4;

/// The kind of a foundry output.
pub const FOUNDRY_KIND: u8 = 5;

/// The kind of an NFT output.
pub const NFT_KIND: u8 = 6;

/// The SDK's address.
#[verifier::external_type_specification]
#[verifier::external_body]
pub struct ExAddress(Address);

/// The output that `output` holds beside its place in the ledger, as the
/// SDK's `OutputWithMetadata::output` gives it.
pub uninterp spec fn output_of(output: OutputWithMetadata) -> Output;

/// The kind of `output`, as the SDK's `Output::kind` gives it.
pub uninterp spec fn kind_of(output: Output) -> u8;

/// Whether `output` holds an address condition, as the SDK's
/// `UnlockConditions::address` finds it.
pub uninterp spec fn has_address(output: Output) -> bool;

/// Whether `output` holds a state controller condition, as the SDK's
/// `UnlockConditions::state_controller_address` finds it.
pub uninterp spec fn has_state_controller(output: Output) -> bool;

/// Whether `output` holds an immutable alias condition, as the SDK's
/// `UnlockConditions::immutable_alias_address` finds it.
pub uninterp spec fn has_immutable_alias(output: Output) -> bool;

/// The address to which the deposit of `output` goes back, as the SDK's
/// `UnlockConditions::storage_deposit_return` finds the condition; `None`
/// where the output holds no such condition.
pub uninterp spec fn deposit_return_of(output: Output) -> Option<Address>;

/// Whether the SDK's `BasicOutputBuilder` can finish the smallest output
/// that `address` unlocks: one that holds the least deposit that
/// `protocol_parameters` ask for, with their token supply as the bound on
/// the amount.
pub uninterp spec fn smallest_output_fits(
    address: Address,
    protocol_parameters: ProtocolParameters,
) -> bool;

/// Whether the SDK can say which address unlocks `output`: the output
/// holds the condition that names the address for its kind.  A treasury
/// output has no such address, which the SDK answers with an error.
pub open spec fn controller_known(output: Output) -> bool {
    let kind = kind_of(output);
    if kind == BASIC_KIND || kind == NFT_KIND {
        has_address(output)
    } else if kind == ALIAS_KIND {
        has_state_controller(output)
    } else if kind == FOUNDRY_KIND {
        has_immutable_alias(output)
    } else {
        kind == TREASURY_KIND
    }
}

/// Whether the SDK can say which chain `output` belongs to: a foundry
/// output holds the condition that names its alias.
pub open spec fn chain_known(output: Output) -> bool {
    kind_of(output) == FOUNDRY_KIND ==> has_immutable_alias(output)
}

/// Whether the SDK can check the deposit that `output` gives back: it
/// gives none back, or the smallest output to the address that gets it
/// can be built.
pub open spec fn deposit_checkable(output: Output, protocol_parameters: ProtocolParameters) -> bool {
    match deposit_return_of(output) {
        Some(address) => smallest_output_fits(address, protocol_parameters),
        None => true,
    }
}

/// Whether `output` can stand in an essence that the SDK checks against
/// `protocol_parameters`.
pub open spec fn fit_for_essence(output: Output, protocol_parameters: ProtocolParameters) -> bool {
    chain_known(output) && deposit_checkable(output, protocol_parameters)
}

/// Calls the SDK's `OutputWithMetadata::output`.  The output depends on
/// the argument alone, and the contract gives it its name.
#[verifier::external_body]
pub(crate) fn inner_output(output: &OutputWithMetadata) -> (r: &Output)
    ensures
        *r == output_of(*output),
{
    output.output()
}

/// Calls the SDK's `Output::kind`.  The kind depends on the output alone,
/// and the contract gives it its name.
#[verifier::external_body]
pub(crate) fn output_kind(output: &Output) -> (kind: u8)
    ensures
        kind == kind_of(*output),
{
    output.kind()
}

/// Calls the SDK's `Output::unlock_conditions` and
/// `UnlockConditions::address`, and says whether they found a condition.
/// That depends on the output alone, and the contract gives it its name.
#[verifier::external_body]
fn holds_address(output: &Output) -> (r: bool)
    ensures
        r == has_address(*output),
{
    output.unlock_conditions().and_then(UnlockConditions::address).is_some()
}

/// Calls the SDK's `Output::unlock_conditions` and
/// `UnlockConditions::state_controller_address`, and says whether they
/// found a condition.  That depends on the output alone, and the contract
/// gives it its name.
#[verifier::external_body]
fn holds_state_controller(output: &Output) -> (r: bool)
    ensures
        r == has_state_controller(*output),
{
    output.unlock_conditions().and_then(UnlockConditions::state_controller_address).is_some()
}

/// Calls the SDK's `Output::unlock_conditions` and
/// `UnlockConditions::immutable_alias_address`, and says whether they
/// found a condition.  That depends on the output alone, and the contract
/// gives it its name.
#[verifier::external_body]
fn holds_immutable_alias(output: &Output) -> (r: bool)
    ensures
        r == has_immutable_alias(*output),
{
    output.unlock_conditions().and_then(UnlockConditions::immutable_alias_address).is_some()
}

/// Calls the SDK's `Output::unlock_conditions` and
/// `UnlockConditions::storage_deposit_return`, and hands out the return
/// address of the condition that they found.  That depends on the output
/// alone, and the contract gives it its name.
#[verifier::external_body]
fn deposit_return_address(output: &Output) -> (r: Option<Address>)
    ensures
        r == deposit_return_of(*output),
{
    output.unlock_conditions().and_then(UnlockConditions::storage_deposit_return).map(
        |condition| *condition.return_address(),
    )
}

/// Builds the smallest output that `address` unlocks with the SDK's
/// `BasicOutputBuilder::new_with_minimum_storage_deposit` under the rent
/// structure of the parameters, finishes it with `finish_with_params`
/// under their token supply, and says whether that succeeded.  The SDK
/// makes the same calls where it checks a deposit that is given back, and
/// takes their success for granted.  The outcome depends on the address
/// and the parameters alone, and the contract gives it its name.
#[verifier::external_body]
fn fits_smallest_output(address: &Address, protocol_parameters: &ProtocolParameters) -> (r: bool)
    ensures
        r == smallest_output_fits(*address, *protocol_parameters),
{
    BasicOutputBuilder::new_with_minimum_storage_deposit(
        *protocol_parameters.rent_structure(),
    ).add_unlock_condition(AddressUnlockCondition::new(*address)).finish_with_params(
        protocol_parameters.token_supply(),
    ).is_ok()
}

/// Whether the SDK can say which address unlocks `output`.
pub fn names_controller(output: &Output) -> (r: bool)
    ensures
        r == controller_known(*output),
{
    let kind = output_kind(output);
    if kind == BASIC_KIND || kind == NFT_KIND {
        holds_address(output)
    } else if kind == ALIAS_KIND {
        holds_state_controller(output)
    } else if kind == FOUNDRY_KIND {
        holds_immutable_alias(output)
    } else {
        kind == TREASURY_KIND
    }
}

/// Whether `output` can stand in an essence that the SDK checks against
/// `protocol_parameters`.
pub fn is_fit_for_essence(output: &Output, protocol_parameters: &ProtocolParameters) -> (r: bool)
    ensures
        r == fit_for_essence(*output, *protocol_parameters),
{
    if output_kind(output) == FOUNDRY_KIND && !holds_immutable_alias(output) {
        return false;
    }
    match deposit_return_address(output) {
        Some(address) => fits_smallest_output(&address, protocol_parameters),
        None => true,
    }
}

} // verus!
