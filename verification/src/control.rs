//! Finding the address that controls an output in the end.
//!
//! An output is unlocked by an address.  Where that is the address of an
//! alias or of an NFT, the output that holds the alias or the NFT is
//! controlled in turn, and so on, until an Ed25519 address is reached.
//! The search follows that chain for a bounded number of outputs.
//!
//! Fetching an output and reading its address are the caller's work.  The
//! caller starts the search with [`start`], does what the action says, and
//! hands the outcome to [`step`].

use crate::nft_id::NftId;
use crate::output::controller_known;
use crate::output::inner_output;
use crate::output::names_controller;
use crate::output::output_kind;
use crate::output::kind_of;
use crate::output::output_of;
use iota_sdk::types::block::address::Address;
use iota_sdk::types::block::output::AliasTransition;
use iota_sdk::types::block::output::OutputWithMetadata;
use vstd::prelude::*;

verus! {

/// The number of outputs whose address the search reads at most.
pub const MAX_RESOLUTIONS: u32 = 1000;

/// The address that unlocks an output.
#[derive(Clone, Copy, Debug, PartialEq, Eq)]
pub enum Controller {
    /// An Ed25519 address: the end of a chain.
    Ed25519 { address: [u8; 32] },
    /// The address of the alias `alias_id`.
    Alias { alias_id: [u8; 32] },
    /// The address of the NFT `nft_id`.
    Nft { nft_id: NftId },
}

/// What the search waits for.
#[derive(Clone, Copy, Debug, PartialEq, Eq)]
pub enum SearchState {
    /// The address of the output at hand is being read; `done` outputs were
    /// read before it.
    Resolving { done: u32 },
    /// The output that holds the controller is being fetched; `done`
    /// outputs were read.
    Fetching { done: u32 },
    /// The chain ended at the Ed25519 address `address`.
    Found { address: [u8; 32] },
    /// The chain did not end within `MAX_RESOLUTIONS` outputs.
    Exhausted,
}

/// What the caller reports.
#[derive(Clone, Copy, Debug, PartialEq, Eq)]
pub enum SearchEvent {
    /// The output at hand is unlocked by `controller`.
    Resolved { controller: Controller },
    /// The output that was asked for is at hand.
    Fetched,
}

/// What the caller is to do next.
#[derive(Clone, Copy, Debug, PartialEq, Eq)]
pub enum SearchAction {
    /// Read the address that unlocks the output at hand.
    Resolve,
    /// Say that the alias `alias_id` controls the output at hand, and fetch
    /// the output that holds that alias.
    FetchAlias { alias_id: [u8; 32] },
    /// Say that the NFT `nft_id` controls the output at hand, and fetch the
    /// output that holds that NFT.
    FetchNft { nft_id: NftId },
    /// Say that the Ed25519 address `address` controls the output at hand,
    /// and stop.
    Report { address: [u8; 32] },
    /// Stop without a result.
    Stop,
}

/// Where the search begins: at the first output, whose address is to be
/// read.
pub open spec fn first() -> (SearchState, SearchAction) {
    (SearchState::Resolving { done: 0 }, SearchAction::Resolve)
}

/// The state and the action that follow `event` in `state`; `None` where
/// `state` does not wait for `event`.
pub open spec fn next(state: SearchState, event: SearchEvent) -> Option<
    (SearchState, SearchAction),
> {
    match (state, event) {
        (SearchState::Resolving { done }, SearchEvent::Resolved { controller }) => {
            if done >= MAX_RESOLUTIONS {
                None
            } else {
                let fetching = SearchState::Fetching { done: (done + 1) as u32 };
                match controller {
                    Controller::Ed25519 { address } => Some(
                        (SearchState::Found { address }, SearchAction::Report { address }),
                    ),
                    Controller::Alias { alias_id } => Some(
                        (fetching, SearchAction::FetchAlias { alias_id }),
                    ),
                    Controller::Nft { nft_id } => Some((fetching, SearchAction::FetchNft { nft_id })),
                }
            }
        },
        (SearchState::Fetching { done }, SearchEvent::Fetched) => {
            if done < MAX_RESOLUTIONS {
                Some((SearchState::Resolving { done }, SearchAction::Resolve))
            } else {
                Some((SearchState::Exhausted, SearchAction::Stop))
            }
        },
        _ => None,
    }
}

/// The state that follows `event` in a `state` that waits for it.
pub open spec fn state_after(state: SearchState, event: SearchEvent) -> SearchState
    recommends
        next(state, event) is Some,
{
    let (following, _) = next(state, event)->0;
    following
}

/// The action that follows `event` in a `state` that waits for it.
pub open spec fn action_after(state: SearchState, event: SearchEvent) -> SearchAction
    recommends
        next(state, event) is Some,
{
    let (_, action) = next(state, event)->0;
    action
}

impl SearchState {
    /// Whether the state can be reached from the start of a search.
    pub open spec fn well_formed(self) -> bool {
        match self {
            SearchState::Resolving { done } => done < MAX_RESOLUTIONS,
            SearchState::Fetching { done } => 1 <= done <= MAX_RESOLUTIONS,
            SearchState::Found { .. } => true,
            SearchState::Exhausted => true,
        }
    }

    /// Whether the search is over.
    pub open spec fn is_over(self) -> bool {
        self is Found || self is Exhausted
    }

    /// The number of outputs whose address was read.
    pub open spec fn resolutions(self) -> nat
        recommends
            !self.is_over(),
    {
        match self {
            SearchState::Resolving { done } => done as nat,
            SearchState::Fetching { done } => done as nat,
            _ => 0,
        }
    }

    /// A bound on the number of events that the search still waits for:
    /// two for each output that may still be read.
    pub open spec fn work_left(self) -> nat {
        match self {
            SearchState::Resolving { done } => (2 * (MAX_RESOLUTIONS - done)) as nat,
            SearchState::Fetching { done } => (2 * (MAX_RESOLUTIONS - done) + 1) as nat,
            SearchState::Found { .. } => 0,
            SearchState::Exhausted => 0,
        }
    }

    /// Whether the search is over.
    pub fn is_finished(&self) -> (r: bool)
        ensures
            r == self.is_over(),
    {
        match self {
            SearchState::Found { .. } => true,
            SearchState::Exhausted => true,
            _ => false,
        }
    }
}

/// A search that is over waits for nothing.
pub proof fn lemma_over_awaits_nothing(state: SearchState, event: SearchEvent)
    requires
        state.is_over(),
    ensures
        next(state, event) is None,
{
}

/// A search begins in a state that can be reached, with no output read.
pub proof fn lemma_first_well_formed()
    ensures
        first().0.well_formed(),
        first().0.resolutions() == 0,
        first().0.work_left() == 2 * MAX_RESOLUTIONS,
{
}

/// Every event that the search waits for brings it nearer to the end: the
/// state that follows can be reached too, and has less work left.  So no
/// search reads more than `MAX_RESOLUTIONS` outputs.
pub proof fn lemma_step_advances(state: SearchState, event: SearchEvent)
    requires
        state.well_formed(),
        next(state, event) is Some,
    ensures
        state_after(state, event).well_formed(),
        state_after(state, event).work_left() < state.work_left(),
{
}

/// A state that can be reached and is not over waits for one kind of
/// event, whatever that event holds.
pub proof fn lemma_awaited_event(state: SearchState, event: SearchEvent)
    requires
        state.well_formed(),
    ensures
        state is Resolving ==> (next(state, event) is Some <==> event is Resolved),
        state is Fetching ==> (next(state, event) is Some <==> event is Fetched),
{
}

/// Reading an address counts the output; fetching does not.
pub proof fn lemma_resolutions_counted(state: SearchState, event: SearchEvent)
    requires
        next(state, event) is Some,
        !state_after(state, event).is_over(),
    ensures
        state is Resolving ==> state_after(state, event).resolutions() == state.resolutions() + 1,
        state is Fetching ==> state_after(state, event).resolutions() == state.resolutions(),
{
}

/// The search reports an address exactly when the output at hand is
/// unlocked by an Ed25519 address, and reports that address.
pub proof fn lemma_report_iff_ed25519(state: SearchState, event: SearchEvent)
    requires
        next(state, event) is Some,
    ensures
        action_after(state, event) is Report <==> (event is Resolved && event->controller
            is Ed25519),
        action_after(state, event) is Report ==> event->controller == (Controller::Ed25519 {
            address: action_after(state, event)->Report_address,
        }) && state_after(state, event) == (SearchState::Found {
            address: action_after(state, event)->Report_address,
        }),
{
}

/// The search follows the controller that was read: an alias to the
/// output of that alias, an NFT to the output of that NFT.
pub proof fn lemma_follows_controller(state: SearchState, event: SearchEvent)
    requires
        next(state, event) is Some,
        event is Resolved,
    ensures
        event->controller matches Controller::Alias { alias_id } ==> action_after(state, event)
            == (SearchAction::FetchAlias { alias_id }),
        event->controller matches Controller::Nft { nft_id } ==> action_after(state, event) == (
        SearchAction::FetchNft { nft_id }),
{
}

/// The search gives up exactly when the output that was fetched would be
/// one too many.
pub proof fn lemma_stop_iff_exhausted(state: SearchState, event: SearchEvent)
    requires
        state.well_formed(),
        next(state, event) is Some,
    ensures
        action_after(state, event) is Stop <==> state == (SearchState::Fetching {
            done: MAX_RESOLUTIONS,
        }),
        action_after(state, event) is Stop <==> state_after(state, event) is Exhausted,
{
}

/// An output as a node hands it out, with the place where it stands in the
/// ledger.
#[verifier::external_type_specification]
#[verifier::external_body]
pub struct ExOutputWithMetadata(OutputWithMetadata);

/// Why the address that unlocks an output could not be read.
#[derive(Debug, PartialEq, Eq)]
pub enum ControlError {
    /// The SDK knows no such address for the output, and gave the error
    /// `source`.
    NoController { source: iota_sdk::types::block::Error },
    /// The output, which is of the kind `kind`, lacks the condition that
    /// names the address for that kind.
    MissingCondition { kind: u8 },
}

/// The address that unlocks `output` at the time `current_time`, as the
/// SDK's `Output::required_and_unlocked_address` gives it for a state
/// transition; `None` where the SDK gives an error.
pub uninterp spec fn required_controller(output: OutputWithMetadata, current_time: u32) -> Option<
    Controller,
>;

/// The event that reports the controller that was read, if one was.
pub open spec fn resolution(found: Option<Controller>) -> Option<SearchEvent> {
    match found {
        Some(controller) => Some(SearchEvent::Resolved { controller }),
        None => None,
    }
}

/// Calls the SDK's `Output::required_and_unlocked_address` on the output
/// and its identifier, for a state transition, and hands out the first
/// address of the pair, variant for variant.  The SDK reads the address
/// from the condition that names it for the output's kind and stops the
/// program where the output lacks it, so such an output is left out.  The
/// outcome depends on the output and the time alone, and the contract
/// gives it its name.
#[verifier::external_body]
fn required_address(output: &OutputWithMetadata, current_time: u32) -> (r: Result<
    Controller,
    iota_sdk::types::block::Error,
>)
    requires
        controller_known(output_of(*output)),
    ensures
        r is Ok <==> required_controller(*output, current_time) is Some,
        r matches Ok(controller) ==> required_controller(*output, current_time) == Some(controller),
{
    let required = output.output().required_and_unlocked_address(
        current_time,
        output.metadata().output_id(),
        Some(AliasTransition::State),
    )?;
    Ok(
        match required.0 {
            Address::Ed25519(a) => Controller::Ed25519 { address: *a },
            Address::Alias(a) => Controller::Alias { alias_id: **a },
            Address::Nft(a) => Controller::Nft { nft_id: NftId { bytes: **a } },
        },
    )
}

/// The event that reports what unlocks `output` at the time
/// `current_time`, in seconds since the Unix epoch; an error where the
/// output lacks the condition that names the address for its kind, and
/// where no address unlocks an output of its kind.
pub fn resolved(output: &OutputWithMetadata, current_time: u32) -> (r: Result<
    SearchEvent,
    ControlError,
>)
    ensures
        r is Ok <==> controller_known(output_of(*output)) && required_controller(
            *output,
            current_time,
        ) is Some,
        r matches Ok(event) ==> Some(event) == resolution(
            required_controller(*output, current_time),
        ),
        r matches Err(e) ==> {
            &&& e is MissingCondition <==> !controller_known(output_of(*output))
            &&& e is NoController <==> controller_known(output_of(*output))
            &&& e matches ControlError::MissingCondition { kind } ==> kind == kind_of(
                output_of(*output),
            )
        },
{
    let inner = inner_output(output);
    if !names_controller(inner) {
        return Err(ControlError::MissingCondition { kind: output_kind(inner) });
    }
    match required_address(output, current_time) {
        Ok(controller) => Ok(SearchEvent::Resolved { controller }),
        Err(source) => Err(ControlError::NoController { source }),
    }
}

/// Begins a search.
pub fn start() -> (r: (SearchState, SearchAction))
    ensures
        r == first(),
{
    (SearchState::Resolving { done: 0 }, SearchAction::Resolve)
}

/// Takes the search on by one event.
pub fn step(state: SearchState, event: SearchEvent) -> (r: Option<(SearchState, SearchAction)>)
    ensures
        r == next(state, event),
{
    match (state, event) {
        (SearchState::Resolving { done }, SearchEvent::Resolved { controller }) => {
            if done >= MAX_RESOLUTIONS {
                None
            } else {
                let fetching = SearchState::Fetching { done: done + 1 };
                match controller {
                    Controller::Ed25519 { address } => Some(
                        (SearchState::Found { address }, SearchAction::Report { address }),
                    ),
                    Controller::Alias { alias_id } => Some(
                        (fetching, SearchAction::FetchAlias { alias_id }),
                    ),
                    Controller::Nft { nft_id } => Some((fetching, SearchAction::FetchNft { nft_id })),
                }
            }
        },
        (SearchState::Fetching { done }, SearchEvent::Fetched) => {
            if done < MAX_RESOLUTIONS {
                Some((SearchState::Resolving { done }, SearchAction::Resolve))
            } else {
                Some((SearchState::Exhausted, SearchAction::Stop))
            }
        },
        _ => None,
    }
}

} // verus!
