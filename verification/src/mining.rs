//! One worker's search for a transaction whose NFT gets a sought
//! identifier.
//!
//! A worker goes through the rounds of its range in order.  In each round
//! it builds a candidate transaction that differs from all others by the
//! tag of its NFT output, has it signed, and derives the identifier that
//! the NFT would get.  The candidate of round 0 is also checked against
//! the ledger's rules, and a conflict ends the search.  A candidate whose
//! identifier is sought is written to a file of its own.
//!
//! Building, signing, checking and writing are the caller's work.  What is
//! decided between them is the state machine of this module: the caller
//! starts it with [`start`], does what the action says, and hands the
//! outcome to [`step`].

use crate::conflict::conflict_code;
use crate::conflict::reason_code;
use crate::conflict::NO_CONFLICT;
use crate::decimal::decimal;
use crate::decimal::lemma_decimal_injective;
use crate::decimal::push_decimal;
use crate::nft_id::output_id_digest;
use crate::nft_id::NftId;
use crate::nft_id::NFT_ID_START_BYTES;
use crate::ranges::lemma_one_owner_at_most;
use crate::ranges::piece_end;
use crate::ranges::piece_start;
use crate::ranges::RoundRange;
use iota_sdk::types::block::semantic::ConflictReason;
use vstd::prelude::*;
use vstd::string::StringExecFns;

verus! {

/// The round whose candidate is checked against the ledger's rules.
pub const CHECKED_ROUND: u32 = 0;

/// The directory that holds the files of the candidates.
pub const SIGNED_DIR: &'static str = "signed";

/// The bytes of `round`, highest first.
pub open spec fn tag_of(round: u32) -> Seq<u8> {
    seq![
        (round / 0x100_0000) as u8,
        (round / 0x1_0000 % 0x100) as u8,
        (round / 0x100 % 0x100) as u8,
        (round % 0x100) as u8,
    ]
}

/// The number whose bytes, highest first, are those of `tag`.
pub open spec fn tag_value(tag: Seq<u8>) -> int {
    tag[0] * 0x100_0000 + tag[1] * 0x1_0000 + tag[2] * 0x100 + tag[3]
}

/// A tag names its round.
pub proof fn lemma_tag_names_round(round: u32)
    ensures
        tag_of(round).len() == 4,
        tag_value(tag_of(round)) == round,
{
}

/// Different rounds have different tags.
pub proof fn lemma_tags_differ(a: u32, b: u32)
    requires
        a != b,
    ensures
        tag_of(a) != tag_of(b),
{
    lemma_tag_names_round(a);
    lemma_tag_names_round(b);
}

/// The tag that the NFT output of the candidate of `round` carries.
pub fn round_tag(round: u32) -> (tag: [u8; 4])
    ensures
        tag@ == tag_of(round),
{
    let tag = [
        (round / 0x100_0000) as u8,
        (round / 0x1_0000 % 0x100) as u8,
        (round / 0x100 % 0x100) as u8,
        (round % 0x100) as u8,
    ];
    assert(tag@ =~= tag_of(round));
    tag
}

/// What is left of the input's amount for the second output once the NFT
/// output has taken its deposit; `None` where the input holds less than the
/// deposit.
pub fn remainder_amount(input_amount: u64, nft_amount: u64) -> (r: Option<u64>)
    ensures
        r == if nft_amount <= input_amount {
            Some((input_amount - nft_amount) as u64)
        } else {
            None
        },
{
    if nft_amount <= input_amount {
        Some(input_amount - nft_amount)
    } else {
        None
    }
}

/// The path of the file that holds the candidate of `round`.
pub open spec fn path_of(round: u32) -> Seq<char> {
    SIGNED_DIR@ + "/"@ + decimal(round as nat) + "_signed_transaction.json"@
}

/// Different rounds have different files.
pub proof fn lemma_paths_differ(a: u32, b: u32)
    requires
        a != b,
    ensures
        path_of(a) != path_of(b),
{
    let head = SIGNED_DIR@ + "/"@;
    let tail = "_signed_transaction.json"@;
    let da = decimal(a as nat);
    let db = decimal(b as nat);
    if path_of(a) == path_of(b) {
        assert(path_of(a).len() == head.len() + da.len() + tail.len());
        assert(path_of(b).len() == head.len() + db.len() + tail.len());
        assert(da =~= path_of(a).subrange(head.len() as int, (head.len() + da.len()) as int));
        assert(db =~= path_of(b).subrange(head.len() as int, (head.len() + db.len()) as int));
        lemma_decimal_injective(a as nat, b as nat);
    }
}

/// The path of the file that holds the candidate of `round`.
pub fn signed_transaction_path(round: u32) -> (path: String)
    ensures
        path@ == path_of(round),
{
    let mut path = String::from_str(SIGNED_DIR);
    path.append("/");
    push_decimal(&mut path, round);
    path.append("_signed_transaction.json");
    path
}

/// What a worker waits for.
#[derive(Clone, Copy, Debug, PartialEq, Eq)]
pub enum MinerState {
    /// The candidate of `round` is being built and signed.
    Signing { round: u32, end: u32 },
    /// The candidate of `round`, whose NFT would get `nft_id`, is being
    /// checked against the ledger's rules.
    Checking { round: u32, end: u32, nft_id: NftId },
    /// The candidate of `round` is being written to its file.
    Saving { round: u32, end: u32 },
    /// Every round of the range is done.
    Finished,
    /// The check found the conflict `conflict`, and the search was given up.
    Rejected { conflict: u8 },
}

/// What the caller reports.
#[derive(Clone, Copy, Debug, PartialEq, Eq)]
pub enum MinerEvent {
    /// The candidate was signed; its NFT would get `nft_id`.
    Signed { nft_id: NftId },
    /// The candidate was checked, with the conflict code `conflict`.
    Checked { conflict: u8 },
    /// The candidate's file was written.
    Saved,
}

/// What the caller is to do next.
#[derive(Clone, Copy, Debug, PartialEq, Eq)]
pub enum MinerAction {
    /// Build the candidate of `round` and have it signed.
    Sign { round: u32 },
    /// Check the candidate that was just signed against the ledger's rules.
    Check,
    /// Write the candidate of `round`, whose NFT would get `nft_id`, to its
    /// file.
    Save { round: u32, nft_id: NftId },
    /// Stop: every round is done.
    Stop,
    /// Stop: the check found the conflict `conflict`.
    Fail { conflict: u8 },
}

/// Whether an identifier is worth keeping.
pub open spec fn sought(nft_id: NftId) -> bool {
    NFT_ID_START_BYTES@.is_prefix_of(nft_id@)
}

/// Where a worker stands once `round` is done: at the next round of its
/// range, or at the end.
pub open spec fn after_round(round: u32, end: u32) -> (MinerState, MinerAction) {
    if round + 1 < end {
        (
            MinerState::Signing { round: (round + 1) as u32, end },
            MinerAction::Sign { round: (round + 1) as u32 },
        )
    } else {
        (MinerState::Finished, MinerAction::Stop)
    }
}

/// Where a worker stands once the candidate of `round` may be kept: a
/// sought one is written, any other one is dropped.
pub open spec fn after_candidate(round: u32, end: u32, nft_id: NftId) -> (
    MinerState,
    MinerAction,
) {
    if sought(nft_id) {
        (MinerState::Saving { round, end }, MinerAction::Save { round, nft_id })
    } else {
        after_round(round, end)
    }
}

/// Where a worker begins.
pub open spec fn first(range: RoundRange) -> (MinerState, MinerAction) {
    if range.start < range.end {
        (
            MinerState::Signing { round: range.start, end: range.end },
            MinerAction::Sign { round: range.start },
        )
    } else {
        (MinerState::Finished, MinerAction::Stop)
    }
}

/// The state and the action that follow `event` in `state`; `None` where
/// `state` does not wait for `event`.
pub open spec fn next(state: MinerState, event: MinerEvent) -> Option<(MinerState, MinerAction)> {
    match (state, event) {
        (MinerState::Signing { round, end }, MinerEvent::Signed { nft_id }) => {
            if round == CHECKED_ROUND {
                Some((MinerState::Checking { round, end, nft_id }, MinerAction::Check))
            } else {
                Some(after_candidate(round, end, nft_id))
            }
        },
        (MinerState::Checking { round, end, nft_id }, MinerEvent::Checked { conflict }) => {
            if conflict != NO_CONFLICT {
                Some((MinerState::Rejected { conflict }, MinerAction::Fail { conflict }))
            } else {
                Some(after_candidate(round, end, nft_id))
            }
        },
        (MinerState::Saving { round, end }, MinerEvent::Saved) => Some(after_round(round, end)),
        _ => None,
    }
}

/// The state that follows `event` in a `state` that waits for it.
pub open spec fn state_after(state: MinerState, event: MinerEvent) -> MinerState
    recommends
        next(state, event) is Some,
{
    let (following, _) = next(state, event)->0;
    following
}

/// The action that follows `event` in a `state` that waits for it.
pub open spec fn action_after(state: MinerState, event: MinerEvent) -> MinerAction
    recommends
        next(state, event) is Some,
{
    let (_, action) = next(state, event)->0;
    action
}

impl MinerState {
    /// Whether the state can be reached from the start of a range.
    pub open spec fn well_formed(self) -> bool {
        match self {
            MinerState::Signing { round, end } => round < end,
            MinerState::Checking { round, end, .. } => round < end && round == CHECKED_ROUND,
            MinerState::Saving { round, end } => round < end,
            MinerState::Finished => true,
            MinerState::Rejected { conflict } => conflict != NO_CONFLICT,
        }
    }

    /// Whether the state belongs to a search of `range`: the round at hand
    /// lies in the range, and the search ends where the range ends.
    pub open spec fn searches(self, range: RoundRange) -> bool {
        match self {
            MinerState::Signing { round, end } => range.holds(round as int) && end == range.end,
            MinerState::Checking { round, end, .. } => range.holds(round as int) && end
                == range.end,
            MinerState::Saving { round, end } => range.holds(round as int) && end == range.end,
            MinerState::Finished => true,
            MinerState::Rejected { .. } => true,
        }
    }

    /// Whether the search is over.
    pub open spec fn is_over(self) -> bool {
        self is Finished || self is Rejected
    }

    /// A bound on the number of events that the worker still waits for:
    /// three for a round, one less for each that round has had.
    pub open spec fn work_left(self) -> nat {
        match self {
            MinerState::Signing { round, end } => (3 * (end - round)) as nat,
            MinerState::Checking { round, end, .. } => (3 * (end - round) - 1) as nat,
            MinerState::Saving { round, end } => (3 * (end - round) - 2) as nat,
            MinerState::Finished => 0,
            MinerState::Rejected { .. } => 0,
        }
    }

    /// Whether the search is over.
    pub fn is_finished(&self) -> (r: bool)
        ensures
            r == self.is_over(),
    {
        match self {
            MinerState::Finished => true,
            MinerState::Rejected { .. } => true,
            _ => false,
        }
    }
}

/// A search that is over waits for nothing.
pub proof fn lemma_over_awaits_nothing(state: MinerState, event: MinerEvent)
    requires
        state.is_over(),
    ensures
        next(state, event) is None,
{
}

/// A search begins in a state that can be reached and belongs to its
/// range, with three events to wait for in each round at most; it begins
/// with the first round of the range, or is over at once where the range
/// is empty.
pub proof fn lemma_first_well_formed(range: RoundRange)
    ensures
        first(range).0.well_formed(),
        first(range).0.searches(range),
        first(range).0.work_left() == 3 * range.count(),
        range.count() > 0 ==> first(range).1 == (MinerAction::Sign { round: range.start }),
        range.count() == 0 ==> first(range).1 == MinerAction::Stop,
{
}

/// Every event that a worker waits for brings it nearer to the end: the
/// state that follows can be reached too, and has less work left.  So a
/// worker whose range holds `n` rounds is over after `3 * n` events at
/// most.
pub proof fn lemma_step_advances(state: MinerState, event: MinerEvent)
    requires
        state.well_formed(),
        next(state, event) is Some,
    ensures
        state_after(state, event).well_formed(),
        state_after(state, event).work_left() < state.work_left(),
{
}

/// A worker stays in its range: it signs and writes candidates of rounds
/// of the range only.
pub proof fn lemma_worker_stays_in_range(state: MinerState, event: MinerEvent, range: RoundRange)
    requires
        state.searches(range),
        next(state, event) is Some,
    ensures
        state_after(state, event).searches(range),
        action_after(state, event) is Sign ==> range.holds(
            action_after(state, event)->Sign_round as int,
        ),
        action_after(state, event) is Save ==> range.holds(
            action_after(state, event)->Save_round as int,
        ),
{
}

/// Workers of one run write to different files: the pieces of two workers
/// share no round, and different rounds have different files.
pub proof fn lemma_workers_write_apart(
    offset: u32,
    total: u32,
    workers: u32,
    a: u32,
    b: u32,
    round_a: u32,
    round_b: u32,
)
    requires
        a < workers,
        b < workers,
        a != b,
        piece_start(offset as nat, total as nat, workers as nat, a as nat) <= round_a < piece_end(
            offset as nat,
            total as nat,
            workers as nat,
            a as nat,
        ),
        piece_start(offset as nat, total as nat, workers as nat, b as nat) <= round_b < piece_end(
            offset as nat,
            total as nat,
            workers as nat,
            b as nat,
        ),
    ensures
        round_a != round_b,
        path_of(round_a) != path_of(round_b),
{
    if round_a == round_b {
        lemma_one_owner_at_most(
            offset as nat,
            total as nat,
            workers as nat,
            a as nat,
            b as nat,
            round_a as nat,
        );
    }
    lemma_paths_differ(round_a, round_b);
}

/// The action says whether the search goes on: `Stop` and `Fail` come with
/// a state that is over, every other action with one that is not.
pub proof fn lemma_action_matches_state(state: MinerState, event: MinerEvent)
    requires
        next(state, event) is Some,
    ensures
        state_after(state, event) is Finished <==> action_after(state, event) is Stop,
        state_after(state, event) is Rejected <==> action_after(state, event) is Fail,
        state_after(state, event) is Signing <==> action_after(state, event) is Sign,
        state_after(state, event) is Checking <==> action_after(state, event) is Check,
        state_after(state, event) is Saving <==> action_after(state, event) is Save,
{
}

/// Only the candidate of the checked round is checked, and it is checked
/// before anything else is done with it.
pub proof fn lemma_check_in_checked_round(state: MinerState, event: MinerEvent)
    requires
        next(state, event) is Some,
    ensures
        action_after(state, event) is Check <==> (state matches MinerState::Signing { round, .. }
            && round == CHECKED_ROUND),
{
}

/// A candidate whose round has no check is written exactly when its
/// identifier is sought.
pub proof fn lemma_unchecked_saved_iff_sought(round: u32, end: u32, nft_id: NftId)
    requires
        round != CHECKED_ROUND,
    ensures
        sought(nft_id) <==> next(MinerState::Signing { round, end }, MinerEvent::Signed { nft_id })
            == Some(
            (MinerState::Saving { round, end }, MinerAction::Save { round, nft_id }),
        ),
        sought(nft_id) <==> action_after(
            MinerState::Signing { round, end },
            MinerEvent::Signed { nft_id },
        ) is Save,
{
}

/// A candidate that has passed the check is written exactly when its
/// identifier is sought.
pub proof fn lemma_checked_saved_iff_sought(round: u32, end: u32, nft_id: NftId)
    ensures
        sought(nft_id) <==> next(
            MinerState::Checking { round, end, nft_id },
            MinerEvent::Checked { conflict: NO_CONFLICT },
        ) == Some((MinerState::Saving { round, end }, MinerAction::Save { round, nft_id })),
        sought(nft_id) <==> action_after(
            MinerState::Checking { round, end, nft_id },
            MinerEvent::Checked { conflict: NO_CONFLICT },
        ) is Save,
{
}

/// What is written is a candidate that was just signed or just checked,
/// in its own round, and its identifier is sought.
pub proof fn lemma_saved_is_sought(state: MinerState, event: MinerEvent)
    requires
        next(state, event) is Some,
        action_after(state, event) is Save,
    ensures
        sought(action_after(state, event)->nft_id),
        state is Signing || state is Checking,
        state is Signing ==> event == (MinerEvent::Signed {
            nft_id: action_after(state, event)->nft_id,
        }) && state->Signing_round == action_after(state, event)->Save_round,
        state is Checking ==> state->Checking_nft_id == action_after(state, event)->nft_id
            && state->Checking_round == action_after(state, event)->Save_round,
{
}

/// A conflict ends the search at once.
pub proof fn lemma_conflict_fails(round: u32, end: u32, nft_id: NftId, conflict: u8)
    ensures
        conflict != NO_CONFLICT <==> next(
            MinerState::Checking { round, end, nft_id },
            MinerEvent::Checked { conflict },
        ) == Some((MinerState::Rejected { conflict }, MinerAction::Fail { conflict })),
{
}

/// Nothing but a conflict makes the search fail.
pub proof fn lemma_fail_is_conflict(state: MinerState, event: MinerEvent)
    requires
        next(state, event) is Some,
        action_after(state, event) is Fail,
    ensures
        state is Checking,
        event == (MinerEvent::Checked { conflict: action_after(state, event)->Fail_conflict }),
        action_after(state, event)->Fail_conflict != NO_CONFLICT,
{
}

/// The rounds are taken in order: the round that is signed next is the one
/// after the round at hand.
pub proof fn lemma_rounds_in_order(state: MinerState, event: MinerEvent)
    requires
        state.well_formed(),
        next(state, event) is Some,
    ensures
        action_after(state, event) matches MinerAction::Sign { round: following } ==> match state {
            MinerState::Signing { round, end } => following == round + 1 && following < end,
            MinerState::Checking { round, end, .. } => following == round + 1 && following < end,
            MinerState::Saving { round, end } => following == round + 1 && following < end,
            _ => false,
        },
        action_after(state, event) is Stop ==> match state {
            MinerState::Signing { round, end } => round + 1 == end,
            MinerState::Checking { round, end, .. } => round + 1 == end,
            MinerState::Saving { round, end } => round + 1 == end,
            _ => false,
        },
{
}

/// The actions that the events `events` bring about, one after another,
/// in a search that stands at `state`; `None` where the search does not
/// wait for one of them when it comes.
pub open spec fn actions_of(state: MinerState, events: Seq<MinerEvent>) -> Option<
    Seq<MinerAction>,
>
    decreases events.len(),
{
    if events.len() == 0 {
        Some(Seq::empty())
    } else {
        match next(state, events[0]) {
            Some((following, action)) => match actions_of(following, events.drop_first()) {
                Some(rest) => Some(seq![action] + rest),
                None => None,
            },
            None => None,
        }
    }
}

impl MinerState {
    /// The round at hand; the last round of all where the search is over.
    pub open spec fn round_at_hand(self) -> int {
        match self {
            MinerState::Signing { round, .. } => round as int,
            MinerState::Checking { round, .. } => round as int,
            MinerState::Saving { round, .. } => round as int,
            MinerState::Finished => u32::MAX as int,
            MinerState::Rejected { .. } => u32::MAX as int,
        }
    }
}

/// The action that the event at position `i` of `events` brings about, in
/// a search that stands at `state` and waits for each of the events when
/// it comes.
pub open spec fn action_at(state: MinerState, events: Seq<MinerEvent>, i: int) -> MinerAction
    recommends
        actions_of(state, events) is Some,
        0 <= i < events.len(),
{
    let actions = actions_of(state, events)->0;
    actions[i]
}

/// Whether `action` keeps to `range`: where it signs or writes a
/// candidate, the candidate's round lies in the range, and what it writes
/// has a sought identifier.
pub open spec fn keeps_to(action: MinerAction, range: RoundRange) -> bool {
    match action {
        MinerAction::Sign { round } => range.holds(round as int),
        MinerAction::Save { round, nft_id } => range.holds(round as int) && sought(nft_id),
        _ => true,
    }
}

/// Whether `action` signs or writes no candidate of a round before
/// `round`, and signs none of `round` itself.
pub open spec fn comes_after(action: MinerAction, round: int) -> bool {
    match action {
        MinerAction::Sign { round: signed } => round < signed,
        MinerAction::Save { round: saved, .. } => round <= saved,
        _ => true,
    }
}

/// Whether `earlier` and `later` do not both sign, or sign rounds in
/// rising order.
pub open spec fn sign_in_order(earlier: MinerAction, later: MinerAction) -> bool {
    earlier is Sign && later is Sign ==> earlier->Sign_round < later->Sign_round
}

/// Every event brings about one action.
pub proof fn lemma_one_action_each(state: MinerState, events: Seq<MinerEvent>)
    requires
        actions_of(state, events) is Some,
    ensures
        actions_of(state, events) matches Some(actions) && actions.len() == events.len(),
    decreases events.len(),
{
    if events.len() > 0 {
        let (following, _) = next(state, events[0])->0;
        lemma_one_action_each(following, events.drop_first());
    }
}

/// Whatever the caller reports, and in whatever number: a search takes no
/// more events than it has work left, it signs rounds of its range only,
/// each after the round at hand and in rising order, and it writes
/// candidates of rounds of its range only, whose identifiers are sought.
pub proof fn lemma_whole_search(state: MinerState, events: Seq<MinerEvent>, range: RoundRange)
    requires
        state.well_formed(),
        state.searches(range),
        actions_of(state, events) is Some,
    ensures
        events.len() <= state.work_left(),
        forall|i: int|
            0 <= i < events.len() ==> keeps_to(#[trigger] action_at(state, events, i), range),
        forall|i: int|
            0 <= i < events.len() ==> comes_after(
                #[trigger] action_at(state, events, i),
                state.round_at_hand(),
            ),
        forall|i: int, j: int|
            0 <= i < j < events.len() ==> sign_in_order(
                #[trigger] action_at(state, events, i),
                #[trigger] action_at(state, events, j),
            ),
    decreases events.len(),
{
    if events.len() > 0 {
        let (following, action) = next(state, events[0])->0;
        let later = events.drop_first();
        let rest = actions_of(following, later)->0;
        let all = actions_of(state, events)->0;
        lemma_step_advances(state, events[0]);
        lemma_worker_stays_in_range(state, events[0], range);
        lemma_whole_search(following, later, range);
        lemma_one_action_each(following, later);
        assert(all =~= seq![action] + rest);
        assert(action_at(state, events, 0) == action);
        assert forall|i: int| 1 <= i < events.len() implies #[trigger] action_at(state, events, i)
            == action_at(following, later, i - 1) by {
            assert(all[i] == rest[i - 1]);
        }
        assert(following.round_at_hand() >= state.round_at_hand());
        assert(action is Sign ==> following.round_at_hand() == action->Sign_round);
        assert forall|i: int| 0 <= i < events.len() implies comes_after(
            #[trigger] action_at(state, events, i),
            state.round_at_hand(),
        ) by {
            if i > 0 {
                assert(comes_after(action_at(following, later, i - 1), following.round_at_hand()));
            }
        }
        assert forall|i: int, j: int| 0 <= i < j < events.len() implies sign_in_order(
            #[trigger] action_at(state, events, i),
            #[trigger] action_at(state, events, j),
        ) by {
            assert(comes_after(action_at(following, later, j - 1), following.round_at_hand()));
            if i > 0 {
                assert(sign_in_order(
                    action_at(following, later, i - 1),
                    action_at(following, later, j - 1),
                ));
            }
        }
    }
}

/// The whole search of a range takes three events for a round at most, so
/// it comes to an end; it signs the rounds of the range only, in rising
/// order, and writes candidates of rounds of the range only, whose
/// identifiers are sought.
pub proof fn lemma_search_of_range(range: RoundRange, events: Seq<MinerEvent>)
    requires
        actions_of(first(range).0, events) is Some,
    ensures
        events.len() <= 3 * range.count(),
        forall|i: int|
            0 <= i < events.len() ==> keeps_to(
                #[trigger] action_at(first(range).0, events, i),
                range,
            ),
        forall|i: int, j: int|
            0 <= i < j < events.len() ==> sign_in_order(
                #[trigger] action_at(first(range).0, events, i),
                #[trigger] action_at(first(range).0, events, j),
            ),
{
    lemma_first_well_formed(range);
    lemma_whole_search(first(range).0, events, range);
}

/// Where a worker stands once `round` is done.
fn finish_round(round: u32, end: u32) -> (r: (MinerState, MinerAction))
    ensures
        r == after_round(round, end),
{
    if round < u32::MAX && round + 1 < end {
        (MinerState::Signing { round: round + 1, end }, MinerAction::Sign { round: round + 1 })
    } else {
        (MinerState::Finished, MinerAction::Stop)
    }
}

/// Where a worker stands once the candidate of `round` may be kept.
fn keep_or_drop(round: u32, end: u32, nft_id: NftId) -> (r: (MinerState, MinerAction))
    ensures
        r == after_candidate(round, end, nft_id),
{
    if nft_id.is_sought() {
        (MinerState::Saving { round, end }, MinerAction::Save { round, nft_id })
    } else {
        finish_round(round, end)
    }
}

/// Begins the search of `range`.
pub fn start(range: RoundRange) -> (r: (MinerState, MinerAction))
    ensures
        r == first(range),
{
    if range.start < range.end {
        (
            MinerState::Signing { round: range.start, end: range.end },
            MinerAction::Sign { round: range.start },
        )
    } else {
        (MinerState::Finished, MinerAction::Stop)
    }
}

/// Takes the search on by one event.
pub fn step(state: MinerState, event: MinerEvent) -> (r: Option<(MinerState, MinerAction)>)
    ensures
        r == next(state, event),
{
    match (state, event) {
        (MinerState::Signing { round, end }, MinerEvent::Signed { nft_id }) => {
            if round == CHECKED_ROUND {
                Some((MinerState::Checking { round, end, nft_id }, MinerAction::Check))
            } else {
                Some(keep_or_drop(round, end, nft_id))
            }
        },
        (MinerState::Checking { round, end, nft_id }, MinerEvent::Checked { conflict }) => {
            if conflict != NO_CONFLICT {
                Some((MinerState::Rejected { conflict }, MinerAction::Fail { conflict }))
            } else {
                Some(keep_or_drop(round, end, nft_id))
            }
        },
        (MinerState::Saving { round, end }, MinerEvent::Saved) => Some(finish_round(round, end)),
        _ => None,
    }
}

/// The event that reports a signed candidate whose transaction has the
/// identifier `transaction_id`: the NFT is minted by the first output.
pub fn signed(transaction_id: &[u8; 32]) -> (event: MinerEvent)
    ensures
        event matches MinerEvent::Signed { nft_id } && nft_id@ == output_id_digest(
            transaction_id@,
            0,
        ),
{
    MinerEvent::Signed { nft_id: NftId::for_first_output(transaction_id) }
}

/// The event that reports a check with the outcome `reason`: it carries
/// the code of the reason.
pub fn checked(reason: ConflictReason) -> (event: MinerEvent)
    ensures
        event == (MinerEvent::Checked { conflict: conflict_code(reason) }),
{
    MinerEvent::Checked { conflict: reason_code(reason) }
}

} // verus!
