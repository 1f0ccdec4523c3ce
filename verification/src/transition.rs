//! The transition coordinator: decides whether a new counter value changes a
//! subject's level and, if so, which side effects the hosting system must
//! execute, in which order.

use vstd::prelude::*;

use crate::error::ErrorCode;
use crate::state::lemma_tier_index_in_range;
use crate::state::tier_index;
use crate::state::Level;
use crate::state::OffsetMetadata;
use crate::state::OffsetTiers;
use crate::state::Pubkey;

verus! {

/// One side effect for an external collaborator to execute. The coordinator
/// only describes the effects; the host performs them, in the order given,
/// and aborts the whole operation on the first failure.
#[derive(Clone, Debug, PartialEq)]
pub enum Intent {
    /// Remove the subject from the grouping it belonged to so far.
    LeaveGroup {
        /// The grouping key of the level being left.
        group_key: Pubkey,
    },
    /// Rewrite the subject's display metadata from the given level.
    UpdateDisplay {
        /// The level whose display attributes and grouping key to apply.
        level: Level,
    },
    /// Add the subject to the grouping of its new level.
    JoinGroup {
        /// The grouping key of the level being joined.
        group_key: Pubkey,
    },
}

/// The outcome of a counter update that did not fail.
#[derive(Debug, PartialEq)]
pub enum TransitionResult {
    /// The new counter resolves to the level the subject already occupies:
    /// nothing was mutated and no intents are owed.
    Unchanged,
    /// The subject changed level; the record was updated and the host must
    /// now execute the intents, in order.
    Transitioned {
        /// Exactly three intents: leave the old grouping, update the display,
        /// join the new grouping.
        intents: Vec<Intent>,
    },
}

/// Whether `new_counter` resolves to a level other than the one the record
/// currently occupies.
pub open spec fn transition_needed(
    state: OffsetMetadata,
    table: OffsetTiers,
    new_counter: u64,
) -> bool {
    tier_index(table.levels@, new_counter) != state.current_level_index as int
}

/// The record after a transition to `new_counter`: counter and level index
/// overwritten, everything else kept.
pub open spec fn transitioned_state(
    state: OffsetMetadata,
    table: OffsetTiers,
    new_counter: u64,
) -> OffsetMetadata {
    OffsetMetadata {
        offset: new_counter,
        current_level_index: tier_index(table.levels@, new_counter) as u16,
        ..state
    }
}

/// The three intents a transition emits, in the order the host must execute
/// them: leave the old level's grouping, update the display to the new level,
/// join the new level's grouping.
pub open spec fn transition_intents(
    state: OffsetMetadata,
    table: OffsetTiers,
    new_counter: u64,
) -> Seq<Intent> {
    let old_level = table.levels@[state.current_level_index as int];
    let new_level = table.levels@[tier_index(table.levels@, new_counter)];
    seq![
        (Intent::LeaveGroup { group_key: old_level.collection_mint }),
        (Intent::UpdateDisplay { level: new_level }),
        (Intent::JoinGroup { group_key: new_level.collection_mint }),
    ]
}

/// Self-consistency of a record against a table: the stored level index is
/// exactly what the table's lookup of the stored counter yields.
pub open spec fn consistent(state: OffsetMetadata, table: OffsetTiers) -> bool {
    state.current_level_index as int == tier_index(table.levels@, state.offset)
}

/// Decides, for one subject, whether `new_counter` changes its level, and
/// drives the decision to a result:
///
/// - an empty table fails with [`ErrorCode::NoOffsetTiers`], mutating nothing;
/// - an inactive subject fails with [`ErrorCode::InvalidUpdateForMint`],
///   mutating nothing;
/// - a counter resolving to the current level is an explicit no-op: nothing
///   is mutated, not even the stored counter value, and no intents are owed;
/// - otherwise the record is updated first (optimistic update) and the three
///   intents are returned for the host to execute, in order.
pub fn apply_counter_update(
    state: &mut OffsetMetadata,
    table: &OffsetTiers,
    new_counter: u64,
    subject_active: bool,
) -> (r: Result<TransitionResult, ErrorCode>)
    requires
        table.wf(),
        table.levels@.len() > 0 ==> old(state).current_level_index < table.levels@.len(),
    ensures
        table.levels@.len() == 0 ==> {
            &&& r == Err::<TransitionResult, ErrorCode>(ErrorCode::NoOffsetTiers)
            &&& *final(state) == *old(state)
        },
        table.levels@.len() > 0 && !subject_active ==> {
            &&& r == Err::<TransitionResult, ErrorCode>(ErrorCode::InvalidUpdateForMint)
            &&& *final(state) == *old(state)
        },
        table.levels@.len() > 0 && subject_active && !transition_needed(
            *old(state),
            *table,
            new_counter,
        ) ==> {
            &&& r matches Ok(t) && t == TransitionResult::Unchanged
            &&& *final(state) == *old(state)
        },
        table.levels@.len() > 0 && subject_active && transition_needed(
            *old(state),
            *table,
            new_counter,
        ) ==> {
            &&& *final(state) == transitioned_state(*old(state), *table, new_counter)
            &&& r matches Ok(TransitionResult::Transitioned { intents })
                && intents@ == transition_intents(*old(state), *table, new_counter)
        },
{
    if table.levels.is_empty() {
        return Err(ErrorCode::NoOffsetTiers);
    }
    if !subject_active {
        return Err(ErrorCode::InvalidUpdateForMint);
    }

    let new_level_index = table.lookup_tier_index(new_counter);
    if new_level_index == state.current_level_index as usize {
        return Ok(TransitionResult::Unchanged);
    }

    let old_level_key = table.levels[state.current_level_index as usize].collection_mint;
    let new_level = &table.levels[new_level_index];

    state.record_transition(new_counter, new_level_index as u16);

    let mut intents: Vec<Intent> = Vec::new();
    intents.push(Intent::LeaveGroup { group_key: old_level_key });
    intents.push(Intent::UpdateDisplay { level: new_level.clone() });
    intents.push(Intent::JoinGroup { group_key: new_level.collection_mint });
    proof {
        assert(intents@ =~= transition_intents(*old(state), *table, new_counter));
    }
    Ok(TransitionResult::Transitioned { intents })
}

/// The grouping key of the level the record currently occupies.
pub fn calculate_current_collection_key(
    offset_metadata: &OffsetMetadata,
    offset_tiers: &OffsetTiers,
) -> (r: Pubkey)
    requires
        offset_metadata.current_level_index < offset_tiers.levels@.len(),
    ensures
        r == offset_tiers.levels@[offset_metadata.current_level_index as int].collection_mint,
{
    let index = offset_metadata.current_level_index;
    offset_tiers.levels[index as usize].collection_mint
}

/// The grouping key of the level a counter value resolves to.
pub fn calculate_new_collection_key(offset_tiers: &OffsetTiers, offset_amount: u64) -> (r: Pubkey)
    requires
        offset_tiers.levels@.len() > 0,
    ensures
        r == offset_tiers.levels@[tier_index(offset_tiers.levels@, offset_amount)].collection_mint,
{
    offset_tiers.get_level(offset_amount).unwrap().collection_mint
}

/// The transition guarantee: immediately after a transition, the stored level
/// index is exactly the table's lookup of the stored counter value, i.e. the
/// record is self-consistent against the table as it stood at that call.
pub proof fn lemma_transition_establishes_consistency(
    state: OffsetMetadata,
    table: OffsetTiers,
    new_counter: u64,
)
    requires
        table.wf(),
        table.levels@.len() > 0,
    ensures
        consistent(transitioned_state(state, table, new_counter), table),
{
    lemma_tier_index_in_range(table.levels@, new_counter);
}

/// Idempotent re-application: the record left behind by a transition never
/// needs another transition for the same counter value, so a second
/// application of the same counter is a no-op.
pub proof fn lemma_reapplication_is_noop(
    state: OffsetMetadata,
    table: OffsetTiers,
    new_counter: u64,
)
    requires
        table.wf(),
        table.levels@.len() > 0,
    ensures
        !transition_needed(transitioned_state(state, table, new_counter), table, new_counter),
{
    lemma_tier_index_in_range(table.levels@, new_counter);
}

} // verus!
