//! The white-out transition the game runs on a battle loss: heal the whole
//! party, halve the player's money, and warp home to the last heal location.
//!
//! This module owns the plain-field half of that transition and the
//! decisions around it: which saved records are healed, which of them still
//! need their PP restored through a decode/heal/merge round trip of their
//! own bytes, and whether the re-run active-battler scan replaces the lead.
//! It draws nothing from the RNG.
use vstd::prelude::*;

verus! {

/// The plain fields of a saved party record that the party heal restores.
#[derive(Debug, Clone, Copy, PartialEq, Eq, Structural)]
pub struct PartyRecord {
    /// The non-volatile status word.
    pub status: u32,
    /// Current HP.
    pub hp: u16,
    /// Maximum HP, as retained in the record.
    pub max_hp: u16,
}

/// What remains of the white-out once the plain fields are healed.
#[derive(Debug, Clone, PartialEq, Eq)]
pub struct WhiteOutPlan {
    /// How many saved slots are occupied: the party count, capped at the
    /// party's capacity.
    pub stored_count: usize,
    /// The occupied slots, other than the live lead's, whose PP still has to
    /// be restored through their own saved bytes, in slot order.
    pub dormant_slots: Vec<usize>,
    /// Whether the active-battler scan is re-run over the healed records.
    pub reselect: bool,
}

/// A record after the party heal: full HP, cleared status.
pub open spec fn healed(record: PartyRecord) -> PartyRecord {
    PartyRecord { status: 0, hp: record.max_hp, max_hp: record.max_hp }
}

/// The occupied slot count of a party: the count byte, capped at capacity.
pub open spec fn spec_stored_count(party_count: u8, capacity: nat) -> nat {
    if (party_count as nat) < capacity {
        party_count as nat
    } else {
        capacity
    }
}

/// Whether slot `i` is healed: every occupied slot, and the live lead's slot.
pub open spec fn heals_slot(i: int, stored_count: nat, lead_slot: Option<usize>) -> bool {
    (0 <= i < stored_count) || (lead_slot matches Some(s) && i == s)
}

/// Whether slot `i` is healed through its own saved bytes rather than
/// through the live lead.
pub open spec fn is_dormant(i: int, stored_count: nat, lead_slot: Option<usize>) -> bool {
    0 <= i < stored_count && !(lead_slot matches Some(s) && i == s)
}

/// Heals the party's plain fields and halves the money (plain unsigned
/// division, rounding down).
///
/// `lead_slot` is the saved slot of the live party lead, if there is one; it
/// is healed whether or not it lies among the occupied slots. Every occupied
/// slot is healed too. The plan lists the occupied slots other than the
/// lead's, whose PP is restored from their own bytes, and says whether the
/// active-battler scan runs again (it does whenever any slot is occupied).
pub fn white_out(money: &mut u32, party: &mut Vec<PartyRecord>, party_count: u8, lead_slot: Option<
    usize,
>) -> (plan: WhiteOutPlan)
    requires
        lead_slot matches Some(s) ==> s < old(party).len(),
    ensures
        *final(money) == *old(money) / 2,
        final(party).len() == old(party).len(),
        plan.stored_count == spec_stored_count(party_count, old(party).len() as nat),
        plan.reselect == (plan.stored_count > 0),
        forall|i: int|
            0 <= i < final(party).len() ==> #[trigger] final(party)@[i] == if heals_slot(
                i,
                plan.stored_count as nat,
                lead_slot,
            ) {
                healed(old(party)@[i])
            } else {
                old(party)@[i]
            },
        forall|k: int|
            0 <= k < plan.dormant_slots.len() ==> is_dormant(
                #[trigger] plan.dormant_slots@[k] as int,
                plan.stored_count as nat,
                lead_slot,
            ),
        forall|i: usize|
            is_dormant(i as int, plan.stored_count as nat, lead_slot)
                ==> #[trigger] plan.dormant_slots@.contains(i),
        forall|a: int, b: int|
            0 <= a < b < plan.dormant_slots.len() ==> plan.dormant_slots@[a]
                < plan.dormant_slots@[b],
{
    *money = *money / 2;
    let stored_count: usize = if (party_count as usize) < party.len() {
        party_count as usize
    } else {
        party.len()
    };
    let ghost before_heal = party@;
    if let Some(slot) = lead_slot {
        let record = party[slot];
        party.set(slot, PartyRecord { status: 0, hp: record.max_hp, max_hp: record.max_hp });
    }
    let mut dormant_slots: Vec<usize> = Vec::new();
    let mut i: usize = 0;
    while i < stored_count
        invariant
            stored_count <= party.len(),
            party.len() == before_heal.len(),
            i <= stored_count,
            lead_slot matches Some(s) ==> s < before_heal.len(),
            forall|j: int|
                0 <= j < party.len() ==> #[trigger] party@[j] == if j < i || (
                lead_slot matches Some(s) && j == s) {
                    healed(before_heal[j])
                } else {
                    before_heal[j]
                },
            forall|k: int|
                0 <= k < dormant_slots.len() ==> is_dormant(
                    #[trigger] dormant_slots@[k] as int,
                    stored_count as nat,
                    lead_slot,
                ) && dormant_slots@[k] < i,
            forall|j: usize|
                j < i && is_dormant(j as int, stored_count as nat, lead_slot)
                    ==> #[trigger] dormant_slots@.contains(j),
            forall|a: int, b: int|
                0 <= a < b < dormant_slots.len() ==> dormant_slots@[a] < dormant_slots@[b],
        decreases stored_count - i,
    {
        let is_lead = match lead_slot {
            Some(s) => s == i,
            None => false,
        };
        if !is_lead {
            let record = party[i];
            party.set(i, PartyRecord { status: 0, hp: record.max_hp, max_hp: record.max_hp });
            let ghost before = dormant_slots@;
            dormant_slots.push(i);
            assert(dormant_slots@[dormant_slots.len() - 1] == i);
            assert forall|j: usize|
                j < i + 1 && is_dormant(j as int, stored_count as nat, lead_slot) implies #[trigger] dormant_slots@.contains(
                j,
            ) by {
                if j < i {
                    assert(before.contains(j));
                    let k = choose|k: int| 0 <= k < before.len() && before[k] == j;
                    assert(dormant_slots@[k] == j);
                } else {
                    assert(dormant_slots@[dormant_slots.len() - 1] == j);
                }
            }
        }
        i = i + 1;
    }
    WhiteOutPlan { stored_count, dormant_slots, reselect: stored_count > 0 }
}

/// Whether the re-run active-battler scan replaces the live lead: it does
/// when it selects a different slot, or when there is no live lead at all.
pub fn reselection_replaces_lead(selected_slot: usize, lead_slot: usize, lead_present: bool) -> (r:
    bool)
    ensures
        r == (selected_slot != lead_slot || !lead_present),
{
    selected_slot != lead_slot || !lead_present
}

/// After a white-out every occupied record, and the live lead's, is at full
/// HP with no status, and halving the money never leaves more than half.
pub proof fn lemma_white_out_heals_the_whole_party(
    before: Seq<PartyRecord>,
    after: Seq<PartyRecord>,
    stored_count: nat,
    lead_slot: Option<usize>,
    i: int,
)
    requires
        before.len() == after.len(),
        forall|j: int|
            0 <= j < after.len() ==> #[trigger] after[j] == if heals_slot(j, stored_count, lead_slot) {
                healed(before[j])
            } else {
                before[j]
            },
        0 <= i < after.len(),
        heals_slot(i, stored_count, lead_slot),
    ensures
        after[i].status == 0,
        after[i].hp == after[i].max_hp,
        after[i].max_hp == before[i].max_hp,
{
}

} // verus!
