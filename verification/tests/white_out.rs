use pokeemerald_rs::white_out::{reselection_replaces_lead, white_out, PartyRecord};

const STORED_STATUS: u32 = 0x40;

fn damaged(hp: u16, max_hp: u16) -> PartyRecord {
    PartyRecord { status: STORED_STATUS, hp, max_hp }
}

#[test]
fn a_lost_battle_heals_the_party_and_halves_money() {
    let mut money = 3001;
    let mut party = vec![damaged(0, 20), damaged(3, 25), PartyRecord::default_record()];
    let plan = white_out(&mut money, &mut party, 2, Some(0));
    assert_eq!(money, 1500, "plain unsigned division, rounding down");
    assert_eq!(party[0], PartyRecord { status: 0, hp: 20, max_hp: 20 });
    assert_eq!(party[1], PartyRecord { status: 0, hp: 25, max_hp: 25 });
    assert_eq!(party[2], PartyRecord::default_record(), "an unoccupied slot is left alone");
    assert_eq!(plan.stored_count, 2);
    assert_eq!(plan.dormant_slots, vec![1], "the lead heals through its live battler");
    assert!(plan.reselect);
}

#[test]
fn white_out_restores_the_stored_hp_to_the_retained_maximum() {
    const EV_HP_BONUS: u16 = 7;
    let mut money = 0;
    let mut party = vec![damaged(1, 20 + EV_HP_BONUS)];
    white_out(&mut money, &mut party, 1, Some(0));
    assert_eq!(party[0].hp, party[0].max_hp, "a white-out heal files full");
    assert_eq!(party[0].max_hp, 20 + EV_HP_BONUS, "the EV-raised maximum is retained");
    assert_eq!(party[0].status, 0);
}

#[test]
fn without_a_live_lead_every_occupied_slot_heals_from_its_own_bytes() {
    let mut money = 10;
    let mut party = vec![damaged(0, 20), damaged(3, 25), damaged(1, 9)];
    let plan = white_out(&mut money, &mut party, 3, None);
    assert_eq!(money, 5);
    assert_eq!(plan.dormant_slots, vec![0, 1, 2]);
    assert!(party.iter().all(|r| r.status == 0 && r.hp == r.max_hp));
}

#[test]
fn a_lead_outside_the_stored_count_is_still_healed() {
    let mut money = 1;
    let mut party = vec![damaged(0, 20), damaged(3, 25)];
    let plan = white_out(&mut money, &mut party, 1, Some(1));
    assert_eq!(money, 0);
    assert_eq!(plan.stored_count, 1);
    assert_eq!(plan.dormant_slots, vec![0]);
    assert_eq!(party[1], PartyRecord { status: 0, hp: 25, max_hp: 25 });
}

#[test]
fn a_party_count_above_capacity_is_capped() {
    let mut money = 0;
    let mut party = vec![damaged(0, 20)];
    let plan = white_out(&mut money, &mut party, 6, None);
    assert_eq!(plan.stored_count, 1);
}

#[test]
fn an_empty_party_skips_the_reselection() {
    let mut money = 0;
    let mut party: Vec<PartyRecord> = Vec::new();
    let plan = white_out(&mut money, &mut party, 0, None);
    assert!(!plan.reselect);
    assert!(plan.dormant_slots.is_empty());
}

#[test]
fn the_reselection_replaces_the_lead_only_when_it_moves_or_is_missing() {
    assert!(!reselection_replaces_lead(0, 0, true));
    assert!(reselection_replaces_lead(1, 0, true));
    assert!(reselection_replaces_lead(0, 0, false));
}

trait DefaultRecord {
    fn default_record() -> Self;
}

impl DefaultRecord for PartyRecord {
    fn default_record() -> Self {
        PartyRecord { status: 0, hp: 0, max_hp: 0 }
    }
}
