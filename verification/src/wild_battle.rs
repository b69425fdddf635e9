//! Driving an in-progress wild battle from the overworld: which frames the
//! battle owns, when a fired encounter becomes a battle, and which battle a
//! landing step starts.
//!
//! The turn engine itself is the battle crate's; this module is the
//! overworld-owned glue around it, over the two slots the overworld keeps:
//! the party lead (`L`) and the in-progress wild battle (`B`).
use vstd::prelude::*;

verus! {

/// The overworld's party lead and in-progress wild battle.
///
/// While a battle runs, the lead lives inside it: starting a battle moves
/// the lead out of `party_lead`, and the battle writes it back on the frame
/// it ends.
pub struct WildBattleSlots<L, B> {
    /// The lead mon, when it is not in a battle.
    pub party_lead: Option<L>,
    /// The in-progress wild battle, if there is one.
    pub wild_battle: Option<B>,
}

/// Which battle a landing step starts.
#[derive(Debug, Clone, Copy, PartialEq, Eq, Structural)]
pub enum StepBattle {
    /// The scripted first battle the landing's trigger fired.
    FirstBattle,
    /// The wild battle for the landing's encounter, if one fired.
    WildBattle,
}

/// Which of the two battle starters a landing calls: the scripted first
/// battle when its trigger fired, otherwise the wild-battle starter (which
/// does nothing without a fired encounter). The encounter is never rolled on
/// a frame whose trigger fired, so exactly one of the two can start a battle.
pub fn begin_step_battle(first_battle_triggered: bool) -> (r: StepBattle)
    ensures
        r == if first_battle_triggered {
            StepBattle::FirstBattle
        } else {
            StepBattle::WildBattle
        },
{
    if first_battle_triggered {
        StepBattle::FirstBattle
    } else {
        StepBattle::WildBattle
    }
}

impl<L, B> WildBattleSlots<L, B> {
    /// Whether the wild battle owns this frame: while one is in progress the
    /// overworld step does nothing else.
    pub fn battle_owns_frame(&self) -> (r: bool)
        ensures
            r == self.wild_battle is Some,
    {
        self.wild_battle.is_some()
    }

    /// The lead a fired encounter's battle is built with: nothing starts
    /// without a fired encounter, nor without a party lead to fight with.
    pub fn lead_for_encounter(&self, encounter_fired: bool) -> (r: Option<&L>)
        ensures
            r matches Some(lead) ==> encounter_fired && self.party_lead == Some(*lead),
            r is None <==> (!encounter_fired || self.party_lead is None),
    {
        if !encounter_fired {
            return None;
        }
        match &self.party_lead {
            Some(lead) => Some(lead),
            None => None,
        }
    }

    /// Hands the lead over to a battle that was really built. A rejected
    /// battle leaves both slots as they were, so a rejection cannot swallow
    /// the lead.
    pub fn adopt_started_battle<E>(&mut self, started: Result<B, E>) -> (r: Option<E>)
        ensures
            match started {
                Ok(battle) => {
                    &&& final(self).party_lead is None
                    &&& final(self).wild_battle == Some(battle)
                    &&& r is None
                },
                Err(error) => {
                    &&& *final(self) == *old(self)
                    &&& r == Some(error)
                },
            },
    {
        match started {
            Ok(battle) => {
                self.party_lead = None;
                self.wild_battle = Some(battle);
                None
            },
            Err(error) => Some(error),
        }
    }
}

/// The fightability screen of the map the player is on, remembered by map.
///
/// The screen walks the whole land table, so its verdict is kept together
/// with the map it was computed for; a map change invalidates it by
/// construction, with no per-transition update to forget.
pub struct WildTableMemo {
    screen: Option<(String, bool)>,
}

impl WildTableMemo {
    /// The remembered map and verdict, if any.
    pub closed spec fn spec_screen(&self) -> Option<(Seq<char>, bool)> {
        match self.screen {
            Some((map, fightable)) => Some((map@, fightable)),
            None => None,
        }
    }

    /// A memo that remembers nothing yet.
    pub fn new() -> (r: Self)
        ensures
            r.spec_screen() is None,
    {
        WildTableMemo { screen: None }
    }

    /// The remembered verdict for `map`, if the memo is about that map.
    pub fn wild_table_fightable(&self, map: &String) -> (r: Option<bool>)
        ensures
            r == match self.spec_screen() {
                Some((remembered, fightable)) => if remembered == map@ {
                    Some(fightable)
                } else {
                    None
                },
                None => None,
            },
    {
        match &self.screen {
            Some((remembered, fightable)) => {
                if remembered.eq(map) {
                    Some(*fightable)
                } else {
                    None
                }
            },
            None => None,
        }
    }

    /// Remembers `fightable` as the verdict for `map`, replacing whatever
    /// was remembered before.
    pub fn remember(&mut self, map: String, fightable: bool)
        ensures
            final(self).spec_screen() == Some((map@, fightable)),
    {
        self.screen = Some((map, fightable));
    }
}

} // verus!
