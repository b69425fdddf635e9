//! Selects the trainer identity for the scripted Route 103 rival battle.
use vstd::prelude::*;

verus! {

const TREECKO_STARTER_VALUE: u16 = 0;
const TORCHIC_STARTER_VALUE: u16 = 1;
const MUDKIP_STARTER_VALUE: u16 = 2;

/// A species, by its internal species number.
#[derive(Debug, Clone, Copy, PartialEq, Eq, Hash, Structural)]
pub struct SpeciesId(pub u16);

/// Treecko's species number.
pub const SPECIES_TREECKO: u16 = 277;
/// Torchic's species number.
pub const SPECIES_TORCHIC: u16 = 280;
/// Mudkip's species number.
pub const SPECIES_MUDKIP: u16 = 283;
/// Zigzagoon's species number.
pub const SPECIES_ZIGZAGOON: u16 = 288;

/// The starter recorded for the player in `VAR_STARTER_MON`.
#[derive(Debug, Clone, Copy, PartialEq, Eq, Hash, Structural)]
pub enum PlayerStarter {
    /// Treecko.
    Treecko,
    /// Torchic.
    Torchic,
    /// Mudkip.
    Mudkip,
}

/// The species number each starter stands for.
pub open spec fn starter_species(starter: PlayerStarter) -> u16 {
    match starter {
        PlayerStarter::Treecko => 277,
        PlayerStarter::Torchic => 280,
        PlayerStarter::Mudkip => 283,
    }
}

/// The `VAR_STARTER_MON` encoding of each starter.
pub open spec fn starter_var(starter: PlayerStarter) -> u16 {
    match starter {
        PlayerStarter::Treecko => 0,
        PlayerStarter::Torchic => 1,
        PlayerStarter::Mudkip => 2,
    }
}

/// The starter a species number stands for, if it is one of the three.
pub open spec fn starter_of_species(species: u16) -> Option<PlayerStarter> {
    if species == 277 {
        Some(PlayerStarter::Treecko)
    } else if species == 280 {
        Some(PlayerStarter::Torchic)
    } else if species == 283 {
        Some(PlayerStarter::Mudkip)
    } else {
        None
    }
}

/// The starter a `VAR_STARTER_MON` value encodes, if it is in range.
pub open spec fn starter_of_var(value: u16) -> Option<PlayerStarter> {
    if value == 0 {
        Some(PlayerStarter::Treecko)
    } else if value == 1 {
        Some(PlayerStarter::Torchic)
    } else if value == 2 {
        Some(PlayerStarter::Mudkip)
    } else {
        None
    }
}

impl PlayerStarter {
    /// Returns the starter represented by `species`, or `None` for any other species.
    pub fn from_species(species: SpeciesId) -> (r: Option<Self>)
        ensures
            r == starter_of_species(species.0),
    {
        if species.0 == SPECIES_TREECKO {
            Some(PlayerStarter::Treecko)
        } else if species.0 == SPECIES_TORCHIC {
            Some(PlayerStarter::Torchic)
        } else if species.0 == SPECIES_MUDKIP {
            Some(PlayerStarter::Mudkip)
        } else {
            None
        }
    }

    /// Decodes a `VAR_STARTER_MON` value, returning `None` outside the starter range.
    pub fn from_var(value: u16) -> (r: Option<Self>)
        ensures
            r == starter_of_var(value),
    {
        if value == TREECKO_STARTER_VALUE {
            Some(PlayerStarter::Treecko)
        } else if value == TORCHIC_STARTER_VALUE {
            Some(PlayerStarter::Torchic)
        } else if value == MUDKIP_STARTER_VALUE {
            Some(PlayerStarter::Mudkip)
        } else {
            None
        }
    }

    /// Encodes this starter for `VAR_STARTER_MON`.
    pub fn var_value(self) -> (r: u16)
        ensures
            r == starter_var(self),
    {
        match self {
            PlayerStarter::Treecko => TREECKO_STARTER_VALUE,
            PlayerStarter::Torchic => TORCHIC_STARTER_VALUE,
            PlayerStarter::Mudkip => MUDKIP_STARTER_VALUE,
        }
    }
}

/// The player's saved gender byte, as the save format records it.
#[derive(Debug, Clone, Copy, PartialEq, Eq, Hash, Structural)]
pub enum PlayerGender {
    /// The male protagonist.
    Male,
    /// The female protagonist.
    Female,
    /// Any other raw gender byte.
    Other(u8),
}

/// The opposite-gender protagonist who acts as the player's rival.
#[derive(Debug, Clone, Copy, PartialEq, Eq, Hash, Structural)]
pub enum Rival {
    /// Brendan, the rival of a female player.
    Brendan,
    /// May, the rival of a male player.
    May,
}

/// The rival each saved gender faces.
pub open spec fn rival_of_gender(gender: PlayerGender) -> Option<Rival> {
    match gender {
        PlayerGender::Male => Some(Rival::May),
        PlayerGender::Female => Some(Rival::Brendan),
        PlayerGender::Other(_) => None,
    }
}

impl Rival {
    /// Returns the rival selected for the saved player gender.
    ///
    /// [`PlayerGender::Other`] has no rival and returns `None`.
    pub fn for_gender(gender: PlayerGender) -> (r: Option<Self>)
        ensures
            r == rival_of_gender(gender),
    {
        match gender {
            PlayerGender::Male => Some(Rival::May),
            PlayerGender::Female => Some(Rival::Brendan),
            PlayerGender::Other(_) => None,
        }
    }
}

/// The six Route 103 rival trainer identities.
///
/// Each identity's suffix names the player's starter, not the rival's species.
#[derive(Debug, Clone, Copy, PartialEq, Eq, Hash, Structural)]
pub enum TrainerId {
    /// `TRAINER_BRENDAN_ROUTE_103_MUDKIP`.
    BrendanRoute103Mudkip,
    /// `TRAINER_BRENDAN_ROUTE_103_TREECKO`.
    BrendanRoute103Treecko,
    /// `TRAINER_BRENDAN_ROUTE_103_TORCHIC`.
    BrendanRoute103Torchic,
    /// `TRAINER_MAY_ROUTE_103_MUDKIP`.
    MayRoute103Mudkip,
    /// `TRAINER_MAY_ROUTE_103_TREECKO`.
    MayRoute103Treecko,
    /// `TRAINER_MAY_ROUTE_103_TORCHIC`.
    MayRoute103Torchic,
}

/// The Route 103 trainer identity for a rival and the player's starter.
pub open spec fn route103_trainer(rival: Rival, starter: PlayerStarter) -> TrainerId {
    match (rival, starter) {
        (Rival::Brendan, PlayerStarter::Mudkip) => TrainerId::BrendanRoute103Mudkip,
        (Rival::Brendan, PlayerStarter::Treecko) => TrainerId::BrendanRoute103Treecko,
        (Rival::Brendan, PlayerStarter::Torchic) => TrainerId::BrendanRoute103Torchic,
        (Rival::May, PlayerStarter::Mudkip) => TrainerId::MayRoute103Mudkip,
        (Rival::May, PlayerStarter::Treecko) => TrainerId::MayRoute103Treecko,
        (Rival::May, PlayerStarter::Torchic) => TrainerId::MayRoute103Torchic,
    }
}

/// Returns the Route 103 trainer identity for the rival and player's starter.
///
/// Each trainer identity's suffix names the player's starter, not the rival's species.
pub fn route103_rival_for(rival: Rival, starter: PlayerStarter) -> (r: TrainerId)
    ensures
        r == route103_trainer(rival, starter),
{
    match (rival, starter) {
        (Rival::Brendan, PlayerStarter::Mudkip) => TrainerId::BrendanRoute103Mudkip,
        (Rival::Brendan, PlayerStarter::Treecko) => TrainerId::BrendanRoute103Treecko,
        (Rival::Brendan, PlayerStarter::Torchic) => TrainerId::BrendanRoute103Torchic,
        (Rival::May, PlayerStarter::Mudkip) => TrainerId::MayRoute103Mudkip,
        (Rival::May, PlayerStarter::Treecko) => TrainerId::MayRoute103Treecko,
        (Rival::May, PlayerStarter::Torchic) => TrainerId::MayRoute103Torchic,
    }
}

/// Decoding a starter's own `VAR_STARTER_MON` encoding gives that starter back,
/// and every value that decodes is that starter's encoding.
pub proof fn lemma_starter_var_round_trip(starter: PlayerStarter, value: u16)
    ensures
        starter_of_var(starter_var(starter)) == Some(starter),
        starter_of_var(value) == Some(starter) ==> starter_var(starter) == value,
{
}

/// Each starter's own species maps back to that starter, and exactly three
/// species numbers name a starter.
pub proof fn lemma_starter_species_round_trip(starter: PlayerStarter, species: u16)
    ensures
        starter_of_species(starter_species(starter)) == Some(starter),
        starter_of_species(species) == Some(starter) ==> starter_species(starter) == species,
        starter_of_species(species) is Some <==> (species == 277 || species == 280 || species == 283),
{
}

/// The rival is always the opposite protagonist: a male player faces May, a
/// female player faces Brendan, and no other gender byte has a rival.
pub proof fn lemma_rival_is_the_opposite_protagonist(gender: PlayerGender)
    ensures
        rival_of_gender(gender) == Some(Rival::May) <==> gender == PlayerGender::Male,
        rival_of_gender(gender) == Some(Rival::Brendan) <==> gender == PlayerGender::Female,
        rival_of_gender(gender) is None <==> gender is Other,
{
}

/// Distinct rival and starter pairs select distinct trainer identities.
pub proof fn lemma_route103_trainers_are_distinct(
    rival_a: Rival,
    starter_a: PlayerStarter,
    rival_b: Rival,
    starter_b: PlayerStarter,
)
    ensures
        route103_trainer(rival_a, starter_a) == route103_trainer(rival_b, starter_b) ==> (
        rival_a == rival_b && starter_a == starter_b),
{
}

} // verus!
