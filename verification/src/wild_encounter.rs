//! Which overworld landings may roll a wild encounter, and the per-map screen
//! that keeps a table the battle engine cannot fight from rolling at all.
use vstd::prelude::*;

verus! {

/// A map, by its generated map-table name.
#[derive(Debug, Clone, Copy, PartialEq, Eq)]
pub struct MapId(pub &'static str);

/// A tile position on the current map.
pub type TilePos = (u16, u16);

/// A warp a field frame triggered.
#[derive(Debug, Clone, Copy, PartialEq, Eq)]
pub enum WarpTrigger {
    /// The warp resolved to a destination.
    Resolved {
        /// The destination map.
        map: MapId,
        /// The destination warp event.
        warp_id: u8,
    },
    /// The warp fired, but its destination could not be resolved.
    Unsupported,
}

/// The landing an encounter may be rolled for: the completed step, unless a
/// warp of either shape already claimed the frame.
pub open spec fn spec_roll_eligible_landing(
    landed: Option<TilePos>,
    preempting_arrow_warp: Option<WarpTrigger>,
    door_warp: Option<WarpTrigger>,
) -> Option<TilePos> {
    if preempting_arrow_warp is Some || door_warp is Some {
        None
    } else {
        landed
    }
}

/// The landing an encounter may be rolled for this frame.
///
/// The game's warp checks claim the frame ahead of the encounter check,
/// whichever of the two warp paths fired, and whether or not the warp's
/// destination could be resolved.
pub fn roll_eligible_landing(
    landed: Option<TilePos>,
    preempting_arrow_warp: Option<WarpTrigger>,
    door_warp: Option<WarpTrigger>,
) -> (r: Option<TilePos>)
    ensures
        r == spec_roll_eligible_landing(landed, preempting_arrow_warp, door_warp),
{
    let warp_preempted_encounter = preempting_arrow_warp.is_some() || door_warp.is_some();
    if warp_preempted_encounter {
        None
    } else {
        landed
    }
}

/// Whether the arrow-warp poll runs this frame: only at rest, and only when no
/// field event (such as a fired encounter) already ended the frame's input.
pub fn arrow_poll_open(in_transit: bool, field_event_fired: bool) -> (r: bool)
    ensures
        r == (!in_transit && !field_event_fired),
{
    !in_transit && !field_event_fired
}

/// Whether this frame's field input was consumed ahead of the interaction
/// check: a fired field event does, and so does a warp that resolved.
pub fn field_input_consumed(field_event_fired: bool, warp_trigger: Option<WarpTrigger>) -> (r:
    bool)
    ensures
        r == (field_event_fired || warp_trigger matches Some(WarpTrigger::Resolved { .. })),
{
    let resolved_warp_fired = match warp_trigger {
        Some(WarpTrigger::Resolved { .. }) => true,
        _ => false,
    };
    field_event_fired || resolved_warp_fired
}

/// One slot of a map's land encounter table.
#[derive(Debug, Clone, Copy, PartialEq, Eq, Structural)]
pub struct WildSlot {
    /// The species the slot rolls.
    pub species: u16,
    /// The lowest level it rolls at.
    pub min_level: u8,
    /// The highest level it rolls at.
    pub max_level: u8,
}

/// A species and level the battle engine is asked whether it can fight.
#[derive(Debug, Clone, Copy, PartialEq, Eq, Structural)]
pub struct WildQuery {
    /// The wild species.
    pub species: u16,
    /// The wild level.
    pub level: u8,
}

/// Every level a slot can roll, lowest first.
pub open spec fn slot_queries(slot: WildSlot) -> Seq<WildQuery> {
    if slot.min_level <= slot.max_level {
        Seq::new(
            (slot.max_level - slot.min_level + 1) as nat,
            |i: int| WildQuery { species: slot.species, level: (slot.min_level + i) as u8 },
        )
    } else {
        Seq::empty()
    }
}

/// Every species and level a land table can roll, slot by slot in table
/// order, each slot's levels lowest first.
pub open spec fn table_queries(slots: Seq<WildSlot>) -> Seq<WildQuery>
    decreases slots.len(),
{
    if slots.len() == 0 {
        Seq::empty()
    } else {
        table_queries(slots.drop_last()) + slot_queries(slots.last())
    }
}

/// Whether every query of a table passes `startable`.
pub open spec fn all_startable(queries: Seq<WildQuery>, startable: spec_fn(WildQuery) -> bool) -> bool {
    forall|i: int| 0 <= i < queries.len() ==> #[trigger] startable(queries[i])
}

/// The screen of a map's land table, asked one species and level at a time.
///
/// Creating a wild mon cannot reject an unsupported moveset in the game.
/// Rejecting one after a roll would consume unmatched RNG draws, so one
/// unsupported entry disables encounter draws and bookkeeping for the whole
/// map. The screen asks about every level of every slot, in table order, and
/// stops at the first one the battle engine cannot start; a map with no land
/// table passes.
pub struct WildTableScreen {
    queries: Vec<WildQuery>,
    position: usize,
    failed: bool,
    answers: Ghost<Seq<bool>>,
}

impl WildTableScreen {
    /// Every query this screen asks, in order.
    pub closed spec fn spec_queries(&self) -> Seq<WildQuery> {
        self.queries@
    }

    /// The answers recorded so far, one per query asked.
    pub closed spec fn spec_answers(&self) -> Seq<bool> {
        self.answers@
    }

    /// How many queries have been answered.
    pub closed spec fn spec_position(&self) -> nat {
        self.position as nat
    }

    /// Whether an answer refused a query.
    pub closed spec fn spec_failed(&self) -> bool {
        self.failed
    }

    /// The screen's internal consistency.
    pub closed spec fn wf(&self) -> bool {
        &&& self.position <= self.queries@.len()
        &&& self.answers@.len() == self.position
        &&& self.failed ==> self.position > 0 && !self.answers@[self.position - 1]
        &&& forall|i: int|
            0 <= i < self.position && !(self.failed && i == self.position - 1) ==> #[trigger] self.answers@[i]
    }

    /// The screen's verdict once it has one: `false` as soon as a query is
    /// refused, `true` once every query has passed.
    pub open spec fn spec_verdict(&self) -> Option<bool> {
        if self.spec_failed() {
            Some(false)
        } else if self.spec_position() == self.spec_queries().len() {
            Some(true)
        } else {
            None
        }
    }

    /// A screen of `land_slots`, the map's land table if it has one.
    pub fn new(land_slots: Option<&Vec<WildSlot>>) -> (r: Self)
        ensures
            r.wf(),
            r.spec_queries() == match land_slots {
                Some(slots) => table_queries(slots@),
                None => Seq::empty(),
            },
            r.spec_position() == 0,
            !r.spec_failed(),
            land_slots is Some ==> forall|k: int, l: int|
                0 <= k < land_slots->0@.len() && land_slots->0@[k].min_level <= l
                    <= land_slots->0@[k].max_level ==> #[trigger] r.spec_queries().contains(
                    WildQuery { species: land_slots->0@[k].species, level: l as u8 },
                ),
            land_slots is Some ==> forall|i: int|
                0 <= i < r.spec_queries().len() ==> rolls(
                    land_slots->0@,
                    #[trigger] r.spec_queries()[i],
                ),
    {
        proof {
            if let Some(slots) = land_slots {
                lemma_every_level_of_every_slot_is_asked(slots@);
            }
        }
        let mut queries: Vec<WildQuery> = Vec::new();
        if let Some(slots) = land_slots {
            let mut i: usize = 0;
            while i < slots.len()
                invariant
                    i <= slots.len(),
                    queries@ == table_queries(slots@.take(i as int)),
                decreases slots.len() - i,
            {
                let slot = slots[i];
                let ghost before = queries@;
                let mut level: u16 = slot.min_level as u16;
                while level <= slot.max_level as u16
                    invariant
                        i < slots.len(),
                        slot == slots@[i as int],
                        slot.min_level <= level,
                        level == slot.min_level || level <= slot.max_level + 1,
                        queries@ == before + slot_queries(slot).take(level - slot.min_level),
                    decreases slot.max_level + 1 - level,
                {
                    assert(slot_queries(slot).take(level - slot.min_level + 1) =~= slot_queries(
                        slot,
                    ).take(level - slot.min_level).push(
                        WildQuery { species: slot.species, level: level as u8 },
                    ));
                    queries.push(WildQuery { species: slot.species, level: level as u8 });
                    level = level + 1;
                }
                if slot.min_level <= slot.max_level {
                    assert(slot_queries(slot).take(slot.max_level - slot.min_level + 1)
                        =~= slot_queries(slot));
                } else {
                    assert(slot_queries(slot) =~= Seq::<WildQuery>::empty());
                    assert(queries@ =~= before + slot_queries(slot));
                }
                assert(slots@.take(i + 1).drop_last() =~= slots@.take(i as int));
                i = i + 1;
            }
            assert(slots@.take(slots.len() as int) =~= slots@);
        }
        WildTableScreen { queries, position: 0, failed: false, answers: Ghost(Seq::empty()) }
    }

    /// The next species and level to ask the battle engine about, or `None`
    /// once the screen has its verdict.
    pub fn next_query(&self) -> (r: Option<WildQuery>)
        requires
            self.wf(),
        ensures
            r is None <==> self.spec_verdict() is Some,
            r matches Some(q) ==> q == self.spec_queries()[self.spec_position() as int],
    {
        if self.failed || self.position >= self.queries.len() {
            None
        } else {
            Some(self.queries[self.position])
        }
    }

    /// Records whether the battle engine can start the next query.
    pub fn record(&mut self, startable: bool)
        requires
            old(self).wf(),
            old(self).spec_verdict() is None,
        ensures
            final(self).wf(),
            final(self).spec_queries() == old(self).spec_queries(),
            final(self).spec_position() == old(self).spec_position() + 1,
            final(self).spec_answers() == old(self).spec_answers().push(startable),
            final(self).spec_failed() == !startable,
    {
        let n = self.queries.len();
        assert(self.position < n);
        self.position = self.position + 1;
        self.failed = !startable;
        self.answers = Ghost(self.answers@.push(startable));
    }

    /// The screen's verdict, once every query has passed or one has failed.
    pub fn verdict(&self) -> (r: Option<bool>)
        requires
            self.wf(),
        ensures
            r == self.spec_verdict(),
    {
        if self.failed {
            Some(false)
        } else if self.position >= self.queries.len() {
            Some(true)
        } else {
            None
        }
    }
}

/// When each recorded answer is the battle engine's answer for its query,
/// the screen's verdict is exactly whether the engine can start every
/// species and level the table can roll.
pub proof fn lemma_screen_verdict_is_whole_table_fightability(
    screen: WildTableScreen,
    startable: spec_fn(WildQuery) -> bool,
)
    requires
        screen.wf(),
        screen.spec_verdict() is Some,
        forall|i: int|
            0 <= i < screen.spec_position() ==> #[trigger] screen.spec_answers()[i] == startable(
                screen.spec_queries()[i],
            ),
    ensures
        screen.spec_verdict() == Some(all_startable(screen.spec_queries(), startable)),
{
    if screen.spec_failed() {
        let k = screen.spec_position() - 1;
        assert(screen.spec_answers()[k] == startable(screen.spec_queries()[k]));
    } else {
        assert forall|i: int| 0 <= i < screen.spec_queries().len() implies #[trigger] startable(
            screen.spec_queries()[i],
        ) by {
            assert(screen.spec_answers()[i]);
        }
    }
}

/// Whether `query` is a species and level `slots` can roll: the species of
/// some slot, at a level within that slot's range.
pub open spec fn rolls(slots: Seq<WildSlot>, query: WildQuery) -> bool {
    exists|k: int|
        0 <= k < slots.len() && (#[trigger] slots[k]).species == query.species && slots[k].min_level
            <= query.level <= slots[k].max_level
}

/// The number of species and levels `slots` can roll, slot by slot.
pub open spec fn level_count(slots: Seq<WildSlot>) -> nat
    decreases slots.len(),
{
    if slots.len() == 0 {
        0
    } else {
        let last = slots.last();
        level_count(slots.drop_last()) + if last.min_level <= last.max_level {
            (last.max_level - last.min_level + 1) as nat
        } else {
            0
        }
    }
}

/// A land table is asked about every level of every slot, repeated species
/// included, and about nothing else: each slot's levels from lowest to
/// highest are all among the queries, each query is a level some slot rolls,
/// and there is one query per level of each slot.
pub proof fn lemma_every_level_of_every_slot_is_asked(slots: Seq<WildSlot>)
    ensures
        forall|k: int, l: int|
            0 <= k < slots.len() && slots[k].min_level <= l <= slots[k].max_level
                ==> #[trigger] table_queries(slots).contains(
                WildQuery { species: slots[k].species, level: l as u8 },
            ),
        forall|i: int|
            0 <= i < table_queries(slots).len() ==> rolls(slots, #[trigger] table_queries(slots)[i]),
        table_queries(slots).len() == level_count(slots),
    decreases slots.len(),
{
    if slots.len() > 0 {
        let init = slots.drop_last();
        let last = slots.last();
        lemma_every_level_of_every_slot_is_asked(init);
        let head = table_queries(init);
        let tail = slot_queries(last);
        let all = table_queries(slots);
        assert(all == head + tail);
        assert forall|k: int, l: int|
            0 <= k < slots.len() && slots[k].min_level <= l <= slots[k].max_level implies #[trigger] all.contains(
            WildQuery { species: slots[k].species, level: l as u8 },
        ) by {
            let q = WildQuery { species: slots[k].species, level: l as u8 };
            if k < slots.len() - 1 {
                assert(init[k] == slots[k]);
                assert(head.contains(q));
                let i = choose|i: int| 0 <= i < head.len() && head[i] == q;
                assert(all[i] == q);
            } else {
                let i = l - last.min_level;
                assert(tail[i] == q);
                assert(all[head.len() + i] == q);
            }
        }
        assert forall|i: int| 0 <= i < all.len() implies rolls(slots, #[trigger] all[i]) by {
            if i < head.len() {
                assert(all[i] == head[i]);
                assert(rolls(init, head[i]));
                let k = choose|k: int|
                    0 <= k < init.len() && (#[trigger] init[k]).species == head[i].species
                        && init[k].min_level <= head[i].level <= init[k].max_level;
                assert(slots[k] == init[k]);
            } else {
                let j = i - head.len();
                assert(all[i] == tail[j]);
                assert(slots[slots.len() - 1] == last);
            }
        }
    }
}

/// A finished screen of a land table passes exactly when the battle engine
/// can start every level of every slot: one level it cannot start, in any
/// slot, fails the whole map.
pub proof fn lemma_screen_passes_exactly_when_every_level_is_startable(
    screen: WildTableScreen,
    slots: Seq<WildSlot>,
    startable: spec_fn(WildQuery) -> bool,
)
    requires
        screen.wf(),
        screen.spec_queries() == table_queries(slots),
        screen.spec_verdict() is Some,
        forall|i: int|
            0 <= i < screen.spec_position() ==> #[trigger] screen.spec_answers()[i] == startable(
                screen.spec_queries()[i],
            ),
    ensures
        screen.spec_verdict() == Some(
            forall|k: int, l: int|
                0 <= k < slots.len() && slots[k].min_level <= l <= slots[k].max_level
                    ==> #[trigger] startable(WildQuery { species: slots[k].species, level: l as u8 }),
        ),
{
    lemma_screen_verdict_is_whole_table_fightability(screen, startable);
    lemma_every_level_of_every_slot_is_asked(slots);
    let qs = table_queries(slots);
    let every = forall|k: int, l: int|
        0 <= k < slots.len() && slots[k].min_level <= l <= slots[k].max_level
            ==> #[trigger] startable(WildQuery { species: slots[k].species, level: l as u8 });
    if all_startable(qs, startable) {
        assert forall|k: int, l: int|
            0 <= k < slots.len() && slots[k].min_level <= l <= slots[k].max_level implies #[trigger] startable(
            WildQuery { species: slots[k].species, level: l as u8 },
        ) by {
            let q = WildQuery { species: slots[k].species, level: l as u8 };
            assert(qs.contains(q));
            let i = choose|i: int| 0 <= i < qs.len() && qs[i] == q;
            assert(startable(qs[i]));
        }
    } else {
        let i = choose|i: int| 0 <= i < qs.len() && !startable(#[trigger] qs[i]);
        assert(rolls(slots, qs[i]));
        let k = choose|k: int|
            0 <= k < slots.len() && (#[trigger] slots[k]).species == qs[i].species
                && slots[k].min_level <= qs[i].level <= slots[k].max_level;
        let l = qs[i].level as int;
        assert(qs[i] == WildQuery { species: slots[k].species, level: l as u8 });
        assert(!every);
    }
}

} // verus!
