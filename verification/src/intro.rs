//! Birch's new-game introduction: the scene's own page, glyph and
//! completion state, and the printer-derived pacing of a full read.
//!
//! # Reduced cinematic
//!
//! The scene renders the dialogue and standard message box. It omits the
//! character animation, gender and naming screens, confirmation menu, and
//! audio. Questions held on screen by those omitted transitions wait for A or
//! B before the scene continues.
//!
//! # Advance
//!
//! The text printer reports one event per frame; [`IntroScene::tick`] turns
//! that event into the scene's next state and tells the caller when the
//! printer must restart on the next page.
use vstd::prelude::*;

verus! {

/// Number of dialogue pages in Birch's introduction.
pub const NUM_PAGES: usize = 8;

/// A consecutive span of frames without input while reading Birch's speech.
#[derive(Debug, Clone, Copy, PartialEq, Eq, Structural)]
pub struct TraversalRun {
    /// Frames elapsed before the printer waits or continues automatically.
    pub frames: u32,
    /// Whether the next frame must contain an A or B press.
    pub confirm_after: bool,
}

/// A run of `frames` that ends waiting for a confirmation press.
pub fn waits_for_confirmation(frames: u32) -> (r: TraversalRun)
    ensures
        r == (TraversalRun { frames, confirm_after: true }),
{
    TraversalRun { frames, confirm_after: true }
}

/// A run of `frames` after which the printer continues on its own.
pub fn advances_automatically(frames: u32) -> (r: TraversalRun)
    ensures
        r == (TraversalRun { frames, confirm_after: false }),
{
    TraversalRun { frames, confirm_after: false }
}

/// The printer-derived timing for a full read at the middle text speed
/// without held input.
pub open spec fn spec_traversal_runs() -> Seq<TraversalRun> {
    seq![
        TraversalRun { frames: 121, confirm_after: true },
        TraversalRun { frames: 132, confirm_after: true },
        TraversalRun { frames: 72, confirm_after: true },
        TraversalRun { frames: 179, confirm_after: true },
        TraversalRun { frames: 4, confirm_after: false },
        TraversalRun { frames: 230, confirm_after: true },
        TraversalRun { frames: 4, confirm_after: false },
        TraversalRun { frames: 244, confirm_after: true },
        TraversalRun { frames: 279, confirm_after: true },
        TraversalRun { frames: 9, confirm_after: false },
        TraversalRun { frames: 140, confirm_after: true },
        TraversalRun { frames: 235, confirm_after: true },
        TraversalRun { frames: 267, confirm_after: true },
        TraversalRun { frames: 235, confirm_after: true },
        TraversalRun { frames: 247, confirm_after: true },
        TraversalRun { frames: 9, confirm_after: false },
        TraversalRun { frames: 72, confirm_after: true },
        TraversalRun { frames: 4, confirm_after: false },
        TraversalRun { frames: 49, confirm_after: true },
        TraversalRun { frames: 4, confirm_after: false },
        TraversalRun { frames: 112, confirm_after: true },
        TraversalRun { frames: 4, confirm_after: false },
        TraversalRun { frames: 49, confirm_after: true },
        TraversalRun { frames: 4, confirm_after: false },
        TraversalRun { frames: 37, confirm_after: true },
        TraversalRun { frames: 215, confirm_after: true },
        TraversalRun { frames: 9, confirm_after: false },
        TraversalRun { frames: 56, confirm_after: true },
        TraversalRun { frames: 4, confirm_after: false },
        TraversalRun { frames: 101, confirm_after: true },
        TraversalRun { frames: 175, confirm_after: true },
        TraversalRun { frames: 251, confirm_after: true },
        TraversalRun { frames: 9, confirm_after: false },
        TraversalRun { frames: 136, confirm_after: true },
        TraversalRun { frames: 263, confirm_after: true },
        TraversalRun { frames: 4, confirm_after: false }
    ]
}

/// Printer-derived timing for a full read at the middle text speed without
/// held input.
pub fn traversal_runs() -> (runs: Vec<TraversalRun>)
    ensures
        runs@ == spec_traversal_runs(),
{
    let mut runs: Vec<TraversalRun> = Vec::new();
    runs.push(waits_for_confirmation(121));
    runs.push(waits_for_confirmation(132));
    runs.push(waits_for_confirmation(72));
    runs.push(waits_for_confirmation(179));
    runs.push(advances_automatically(4));
    runs.push(waits_for_confirmation(230));
    runs.push(advances_automatically(4));
    runs.push(waits_for_confirmation(244));
    runs.push(waits_for_confirmation(279));
    runs.push(advances_automatically(9));
    runs.push(waits_for_confirmation(140));
    runs.push(waits_for_confirmation(235));
    runs.push(waits_for_confirmation(267));
    runs.push(waits_for_confirmation(235));
    runs.push(waits_for_confirmation(247));
    runs.push(advances_automatically(9));
    runs.push(waits_for_confirmation(72));
    runs.push(advances_automatically(4));
    runs.push(waits_for_confirmation(49));
    runs.push(advances_automatically(4));
    runs.push(waits_for_confirmation(112));
    runs.push(advances_automatically(4));
    runs.push(waits_for_confirmation(49));
    runs.push(advances_automatically(4));
    runs.push(waits_for_confirmation(37));
    runs.push(waits_for_confirmation(215));
    runs.push(advances_automatically(9));
    runs.push(waits_for_confirmation(56));
    runs.push(advances_automatically(4));
    runs.push(waits_for_confirmation(101));
    runs.push(waits_for_confirmation(175));
    runs.push(waits_for_confirmation(251));
    runs.push(advances_automatically(9));
    runs.push(waits_for_confirmation(136));
    runs.push(waits_for_confirmation(263));
    runs.push(advances_automatically(4));
    assert(runs@ =~= spec_traversal_runs());
    runs
}

/// The frames a run spans, counting its confirmation frame.
pub open spec fn run_frames(run: TraversalRun) -> nat {
    run.frames as nat + if run.confirm_after { 1nat } else { 0nat }
}

/// Total frames of a sequence of runs, including required confirmation frames.
pub open spec fn total_frames(runs: Seq<TraversalRun>) -> nat
    decreases runs.len(),
{
    if runs.len() == 0 {
        0
    } else {
        total_frames(runs.drop_last()) + run_frames(runs.last())
    }
}

/// The total of a prefix never exceeds the total of the whole.
pub proof fn lemma_total_frames_prefix(runs: Seq<TraversalRun>, i: int)
    requires
        0 <= i <= runs.len(),
    ensures
        total_frames(runs.take(i)) <= total_frames(runs),
    decreases runs.len() - i,
{
    if i < runs.len() {
        lemma_total_frames_prefix(runs, i + 1);
        assert(runs.take(i + 1).drop_last() =~= runs.take(i));
    } else {
        assert(runs.take(i) =~= runs);
    }
}

/// Total frames for `runs`, including required confirmation frames.
pub fn traversal_frames(runs: &[TraversalRun]) -> (total: usize)
    requires
        total_frames(runs@) <= usize::MAX,
    ensures
        total == total_frames(runs@),
{
    let mut total: usize = 0;
    let mut i: usize = 0;
    while i < runs.len()
        invariant
            i <= runs@.len(),
            total == total_frames(runs@.take(i as int)),
            total_frames(runs@) <= usize::MAX,
        decreases runs.len() - i,
    {
        proof {
            lemma_total_frames_prefix(runs@, i + 1);
            assert(runs@.take(i + 1).drop_last() =~= runs@.take(i as int));
        }
        total = total + runs[i].frames as usize;
        if runs[i].confirm_after {
            total = total + 1;
        }
        i = i + 1;
    }
    assert(runs@.take(runs@.len() as int) =~= runs@);
    total
}

/// A sequence of runs each shorter than `bound` frames totals less than
/// `bound + 1` frames per run.
pub proof fn lemma_total_frames_bound(runs: Seq<TraversalRun>, bound: nat)
    requires
        forall|i: int| 0 <= i < runs.len() ==> (#[trigger] runs[i]).frames < bound,
    ensures
        total_frames(runs) <= runs.len() * (bound + 1),
    decreases runs.len(),
{
    if runs.len() > 0 {
        lemma_total_frames_bound(runs.drop_last(), bound);
        assert(runs.last().frames < bound);
        assert((runs.len() - 1) * (bound + 1) + (bound + 1) == runs.len() * (bound + 1))
            by (nonlinear_arith);
    }
}

/// Total frames for [`traversal_runs`], including required confirmation frames.
pub fn traversal_frame_count() -> (total: usize)
    ensures
        total == total_frames(spec_traversal_runs()),
{
    let runs = traversal_runs();
    proof {
        assert forall|i: int| 0 <= i < runs@.len() implies (#[trigger] runs@[i]).frames < 280 by {}
        lemma_total_frames_bound(runs@, 280);
    }
    traversal_frames(runs.as_slice())
}

/// `optionsTextSpeed` values above this are invalid; the game's text-speed
/// lookup treats them exactly like
/// [`NORMALIZED_TEXT_SPEED`].
pub const MAX_VALID_TEXT_SPEED: u8 = 2;

/// The value the game's text-speed lookup repairs an out-of-range
/// `optionsTextSpeed` to.
pub const NORMALIZED_TEXT_SPEED: u8 = 1;

/// The text-speed byte a new game carries forward: `raw` unchanged when
/// valid, otherwise [`NORMALIZED_TEXT_SPEED`].
pub fn normalized_text_speed(raw: u8) -> (r: u8)
    ensures
        r == if raw > 2 { 1 } else { raw },
{
    if raw > MAX_VALID_TEXT_SPEED {
        NORMALIZED_TEXT_SPEED
    } else {
        raw
    }
}

/// The introduction's progress towards the overworld handoff.
#[derive(Debug, Clone, Copy, PartialEq, Eq, Structural)]
pub enum IntroStatus {
    /// The current page or a later page still needs processing.
    Continue,
    /// Every page has finished.
    Finished,
}

/// Why an asset pack could not be used.
#[derive(Debug, Clone, PartialEq, Eq)]
pub enum PackError {
    /// No pack exists at the expected location.
    NotFound(String),
    /// The pack exists but an entry is missing or malformed.
    Invalid(String),
}

/// An error while building an introduction scene.
#[derive(Debug, Clone, PartialEq, Eq)]
pub enum IntroSceneError {
    /// The asset pack could not be loaded or read.
    Pack(PackError),
    /// The font glyph sheet could not be decoded.
    Font(String),
}

impl IntroSceneError {
    /// Returns whether the asset pack was not found.
    pub fn is_pack_missing(&self) -> (r: bool)
        ensures
            r == (self matches IntroSceneError::Pack(PackError::NotFound(_))),
    {
        match self {
            IntroSceneError::Pack(PackError::NotFound(_)) => true,
            _ => false,
        }
    }
}

/// A glyph the printer has revealed, with the vertical position the scene
/// keeps for it; `glyph` carries everything else the renderer draws.
#[derive(Debug, Clone, Copy, PartialEq, Eq)]
pub struct RevealedGlyph<G> {
    /// The printer's glyph.
    pub glyph: G,
    /// The glyph's vertical position inside the message box.
    pub y: i32,
}

/// What the text printer reported for one frame.
#[derive(Debug, Clone, Copy, PartialEq, Eq)]
pub enum TickEvent<G> {
    /// Nothing happened.
    Idle,
    /// A glyph was revealed.
    Glyph(RevealedGlyph<G>),
    /// The window was cleared.
    Cleared,
    /// The printer waits to scroll.
    AwaitingScroll,
    /// A scroll began.
    ScrollStarted,
    /// The text moved up by `dy` pixels.
    Scrolling {
        /// Pixels moved this frame.
        dy: i32,
    },
    /// A scroll ended.
    ScrollFinished,
    /// The printer waits to clear the window.
    AwaitingClear,
    /// The printer waits for a press.
    AwaitingPress,
    /// A press was accepted.
    PressAccepted,
    /// The printer is pausing.
    Paused,
    /// A pause ended.
    PauseFinished,
    /// The page's text is done.
    Finished,
}

/// What one frame of the introduction produced.
#[derive(Debug, Clone, Copy, PartialEq, Eq, Structural)]
pub struct IntroTick {
    /// The scene's progress after the frame.
    pub status: IntroStatus,
    /// The page the printer must restart on, when the frame turned a page.
    pub restart_page: Option<usize>,
}

/// Birch's introduction speech: the page being read, the glyphs on screen,
/// and whether every page has finished.
pub struct IntroScene<G> {
    page_index: usize,
    revealed: Vec<RevealedGlyph<G>>,
    finished: bool,
}

/// The glyphs after a frame's event, starting from those left after any
/// window clear the printer reported.
pub open spec fn glyphs_after<G>(glyphs: Seq<RevealedGlyph<G>>, event: TickEvent<G>) -> Seq<
    RevealedGlyph<G>,
> {
    match event {
        TickEvent::Glyph(g) => glyphs.push(g),
        TickEvent::Scrolling { dy } => glyphs.map_values(
            |g: RevealedGlyph<G>| RevealedGlyph { glyph: g.glyph, y: (g.y - dy) as i32 },
        ),
        _ => glyphs,
    }
}

/// Whether scrolling every glyph up by `dy` keeps its position in range.
pub open spec fn scroll_fits<G>(glyphs: Seq<RevealedGlyph<G>>, dy: i32) -> bool {
    forall|i: int| 0 <= i < glyphs.len() ==> i32::MIN <= #[trigger] glyphs[i].y - dy <= i32::MAX
}

/// The page being read and whether the speech is over, after a frame on
/// `page` that either finished the page's text (`page_done`) or did not.
pub open spec fn page_after(page: nat, finished: bool, page_done: bool) -> (nat, bool) {
    if finished {
        (page, true)
    } else if page_done {
        if page + 1 < NUM_PAGES {
            (page + 1, false)
        } else {
            (page, true)
        }
    } else {
        (page, false)
    }
}

/// The speech moves through its pages one at a time: a frame leaves the page
/// where it was or turns to the next one, never past the last; a page turns
/// only when its text finished on an unfinished speech; the speech finishes
/// only on the last page, and once finished it stays finished on that page.
pub proof fn lemma_pages_advance_one_at_a_time(page: nat, finished: bool, page_done: bool)
    requires
        page < NUM_PAGES,
        finished ==> page == NUM_PAGES - 1,
    ensures
        ({
            let (next, done) = page_after(page, finished, page_done);
            &&& next == page || next == page + 1
            &&& next < NUM_PAGES
            &&& done ==> next == NUM_PAGES - 1
            &&& next != page ==> page_done && !finished && !done
            &&& finished ==> done && next == page
        }),
{
}

/// A scroll keeps every glyph on screen, in order, and moves each one up by
/// `dy`, even past the top of the box; a revealed glyph is added after the
/// others; any other event leaves the glyphs as they were.
pub proof fn lemma_glyphs_scroll_and_accumulate<G>(
    glyphs: Seq<RevealedGlyph<G>>,
    event: TickEvent<G>,
)
    requires
        event matches TickEvent::Scrolling { dy } ==> scroll_fits(glyphs, dy),
    ensures
        event matches TickEvent::Scrolling { dy } ==> {
            let after = glyphs_after(glyphs, event);
            &&& after.len() == glyphs.len()
            &&& forall|j: int|
                0 <= j < glyphs.len() ==> (#[trigger] after[j]).glyph == glyphs[j].glyph
                    && after[j].y == glyphs[j].y - dy
        },
        event matches TickEvent::Glyph(g) ==> glyphs_after(glyphs, event).len() == glyphs.len() + 1
            && glyphs_after(glyphs, event).last() == g && glyphs_after(glyphs, event).drop_last()
            == glyphs,
        !(event is Scrolling || event is Glyph) ==> glyphs_after(glyphs, event) == glyphs,
{
    if let TickEvent::Scrolling { dy } = event {
        let after = glyphs_after(glyphs, event);
        assert forall|j: int| 0 <= j < glyphs.len() implies (#[trigger] after[j]).glyph
            == glyphs[j].glyph && after[j].y == glyphs[j].y - dy by {
            assert(i32::MIN <= glyphs[j].y - dy <= i32::MAX);
        }
    }
    if let TickEvent::Glyph(g) = event {
        assert(glyphs.push(g).drop_last() =~= glyphs);
    }
}

impl<G: Copy> IntroScene<G> {
    /// The page being read.
    pub closed spec fn spec_page_index(&self) -> nat {
        self.page_index as nat
    }

    /// The glyphs currently visible.
    pub closed spec fn spec_revealed(&self) -> Seq<RevealedGlyph<G>> {
        self.revealed@
    }

    /// Whether every page has finished.
    pub closed spec fn spec_finished(&self) -> bool {
        self.finished
    }

    /// The scene's page index stays within the speech, and a finished
    /// scene rests on the last page.
    pub open spec fn wf(&self) -> bool {
        &&& self.spec_page_index() < NUM_PAGES
        &&& self.spec_finished() ==> self.spec_page_index() == NUM_PAGES - 1
    }

    /// A scene on the first page with nothing revealed.
    pub fn new() -> (r: Self)
        ensures
            r.wf(),
            r.spec_page_index() == 0,
            r.spec_revealed() == Seq::<RevealedGlyph<G>>::empty(),
            !r.spec_finished(),
    {
        IntroScene { page_index: 0, revealed: Vec::new(), finished: false }
    }

    /// Returns the current page index in `0..NUM_PAGES`.
    pub fn page_index(&self) -> (r: usize)
        ensures
            r == self.spec_page_index(),
    {
        self.page_index
    }

    /// Returns whether every page has finished.
    pub fn is_finished(&self) -> (r: bool)
        ensures
            r == self.spec_finished(),
    {
        self.finished
    }

    /// Returns the number of glyphs currently visible.
    pub fn revealed_glyph_count(&self) -> (r: usize)
        ensures
            r == self.spec_revealed().len(),
    {
        self.revealed.len()
    }

    /// The glyphs currently visible, in reveal order.
    pub fn revealed(&self) -> (r: &Vec<RevealedGlyph<G>>)
        ensures
            r@ == self.spec_revealed(),
    {
        &self.revealed
    }

    /// Advances the introduction by one frame, given what the printer did:
    /// whether it cleared its window this frame, and the event it reported.
    ///
    /// A clear is applied ahead of the event, so a glyph revealed on the same
    /// frame survives the clear it follows. A finished page turns to the next
    /// one with an empty box, and the result names the page the printer must
    /// restart on; finishing the last page finishes the scene. Once the scene
    /// is finished, every later frame leaves it unchanged and reports
    /// [`IntroStatus::Finished`].
    pub fn tick(&mut self, cleared_window: bool, event: TickEvent<G>) -> (r: IntroTick)
        requires
            old(self).wf(),
            !old(self).spec_finished() ==> (event matches TickEvent::Scrolling { dy } ==> scroll_fits(
                if cleared_window {
                    Seq::<RevealedGlyph<G>>::empty()
                } else {
                    old(self).spec_revealed()
                },
                dy,
            )),
        ensures
            final(self).wf(),
            (final(self).spec_page_index(), final(self).spec_finished()) == page_after(
                old(self).spec_page_index(),
                old(self).spec_finished(),
                event is Finished,
            ),
            final(self).spec_page_index() == old(self).spec_page_index()
                || final(self).spec_page_index() == old(self).spec_page_index() + 1,
            !old(self).spec_finished() ==> (event matches TickEvent::Scrolling { dy } ==> {
                let kept = if cleared_window {
                    Seq::<RevealedGlyph<G>>::empty()
                } else {
                    old(self).spec_revealed()
                };
                &&& final(self).spec_revealed().len() == kept.len()
                &&& forall|j: int|
                    0 <= j < kept.len() ==> (#[trigger] final(self).spec_revealed()[j]).glyph
                        == kept[j].glyph && final(self).spec_revealed()[j].y == kept[j].y - dy
            }),
            final(self).spec_page_index() != old(self).spec_page_index()
                ==> final(self).spec_revealed().len() == 0,
            r.status == IntroStatus::Finished ==> final(self).spec_page_index() == NUM_PAGES - 1,
            r.status == (if final(self).spec_finished() {
                IntroStatus::Finished
            } else {
                IntroStatus::Continue
            }),
            old(self).spec_finished() ==> {
                &&& final(self).spec_finished()
                &&& final(self).spec_page_index() == old(self).spec_page_index()
                &&& final(self).spec_revealed() == old(self).spec_revealed()
                &&& r.restart_page is None
            },
            !old(self).spec_finished() ==> {
                let kept = if cleared_window {
                    Seq::<RevealedGlyph<G>>::empty()
                } else {
                    old(self).spec_revealed()
                };
                if event is Finished {
                    if old(self).spec_page_index() + 1 < NUM_PAGES {
                        &&& final(self).spec_page_index() == old(self).spec_page_index() + 1
                        &&& final(self).spec_revealed() == Seq::<RevealedGlyph<G>>::empty()
                        &&& !final(self).spec_finished()
                        &&& r.restart_page == Some((old(self).spec_page_index() + 1) as usize)
                    } else {
                        &&& final(self).spec_page_index() == old(self).spec_page_index()
                        &&& final(self).spec_revealed() == kept
                        &&& final(self).spec_finished()
                        &&& r.restart_page is None
                    }
                } else {
                    &&& final(self).spec_page_index() == old(self).spec_page_index()
                    &&& final(self).spec_revealed() == glyphs_after(kept, event)
                    &&& !final(self).spec_finished()
                    &&& r.restart_page is None
                }
            },
    {
        if self.finished {
            return IntroTick { status: IntroStatus::Finished, restart_page: None };
        }
        if cleared_window {
            self.revealed = Vec::new();
        }
        let mut restart_page: Option<usize> = None;
        match event {
            TickEvent::Glyph(g) => {
                self.revealed.push(g);
            },
            TickEvent::Scrolling { dy } => {
                let ghost before = self.revealed@;
                let ghost page = self.page_index;
                let mut i: usize = 0;
                while i < self.revealed.len()
                    invariant
                        self.page_index == page,
                        page < NUM_PAGES,
                        !self.finished,
                        self.revealed@.len() == before.len(),
                        i <= before.len(),
                        scroll_fits(before, dy),
                        forall|j: int|
                            0 <= j < before.len() ==> #[trigger] self.revealed@[j] == if j < i {
                                RevealedGlyph { glyph: before[j].glyph, y: (before[j].y - dy) as i32 }
                            } else {
                                before[j]
                            },
                    decreases before.len() - i,
                {
                    let g = self.revealed[i];
                    assert(i32::MIN <= before[i as int].y - dy <= i32::MAX);
                    self.revealed.set(i, RevealedGlyph { glyph: g.glyph, y: g.y - dy });
                    i = i + 1;
                }
                assert(self.revealed@ =~= glyphs_after(before, event));
            },
            TickEvent::Finished => {
                restart_page = self.advance_page();
            },
            _ => {},
        }
        let status = if self.finished {
            IntroStatus::Finished
        } else {
            IntroStatus::Continue
        };
        IntroTick { status, restart_page }
    }

    fn advance_page(&mut self) -> (r: Option<usize>)
        requires
            old(self).wf(),
            !old(self).spec_finished(),
        ensures
            final(self).wf(),
            if old(self).spec_page_index() + 1 < NUM_PAGES {
                &&& final(self).spec_page_index() == old(self).spec_page_index() + 1
                &&& final(self).spec_revealed() == Seq::<RevealedGlyph<G>>::empty()
                &&& !final(self).spec_finished()
                &&& r == Some((old(self).spec_page_index() + 1) as usize)
            } else {
                &&& final(self).spec_page_index() == old(self).spec_page_index()
                &&& final(self).spec_revealed() == old(self).spec_revealed()
                &&& final(self).spec_finished()
                &&& r is None
            },
    {
        if self.page_index + 1 < NUM_PAGES {
            self.page_index = self.page_index + 1;
            self.revealed = Vec::new();
            Some(self.page_index)
        } else {
            self.finished = true;
            None
        }
    }
}

/// Page one of the speech.
pub const WELCOME: &'static str = "Hi! Sorry to keep you waiting!{P}Welcome to the world of POKéMON!{P}My name is BIRCH.{P}But everyone calls me the POKéMON\nPROFESSOR.{P}";

/// Page two of the speech: it pauses for 96 frames before its page break.
pub const THIS_IS_A_POKEMON: &'static str = "This is what we call a “POKéMON.”{PAUSE 96}{P}";

/// Page three of the speech.
pub const MAIN_SPEECH: &'static str = "This world is widely inhabited by\ncreatures known as POKéMON.{P}We humans live alongside POKéMON,\nat times as friendly playmates, and{L}at times as cooperative workmates.{P}And sometimes, we band together\nand battle others like us.{P}But despite our closeness, we don't\nknow everything about POKéMON.{P}In fact, there are many, many\nsecrets surrounding POKéMON.{P}To unravel POKéMON mysteries,\nI've been undertaking research.{L}That's what I do.{P}";

/// Page four of the speech: its `{P}` keeps the hold before the player's
/// introduction.
pub const AND_YOU_ARE: &'static str = "And you are?{P}";

/// Page five of the speech: its `{P}` keeps the wait before the name choice.
pub const WHATS_YOUR_NAME: &'static str = "All right.\nWhat's your name?{P}";

/// Page eight of the speech.
pub const ARE_YOU_READY: &'static str = "All right, are you ready?{P}Your very own adventure is about\nto unfold.{P}Take courage, and leap into the\nworld of POKéMON where dreams,{L}adventure, and friendships await!{P}Well, I'll be expecting you later.\nCome see me in my POKéMON LAB.{P}";

/// The text of page `index` of the speech, in display order, for a player
/// named `player_name`.
pub open spec fn spec_speech_page(index: nat, player_name: Seq<char>) -> Seq<char> {
    if index == 0 {
        WELCOME@
    } else if index == 1 {
        THIS_IS_A_POKEMON@
    } else if index == 2 {
        MAIN_SPEECH@
    } else if index == 3 {
        AND_YOU_ARE@
    } else if index == 4 {
        WHATS_YOUR_NAME@
    } else if index == 5 {
        "So it's "@ + player_name + "?{P}"@
    } else if index == 6 {
        "Ah, okay!{P}You're "@ + player_name
            + " who's moving to my\nhometown of LITTLEROOT.{L}I get it now!{P}"@
    } else {
        ARE_YOU_READY@
    }
}

/// Page six of the speech for a player named `player_name`.
pub open spec fn so_its_player_text(player_name: Seq<char>) -> Seq<char> {
    "So it's "@ + player_name + "?{P}"@
}

/// Page seven of the speech for a player named `player_name`.
pub open spec fn youre_player_text(player_name: Seq<char>) -> Seq<char> {
    "Ah, okay!{P}You're "@ + player_name
        + " who's moving to my\nhometown of LITTLEROOT.{L}I get it now!{P}"@
}

/// The speech reads its authored pages in order: welcome, the first
/// POKéMON, the main speech, the question, the name prompt, the two pages
/// that name the player, and the send-off.
pub proof fn lemma_speech_pages_are_the_authored_pages(player_name: Seq<char>)
    ensures
        spec_speech_page(0, player_name) == WELCOME@,
        spec_speech_page(1, player_name) == THIS_IS_A_POKEMON@,
        spec_speech_page(2, player_name) == MAIN_SPEECH@,
        spec_speech_page(3, player_name) == AND_YOU_ARE@,
        spec_speech_page(4, player_name) == WHATS_YOUR_NAME@,
        spec_speech_page(5, player_name) == so_its_player_text(player_name),
        spec_speech_page(6, player_name) == youre_player_text(player_name),
        spec_speech_page(7, player_name) == ARE_YOU_READY@,
{
}

/// The text of page `index` of the speech, with the authored page, scroll
/// and pause markers still in it.
pub fn speech_page(index: usize, player_name: &str) -> (r: String)
    requires
        index < NUM_PAGES,
    ensures
        r@ == spec_speech_page(index as nat, player_name@),
        index == 0 ==> r@ == WELCOME@,
        index == 1 ==> r@ == THIS_IS_A_POKEMON@,
        index == 2 ==> r@ == MAIN_SPEECH@,
        index == 3 ==> r@ == AND_YOU_ARE@,
        index == 4 ==> r@ == WHATS_YOUR_NAME@,
        index == 5 ==> r@ == so_its_player_text(player_name@),
        index == 6 ==> r@ == youre_player_text(player_name@),
        index == 7 ==> r@ == ARE_YOU_READY@,
{
    match index {
        0 => String::from_str(WELCOME),
        1 => String::from_str(THIS_IS_A_POKEMON),
        2 => String::from_str(MAIN_SPEECH),
        3 => String::from_str(AND_YOU_ARE),
        4 => String::from_str(WHATS_YOUR_NAME),
        5 => so_its_player(player_name),
        6 => youre_player(player_name),
        _ => String::from_str(ARE_YOU_READY),
    }
}

/// Page six of the speech, with the player's fixed name baked in.
pub fn so_its_player(player_name: &str) -> (r: String)
    ensures
        r@ == "So it's "@ + player_name@ + "?{P}"@,
{
    let mut text = String::from_str("So it's ");
    text.append(player_name);
    text.append("?{P}");
    text
}

/// Page seven of the speech, with the player's fixed name baked in.
pub fn youre_player(player_name: &str) -> (r: String)
    ensures
        r@ == "Ah, okay!{P}You're "@ + player_name@
            + " who's moving to my\nhometown of LITTLEROOT.{L}I get it now!{P}"@,
{
    let mut text = String::from_str("Ah, okay!{P}You're ");
    text.append(player_name);
    text.append(" who's moving to my\nhometown of LITTLEROOT.{L}I get it now!{P}");
    text
}

} // verus!
