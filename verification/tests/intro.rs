use pokeemerald_rs::intro::{
    advances_automatically, normalized_text_speed, so_its_player, speech_page, traversal_frame_count,
    traversal_frames, traversal_runs, waits_for_confirmation, youre_player, IntroScene,
    IntroSceneError, IntroStatus, PackError, RevealedGlyph, TickEvent, TraversalRun, NUM_PAGES,
};

fn glyph(id: u32, y: i32) -> TickEvent<u32> {
    TickEvent::Glyph(RevealedGlyph { glyph: id, y })
}

/// Reads one page: a glyph, then the page's end.
fn read_page(scene: &mut IntroScene<u32>) -> (IntroStatus, Option<usize>) {
    scene.tick(false, glyph(1, 0));
    let tick = scene.tick(false, TickEvent::Finished);
    (tick.status, tick.restart_page)
}

fn finished_scene() -> IntroScene<u32> {
    let mut scene = IntroScene::new();
    for _ in 0..NUM_PAGES {
        read_page(&mut scene);
    }
    scene
}

#[test]
fn starts_on_the_first_page_not_finished() {
    let scene: IntroScene<u32> = IntroScene::new();
    assert_eq!(scene.page_index(), 0);
    assert!(!scene.is_finished());
    assert_eq!(scene.revealed_glyph_count(), 0);
}

#[test]
fn a_glyph_reveals_on_the_tick_the_printer_reports_it() {
    let mut scene = IntroScene::new();
    let tick = scene.tick(false, glyph(7, 3));
    assert_eq!(tick.status, IntroStatus::Continue);
    assert_eq!(tick.restart_page, None);
    assert_eq!(scene.revealed_glyph_count(), 1);
    assert_eq!(scene.revealed()[0], RevealedGlyph { glyph: 7, y: 3 });
}

#[test]
fn a_same_tick_glyph_survives_the_clear_it_follows() {
    let mut scene = IntroScene::new();
    scene.tick(false, glyph(1, 0));
    scene.tick(false, glyph(2, 0));
    scene.tick(true, glyph(3, 0));
    assert_eq!(scene.revealed_glyph_count(), 1);
    assert_eq!(scene.revealed()[0].glyph, 3);
}

#[test]
fn scrolling_moves_every_revealed_glyph_up() {
    let mut scene = IntroScene::new();
    scene.tick(false, glyph(1, 16));
    scene.tick(false, glyph(2, 32));
    scene.tick(false, TickEvent::Scrolling { dy: 2 });
    let ys: Vec<i32> = scene.revealed().iter().map(|g| g.y).collect();
    assert_eq!(ys, vec![14, 30]);
}

#[test]
fn a_page_break_clears_the_revealed_glyph_accumulator() {
    let mut scene = IntroScene::new();
    scene.tick(false, glyph(1, 0));
    let tick = scene.tick(false, TickEvent::Finished);
    assert_eq!(tick.status, IntroStatus::Continue);
    assert_eq!(tick.restart_page, Some(1), "the printer restarts on the next page");
    assert_eq!(scene.page_index(), 1);
    assert_eq!(scene.revealed_glyph_count(), 0);
}

#[test]
fn waiting_events_change_nothing() {
    let mut scene = IntroScene::new();
    scene.tick(false, glyph(1, 0));
    for event in [
        TickEvent::Idle,
        TickEvent::Cleared,
        TickEvent::AwaitingScroll,
        TickEvent::ScrollStarted,
        TickEvent::ScrollFinished,
        TickEvent::AwaitingClear,
        TickEvent::AwaitingPress,
        TickEvent::PressAccepted,
        TickEvent::Paused,
        TickEvent::PauseFinished,
    ] {
        let tick = scene.tick(false, event);
        assert_eq!(tick.status, IntroStatus::Continue);
        assert_eq!(tick.restart_page, None);
    }
    assert_eq!(scene.revealed_glyph_count(), 1);
    assert_eq!(scene.page_index(), 0);
}

#[test]
fn confirming_every_frame_advances_through_every_page_to_the_overworld_handoff() {
    let mut scene = IntroScene::new();
    let mut seen_pages = std::collections::BTreeSet::new();
    seen_pages.insert(scene.page_index());
    let mut status = IntroStatus::Continue;
    for _ in 0..NUM_PAGES {
        status = read_page(&mut scene).0;
        seen_pages.insert(scene.page_index());
    }
    assert_eq!(status, IntroStatus::Finished);
    assert!(scene.is_finished());
    assert_eq!(scene.page_index(), NUM_PAGES - 1);
    assert_eq!(seen_pages, (0..NUM_PAGES).collect());
}

#[test]
fn once_finished_every_further_tick_stays_finished() {
    let mut scene = finished_scene();
    assert!(scene.is_finished());
    for _ in 0..5 {
        assert_eq!(scene.tick(false, glyph(9, 0)).status, IntroStatus::Finished);
        assert!(scene.is_finished());
    }
}

/// The printer-derived timing for a full read at the mid text speed without
/// held input, written out run by run.
fn pinned_table() -> Vec<TraversalRun> {
    vec![
    waits_for_confirmation(121),
    waits_for_confirmation(132),
    waits_for_confirmation(72),
    waits_for_confirmation(179),
    advances_automatically(4),
    waits_for_confirmation(230),
    advances_automatically(4),
    waits_for_confirmation(244),
    waits_for_confirmation(279),
    advances_automatically(9),
    waits_for_confirmation(140),
    waits_for_confirmation(235),
    waits_for_confirmation(267),
    waits_for_confirmation(235),
    waits_for_confirmation(247),
    advances_automatically(9),
    waits_for_confirmation(72),
    advances_automatically(4),
    waits_for_confirmation(49),
    advances_automatically(4),
    waits_for_confirmation(112),
    advances_automatically(4),
    waits_for_confirmation(49),
    advances_automatically(4),
    waits_for_confirmation(37),
    waits_for_confirmation(215),
    advances_automatically(9),
    waits_for_confirmation(56),
    advances_automatically(4),
    waits_for_confirmation(101),
    waits_for_confirmation(175),
    waits_for_confirmation(251),
    advances_automatically(9),
    waits_for_confirmation(136),
    waits_for_confirmation(263),
    advances_automatically(4),
    ]
}

/// The runs are pinned against the written-out table above. Deriving them
/// afresh means reading every page through the engine's text printer, which
/// this crate does not link, so this checks the table as written, not the
/// printer's timing.
#[test]
fn traversal_runs_match_the_pinned_table() {
    assert_eq!(traversal_runs(), pinned_table());
    assert_eq!(
        traversal_runs()[0],
        TraversalRun {
            frames: 121,
            confirm_after: true
        }
    );
}

#[test]
fn traversal_frames_totals_the_table() {
    let total: usize = traversal_runs()
        .iter()
        .map(|run| run.frames as usize + usize::from(run.confirm_after))
        .sum();
    assert_eq!(traversal_frame_count(), total);
    assert_eq!(traversal_frames(&traversal_runs()), total);
}

#[test]
fn traversal_frames_counts_each_confirmation_frame() {
    let runs = [waits_for_confirmation(10), advances_automatically(5)];
    assert_eq!(traversal_frames(&runs), 16);
    assert_eq!(traversal_frames(&[]), 0);
}

#[test]
fn an_out_of_range_text_speed_is_repaired_to_mid() {
    assert_eq!(normalized_text_speed(0), 0);
    assert_eq!(normalized_text_speed(1), 1);
    assert_eq!(normalized_text_speed(2), 2);
    assert_eq!(normalized_text_speed(3), 1);
    assert_eq!(normalized_text_speed(u8::MAX), 1);
}

#[test]
fn only_a_missing_pack_counts_as_missing() {
    assert!(IntroSceneError::Pack(PackError::NotFound("pokeemerald.pack".to_string())).is_pack_missing());
    assert!(!IntroSceneError::Pack(PackError::Invalid("no message box".to_string())).is_pack_missing());
    assert!(!IntroSceneError::Font("bad sheet".to_string()).is_pack_missing());
}

#[test]
fn name_pages_bake_in_the_fixed_default_name() {
    assert_eq!(so_its_player("MAY"), "So it's MAY?{P}");
    let page = youre_player("MAY");
    assert!(page.starts_with("Ah, okay!{P}You're MAY who's moving"));
    assert!(page.ends_with("I get it now!{P}"));
}

#[test]
fn a_finished_scene_stays_finished_for_every_event() {
    let mut scene = finished_scene();
    assert!(scene.is_finished());
    assert_eq!(scene.page_index(), NUM_PAGES - 1);
    let glyphs = scene.revealed_glyph_count();
    for event in [
        TickEvent::Scrolling { dy: i32::MIN },
        TickEvent::Scrolling { dy: i32::MAX },
        TickEvent::Finished,
        glyph(9, 0),
        TickEvent::Cleared,
    ] {
        let tick = scene.tick(true, event);
        assert_eq!(tick.status, IntroStatus::Finished);
        assert_eq!(tick.restart_page, None);
        assert!(scene.is_finished());
        assert_eq!(scene.page_index(), NUM_PAGES - 1);
        assert_eq!(scene.revealed_glyph_count(), glyphs);
    }
}

#[test]
fn the_speech_reads_its_eight_pages_in_order() {
    assert_eq!(
        speech_page(0, "BRENDAN"),
        "Hi! Sorry to keep you waiting!{P}Welcome to the world of POKéMON!{P}My name is BIRCH.{P}But everyone calls me the POKéMON\nPROFESSOR.{P}"
    );
    assert_eq!(speech_page(1, "BRENDAN"), "This is what we call a “POKéMON.”{PAUSE 96}{P}");
    assert_eq!(speech_page(3, "BRENDAN"), "And you are?{P}");
    assert_eq!(speech_page(4, "BRENDAN"), "All right.\nWhat's your name?{P}");
    assert_eq!(speech_page(5, "BRENDAN"), so_its_player("BRENDAN"));
    assert_eq!(speech_page(5, "BRENDAN"), "So it's BRENDAN?{P}");
    assert_eq!(speech_page(6, "MAY"), youre_player("MAY"));
    assert!(speech_page(2, "MAY").ends_with("That's what I do.{P}"));
    assert!(speech_page(7, "MAY").starts_with("All right, are you ready?{P}"));
    for page in 0..NUM_PAGES {
        assert!(speech_page(page, "MAY").ends_with("{P}"));
    }
}
