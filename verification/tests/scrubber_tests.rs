use std::sync::Arc;

use pg_lens_tui::app::Replay;
use pg_lens_tui::snapshot::Snapshot;
use pg_lens_tui::ui::scrubber::scrubber_line;

fn frame(uptime_secs: u64) -> Arc<Snapshot> {
    let mut s = Snapshot::empty();
    s.uptime_secs = uptime_secs;
    Arc::new(s)
}

#[test]
fn scrubber_builds_line_with_correct_progress_and_badges() {
    let replay = Replay {
        frames: vec![frame(1000), frame(1015), frame(1030)],
        current_idx: 1,
        is_paused: true,
        loop_playback: true,
        speed_exp: 0,
    };
    // Frame 2 of 3 is 50% of the way: 12 of the 24 cells at 140 columns.
    let rendered = scrubber_line(&replay, 140, 12, " 50");
    assert!(rendered.contains("REPLAY"));
    assert!(rendered.contains("PAUSED"));
    assert!(rendered.contains("1.00x"));
    assert!(rendered.contains("LOOP"));
    assert!(rendered.contains("50%"));
    assert!(rendered.contains("Frame 2/3 (+15s)"));
    assert!(rendered.contains("Space: play"));
    assert!(rendered.contains("\u{2190}/\u{2192}: scrub"));
    assert!(rendered.contains("[/]: speed"));
    assert!(rendered.contains("l: loop"));
    assert!(rendered.contains(&format!("[{}{}]", "\u{2588}".repeat(12), "\u{2591}".repeat(12))));
}

#[test]
fn scrubber_adapts_to_narrow_terminal() {
    let replay = Replay { frames: vec![frame(0)], current_idx: 0, is_paused: false, loop_playback: false, speed_exp: 1 };
    let rendered = scrubber_line(&replay, 80, 8, "100");
    assert!(rendered.contains("PLAY"));
    assert!(rendered.contains("2.00x"));
    assert!(rendered.contains("100%"));
    assert!(rendered.contains("Frame 1/1 (+0s)"));
    assert!(!rendered.contains("Space: play"));
}

#[test]
fn scrubber_exact_line_and_minute_format() {
    let replay = Replay {
        frames: vec![frame(100), frame(100 + 3 * 60 + 7)],
        current_idx: 1,
        is_paused: false,
        loop_playback: false,
        speed_exp: -2,
    };
    assert_eq!(
        scrubber_line(&replay, 95, 99, "100"),
        format!(
            " REPLAY  PLAY  0.25x [{}] 100% \u{2502} Frame 2/2 (+03:07)",
            "\u{2588}".repeat(16)
        )
    );
    assert_eq!(
        scrubber_line(&replay, 100, 0, "  0"),
        format!(
            " REPLAY  PLAY  0.25x [{}]   0% \u{2502} Frame 2/2 (+03:07) \u{2502} Space: play \u{2190}/\u{2192}: scrub",
            "\u{2591}".repeat(16)
        )
    );
}
