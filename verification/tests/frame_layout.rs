use tui_scene::layout::{debug_frame, percent_height, Flags, FrameLayout, Region, PRIMARY_PERCENT};

fn region(x: u16, y: u16, width: u16, height: u16) -> Region {
    Region {
        x,
        y,
        width,
        height,
    }
}

#[test]
fn flags_default_hides_overlay() {
    let flags = Flags::default();
    assert!(!flags.debug);
}

#[test]
fn inner_shrinks_by_border() {
    assert_eq!(region(0, 0, 80, 24).inner(), region(1, 1, 78, 22));
    assert_eq!(region(5, 7, 10, 4).inner(), region(6, 8, 8, 2));
}

#[test]
fn inner_of_degenerate_regions() {
    assert_eq!(region(3, 4, 0, 0).inner(), region(3, 4, 0, 0));
    assert_eq!(region(3, 4, 1, 1).inner(), region(4, 5, 0, 0));
    assert_eq!(region(3, 4, 2, 2).inner(), region(4, 5, 0, 0));
    assert_eq!(region(3, 4, 0, 5).inner(), region(3, 5, 0, 3));
}

#[test]
fn percent_height_rounds_to_nearest() {
    assert_eq!(percent_height(0, 66), 0);
    assert_eq!(percent_height(100, 66), 66);
    assert_eq!(percent_height(24, 66), 16);
    assert_eq!(percent_height(25, 66), 17);
    assert_eq!(percent_height(1, 66), 1);
    assert_eq!(percent_height(10, 50), 5);
    assert_eq!(percent_height(3, 50), 2);
}

#[test]
fn debug_off_uses_whole_frame() {
    let flags = Flags { debug: false };
    let layout = debug_frame(region(0, 0, 80, 24), &flags);
    assert_eq!(
        layout,
        FrameLayout {
            frame: region(0, 0, 80, 24),
            primary: region(1, 1, 78, 22),
            secondary: None,
        }
    );
}

#[test]
fn debug_on_splits_frame() {
    let flags = Flags { debug: true };
    let layout = debug_frame(region(0, 0, 80, 24), &flags);
    // 66 percent of 24 rows rounds to 16; the bordered top region keeps
    // its interior for the camera view, the last 8 rows hold the log.
    assert_eq!(
        layout,
        FrameLayout {
            frame: region(0, 0, 80, 16),
            primary: region(1, 1, 78, 14),
            secondary: Some(region(0, 16, 80, 8)),
        }
    );
}

#[test]
fn debug_on_tiny_frame() {
    let flags = Flags { debug: true };
    let layout = debug_frame(region(0, 0, 1, 1), &flags);
    assert_eq!(
        layout,
        FrameLayout {
            frame: region(0, 0, 1, 1),
            primary: region(1, 1, 0, 0),
            secondary: Some(region(0, 1, 1, 0)),
        }
    );
}

#[test]
fn inner_matches_terminal_library_block() {
    let block = ratatui::widgets::Block::bordered();
    for &(x, y, w, h) in &[
        (0u16, 0u16, 80u16, 24u16),
        (2, 3, 5, 9),
        (0, 0, 0, 0),
        (1, 1, 1, 1),
        (4, 4, 2, 2),
        (10, 20, 0, 7),
        (10, 20, 7, 0),
        (100, 200, 300, 400),
    ] {
        let ours = region(x, y, w, h).inner();
        let theirs = block.inner(ratatui::layout::Rect::new(x, y, w, h));
        assert_eq!((ours.x, ours.y, ours.width, ours.height), (theirs.x, theirs.y, theirs.width, theirs.height));
    }
}

#[test]
fn split_matches_terminal_library_layout() {
    let layout = ratatui::layout::Layout::new(
        ratatui::layout::Direction::Vertical,
        [
            ratatui::layout::Constraint::Percentage(PRIMARY_PERCENT),
            ratatui::layout::Constraint::Fill(1),
        ],
    );
    for h in 0..300u16 {
        let area = ratatui::layout::Rect::new(0, 2, 10, h);
        let split = layout.split(area);
        let ours = percent_height(h, PRIMARY_PERCENT);
        assert_eq!(split[0], ratatui::layout::Rect::new(0, 2, 10, ours), "height {h}");
        assert_eq!(
            split[1],
            ratatui::layout::Rect::new(0, 2 + ours, 10, h - ours),
            "height {h}"
        );
    }
}
