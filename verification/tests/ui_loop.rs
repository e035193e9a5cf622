use rue::address::IpAddress;
use rue::app::Page;
use rue::bridge::Bridge;
use rue::event::events::{events_after_poll, IoEvent};
use rue::event::key::Key;
use rue::ui::layout::{main_layout, ScreenRect};
use rue::ui::{needs_bridge_discovery, next_control, screen_for, LoopControl, Screen};

#[test]
fn every_key_press_quits() {
    assert_eq!(next_control(&IoEvent::Input(Key::Char('q'))), LoopControl::Quit);
    assert_eq!(next_control(&IoEvent::Input(Key::Ctrl('c'))), LoopControl::Quit);
    assert_eq!(next_control(&IoEvent::Input(Key::Char('x'))), LoopControl::Quit);
    assert_eq!(next_control(&IoEvent::Tick), LoopControl::Continue);
}

#[test]
fn poll_reports_key_then_tick() {
    assert_eq!(events_after_poll(Some(Key::Char('a'))), vec![IoEvent::Input(Key::Char('a')), IoEvent::Tick]);
    assert_eq!(events_after_poll(None), vec![IoEvent::Tick]);
}

#[test]
fn screens_follow_pages() {
    assert_eq!(screen_for(&Page::Search), Screen::LookingForBridges);
    assert_eq!(screen_for(&Page::Rooms), Screen::Blank);
    assert_eq!(screen_for(&Page::Lights), Screen::Blank);
    let bridges = vec![Bridge::new(IpAddress::V4(1)), Bridge::new(IpAddress::V6(2))];
    assert_eq!(screen_for(&Page::Discovery(bridges.clone())), Screen::Discovery(bridges));
}

#[test]
fn only_the_search_page_starts_discovery() {
    assert!(needs_bridge_discovery(&Page::Search));
    assert!(!needs_bridge_discovery(&Page::Rooms));
    assert!(!needs_bridge_discovery(&Page::Discovery(vec![])));
}

#[test]
fn layout_stacks_the_rows() {
    let rows = main_layout(ScreenRect { x: 0, y: 0, width: 80, height: 40 });
    let heights: Vec<u16> = rows.iter().map(|r| r.height).collect();
    let tops: Vec<u16> = rows.iter().map(|r| r.y).collect();
    assert_eq!(heights, vec![15, 3, 5, 5]);
    assert_eq!(tops, vec![0, 15, 18, 23]);
    assert!(rows.iter().all(|r| r.x == 0 && r.width == 80));
}

#[test]
fn layout_keeps_the_area_offset() {
    let rows = main_layout(ScreenRect { x: 2, y: 1, width: 10, height: 28 });
    assert_eq!(rows[0], ScreenRect { x: 2, y: 1, width: 10, height: 15 });
    assert_eq!(rows[1], ScreenRect { x: 2, y: 16, width: 10, height: 3 });
}

#[test]
fn every_input_of_a_stream_is_followed_by_a_tick() {
    let mut stream = Vec::new();
    for pressed in [Some(Key::Char('a')), None, Some(Key::Unknown), None] {
        stream.extend(events_after_poll(pressed));
    }
    for (i, e) in stream.iter().enumerate() {
        if matches!(e, IoEvent::Input(_)) {
            assert_eq!(stream[i + 1], IoEvent::Tick);
        }
    }
    assert_eq!(stream.iter().filter(|e| **e == IoEvent::Tick).count(), 4);
}

#[test]
fn small_area_rows_stay_inside_and_in_order() {
    let area = ScreenRect { x: 1, y: 3, width: 7, height: 13 };
    let rows = main_layout(area);
    assert_eq!(rows.len(), 4);
    for r in &rows {
        assert!(r.x == 1 && r.width == 7 && r.y >= 3 && r.y + r.height <= 16);
    }
    for w in rows.windows(2) {
        assert!(w[0].y + w[0].height <= w[1].y);
    }
}

#[test]
fn layout_near_the_bottom_of_the_screen() {
    let rows = main_layout(ScreenRect { x: 0, y: 65000, width: 4, height: 100 });
    assert_eq!(rows[3], ScreenRect { x: 0, y: 65023, width: 4, height: 5 });
}

#[test]
fn layout_of_exactly_fitting_area() {
    let rows = main_layout(ScreenRect { x: 5, y: 2, width: 9, height: 28 });
    assert_eq!(
        rows,
        vec![
            ScreenRect { x: 5, y: 2, width: 9, height: 15 },
            ScreenRect { x: 5, y: 17, width: 9, height: 3 },
            ScreenRect { x: 5, y: 20, width: 9, height: 5 },
            ScreenRect { x: 5, y: 25, width: 9, height: 5 },
        ]
    );
}
