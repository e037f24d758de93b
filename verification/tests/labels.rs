use cockpit::PaneId;
use pane_tabs::app::{App, Area};
use pane_tabs::pane::{new_manager, PaneStatus};
use pane_tabs::profiles::Profile;
use pane_tabs::ui::{
    pane_title, selected_tab, split, state_label, tab_label, tab_titles, UiLayout, TAB_BAR_ROWS,
};
use std::collections::HashMap;

fn profile(name: &str) -> Profile {
    Profile {
        name: name.to_string(),
        command: None,
        args: Vec::new(),
        cwd: None,
        env: HashMap::new(),
        scrollback: Some(500),
    }
}

fn session(names: &[&str]) -> App {
    let launched = names
        .iter()
        .enumerate()
        .map(|(index, name)| (profile(name), new_manager(), PaneId(index as u64 + 1)))
        .collect();
    match App::new(launched) {
        Ok(app) => app,
        Err(_) => panic!("a session over {} profiles", names.len()),
    }
}

#[test]
fn every_status_has_its_word() {
    assert_eq!(state_label(&PaneStatus::Running), "running");
    assert_eq!(state_label(&PaneStatus::Exited { code: 0 }), "exited");
    assert_eq!(state_label(&PaneStatus::Exited { code: -1 }), "exited");
    assert_eq!(state_label(&PaneStatus::Crashed { reason: None }), "crashed");
    assert_eq!(
        state_label(&PaneStatus::Crashed { reason: Some("killed".to_string()) }),
        "crashed"
    );
    assert_eq!(state_label(&PaneStatus::Paused), "paused");
}

#[test]
fn label_holds_title_and_status_between_blanks() {
    assert_eq!(tab_label("build", Some(PaneStatus::Running)), " build [running] ");
    assert_eq!(tab_label("logs", Some(PaneStatus::Exited { code: 3 })), " logs [exited] ");
    assert_eq!(tab_label("db", Some(PaneStatus::Paused)), " db [paused] ");
    assert_eq!(
        tab_label("x", Some(PaneStatus::Crashed { reason: Some("boom".to_string()) })),
        " x [crashed] "
    );
    assert_eq!(tab_label("", Some(PaneStatus::Running)), "  [running] ");
}

#[test]
fn label_without_a_status_shows_crashed() {
    assert_eq!(tab_label("build", None), " build [crashed] ");
}

#[test]
fn label_keeps_titles_that_are_not_ascii() {
    assert_eq!(tab_label("\u{30b7}\u{30a7}\u{30eb}", Some(PaneStatus::Running)),
        " \u{30b7}\u{30a7}\u{30eb} [running] ");
}

#[test]
fn pane_title_is_the_title_between_blanks() {
    assert_eq!(pane_title("build"), " build ");
    assert_eq!(pane_title(""), "  ");
}

#[test]
fn tab_bar_has_one_label_per_tab_in_order() {
    let app = session(&["A", "B", "C"]);
    assert_eq!(tab_titles(&app), vec![" A [crashed] ", " B [crashed] ", " C [crashed] "]);
}

#[test]
fn tab_bar_of_a_session_without_tabs_is_empty() {
    let mut app = session(&["A"]);
    app.close_active_tab();
    assert!(tab_titles(&app).is_empty());
    assert_eq!(selected_tab(&app), None);
}

#[test]
fn selected_label_follows_the_active_tab() {
    let mut app = session(&["A", "B", "C"]);
    assert_eq!(selected_tab(&app), Some(0));
    app.next_tab();
    assert_eq!(selected_tab(&app), Some(1));
    app.prev_tab();
    app.prev_tab();
    assert_eq!(selected_tab(&app), Some(2));
}

#[test]
fn drawing_the_tab_bar_twice_gives_the_same_labels() {
    let app = session(&["A", "B"]);
    let first = tab_titles(&app);
    let second = tab_titles(&app);
    assert_eq!(first, second);
    assert_eq!(app.tabs().active(), 0);
    assert_eq!(app.tabs().len(), 2);
}

#[test]
fn split_puts_the_tab_bar_on_top_of_the_pane() {
    let layout = split(Area { x: 0, y: 0, width: 80, height: 24 });
    assert_eq!(
        layout,
        UiLayout {
            tab_area: Area { x: 0, y: 0, width: 80, height: 3 },
            pane_area: Area { x: 0, y: 3, width: 80, height: 21 },
        }
    );
    assert_eq!(layout.tab_area.height, TAB_BAR_ROWS);
}

#[test]
fn split_keeps_the_offset_of_the_screen() {
    let layout = split(Area { x: 2, y: 5, width: 10, height: 10 });
    assert_eq!(layout.tab_area, Area { x: 2, y: 5, width: 10, height: 3 });
    assert_eq!(layout.pane_area, Area { x: 2, y: 8, width: 10, height: 7 });
}

#[test]
fn split_strips_span_the_width_whatever_the_height() {
    for height in 0..8u16 {
        let area = Area { x: 4, y: 1, width: 33, height };
        let layout = split(area);
        assert_eq!(layout.tab_area.x, 4);
        assert_eq!(layout.tab_area.width, 33);
        assert_eq!(layout.pane_area.x, 4);
        assert_eq!(layout.pane_area.width, 33);
        assert_eq!(layout.tab_area.height + layout.pane_area.height, height);
    }
}

#[test]
fn pane_strip_of_a_split_screen_sizes_the_panes() {
    let mut app = session(&["A"]);
    let layout = split(Area { x: 0, y: 0, width: 80, height: 24 });
    assert_eq!(app.resize_all(layout.pane_area), Some((19, 78)));
    assert_eq!(app.resize_all(split(Area { x: 0, y: 0, width: 80, height: 24 }).pane_area), None);
    assert_eq!(app.resize_all(split(Area { x: 0, y: 0, width: 80, height: 5 }).pane_area), None);
}
