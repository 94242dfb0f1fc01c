use focus_tabs::geometry::{Border, BorderColor, Pos, Rect};
use focus_tabs::popup::Finished;
use focus_tabs::render::RenderAction;
use focus_tabs::tab::TabData;

type Tab = TabData<i32, u8>;
type Action = RenderAction<i32, u8>;

fn row() -> Vec<(String, Rect)> {
    vec![("A".to_string(), Rect::new(0, 0, 10, 3)), ("B".to_string(), Rect::new(10, 0, 10, 3))]
}

/// One drawing pass, as a driver runs it. Counts the widgets drawn.
fn pass(tab: &mut Tab, areas: &Vec<(String, Rect)>) -> usize {
    let mut drawn = 0;
    loop {
        match tab.entry_render() {
            RenderAction::Drained(_) => continue,
            RenderAction::Popup => break,
            RenderAction::Own => {
                tab.set_map(areas);
                tab.validate_pos();
                drawn += tab.render(areas).len();
                break;
            }
        }
    }
    tab.end_render();
    drawn
}

#[test]
fn tab_without_popup_draws_itself() {
    let mut tab = Tab::new();
    tab.cursor = Pos::new(30, 30);
    assert_eq!(tab.entry_render(), Action::Own);
    assert_eq!(pass(&mut tab, &row()), 2);
    assert_eq!(tab.cursor, Pos::new(5, 1));
    assert_eq!(tab.area_map.len(), 2);
}

#[test]
fn tab_with_popup_draws_none_of_its_widgets() {
    let mut tab = Tab::new();
    tab.cursor = Pos::new(50, 50);
    tab.set_popup(Tab::new());
    assert_eq!(tab.entry_render(), Action::Popup);
    assert_eq!(pass(&mut tab, &row()), 0);
    assert!(tab.render(&row()).is_empty());
    assert_eq!(tab.cursor, Pos::new(50, 50));
    assert!(tab.area_map.is_empty());
    assert!(tab.pop_up().is_some());
}

#[test]
fn finished_popup_is_drained_and_the_tab_draws_in_the_same_pass() {
    let mut tab = Tab::new();
    tab.set_popup(Tab::new());
    tab.popup.as_mut().unwrap().resolve_tab(42);
    assert_eq!(tab.entry_render(), Action::Drained(Finished::Resolved { value: 42, observer: None }));
    assert!(tab.pop_up().is_none());
    assert_eq!(tab.entry_render(), Action::Own);

    let mut tab = Tab::new();
    tab.set_popup(Tab::new());
    tab.popup.as_mut().unwrap().exit_tab();
    assert_eq!(pass(&mut tab, &row()), 2);
    assert!(tab.pop_up().is_none());
}

#[test]
fn frames_follow_the_focus() {
    let mut tab = Tab::new();
    tab.cursor = Pos::new(12, 1);
    let frames = tab.render(&row());
    assert_eq!(
        frames,
        vec![
            Border { color: BorderColor::White, drawn: true, inner: Rect::new(1, 1, 8, 1) },
            Border { color: BorderColor::Black, drawn: true, inner: Rect::new(11, 1, 8, 1) },
        ]
    );
    tab.is_selected = true;
    let frames = tab.render(&row());
    assert_eq!(frames[0].color, BorderColor::White);
    assert_eq!(frames[1].color, BorderColor::Red);
}

#[test]
fn every_declared_widget_gets_a_frame() {
    let tab = Tab::new();
    let areas = vec![
        ("a".to_string(), Rect::new(0, 0, 2, 2)),
        ("a".to_string(), Rect::new(2, 0, 5, 5)),
        ("b".to_string(), Rect::new(7, 0, 0, 0)),
    ];
    let frames = tab.render(&areas);
    assert_eq!(frames.len(), 3);
    assert_eq!(
        frames[0],
        Border { color: BorderColor::Black, drawn: false, inner: Rect::new(0, 0, 2, 2) }
    );
    assert_eq!(
        frames[1],
        Border { color: BorderColor::White, drawn: true, inner: Rect::new(3, 1, 3, 3) }
    );
    assert_eq!(
        frames[2],
        Border { color: BorderColor::White, drawn: false, inner: Rect::new(7, 0, 0, 0) }
    );
    assert!(tab.render(&Vec::new()).is_empty());
}

#[test]
fn pass_marks_the_first_pass_done() {
    let mut tab = Tab::new();
    assert!(!tab.first_pass);
    tab.entry_render();
    assert!(!tab.first_pass);
    tab.end_render();
    assert!(tab.first_pass);
    tab.end_render();
    assert!(tab.first_pass);
}

#[test]
fn pass_repairs_the_cursor_after_the_areas_changed() {
    let mut tab = Tab::new();
    pass(&mut tab, &row());
    tab.cursor = Pos::new(15, 2);
    let narrow = vec![("A".to_string(), Rect::new(0, 0, 8, 3))];
    pass(&mut tab, &narrow);
    assert_eq!(tab.cursor, Pos::new(4, 1));
    assert_eq!(tab.area_map.len(), 1);
}
