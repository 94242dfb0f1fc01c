use focus_tabs::popup::{Finished, PopUpState};
use focus_tabs::tab::TabData;
use std::cell::RefCell;
use std::rc::Rc;

type Observer = Box<dyn FnMut(&i32)>;
type Tab = TabData<i32, Observer>;

/// An observer that writes down what it is called with.
fn recorder(seen: &Rc<RefCell<Vec<i32>>>) -> Observer {
    let seen = Rc::clone(seen);
    Box::new(move |value: &i32| seen.borrow_mut().push(*value))
}

/// Resolves the popup of `parent` as a driver does: the observer that comes
/// back is called with the value that was stored.
fn resolve_child(parent: &mut Tab, value: i32) {
    let child = parent.popup.as_mut().unwrap();
    if let Some(mut observer) = child.resolve_tab(value) {
        if let PopUpState::Resolve(stored) = child.popup_state() {
            observer(stored);
        }
    }
}

/// Polls `parent` as a driver does: an observer that is still there is
/// called first, then the value goes to the handler.
fn poll_into(parent: &mut Tab, seen: &mut Vec<i32>) {
    if let Some(Finished::Resolved { value, observer }) = parent.check_popup_value() {
        if let Some(mut observer) = observer {
            observer(&value);
        }
        seen.push(value);
    }
}

#[test]
fn fresh_tab_is_running_and_alone() {
    let tab = Tab::new();
    assert_eq!(*tab.popup_state(), PopUpState::Continue);
    assert!(tab.pop_up().is_none());
    assert!(tab.proxy().is_none());
    assert!(tab.get_popup_value().is_none());
    assert!(!tab.should_exit());
    assert!(!tab.selected());
    assert!(!tab.first_pass);
    assert!(tab.state_modifier.is_none());
    assert!(tab.key_history.is_empty());
    assert!(tab.area_map.is_empty());
    assert_eq!(tab.cursor().x, 0);
    assert_eq!(tab.cursor().y, 0);
    let other = Tab::default();
    assert!(other.pop_up().is_none());
    assert_eq!(PopUpState::<i32>::default(), PopUpState::Continue);
}

#[test]
fn set_popup_installs_the_child() {
    let mut parent = Tab::new();
    let mut child = Tab::new();
    child.is_selected = true;
    parent.set_popup(child);
    assert!(parent.pop_up().is_some());
    assert!(parent.pop_up().unwrap().is_selected);
    assert!(parent.pop_up().unwrap().state_modifier.is_none());
    assert_eq!(parent.get_popup_value(), Some(&PopUpState::Continue));
}

#[test]
fn poll_without_popup_is_idle() {
    let mut tab = Tab::new();
    assert!(tab.check_popup_value().is_none());
    assert!(tab.pop_up().is_none());
}

#[test]
fn poll_of_a_running_popup_is_idle_and_keeps_it() {
    let mut parent = Tab::new();
    let mut child = Tab::new();
    child.insert_key(focus_tabs::keys::KeyCode::Enter);
    parent.set_popup(child);
    assert!(parent.check_popup_value().is_none());
    assert!(parent.pop_up().is_some());
    assert_eq!(parent.pop_up().unwrap().key_history.len(), 1);
    assert!(parent.check_popup_value().is_none());
    assert!(parent.pop_up().is_some());
}

#[test]
fn resolved_popup_is_delivered_once() {
    let mut parent = Tab::new();
    parent.set_popup(Tab::new());
    resolve_child(&mut parent, 42);
    assert_eq!(parent.get_popup_value(), Some(&PopUpState::Resolve(42)));
    let mut handled = Vec::new();
    poll_into(&mut parent, &mut handled);
    assert_eq!(handled, vec![42]);
    assert!(parent.pop_up().is_none());
    poll_into(&mut parent, &mut handled);
    assert_eq!(handled, vec![42]);
    assert!(parent.check_popup_value().is_none());
}

#[test]
fn popup_with_observer_resolves_with_42() {
    let observed = Rc::new(RefCell::new(Vec::new()));
    let mut handled = Vec::new();
    let mut parent = Tab::new();
    parent.set_popup_with_modifier(Tab::new(), recorder(&observed));
    assert!(parent.pop_up().unwrap().state_modifier.is_some());

    resolve_child(&mut parent, 42);
    poll_into(&mut parent, &mut handled);

    assert_eq!(*observed.borrow(), vec![42]);
    assert_eq!(handled, vec![42]);
    assert!(parent.pop_up().is_none());

    poll_into(&mut parent, &mut handled);
    assert_eq!(*observed.borrow(), vec![42]);
    assert_eq!(handled, vec![42]);
}

#[test]
fn resolve_hands_the_observer_out_once() {
    let observed = Rc::new(RefCell::new(Vec::new()));
    let mut tab = Tab::new();
    tab.state_modifier = Some(recorder(&observed));
    assert!(tab.resolve_tab(1).is_some());
    assert!(tab.state_modifier.is_none());
    assert_eq!(*tab.popup_state(), PopUpState::Resolve(1));
    assert!(tab.resolve_tab(2).is_none());
    assert_eq!(*tab.popup_state(), PopUpState::Resolve(2));
    assert!(!tab.should_exit());
}

#[test]
fn resolve_without_observer_hands_out_none() {
    let mut tab = Tab::new();
    assert!(tab.resolve_tab(7).is_none());
    assert_eq!(*tab.popup_state(), PopUpState::Resolve(7));
}

#[test]
fn poll_hands_out_an_observer_that_was_not_called() {
    let observed = Rc::new(RefCell::new(Vec::new()));
    let mut handled = Vec::new();
    let mut parent = Tab::new();
    parent.set_popup_with_modifier(Tab::new(), recorder(&observed));
    parent.popup.as_mut().unwrap().popup_state = PopUpState::Resolve(9);
    poll_into(&mut parent, &mut handled);
    assert_eq!(*observed.borrow(), vec![9]);
    assert_eq!(handled, vec![9]);
    assert!(parent.pop_up().is_none());
}

#[test]
fn exited_popup_is_let_go_without_a_value() {
    let observed = Rc::new(RefCell::new(Vec::new()));
    let mut handled = Vec::new();
    let mut parent = Tab::new();
    parent.set_popup_with_modifier(Tab::new(), recorder(&observed));
    parent.popup.as_mut().unwrap().exit_tab();
    assert!(parent.pop_up().unwrap().should_exit());
    assert!(!parent.should_exit());
    assert!(matches!(parent.check_popup_value(), Some(Finished::Exited)));
    assert!(parent.pop_up().is_none());
    poll_into(&mut parent, &mut handled);
    assert!(observed.borrow().is_empty());
    assert!(handled.is_empty());
}

#[test]
fn poll_leaves_the_parent_as_it_was() {
    let mut parent = Tab::new();
    parent.cursor = focus_tabs::geometry::Pos::new(3, 4);
    parent.is_selected = true;
    parent.insert_key(focus_tabs::keys::KeyCode::Tab);
    parent.set_popup(Tab::new());
    resolve_child(&mut parent, 5);
    assert!(matches!(
        parent.check_popup_value(),
        Some(Finished::Resolved { value: 5, observer: None })
    ));
    assert_eq!(parent.cursor.x, 3);
    assert_eq!(parent.cursor.y, 4);
    assert!(parent.is_selected);
    assert_eq!(parent.key_history.len(), 1);
    assert_eq!(*parent.popup_state(), PopUpState::Continue);
}

#[test]
fn popup_of_a_popup_is_polled_by_its_own_parent() {
    let mut root = Tab::new();
    let mut middle = Tab::new();
    middle.set_popup(Tab::new());
    root.set_popup(middle);
    root.popup.as_mut().unwrap().popup.as_mut().unwrap().resolve_tab(3);
    assert!(root.check_popup_value().is_none());
    assert!(root.pop_up().unwrap().pop_up().is_some());
    let middle = root.popup.as_mut().unwrap();
    assert!(matches!(
        middle.check_popup_value(),
        Some(Finished::Resolved { value: 3, observer: None })
    ));
    assert!(middle.pop_up().is_none());
    assert!(root.pop_up().is_some());
}

#[test]
fn remove_popup_closes_it_in_any_state() {
    let mut parent = Tab::new();
    parent.set_popup(Tab::new());
    parent.remove_popup();
    assert!(parent.pop_up().is_none());
    parent.remove_popup();
    assert!(parent.pop_up().is_none());
    parent.set_popup(Tab::new());
    assert!(parent.pop_up().is_some());
}

#[test]
fn set_proxy_installs_the_proxy() {
    let mut tab = Tab::new();
    let mut proxy = Tab::new();
    proxy.first_pass = true;
    tab.set_proxy(proxy);
    assert!(tab.proxy().is_some());
    assert!(tab.proxy().unwrap().first_pass);
    assert!(tab.pop_up().is_none());
}

#[test]
fn exit_tab_asks_to_be_closed() {
    let mut tab = Tab::new();
    tab.exit_tab();
    assert!(tab.should_exit());
    assert_eq!(*tab.popup_state(), PopUpState::Exit);
    assert!(PopUpState::<i32>::Exit.is_finished());
    assert!(PopUpState::Resolve(1).is_finished());
    assert!(!PopUpState::<i32>::Continue.is_finished());
}
