use scroll_effects::dropdown::{DropdownEvent, DropdownMenu, IdGenerator};
use scroll_effects::pointer::{
    relative_position, BoundingBox, PointerRelativeTracker, SpotlightOverlay, OPACITY_FULL_MILLI,
    SPOTLIGHT_RADIUS_PX,
};

#[test]
fn pointer_position_is_relative_to_the_bounding_box() {
    let container = BoundingBox { left: 50, top: 20, width: 400, height: 300 };
    let pos = relative_position(&container, 120, 90);
    assert_eq!(pos.x, 70);
    assert_eq!(pos.y, 70);
}

#[test]
fn tracker_publishes_each_move_and_drops_unresolved_ones() {
    let container = BoundingBox { left: 50, top: 20, width: 400, height: 300 };
    let mut tracker = PointerRelativeTracker::new();
    assert_eq!(tracker.position().x, 0);
    assert_eq!(tracker.position().y, 0);
    tracker.on_pointer_move(Some(&container), 120, 90);
    assert_eq!(tracker.position().x, 70);
    assert_eq!(tracker.position().y, 70);
    tracker.on_pointer_move(None, 700, 800);
    assert_eq!(tracker.position().x, 70, "an unresolved container drops the event");
    assert_eq!(tracker.position().y, 70);
    tracker.on_pointer_move(Some(&container), 51, 19);
    assert_eq!(tracker.position().x, 1);
    assert_eq!(tracker.position().y, -1);
}

#[test]
fn spotlight_turns_on_with_moves_and_off_on_leave() {
    let container = BoundingBox { left: 10, top: 10, width: 100, height: 100 };
    let mut spotlight = SpotlightOverlay::new();
    assert_eq!(spotlight.opacity_milli(), 0);
    spotlight.on_pointer_move(Some(&container), 40, 60);
    assert_eq!(spotlight.opacity_milli(), OPACITY_FULL_MILLI);
    assert_eq!(spotlight.position().x, 30);
    assert_eq!(spotlight.position().y, 50);
    spotlight.on_pointer_leave();
    assert_eq!(spotlight.opacity_milli(), 0);
    assert_eq!(spotlight.position().x, 30, "leaving keeps the last position");
}

#[test]
fn spotlight_drops_the_whole_event_when_the_container_is_unresolved() {
    let mut spotlight = SpotlightOverlay::new();
    spotlight.on_pointer_move(None, 40, 60);
    assert_eq!(spotlight.opacity_milli(), 0);
    assert_eq!(spotlight.position().x, 0);
}

#[test]
fn spotlight_radius_is_fixed() {
    assert_eq!(SPOTLIGHT_RADIUS_PX, 600);
}

#[test]
fn id_generator_never_repeats() {
    let mut ids = IdGenerator::new();
    let a = ids.fresh_id();
    let b = ids.fresh_id();
    let c = ids.fresh_id();
    assert_eq!(a, 0);
    assert_eq!(b, 1);
    assert_eq!(c, 2);
}

#[test]
fn two_menus_with_equal_titles_get_distinct_ids() {
    let mut ids = IdGenerator::new();
    let first = DropdownMenu::new(&mut ids, false);
    let second = DropdownMenu::new(&mut ids, false);
    assert_ne!(first.id(), second.id());
}

#[test]
fn dropdown_opens_on_hover_and_closes_on_leave() {
    let mut ids = IdGenerator::new();
    let mut menu = DropdownMenu::new(&mut ids, false);
    assert!(!menu.is_open());
    menu.on_event(DropdownEvent::TitlePointerOver);
    assert!(menu.is_open());
    menu.on_event(DropdownEvent::ContainerPointerLeave);
    assert!(!menu.is_open());
}

#[test]
fn dropdown_title_click_toggles_a_plain_title() {
    let mut ids = IdGenerator::new();
    let mut menu = DropdownMenu::new(&mut ids, false);
    menu.on_event(DropdownEvent::TitleClick);
    assert!(menu.is_open());
    menu.on_event(DropdownEvent::TitleClick);
    assert!(!menu.is_open());
}

#[test]
fn dropdown_title_click_does_not_toggle_a_link_title() {
    let mut ids = IdGenerator::new();
    let mut menu = DropdownMenu::new(&mut ids, true);
    menu.on_event(DropdownEvent::TitleClick);
    assert!(!menu.is_open());
    menu.on_event(DropdownEvent::TitlePointerOver);
    menu.on_event(DropdownEvent::TitleClick);
    assert!(menu.is_open());
}

#[test]
fn dropdown_item_click_closes_the_menu() {
    let mut ids = IdGenerator::new();
    let mut menu = DropdownMenu::new(&mut ids, false);
    menu.on_event(DropdownEvent::TitlePointerOver);
    menu.on_event(DropdownEvent::ItemClick);
    assert!(!menu.is_open());
}
