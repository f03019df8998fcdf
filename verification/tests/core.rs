use scroll_effects::scale::{scale_factor_milli, ConfigError, ScaleOnScroll, SCALE_ONE_MILLI};
use scroll_effects::scroll::ScrollTracker;
use scroll_effects::subscription::Subscription;

#[test]
fn scale_factor_at_rest_is_one() {
    assert_eq!(scale_factor_milli(0), 1000);
    assert_eq!(scale_factor_milli(0), SCALE_ONE_MILLI);
}

#[test]
fn scale_factor_follows_the_clamped_formula() {
    assert_eq!(scale_factor_milli(100), 900);
    assert_eq!(scale_factor_milli(250), 750);
    assert_eq!(scale_factor_milli(499), 501);
    assert_eq!(scale_factor_milli(500), 500);
}

#[test]
fn scale_factor_floor_holds_for_large_offsets() {
    assert_eq!(scale_factor_milli(1000), 500);
    assert_eq!(scale_factor_milli(5000), 500);
    assert_eq!(scale_factor_milli(u64::MAX), 500);
}

#[test]
fn scale_factor_never_grows_with_offset() {
    let mut previous = scale_factor_milli(0);
    for offset in [1u64, 10, 250, 499, 500, 501, 2000, 100_000] {
        let next = scale_factor_milli(offset);
        assert!(next <= previous);
        previous = next;
    }
}

#[test]
fn mounting_without_a_provider_is_a_configuration_error() {
    let mounted = ScaleOnScroll::mount(None);
    match mounted {
        Err(ConfigError::MissingScrollProvider) => {}
        Ok(_) => panic!("mount without a provider must fail"),
    }
    assert_eq!(
        ConfigError::MissingScrollProvider.message(),
        "missing required context: no ambient scroll provider"
    );
}

#[test]
fn mounting_with_a_provider_starts_at_its_offset() {
    let mut tracker = ScrollTracker::new();
    tracker.container_mounted();
    tracker.on_scroll(250);
    let panel = ScaleOnScroll::mount(Some(&tracker)).unwrap();
    assert_eq!(panel.scale_milli(), 750);
}

#[test]
fn scale_panel_recomputes_on_every_offset_change() {
    let tracker = ScrollTracker::new();
    let mut panel = ScaleOnScroll::mount(Some(&tracker)).unwrap();
    assert_eq!(panel.scale_milli(), 1000);
    panel.on_scroll_change(100);
    assert_eq!(panel.scale_milli(), 900);
    panel.on_scroll_change(9999);
    assert_eq!(panel.scale_milli(), 500);
    panel.on_scroll_change(0);
    assert_eq!(panel.scale_milli(), 1000);
}

#[test]
fn scroll_events_before_mount_are_ignored() {
    let mut tracker = ScrollTracker::new();
    tracker.on_scroll(300);
    assert_eq!(tracker.current_offset(), 0);
    tracker.container_mounted();
    tracker.on_scroll(300);
    assert_eq!(tracker.current_offset(), 300);
}

#[test]
fn scroll_events_after_unmount_are_ignored() {
    let mut tracker = ScrollTracker::new();
    tracker.container_mounted();
    tracker.on_scroll(120);
    let detached = tracker.unmount();
    assert!(detached);
    tracker.on_scroll(900);
    assert_eq!(tracker.current_offset(), 120);
}

#[test]
fn unmount_detaches_exactly_once() {
    let mut tracker = ScrollTracker::new();
    tracker.container_mounted();
    assert!(tracker.unmount());
    assert!(!tracker.unmount());
    assert_eq!(tracker.detach_calls(), 1);
}

#[test]
fn unmount_before_mount_has_nothing_to_detach() {
    let mut tracker = ScrollTracker::new();
    assert!(!tracker.unmount());
    assert_eq!(tracker.detach_calls(), 0);
}

#[test]
fn stop_handle_is_idempotent() {
    let mut sub = Subscription::new();
    sub.attach();
    assert!(sub.is_active());
    assert!(sub.stop());
    assert!(!sub.stop());
    assert!(!sub.stop());
    assert_eq!(sub.detach_calls(), 1);
    assert!(!sub.is_active());
}

#[test]
fn a_stopped_subscription_never_starts_again() {
    let mut sub = Subscription::new();
    assert!(!sub.stop());
    sub.attach();
    assert!(!sub.is_active());
    assert_eq!(sub.detach_calls(), 0);
}
