use scroll_effects::intersection::IntersectionWatcher;
use scroll_effects::media::{MediaCommand, VisibilityGatedMedia};
use scroll_effects::reveal_once::{RevealOnFirstVisible, REVEAL_THRESHOLD_MILLI};

#[test]
fn the_last_record_of_a_batch_wins() {
    let mut watcher = IntersectionWatcher::new(500);
    watcher.element_mounted();
    watcher.on_batch(&vec![true, false, true, false]);
    assert!(!watcher.is_intersecting());
    watcher.on_batch(&vec![false, true]);
    assert!(watcher.is_intersecting());
}

#[test]
fn an_empty_batch_changes_nothing() {
    let mut watcher = IntersectionWatcher::new(500);
    watcher.element_mounted();
    watcher.on_batch(&vec![true]);
    watcher.on_batch(&vec![]);
    assert!(watcher.is_intersecting());
}

#[test]
fn records_before_mount_are_ignored() {
    let mut watcher = IntersectionWatcher::new(100);
    watcher.on_batch(&vec![true]);
    assert!(!watcher.is_intersecting());
    watcher.element_mounted();
    watcher.on_batch(&vec![true]);
    assert!(watcher.is_intersecting());
}

#[test]
fn records_after_stop_are_ignored() {
    let mut watcher = IntersectionWatcher::new(100);
    watcher.element_mounted();
    watcher.on_batch(&vec![true]);
    assert!(watcher.stop());
    watcher.on_batch(&vec![false]);
    assert!(watcher.is_intersecting());
    assert!(!watcher.stop());
    assert_eq!(watcher.detach_calls(), 1);
}

#[test]
fn reveal_uses_the_eighty_percent_threshold() {
    assert_eq!(REVEAL_THRESHOLD_MILLI, 800);
}

#[test]
fn reveal_skips_the_priming_event_then_reveals_and_stays() {
    let mut reveal = RevealOnFirstVisible::new(150);
    reveal.element_mounted();
    reveal.on_record(true);
    assert!(!reveal.is_revealed(), "the priming event must not reveal");
    reveal.on_record(false);
    assert!(!reveal.is_revealed());
    reveal.on_record(true);
    assert!(reveal.is_revealed(), "the first visible record after priming reveals");
    reveal.on_record(false);
    assert!(reveal.is_revealed(), "the flag never reverts");
    assert_eq!(reveal.delay_ms(), 150);
}

#[test]
fn revealed_flag_is_monotonic_over_any_later_records() {
    let mut reveal = RevealOnFirstVisible::new(0);
    reveal.element_mounted();
    reveal.on_batch(&vec![false, true]);
    assert!(reveal.is_revealed());
    reveal.on_batch(&vec![false, false, false]);
    assert!(reveal.is_revealed());
    reveal.on_record(false);
    assert!(reveal.is_revealed());
}

#[test]
fn reveal_records_before_mount_do_nothing() {
    let mut reveal = RevealOnFirstVisible::new(0);
    reveal.on_record(true);
    reveal.on_record(true);
    assert!(!reveal.is_revealed());
}

#[test]
fn reveal_unmount_detaches_exactly_once() {
    let mut reveal = RevealOnFirstVisible::new(0);
    reveal.element_mounted();
    assert!(reveal.unmount());
    assert!(!reveal.unmount());
    assert_eq!(reveal.detach_calls(), 1);
    reveal.on_record(true);
    reveal.on_record(true);
    assert!(!reveal.is_revealed(), "no record fires after stop");
}

#[test]
fn media_commands_follow_visibility_transitions() {
    let mut media = VisibilityGatedMedia::new(200, true);
    media.element_mounted();
    let first = media.on_batch(&vec![true]);
    let second = media.on_batch(&vec![false]);
    let third = media.on_batch(&vec![true]);
    assert_eq!(first, Some(MediaCommand::Play));
    assert_eq!(second, Some(MediaCommand::PauseAndReset));
    assert_eq!(third, Some(MediaCommand::Play));
}

#[test]
fn media_issues_no_duplicate_command_for_repeated_states() {
    let mut media = VisibilityGatedMedia::new(200, false);
    media.element_mounted();
    assert_eq!(media.on_batch(&vec![true]), Some(MediaCommand::Play));
    assert_eq!(media.on_batch(&vec![true]), None);
    assert_eq!(media.on_batch(&vec![true, true]), None);
    assert_eq!(media.on_batch(&vec![false]), Some(MediaCommand::Pause));
    assert_eq!(media.on_batch(&vec![false]), None);
}

#[test]
fn media_without_reset_variant_only_pauses() {
    let mut media = VisibilityGatedMedia::new(100, false);
    media.element_mounted();
    media.on_batch(&vec![true]);
    assert_eq!(media.on_batch(&vec![false]), Some(MediaCommand::Pause));
    assert!(!media.resets_on_hide());
}

#[test]
fn media_with_an_unresolved_element_issues_no_command() {
    let mut media = VisibilityGatedMedia::new(200, true);
    assert_eq!(media.on_batch(&vec![true]), None);
    assert_eq!(media.on_batch(&vec![false, true]), None);
    assert!(!media.is_visible());
}

#[test]
fn media_batch_with_no_net_change_issues_no_command() {
    let mut media = VisibilityGatedMedia::new(200, true);
    media.element_mounted();
    media.on_batch(&vec![true]);
    assert_eq!(media.on_batch(&vec![false, true]), None);
    assert!(media.is_visible());
}

#[test]
fn media_unmount_detaches_exactly_once() {
    let mut media = VisibilityGatedMedia::new(200, true);
    media.element_mounted();
    assert!(media.unmount());
    assert!(!media.unmount());
    assert_eq!(media.detach_calls(), 1);
    assert_eq!(media.on_batch(&vec![true]), None, "no command after stop");
}
