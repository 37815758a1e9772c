use auramate::pet::{monitor_key, PetFollowState, pet_edge_position, pet_surface_label, should_reposition, MARGIN, PET_HEIGHT, PET_WIDTH};
use auramate::rhythm::PetState;

#[test]
fn edge_position_is_bottom_right_with_margin() {
    let (x, y) = pet_edge_position(100, 50, 1920, 1080, 120, 120, 16);
    assert_eq!(x, 100 + 1920 - 120 - 16);
    assert_eq!(y, 50 + 1080 - 120 - 16);
}

#[test]
fn only_moves_when_monitor_key_changes() {
    assert!(should_reposition(None, "Built-in"));
    assert!(!should_reposition(Some("Built-in"), "Built-in"));
    assert!(should_reposition(Some("Built-in"), "External"));
}

#[test]
fn surface_labels_match_states() {
    assert_eq!(pet_surface_label(PetState::Idle), "idle");
    assert_eq!(pet_surface_label(PetState::Nudge), "nudge");
    assert_eq!(pet_surface_label(PetState::Rest), "rest");
}

#[test]
fn edge_position_on_secondary_monitor_left_of_primary() {
    let (x, y) = pet_edge_position(-2560, -200, 2560, 1400, PET_WIDTH, PET_HEIGHT, MARGIN);
    assert_eq!(x, -2560 + 2560 - 120 - 16);
    assert_eq!(y, -200 + 1400 - 120 - 16);
}

#[test]
fn reposition_compares_whole_keys() {
    assert!(should_reposition(Some("Built-in"), "Built-in "));
    assert!(should_reposition(Some("Built"), "Built-in"));
    assert!(should_reposition(Some(""), "x"));
    assert!(!should_reposition(Some(""), ""));
    assert!(!should_reposition(Some("Écran externe"), "Écran externe"));
    assert!(should_reposition(Some("Écran externe"), "Ecran externe"));
}

#[test]
fn monitor_key_prefers_name_then_geometry() {
    assert_eq!(monitor_key(Some("Built-in Retina"), 0, 0, 3024, 1964), "Built-in Retina");
    assert_eq!(monitor_key(None, -1920, 0, 1920, 1080), "-1920:0:1920x1080");
    assert_eq!(monitor_key(None, 2560, -440, 3840, 2160), "2560:-440:3840x2160");
    assert_eq!(monitor_key(None, i32::MIN, 7, u32::MAX, 0), "-2147483648:7:4294967295x0");
}

#[test]
fn follow_moves_only_on_monitor_change() {
    let mut follow = PetFollowState { last_monitor_key: None };
    assert_eq!(
        follow.follow("Built-in", 0, 25, 1512, 957),
        Some((1512 - 120 - 16, 25 + 957 - 120 - 16))
    );
    assert_eq!(follow.last_monitor_key.as_deref(), Some("Built-in"));
    assert_eq!(follow.follow("Built-in", 0, 25, 1512, 957), None);
    assert_eq!(
        follow.follow("External", 1512, 0, 2560, 1415),
        Some((1512 + 2560 - 120 - 16, 1415 - 120 - 16))
    );
    assert_eq!(follow.last_monitor_key.as_deref(), Some("External"));
}
