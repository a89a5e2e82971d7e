use frustration::map::{
    calculate_lod, order_step, ship_icon_path, toggle_pause, visible_object_indices,
    zoom_follows_scroll, Heading, MapState, OrderObservation, OrderStep, RelationType, ZoomBand,
    ZoomRange,
};

#[test]
fn icon_paths_for_drawn_relations() {
    assert_eq!(ship_icon_path(RelationType::Enemy), Some("icons/fighter_enemy.png"));
    assert_eq!(ship_icon_path(RelationType::Ally), Some("icons/fighter_ally.png"));
    assert_eq!(ship_icon_path(RelationType::Player), Some("icons/fighter_player.png"));
}

#[test]
fn no_icon_for_other_relations() {
    assert_eq!(ship_icon_path(RelationType::Unfriendly), None);
    assert_eq!(ship_icon_path(RelationType::Neutral), None);
    assert_eq!(ship_icon_path(RelationType::Friendly), None);
}

#[test]
fn map_starts_on_universe() {
    assert_eq!(MapState::default(), MapState::Universe);
}

#[test]
fn visible_objects_of_a_sector_in_order() {
    let sectors = vec![1u16, 2, 1, 3, 1];
    assert_eq!(visible_object_indices(MapState::Sector(1), &sectors), vec![0usize, 2, 4]);
    assert_eq!(visible_object_indices(MapState::Sector(3), &sectors), vec![3usize]);
    assert_eq!(visible_object_indices(MapState::Sector(9), &sectors), Vec::<usize>::new());
}

#[test]
fn universe_shows_no_object() {
    let sectors = vec![0u16, 1, 2];
    assert!(visible_object_indices(MapState::Universe, &sectors).is_empty());
}

#[test]
fn no_objects_no_visible_ones() {
    let sectors: Vec<u16> = Vec::new();
    assert!(visible_object_indices(MapState::Sector(1), &sectors).is_empty());
}

#[test]
fn lod_close_zoom() {
    let lod = calculate_lod(ZoomBand::Close);
    assert!(lod.show_invidual_ships);
    assert!(!lod.show_fleets);
    assert!(lod.show_station_labels);
    assert!(lod.show_ship_labels);
    assert!(lod.show_routes);
}

#[test]
fn lod_medium_zoom() {
    let lod = calculate_lod(ZoomBand::Medium);
    assert!(!lod.show_invidual_ships);
    assert!(lod.show_fleets);
    assert!(lod.show_station_labels);
    assert!(!lod.show_ship_labels);
    assert!(lod.show_routes);
}

#[test]
fn lod_far_zoom() {
    let lod = calculate_lod(ZoomBand::Far);
    assert!(!lod.show_invidual_ships);
    assert!(lod.show_fleets);
    assert!(!lod.show_station_labels);
    assert!(!lod.show_ship_labels);
    assert!(lod.show_routes);
}

#[test]
fn lod_non_positive_zoom_shows_only_routes() {
    let lod = calculate_lod(ZoomBand::NotPositive);
    assert!(!lod.show_invidual_ships);
    assert!(!lod.show_fleets);
    assert!(!lod.show_station_labels);
    assert!(!lod.show_ship_labels);
    assert!(lod.show_routes);
}

#[test]
fn pause_toggles_on_press_only() {
    assert!(!toggle_pause(true, true));
    assert!(toggle_pause(false, true));
    assert!(toggle_pause(true, false));
    assert!(!toggle_pause(false, false));
    assert!(toggle_pause(toggle_pause(true, true), true));
}

#[test]
fn scroll_inside_limits_always_applies() {
    assert!(zoom_follows_scroll(ZoomRange::Inside, true, false));
    assert!(zoom_follows_scroll(ZoomRange::Inside, false, true));
}

#[test]
fn scroll_at_lower_limit_only_zooms_in() {
    assert!(zoom_follows_scroll(ZoomRange::AtOrBelowMin, true, false));
    assert!(zoom_follows_scroll(ZoomRange::AtOrBelowMin, true, true));
    assert!(!zoom_follows_scroll(ZoomRange::AtOrBelowMin, false, true));
}

#[test]
fn scroll_above_upper_limit_only_zooms_out() {
    assert!(zoom_follows_scroll(ZoomRange::AboveMax, false, true));
    assert!(!zoom_follows_scroll(ZoomRange::AboveMax, true, false));
}

#[test]
fn scroll_exactly_at_upper_limit_is_ignored() {
    assert!(!zoom_follows_scroll(ZoomRange::Neither, true, false));
    assert!(!zoom_follows_scroll(ZoomRange::Neither, false, true));
}

fn observation() -> OrderObservation {
    OrderObservation {
        has_endpoint: true,
        can_turn: true,
        heading: Heading::Positive,
        heading_close: false,
        can_move: true,
        arrived: false,
        braking_range: false,
    }
}

#[test]
fn order_without_endpoint_waits() {
    let obs = OrderObservation { has_endpoint: false, ..observation() };
    assert_eq!(order_step(&obs), OrderStep::Wait);
}

#[test]
fn order_turns_before_moving() {
    assert_eq!(order_step(&observation()), OrderStep::TurnLeft);
    let obs = OrderObservation { heading: Heading::Negative, arrived: true, ..observation() };
    assert_eq!(order_step(&obs), OrderStep::TurnRight);
}

#[test]
fn order_snaps_when_heading_close() {
    let obs = OrderObservation { heading_close: true, ..observation() };
    assert_eq!(order_step(&obs), OrderStep::FaceTarget);
    let obs = OrderObservation { heading: Heading::Negative, heading_close: true, ..observation() };
    assert_eq!(order_step(&obs), OrderStep::FaceTarget);
}

#[test]
fn order_finishes_turning_when_level() {
    let obs = OrderObservation { heading: Heading::Level, ..observation() };
    assert_eq!(order_step(&obs), OrderStep::FinishTurning);
}

#[test]
fn order_moves_after_turning() {
    let moving = OrderObservation { can_turn: false, ..observation() };
    assert_eq!(order_step(&moving), OrderStep::Accelerate);
    let obs = OrderObservation { braking_range: true, ..moving };
    assert_eq!(order_step(&obs), OrderStep::Brake);
    let obs = OrderObservation { arrived: true, braking_range: true, ..moving };
    assert_eq!(order_step(&obs), OrderStep::Arrive);
    let obs = OrderObservation { can_move: false, ..moving };
    assert_eq!(order_step(&obs), OrderStep::Wait);
}
