use stick_aim::engine::{
    ActionDistance, ActionManager, AnalogStick, Command, ControllerButton, EngineError,
};
use stick_aim::geometry::{Direction, DIR_SCALE};
use stick_aim::settings::{ApplicationSettings, Controller, Overlay};

fn pair(k: &str, v: &str) -> (String, String) {
    (k.to_string(), v.to_string())
}

fn east() -> Direction {
    Direction::east()
}

fn north() -> Direction {
    Direction::north()
}

fn test_settings() -> ApplicationSettings {
    ApplicationSettings {
        overlay: Overlay {
            screen_height: 1080,
            screen_width: 1920,
            show_crosshair: true,
            show_buttons: true,
            always_show_overlay: false,
            windowed_mode: false,
        },
        button_mapping: vec![
            pair("Fireball", "q"),
            pair("Frostbolt", "w"),
            pair("Dash", "e"),
            pair("Potion", "r"),
        ],
        ability_mapping: vec![pair("q", "Fireball"), pair("w", "Frostbolt"), pair("e", "Dash")],
        aimable_buttons: vec!["Fireball".to_string(), "Frostbolt".to_string()],
        action_distances: vec![
            pair("Fireball", "mid"),
            pair("Frostbolt", "close"),
            pair("Dash", "far"),
            pair("Potion", "self"),
        ],
        controller: Controller {
            controller_deadzone: DIR_SCALE as u32 / 10,
            character_x_offset_px: 0,
            character_y_offset_px: 0,
            walk_circle_radius_px: 200,
            close_circle_radius_px: 50,
            mid_circle_radius_px: 400,
            far_circle_radius_px: 500,
            free_mouse_sensitivity_px: 10,
            controller_type: "generic".to_string(),
        },
    }
}

fn walking_and_aiming(mgr: &mut ActionManager, walk: Direction, aim: Direction) {
    mgr.process_input_analogs(
        AnalogStick { in_deadzone: false, angle: walk, direction: walk },
        AnalogStick { in_deadzone: false, angle: aim, direction: aim },
    );
}

fn button(name: &str, pressed: bool, unpressed: bool) -> ControllerButton {
    ControllerButton { name: name.to_string(), just_pressed: pressed, just_unpressed: unpressed }
}

#[test]
fn both_edges_at_once_is_fatal_and_enqueues_nothing() {
    let mut mgr = ActionManager::initialize(test_settings());
    let mut buttons = vec![button("Fireball", true, true)];
    let r = mgr.process_input_buttons(&mut buttons);
    assert_eq!(r, Err(EngineError::EdgeConflict { action: "Fireball".to_string() }));
    // Flags are left untouched on the refused ingestion.
    assert!(buttons[0].just_pressed && buttons[0].just_unpressed);
    // Nothing was enqueued: the next tick presses nothing.
    let cmds = mgr.handle_character_actions(&vec![], None).unwrap();
    assert_eq!(cmds, vec![Command::Release { key: "LeftClick".to_string() }]);
}

#[test]
fn conflict_on_one_button_refuses_the_whole_batch() {
    let mut mgr = ActionManager::initialize(test_settings());
    let mut buttons = vec![button("Dash", true, false), button("Fireball", true, true)];
    let r = mgr.process_input_buttons(&mut buttons);
    assert!(matches!(r, Err(EngineError::EdgeConflict { .. })));
    // The conflict-free entry was not consumed either.
    assert!(buttons[0].just_pressed);
}

#[test]
fn classify_returns_exact_variants_case_sensitive() {
    let mgr = ActionManager::initialize(test_settings());
    assert_eq!(mgr.get_ability_action_distance(&"Frostbolt".to_string()), ActionDistance::Close);
    assert_eq!(mgr.get_ability_action_distance(&"Fireball".to_string()), ActionDistance::Mid);
    assert_eq!(mgr.get_ability_action_distance(&"Dash".to_string()), ActionDistance::Far);
    // A tag outside the three known ones maps to Unset.
    assert_eq!(mgr.get_ability_action_distance(&"Potion".to_string()), ActionDistance::Unset);
    // An action absent from the map classifies to Unset, not an error.
    assert_eq!(mgr.get_ability_action_distance(&"Unknown".to_string()), ActionDistance::Unset);
}

#[test]
fn classify_is_case_sensitive_about_tags() {
    let mut settings = test_settings();
    settings.action_distances.push(pair("Shout", "Close"));
    let mgr = ActionManager::initialize(settings);
    assert_eq!(mgr.get_ability_action_distance(&"Shout".to_string()), ActionDistance::Unset);
}

#[test]
fn unset_distance_falls_back_to_walk_radius() {
    let mgr = ActionManager::initialize(test_settings());
    assert_eq!(mgr.get_attack_circle_radius(ActionDistance::Unset), 200);
    assert_eq!(mgr.get_attack_circle_radius(ActionDistance::Close), 50);
    assert_eq!(mgr.get_attack_circle_radius(ActionDistance::Mid), 400);
    assert_eq!(mgr.get_attack_circle_radius(ActionDistance::Far), 500);
}

#[test]
fn radial_location_at_angle_zero_and_quarter_turn() {
    let mgr = ActionManager::initialize(test_settings());
    // Angle 0: r pixels right of center.
    assert_eq!(mgr.get_radial_location(300, east()), (1920 / 2 + 300, 1080 / 2));
    // Angle pi/2: r pixels above center (screen y grows downward).
    assert_eq!(mgr.get_radial_location(300, north()), (1920 / 2, 1080 / 2 - 300));
}

#[test]
fn radial_location_honors_avatar_offsets() {
    let mut settings = test_settings();
    settings.controller.character_x_offset_px = 7;
    settings.controller.character_y_offset_px = 11;
    let mgr = ActionManager::initialize(settings);
    assert_eq!(mgr.get_radial_location(100, east()), (1920 / 2 + 100 + 7, 1080 / 2 - 11));
    assert_eq!(mgr.get_radial_location(100, north()), (1920 / 2 + 7, 1080 / 2 - 100 - 11));
}

#[test]
fn queue_drains_last_in_first_out() {
    let mut mgr = ActionManager::initialize(test_settings());
    // Neither walking nor aiming: presses emit no pre-move commands.
    let mut buttons = vec![button("Dash", true, false), button("Potion", true, false)];
    mgr.process_input_buttons(&mut buttons).unwrap();
    let cmds = mgr.handle_character_actions(&vec![], None).unwrap();
    assert_eq!(
        cmds,
        vec![
            Command::Press { key: "r".to_string() },
            Command::Press { key: "e".to_string() },
            Command::Release { key: "LeftClick".to_string() },
        ]
    );
}

#[test]
fn tick_consumes_the_queue() {
    let mut mgr = ActionManager::initialize(test_settings());
    let mut buttons = vec![button("Potion", true, false)];
    mgr.process_input_buttons(&mut buttons).unwrap();
    assert!(!buttons[0].just_pressed);
    let first = mgr.handle_character_actions(&vec![], None).unwrap();
    assert_eq!(first.len(), 2);
    // The queue was consumed: a second tick dispatches no press.
    let second = mgr.handle_character_actions(&vec![], None).unwrap();
    assert_eq!(second, vec![Command::Release { key: "LeftClick".to_string() }]);
}

#[test]
fn aimed_fireball_press_while_walking_and_aiming() {
    let mut mgr = ActionManager::initialize(test_settings());
    walking_and_aiming(&mut mgr, north(), east());
    let mut buttons = vec![button("Fireball", true, false)];
    mgr.process_input_buttons(&mut buttons).unwrap();
    let cmds = mgr.handle_character_actions(&vec![], None).unwrap();
    // Fireball is aimable with mid distance 400: the move follows the aim
    // stick (angle 0) at radius 400, then the mapped key is pressed.
    assert_eq!(cmds[0], Command::MoveTo { x: 1920 / 2 + 400, y: 1080 / 2 });
    assert_eq!(cmds[1], Command::Press { key: "q".to_string() });
}

#[test]
fn aimable_press_without_aim_stick_follows_walk_stick() {
    let mut mgr = ActionManager::initialize(test_settings());
    mgr.process_input_analogs(
        AnalogStick { in_deadzone: false, angle: north(), direction: north() },
        AnalogStick { in_deadzone: true, angle: east(), direction: east() },
    );
    let mut buttons = vec![button("Fireball", true, false)];
    mgr.process_input_buttons(&mut buttons).unwrap();
    let cmds = mgr.handle_character_actions(&vec![], None).unwrap();
    assert_eq!(cmds[0], Command::MoveTo { x: 1920 / 2, y: 1080 / 2 - 400 });
    assert_eq!(cmds[1], Command::Press { key: "q".to_string() });
}

#[test]
fn non_aimable_ranged_press_follows_walk_stick() {
    let mut mgr = ActionManager::initialize(test_settings());
    walking_and_aiming(&mut mgr, north(), east());
    // Dash has far distance 500 but is not aimable: the walk stick wins.
    let mut buttons = vec![button("Dash", true, false)];
    mgr.process_input_buttons(&mut buttons).unwrap();
    let cmds = mgr.handle_character_actions(&vec![], None).unwrap();
    assert_eq!(cmds[0], Command::MoveTo { x: 1920 / 2, y: 1080 / 2 - 500 });
    assert_eq!(cmds[1], Command::Press { key: "e".to_string() });
}

#[test]
fn release_emits_no_geometry() {
    let mut mgr = ActionManager::initialize(test_settings());
    walking_and_aiming(&mut mgr, north(), east());
    let mut buttons = vec![button("Fireball", false, true)];
    mgr.process_input_buttons(&mut buttons).unwrap();
    let cmds = mgr.handle_character_actions(&vec![], None).unwrap();
    assert_eq!(cmds[0], Command::Release { key: "q".to_string() });
}

#[test]
fn swivel_picks_longest_distance_and_aim_stick() {
    let mut mgr = ActionManager::initialize(test_settings());
    walking_and_aiming(&mut mgr, north(), east());
    // Held: Frostbolt (aimable, close 50) and Dash (not aimable, far 500).
    let held = vec!["w".to_string(), "e".to_string()];
    let cmds = mgr.handle_character_actions(&held, None).unwrap();
    // chosen_distance = 500, some ability aimable, aiming: aim stick wins.
    assert_eq!(
        cmds,
        vec![
            Command::MoveTo { x: 1920 / 2 + 500, y: 1080 / 2 },
            Command::Release { key: "LeftClick".to_string() },
        ]
    );
}

#[test]
fn swivel_without_aimable_ability_follows_walk_stick() {
    let mut mgr = ActionManager::initialize(test_settings());
    walking_and_aiming(&mut mgr, north(), east());
    let held = vec!["e".to_string()];
    let cmds = mgr.handle_character_actions(&held, None).unwrap();
    assert_eq!(cmds[0], Command::MoveTo { x: 1920 / 2, y: 1080 / 2 - 500 });
}

#[test]
fn swivel_with_no_configured_distance_uses_walk_radius() {
    let mut settings = test_settings();
    settings.ability_mapping.push(pair("t", "Potion"));
    let mut mgr = ActionManager::initialize(settings);
    walking_and_aiming(&mut mgr, north(), east());
    // Potion has no usable distance tag: the swivel falls back to the
    // walking circle along the walk stick.
    let held = vec!["t".to_string()];
    let cmds = mgr.handle_character_actions(&held, None).unwrap();
    assert_eq!(cmds[0], Command::MoveTo { x: 1920 / 2, y: 1080 / 2 - 200 });
}

#[test]
fn walking_without_ability_drags_primary_click() {
    let mut mgr = ActionManager::initialize(test_settings());
    mgr.process_input_analogs(
        AnalogStick { in_deadzone: false, angle: east(), direction: east() },
        AnalogStick { in_deadzone: true, angle: east(), direction: east() },
    );
    let cmds = mgr.handle_character_actions(&vec![], None).unwrap();
    assert_eq!(
        cmds,
        vec![
            Command::MoveTo { x: 1920 / 2 + 200, y: 1080 / 2 },
            Command::Press { key: "LeftClick".to_string() },
        ]
    );
    // Next tick the walk stick is back in its deadzone: the click is let go.
    mgr.process_input_analogs(
        AnalogStick { in_deadzone: true, angle: east(), direction: east() },
        AnalogStick { in_deadzone: true, angle: east(), direction: east() },
    );
    let cmds = mgr.handle_character_actions(&vec![], None).unwrap();
    assert_eq!(cmds, vec![Command::Release { key: "LeftClick".to_string() }]);
}

#[test]
fn free_aim_without_hover_targets_origin() {
    let mut mgr = ActionManager::initialize(test_settings());
    mgr.process_input_analogs(
        AnalogStick { in_deadzone: true, angle: east(), direction: east() },
        AnalogStick { in_deadzone: false, angle: east(), direction: east() },
    );
    let cmds = mgr.handle_character_actions(&vec![], None).unwrap();
    assert_eq!(
        cmds,
        vec![
            Command::MoveTo { x: 0, y: 0 },
            Command::Release { key: "LeftClick".to_string() },
        ]
    );
}

#[test]
fn free_aim_nudges_hover_by_sensitivity() {
    let mut mgr = ActionManager::initialize(test_settings());
    // Aim stick fully deflected up: x nudge 0, y nudge -sensitivity.
    mgr.process_input_analogs(
        AnalogStick { in_deadzone: true, angle: east(), direction: east() },
        AnalogStick { in_deadzone: false, angle: north(), direction: north() },
    );
    let cmds = mgr.handle_character_actions(&vec![], Some((600, 400))).unwrap();
    assert_eq!(cmds[0], Command::MoveTo { x: 600, y: 400 - 10 });
}

#[test]
fn unmapped_queued_action_is_fatal_and_leaves_engine_untouched() {
    let mut settings = test_settings();
    settings.button_mapping.clear();
    let mut mgr = ActionManager::initialize(settings);
    let mut buttons = vec![button("Fireball", true, false)];
    mgr.process_input_buttons(&mut buttons).unwrap();
    let r = mgr.handle_character_actions(&vec![], None);
    assert_eq!(r, Err(EngineError::UnmappedAction { action: "Fireball".to_string() }));
    // The tick was abandoned: the queue still holds the action.
    let r2 = mgr.handle_character_actions(&vec![], None);
    assert!(r2.is_err());
}

#[test]
fn unmapped_held_ability_key_is_fatal_while_walking() {
    let mut mgr = ActionManager::initialize(test_settings());
    walking_and_aiming(&mut mgr, north(), east());
    let held = vec!["mystery".to_string()];
    let r = mgr.handle_character_actions(&held, None);
    assert_eq!(r, Err(EngineError::UnmappedAbility { key: "mystery".to_string() }));
}

#[test]
fn unmapped_held_ability_key_is_ignored_while_not_walking() {
    let mut mgr = ActionManager::initialize(test_settings());
    // Not walking: the swivel never runs, so the held key is never looked up.
    let held = vec!["mystery".to_string()];
    let cmds = mgr.handle_character_actions(&held, None).unwrap();
    assert_eq!(cmds, vec![Command::Release { key: "LeftClick".to_string() }]);
}

#[test]
fn analog_latch_keeps_angle_inside_deadzone() {
    let mut mgr = ActionManager::initialize(test_settings());
    walking_and_aiming(&mut mgr, north(), east());
    assert!(mgr.holding_walk && mgr.holding_aim);
    assert_eq!(mgr.walking_angle, north());
    mgr.process_input_analogs(
        AnalogStick { in_deadzone: true, angle: east(), direction: east() },
        AnalogStick { in_deadzone: true, angle: north(), direction: north() },
    );
    // Holding flags drop, latched angles stay.
    assert!(!mgr.holding_walk && !mgr.holding_aim);
    assert_eq!(mgr.walking_angle, north());
    assert_eq!(mgr.aiming_angle, east());
}

#[test]
fn press_then_release_sequence_over_two_ticks() {
    let mut mgr = ActionManager::initialize(test_settings());
    let mut buttons = vec![button("Potion", true, false)];
    mgr.process_input_buttons(&mut buttons).unwrap();
    let cmds = mgr.handle_character_actions(&vec![], None).unwrap();
    assert_eq!(cmds[0], Command::Press { key: "r".to_string() });
    let mut buttons = vec![button("Potion", false, true)];
    mgr.process_input_buttons(&mut buttons).unwrap();
    let cmds = mgr.handle_character_actions(&vec![], None).unwrap();
    assert_eq!(cmds[0], Command::Release { key: "r".to_string() });
}

#[test]
fn settings_getters_hand_back_fields() {
    let settings = test_settings();
    assert_eq!(settings.overlay_settings().screen_width(), 1920);
    assert_eq!(settings.overlay_settings().screen_height(), 1080);
    assert!(settings.overlay_settings().show_crosshair());
    assert!(!settings.overlay_settings().windowed_mode());
    assert_eq!(settings.controller_settings().walk_circle_radius_px(), 200);
    assert_eq!(settings.controller_settings().free_mouse_sensitivity_px(), 10);
    assert_eq!(settings.controller_settings().controller_type(), "generic");
    assert_eq!(settings.button_mapping_settings().len(), 4);
    assert_eq!(settings.ability_mapping_settings().len(), 3);
    assert_eq!(settings.aimable_buttons().len(), 2);
    assert_eq!(settings.action_distances().len(), 4);
}
