use tower_game::command::KeyCode;
use tower_game::command::KeyEvent;
use tower_game::command::KeyEventKind;
use tower_game::command::MOD_CONTROL;
use tower_game::command::MOD_NONE;
use tower_game::dispatch::handle_key_event;
use tower_game::dispatch::handle_time_tick;
use tower_game::game_state::init_game_state;
use tower_game::game_state::sat_add_i32;
use tower_game::game_state::sat_sub_i32;
use tower_game::layer::LayerType;
use tower_game::rng::UNIT_SCALE;

fn press(c: char) -> KeyEvent {
    KeyEvent { code: KeyCode::Char(c), modifiers: MOD_NONE, kind: KeyEventKind::Press }
}

#[test]
fn initial_state() {
    let gs = init_game_state();
    assert_eq!(gs.funds, 10000);
    assert_eq!(gs.debt_collection_timer, 50);
    assert_eq!(gs.layers.len(), 0);
    assert_eq!(gs.scroll_pos, 0);
    assert!(gs.running);
    assert!(!gs.restarting);
    assert_eq!(gs.command_pool_array.id(), gs.command_pool_main_id);
}

#[test]
fn add_layer_uses_fixed_table() {
    let mut gs = init_game_state();
    gs.add_layer(LayerType::Apartment);
    gs.add_layer(LayerType::Food);
    gs.add_layer(LayerType::Retail);
    assert_eq!(gs.layers[0].max_occupancy, 20);
    assert_eq!(gs.layers[0].revenue_per_occupant, 17);
    assert_eq!(gs.layers[1].max_occupancy, 30);
    assert_eq!(gs.layers[1].revenue_per_occupant, 7);
    assert_eq!(gs.layers[2].max_occupancy, 10);
    assert_eq!(gs.layers[2].revenue_per_occupant, 12);
    for l in &gs.layers {
        assert_eq!(l.occupancy, 0);
    }
}

#[test]
fn scroll_commands_shift_and_saturate() {
    let mut gs = init_game_state();
    let e = handle_key_event(&mut gs, press('w'));
    assert_eq!(gs.scroll_pos, 1);
    assert!(e.redraw_tower);
    assert!(!e.redraw_pool);
    assert_eq!(e.funds_message.as_deref(), Some(""));
    handle_key_event(&mut gs, press('s'));
    assert_eq!(gs.scroll_pos, 0);
    // Scrolling down at the ground saturates at zero.
    handle_key_event(&mut gs, press('s'));
    assert_eq!(gs.scroll_pos, 0);
}

#[test]
fn unbound_keys_are_ignored() {
    let mut gs = init_game_state();
    let e = handle_key_event(&mut gs, press('z'));
    assert_eq!(gs.funds, 10000);
    assert_eq!(gs.scroll_pos, 0);
    assert!(!e.redraw_tower && !e.redraw_pool && e.funds_message.is_none());
    // Build-menu keys are not bound in the main menu.
    let e = handle_key_event(&mut gs, press('a'));
    assert_eq!(gs.layers.len(), 0);
    assert!(e.funds_message.is_none());
}

#[test]
fn repeat_fires_only_repeat_triggered_commands() {
    let mut gs = init_game_state();
    let repeat_w = KeyEvent {
        code: KeyCode::Char('w'),
        modifiers: MOD_NONE,
        kind: KeyEventKind::Repeat,
    };
    let e = handle_key_event(&mut gs, repeat_w);
    // The scroll commands are registered for the initial press only.
    assert_eq!(gs.scroll_pos, 0);
    assert!(e.funds_message.is_none());
    let release_w = KeyEvent {
        code: KeyCode::Char('w'),
        modifiers: MOD_NONE,
        kind: KeyEventKind::Release,
    };
    handle_key_event(&mut gs, release_w);
    assert_eq!(gs.scroll_pos, 0);
}

#[test]
fn quit_combo_stops_the_loop_everywhere() {
    let mut gs = init_game_state();
    handle_key_event(&mut gs, press('b'));
    assert_eq!(gs.command_pool_array.id(), gs.command_pool_build_id);
    let ctrl_c = KeyEvent {
        code: KeyCode::Char('c'),
        modifiers: MOD_CONTROL,
        kind: KeyEventKind::Press,
    };
    handle_key_event(&mut gs, ctrl_c);
    assert!(!gs.running);
}

#[test]
fn build_menu_cancel_returns_to_main() {
    let mut gs = init_game_state();
    let e = handle_key_event(&mut gs, press('b'));
    assert!(e.redraw_pool);
    assert_eq!(gs.command_pool_array.id(), gs.command_pool_build_id);
    let e = handle_key_event(&mut gs, press('x'));
    assert!(e.redraw_pool);
    assert_eq!(gs.command_pool_array.id(), gs.command_pool_main_id);
    assert_eq!(gs.funds, 10000);
    assert_eq!(gs.layers.len(), 0);
}

#[test]
fn purchases_charge_fixed_costs() {
    let mut gs = init_game_state();
    handle_key_event(&mut gs, press('b'));
    let e = handle_key_event(&mut gs, press('f'));
    assert_eq!(gs.funds, 0);
    assert_eq!(gs.layers.len(), 1);
    assert_eq!(gs.layers[0].max_occupancy, 30);
    assert_eq!(e.funds_message.as_deref(), Some("You were charged $10000"));
    assert_eq!(gs.command_pool_array.id(), gs.command_pool_main_id);

    let mut gs = init_game_state();
    handle_key_event(&mut gs, press('b'));
    handle_key_event(&mut gs, press('r'));
    assert_eq!(gs.funds, 2000);
    assert_eq!(gs.layers[0].max_occupancy, 10);
}

#[test]
fn tick_decrements_timer_and_credits_revenue() {
    let mut gs = init_game_state();
    gs.add_layer(LayerType::Apartment);
    gs.layers[0].occupancy = 10;
    gs.layers[0].set_string();
    // Both thresholds zero: no one moves in or out.
    let e = handle_time_tick(&mut gs, 0, 0);
    assert_eq!(gs.debt_collection_timer, 49);
    assert_eq!(gs.layers[0].occupancy, 10);
    assert_eq!(gs.funds, 10000 + 10 * 17);
    assert!(e.redraw_tower);
    assert_eq!(e.funds_message.as_deref(), Some("You made $170"));
}

#[test]
fn occupancy_always_moves_in_at_full_threshold() {
    let mut gs = init_game_state();
    gs.add_layer(LayerType::Retail);
    gs.add_layer(LayerType::Food);
    gs.layers[0].occupancy = 10;
    gs.layers[0].set_string();
    // Move-out probability zero, move-in probability one.
    gs.update_occupancies(0, UNIT_SCALE);
    // The full layer stays at its capacity; the empty one gains one.
    assert_eq!(gs.layers[0].occupancy, 10);
    assert_eq!(gs.layers[1].occupancy, 1);
}

#[test]
fn occupancy_always_moves_out_at_full_threshold() {
    let mut gs = init_game_state();
    gs.add_layer(LayerType::Retail);
    gs.add_layer(LayerType::Food);
    gs.layers[0].occupancy = 10;
    gs.layers[0].set_string();
    // Move-out probability one: every occupied layer loses one occupant,
    // empty layers stay at zero.
    gs.update_occupancies(UNIT_SCALE, UNIT_SCALE);
    assert_eq!(gs.layers[0].occupancy, 9);
    assert_eq!(gs.layers[1].occupancy, 0);
}

#[test]
fn occupancy_stays_within_bounds_over_many_ticks() {
    let mut gs = init_game_state();
    gs.add_layer(LayerType::Apartment);
    gs.add_layer(LayerType::Retail);
    // Random draws: roughly half move out, all others move in.
    for _ in 0..200 {
        gs.update_occupancies(UNIT_SCALE / 2, UNIT_SCALE);
        for l in &gs.layers {
            assert!(l.occupancy <= l.max_occupancy);
        }
    }
}

#[test]
fn inspection_passes_with_nonnegative_funds() {
    let mut gs = init_game_state();
    gs.debt_collection_timer = 0;
    let e = handle_time_tick(&mut gs, 0, 0);
    assert_eq!(gs.debt_collection_timer, 50);
    assert_eq!(gs.command_pool_array.id(), gs.command_pool_main_id);
    assert_eq!(gs.funds, 10000);
    assert!(!e.redraw_pool);
    assert_eq!(
        e.funds_message.as_deref(),
        Some("YOU PASSED THE DEBT COLLECTOR'S INSPECTION!")
    );
}

#[test]
fn debt_with_negative_funds_ends_the_game() {
    let mut gs = init_game_state();
    gs.funds = -5;
    gs.debt_collection_timer = 0;
    let e = handle_time_tick(&mut gs, 0, 0);
    assert_eq!(gs.command_pool_array.id(), gs.command_pool_game_over_id);
    assert_eq!(gs.debt_collection_timer, 0);
    assert!(e.redraw_pool);
    assert_eq!(
        e.funds_message.as_deref(),
        Some("YOU DID NOT HAVE FUNDS TO PAY THE DEBT COLLECTOR. GAME OVER.")
    );
}

#[test]
fn game_over_menu_locks_normal_controls() {
    let mut gs = init_game_state();
    gs.funds = -5;
    gs.debt_collection_timer = 0;
    handle_time_tick(&mut gs, 0, 0);
    // No normal-mode binding is reachable in the game-over context.
    for key in ['w', 's', 'b', 'f', 'a'] {
        assert!(gs.command_pool().get_command(KeyCode::Char(key), MOD_NONE).is_none());
    }
    assert!(gs.command_pool().get_command(KeyCode::Char('r'), MOD_NONE).is_some());
    assert!(gs.command_pool().get_command(KeyCode::Char('x'), MOD_NONE).is_some());
    // Scrolling does nothing now.
    handle_key_event(&mut gs, press('w'));
    assert_eq!(gs.scroll_pos, 0);
}

#[test]
fn bankruptcy_scenario() {
    // Start with 10000, buy an apartment costing 12000: funds go to -2000.
    let mut gs = init_game_state();
    handle_key_event(&mut gs, press('b'));
    let e = handle_key_event(&mut gs, press('a'));
    assert_eq!(gs.funds, -2000);
    assert_eq!(gs.layers.len(), 1);
    assert_eq!(e.funds_message.as_deref(), Some("You were charged $12000"));

    // Ticks exhaust the debt timer down to zero (occupancy held still).
    for _ in 0..50 {
        handle_time_tick(&mut gs, 0, 0);
    }
    assert_eq!(gs.debt_collection_timer, 0);
    assert_eq!(gs.command_pool_array.id(), gs.command_pool_game_over_id);

    // Retry asks for a restart; a fresh state has full funds and no layers.
    handle_key_event(&mut gs, press('r'));
    assert!(gs.restarting);
    let gs = init_game_state();
    assert_eq!(gs.funds, 10000);
    assert_eq!(gs.layers.len(), 0);
}

#[test]
fn exit_command_stops_the_loop() {
    let mut gs = init_game_state();
    gs.funds = -5;
    gs.debt_collection_timer = 0;
    handle_time_tick(&mut gs, 0, 0);
    handle_key_event(&mut gs, press('x'));
    assert!(!gs.running);
}

#[test]
fn funds_messages() {
    let mut gs = init_game_state();
    let msg = gs.draw_funds(100, 0);
    assert_eq!(msg, "You were charged $100");
    assert_eq!(gs.funds, 9900);
    let msg = gs.draw_funds(0, 250);
    assert_eq!(msg, "You made $250");
    assert_eq!(gs.funds, 10150);
    let msg = gs.draw_funds(0, 0);
    assert_eq!(msg, "");
}

#[test]
fn saturating_funds_arithmetic() {
    assert_eq!(sat_add_i32(i32::MAX, 1), i32::MAX);
    assert_eq!(sat_add_i32(i32::MAX - 1, 1), i32::MAX);
    assert_eq!(sat_sub_i32(i32::MIN, 1), i32::MIN);
    assert_eq!(sat_sub_i32(-2, 3), -5);
    assert_eq!(sat_add_i32(2, 3), 5);
}

#[test]
fn total_sums() {
    let mut gs = init_game_state();
    gs.add_layer(LayerType::Apartment);
    gs.add_layer(LayerType::Food);
    gs.layers[0].occupancy = 4;
    gs.layers[1].occupancy = 6;
    assert_eq!(gs.total_occupancy(), 10);
    assert_eq!(gs.total_revenue(), 4 * 17 + 6 * 7);
}

#[test]
fn tick_when_bankrupt_repeats_game_over_notice() {
    let mut gs = init_game_state();
    gs.funds = -5;
    gs.debt_collection_timer = 0;
    handle_time_tick(&mut gs, 0, 0);
    // A further tick does not advance the simulation or the timer.
    let e = handle_time_tick(&mut gs, 0, UNIT_SCALE);
    assert_eq!(gs.debt_collection_timer, 0);
    assert_eq!(gs.funds, -5);
    assert!(!e.redraw_tower);
}
