use tower_game::command::Action;
use tower_game::command::Command;
use tower_game::command::CommandPoolArrayBuilder;
use tower_game::command::CommandPoolBuilder;
use tower_game::command::KeyCode;
use tower_game::command::iter_cols_rows;
use tower_game::command::MOD_CONTROL;
use tower_game::command::MOD_NONE;
use tower_game::CONTROLS_HEIGHT;
use tower_game::WINDOW_HEIGHT;

#[test]
fn register_and_lookup() {
    let pool = CommandPoolBuilder::new()
        .on_letter_press('w', "Scroll up", Command::new(Action::ScrollUp))
        .on_letter_press('s', "Scroll down", Command::new(Action::ScrollDown))
        .build();
    let w = pool.get_command(KeyCode::Char('w'), MOD_NONE).unwrap();
    assert_eq!(w.op(), Action::ScrollUp);
    assert!(!w.is_triggered_on_repeat());
    let s = pool.get_command(KeyCode::Char('s'), MOD_NONE).unwrap();
    assert_eq!(s.op(), Action::ScrollDown);
}

#[test]
fn lookup_unbound_returns_none() {
    let pool = CommandPoolBuilder::new()
        .on_letter_press('w', "Scroll up", Command::new(Action::ScrollUp))
        .build();
    assert!(pool.get_command(KeyCode::Char('z'), MOD_NONE).is_none());
    assert!(pool.get_command(KeyCode::Char('w'), MOD_CONTROL).is_none());
    assert!(pool.get_command(KeyCode::Other, MOD_NONE).is_none());
}

#[test]
fn duplicate_key_overwrites() {
    let pool = CommandPoolBuilder::new()
        .on_letter_press('w', "Scroll up", Command::new(Action::ScrollUp))
        .on_letter_press('w', "Scroll down instead", Command::new(Action::ScrollDown))
        .build();
    let w = pool.get_command(KeyCode::Char('w'), MOD_NONE).unwrap();
    assert_eq!(w.op(), Action::ScrollDown);
    // The label list keeps both entries, as registration order.
    assert_eq!(pool.draw().len(), 2);
}

#[test]
fn repeat_flag_carries() {
    let c = Command::with_triggered_on_repeat(Action::ScrollUp, true);
    assert!(c.is_triggered_on_repeat());
    assert_eq!(c.op(), Action::ScrollUp);
}

#[test]
fn set_active_preserves_registry_contents() {
    let mut builder = CommandPoolArrayBuilder::new();
    let a = builder.add_pool(
        CommandPoolBuilder::new()
            .on_letter_press('w', "Scroll up", Command::new(Action::ScrollUp))
            .build(),
    );
    let b = builder.add_pool(
        CommandPoolBuilder::new()
            .on_letter_press('x', "Exit", Command::new(Action::Exit))
            .build(),
    );
    let mut array = builder.with_initial_pool(a);
    assert_eq!(
        array.cur().get_command(KeyCode::Char('w'), MOD_NONE).unwrap().op(),
        Action::ScrollUp
    );
    array.set_id(b);
    assert_eq!(array.id(), b);
    assert_eq!(
        array.cur().get_command(KeyCode::Char('x'), MOD_NONE).unwrap().op(),
        Action::Exit
    );
    assert!(array.cur().get_command(KeyCode::Char('w'), MOD_NONE).is_none());
    array.set_id(a);
    assert_eq!(
        array.cur().get_command(KeyCode::Char('w'), MOD_NONE).unwrap().op(),
        Action::ScrollUp
    );
    assert!(array.cur().get_command(KeyCode::Char('x'), MOD_NONE).is_none());
}

#[test]
fn cols_rows_layout() {
    // Five visible rows per column: index 5 goes to column 1, row 0.
    assert_eq!(iter_cols_rows(5), (1, 0));
    assert_eq!(iter_cols_rows(0), (0, 0));
    assert_eq!(iter_cols_rows(4), (0, 4));
    assert_eq!(iter_cols_rows(12), (2, 2));
}

#[test]
fn help_panel_twelve_bindings() {
    // Twelve registered bindings, five visible rows per column: binding
    // index 5 renders at column 1, row 0 of the panel.
    let keys = ['a', 'b', 'c', 'd', 'e', 'f', 'g', 'h', 'i', 'j', 'k', 'l'];
    let mut builder = CommandPoolBuilder::new();
    for k in keys {
        builder = builder.on_letter_press(k, "cmd", Command::new(Action::ScrollUp));
    }
    let pool = builder.build();
    let lines = pool.draw();
    assert_eq!(lines.len(), 12);
    let base_row = WINDOW_HEIGHT - CONTROLS_HEIGHT + 1;
    assert_eq!(lines[5].col, 1 + 16);
    assert_eq!(lines[5].row, base_row);
    assert_eq!(lines[0].col, 1);
    assert_eq!(lines[0].row, base_row);
    assert_eq!(lines[4].row, base_row + 8);
    assert_eq!(lines[11].col, 1 + 2 * 16);
    assert_eq!(lines[11].row, base_row + 2);
    assert_eq!(lines[5].text, "    f: cmd");
}

#[test]
fn help_label_format() {
    let pool = CommandPoolBuilder::new()
        .on_letter_press('w', "Scroll up", Command::new(Action::ScrollUp))
        .build();
    let lines = pool.draw();
    assert_eq!(lines[0].text, "    w: Scroll up");
}
