//! Event dispatch: one key press or one timer tick goes in, the game state
//! is mutated exactly once, and what must be redrawn comes out. The caller
//! performs the drawing and commits one atomic screen update per reaction.

use vstd::prelude::*;

use crate::command::Action;
use crate::command::Command;
use crate::command::KeyCode;
use crate::command::KeyEvent;
use crate::command::KeyEventKind;
use crate::command::MOD_CONTROL;
use crate::game_state::sat_i32;
use crate::game_state::APARTMENT_COST;
use crate::game_state::FOOD_COST;
use crate::game_state::RETAIL_COST;
use crate::layer::Layer;
use crate::layer::LayerType;
use crate::game_state::spec_debt_timer_after;
use crate::game_state::spec_funds_msg;
use crate::game_state::spec_goes_game_over;
use crate::game_state::spec_threshold_step;
use crate::game_state::spec_total_revenue;
use crate::game_state::GameState;

verus! {

/// What one reaction asks the caller to redraw. The funds panel message is
/// carried along when the funds/debt readout must be redrawn.
pub struct Effect {
    pub redraw_tower: bool,
    pub redraw_pool: bool,
    pub funds_message: Option<String>,
}

/// Nothing to redraw.
pub open spec fn spec_no_effect(e: Effect) -> bool {
    !e.redraw_tower && !e.redraw_pool && e.funds_message is None
}

/// `o` carries exactly the message `m`.
pub open spec fn spec_msg_is(o: Option<String>, m: Seq<char>) -> bool {
    match o {
        Some(s) => s@ == m,
        None => false,
    }
}

/// An `Effect` that asks for nothing.
fn no_effect() -> (e: Effect)
    ensures
        spec_no_effect(e),
{
    Effect { redraw_tower: false, redraw_pool: false, funds_message: None }
}

/// The debt timer and funds balance of `b` are those of `a` after a funds
/// update with the given charges and debits.
pub open spec fn spec_debt_funds(a: GameState, b: GameState, charges: int, debits: int) -> bool {
    &&& b.debt_collection_timer as int == spec_debt_timer_after(
        a.debt_collection_timer as int,
        a.funds as int,
    )
    &&& b.funds as int == sat_i32(sat_i32(a.funds as int + debits) - charges)
}

/// The active menu of `b` is that of `a`, except that a game-over transition
/// switched it to the terminal registry.
pub open spec fn spec_menu_after_funds(a: GameState, b: GameState) -> bool {
    b.command_pool_array.spec_id() == (if spec_goes_game_over(
        a.debt_collection_timer as int,
        a.funds as int,
    ) {
        a.command_pool_game_over_id
    } else {
        a.command_pool_array.spec_id()
    })
}

/// What executing `cmd` does: the exact relation between the state before
/// (`a`), the state after (`b`), and the returned effect `e`, per action.
pub open spec fn spec_command_effect(cmd: Command, a: GameState, b: GameState, e: Effect) -> bool {
    &&& b.command_pool_main_id == a.command_pool_main_id
    &&& b.command_pool_build_id == a.command_pool_build_id
    &&& b.command_pool_game_over_id == a.command_pool_game_over_id
    &&& b.command_pool_array.spec_pools() == a.command_pool_array.spec_pools()
    &&& match cmd.spec_op() {
        Action::ScrollUp => {
            &&& b.scroll_pos as int == (if a.scroll_pos < u16::MAX {
                a.scroll_pos as int + 1
            } else {
                u16::MAX as int
            })
            &&& b.layers@ == a.layers@
            &&& spec_debt_funds(a, b, 0, 0)
            &&& spec_menu_after_funds(a, b)
            &&& b.same_flags(a)
            &&& e.redraw_tower
            &&& e.redraw_pool == spec_goes_game_over(
                a.debt_collection_timer as int,
                a.funds as int,
            )
            &&& spec_msg_is(
                e.funds_message,
                spec_funds_msg(a.debt_collection_timer as int, a.funds as int, 0, 0),
            )
        },
        Action::ScrollDown => {
            &&& b.scroll_pos as int == (if a.scroll_pos > 0 {
                a.scroll_pos as int - 1
            } else {
                0
            })
            &&& b.layers@ == a.layers@
            &&& spec_debt_funds(a, b, 0, 0)
            &&& spec_menu_after_funds(a, b)
            &&& b.same_flags(a)
            &&& e.redraw_tower
            &&& e.redraw_pool == spec_goes_game_over(
                a.debt_collection_timer as int,
                a.funds as int,
            )
            &&& spec_msg_is(
                e.funds_message,
                spec_funds_msg(a.debt_collection_timer as int, a.funds as int, 0, 0),
            )
        },
        Action::EnterBuildMenu => {
            &&& b.command_pool_array.spec_id() == a.command_pool_build_id
            &&& b.same_building(a)
            &&& b.same_economy(a)
            &&& b.same_flags(a)
            &&& !e.redraw_tower
            &&& e.redraw_pool
            &&& e.funds_message is None
        },
        Action::BuildFood => spec_purchase_effect(a, b, e, LayerType::Food, FOOD_COST as int),
        Action::BuildApartment => spec_purchase_effect(
            a,
            b,
            e,
            LayerType::Apartment,
            APARTMENT_COST as int,
        ),
        Action::BuildRetail => spec_purchase_effect(a, b, e, LayerType::Retail, RETAIL_COST as int),
        Action::CancelBuild => {
            &&& b.command_pool_array.spec_id() == a.command_pool_main_id
            &&& b.same_building(a)
            &&& b.same_economy(a)
            &&& b.same_flags(a)
            &&& !e.redraw_tower
            &&& e.redraw_pool
            &&& e.funds_message is None
        },
        Action::Retry => {
            &&& b.restarting
            &&& b.running == a.running
            &&& b.command_pool_array.spec_id() == a.command_pool_array.spec_id()
            &&& b.same_building(a)
            &&& b.same_economy(a)
            &&& spec_no_effect(e)
        },
        Action::Exit => {
            &&& !b.running
            &&& b.restarting == a.restarting
            &&& b.command_pool_array.spec_id() == a.command_pool_array.spec_id()
            &&& b.same_building(a)
            &&& b.same_economy(a)
            &&& spec_no_effect(e)
        },
    }
}

/// What buying a layer of type `style` for `cost` does: the layer is
/// appended with zero occupancy, the cost is charged through the debt cycle,
/// and the main menu becomes active again.
pub open spec fn spec_purchase_effect(
    a: GameState,
    b: GameState,
    e: Effect,
    style: LayerType,
    cost: int,
) -> bool {
    &&& b.layers@.len() == a.layers@.len() + 1
    &&& forall|i: int| 0 <= i < a.layers@.len() ==> b.layers@[i] == a.layers@[i]
    &&& b.layers@.last().style == style
    &&& b.layers@.last().occupancy == 0
    &&& b.layers@.last().wf()
    &&& b.scroll_pos == a.scroll_pos
    &&& spec_debt_funds(a, b, cost, 0)
    &&& b.command_pool_array.spec_id() == a.command_pool_main_id
    &&& b.same_flags(a)
    &&& e.redraw_tower
    &&& e.redraw_pool
    &&& spec_msg_is(
        e.funds_message,
        spec_funds_msg(a.debt_collection_timer as int, a.funds as int, cost, 0),
    )
}

impl Command {
    /// Runs this command's action against the game state and reports what to
    /// redraw.
    pub fn execute(&self, gs: &mut GameState) -> (e: Effect)
        requires
            old(gs).wf(),
        ensures
            final(gs).wf(),
            spec_command_effect(*self, *old(gs), *final(gs), e),
    {
        match self.op() {
            Action::ScrollUp => {
                let went_game_over = gs.debt_collection_timer == 0 && gs.funds < 0;
                gs.scroll_pos = gs.scroll_pos.saturating_add(1);
                let msg = gs.draw_funds(0, 0);
                Effect { redraw_tower: true, redraw_pool: went_game_over, funds_message: Some(msg) }
            },
            Action::ScrollDown => {
                let went_game_over = gs.debt_collection_timer == 0 && gs.funds < 0;
                gs.scroll_pos = gs.scroll_pos.saturating_sub(1);
                let msg = gs.draw_funds(0, 0);
                Effect { redraw_tower: true, redraw_pool: went_game_over, funds_message: Some(msg) }
            },
            Action::EnterBuildMenu => {
                let id = gs.command_pool_build_id;
                gs.enter_menu(id);
                Effect { redraw_tower: false, redraw_pool: true, funds_message: None }
            },
            Action::BuildFood => purchase(gs, LayerType::Food, FOOD_COST),
            Action::BuildApartment => purchase(gs, LayerType::Apartment, APARTMENT_COST),
            Action::BuildRetail => purchase(gs, LayerType::Retail, RETAIL_COST),
            Action::CancelBuild => {
                let id = gs.command_pool_main_id;
                gs.enter_menu(id);
                Effect { redraw_tower: false, redraw_pool: true, funds_message: None }
            },
            Action::Retry => {
                gs.restarting = true;
                no_effect()
            },
            Action::Exit => {
                gs.running = false;
                no_effect()
            },
        }
    }
}

/// Buys one layer: appends it, charges its cost, and returns to the main
/// menu.
fn purchase(gs: &mut GameState, style: LayerType, cost: i32) -> (e: Effect)
    requires
        old(gs).wf(),
        cost >= 0,
    ensures
        final(gs).wf(),
        final(gs).command_pool_main_id == old(gs).command_pool_main_id,
        final(gs).command_pool_build_id == old(gs).command_pool_build_id,
        final(gs).command_pool_game_over_id == old(gs).command_pool_game_over_id,
        final(gs).command_pool_array.spec_pools() == old(gs).command_pool_array.spec_pools(),
        spec_purchase_effect(*old(gs), *final(gs), e, style, cost as int),
{
    gs.add_layer(style);
    let msg = gs.draw_funds(cost, 0);
    let id = gs.command_pool_main_id;
    gs.enter_menu(id);
    Effect { redraw_tower: true, redraw_pool: true, funds_message: Some(msg) }
}

/// The reserved quit combination: control-C, on the initial press only.
pub open spec fn spec_is_quit_combo(ke: KeyEvent) -> bool {
    ke.code == KeyCode::Char('c') && ke.modifiers == MOD_CONTROL && ke.kind == KeyEventKind::Press
}

/// The command the active registry binds to this event's key, if any.
pub open spec fn spec_key_lookup(a: GameState, ke: KeyEvent) -> Option<Command> {
    match ke.code {
        KeyCode::Char(c) => a.spec_cur_pool().spec_get(c, ke.modifiers),
        KeyCode::Other => None,
    }
}

/// Whether a bound command fires for this event kind: always on the initial
/// press, on repeats only when marked repeat-triggered, never on release.
pub open spec fn spec_key_fires(cmd: Command, kind: KeyEventKind) -> bool {
    match kind {
        KeyEventKind::Press => true,
        KeyEventKind::Repeat => cmd.spec_triggered_on_repeat(),
        KeyEventKind::Release => false,
    }
}

/// Reacts to one key event. The quit combination stops the loop
/// unconditionally, whatever menu is active; otherwise the active registry
/// decides, unbound keys are silently ignored, and repeat events run only
/// repeat-triggered commands.
pub fn handle_key_event(gs: &mut GameState, ke: KeyEvent) -> (e: Effect)
    requires
        old(gs).wf(),
    ensures
        final(gs).wf(),
        ({
            let a = *old(gs);
            let b = *final(gs);
            if spec_is_quit_combo(ke) {
                &&& !b.running
                &&& b.restarting == a.restarting
                &&& b.same_menus(a)
                &&& b.command_pool_array.spec_id() == a.command_pool_array.spec_id()
                &&& b.same_building(a)
                &&& b.same_economy(a)
                &&& spec_no_effect(e)
            } else {
                match spec_key_lookup(a, ke) {
                    Some(cmd) => if spec_key_fires(cmd, ke.kind) {
                        spec_command_effect(cmd, a, b, e)
                    } else {
                        b == a && spec_no_effect(e)
                    },
                    None => b == a && spec_no_effect(e),
                }
            }
        }),
{
    let is_quit = ke.code == KeyCode::Char('c') && ke.modifiers == MOD_CONTROL && ke.kind
        == KeyEventKind::Press;
    if is_quit {
        gs.running = false;
        return no_effect();
    }
    let cmd_opt = {
        let pool = gs.command_pool();
        pool.get_command(ke.code, ke.modifiers)
    };
    match cmd_opt {
        None => no_effect(),
        Some(command) => {
            match ke.kind {
                KeyEventKind::Press => command.execute(gs),
                KeyEventKind::Repeat => {
                    if command.is_triggered_on_repeat() {
                        command.execute(gs)
                    } else {
                        no_effect()
                    }
                },
                KeyEventKind::Release => no_effect(),
            }
        },
    }
}

/// The per-tick revenue credit: the revenue sum, clamped from above so the
/// credit fits an `i32`.
pub open spec fn spec_clamped_revenue(layers: Seq<Layer>) -> int {
    let r = spec_total_revenue(layers);
    if r > i32::MAX {
        i32::MAX as int
    } else {
        r
    }
}

/// Reacts to one timer tick. While the debt timer runs, it counts down one,
/// the occupancy simulation advances one step, and the layers' summed
/// revenue is credited. On the tick after it has run out, only the debt
/// mechanic runs: the inspection verdict is applied and the occupancy
/// simulation does not advance.
pub fn handle_time_tick(gs: &mut GameState, move_out_thresh: u64, move_in_thresh: u64) -> (e:
    Effect)
    requires
        old(gs).wf(),
    ensures
        final(gs).wf(),
        ({
            let a = *old(gs);
            let b = *final(gs);
            &&& b.command_pool_main_id == a.command_pool_main_id
            &&& b.command_pool_build_id == a.command_pool_build_id
            &&& b.command_pool_game_over_id == a.command_pool_game_over_id
            &&& b.command_pool_array.spec_pools() == a.command_pool_array.spec_pools()
            &&& b.same_flags(a)
            &&& b.scroll_pos == a.scroll_pos
            &&& if a.debt_collection_timer == 0 {
                &&& b.layers@ == a.layers@
                &&& spec_debt_funds(a, b, 0, 0)
                &&& spec_menu_after_funds(a, b)
                &&& !e.redraw_tower
                &&& e.redraw_pool == spec_goes_game_over(0, a.funds as int)
                &&& spec_msg_is(e.funds_message, spec_funds_msg(0, a.funds as int, 0, 0))
            } else {
                let t = a.debt_collection_timer as int - 1;
                let credit = spec_clamped_revenue(b.layers@);
                &&& b.layers@.len() == a.layers@.len()
                &&& forall|i: int|
                    0 <= i < a.layers@.len() ==> spec_threshold_step(
                        a.layers@[i],
                        #[trigger] b.layers@[i],
                        move_out_thresh,
                        move_in_thresh,
                    )
                &&& b.debt_collection_timer as int == spec_debt_timer_after(t, a.funds as int)
                &&& b.funds as int == sat_i32(a.funds as int + credit)
                &&& b.command_pool_array.spec_id() == (if spec_goes_game_over(t, a.funds as int) {
                    a.command_pool_game_over_id
                } else {
                    a.command_pool_array.spec_id()
                })
                &&& e.redraw_tower
                &&& e.redraw_pool == spec_goes_game_over(t, a.funds as int)
                &&& spec_msg_is(
                    e.funds_message,
                    spec_funds_msg(t, a.funds as int, 0, credit),
                )
            }
        }),
{
    if gs.debt_collection_timer == 0 {
        let went_game_over = gs.funds < 0;
        let msg = gs.draw_funds(0, 0);
        return Effect { redraw_tower: false, redraw_pool: went_game_over, funds_message: Some(msg) };
    }
    gs.debt_collection_timer = gs.debt_collection_timer - 1;
    gs.update_occupancies(move_out_thresh, move_in_thresh);
    let ghost mid = *gs;
    let rev = gs.total_revenue();
    let debits: i32 = if rev > i32::MAX as u64 {
        i32::MAX
    } else {
        rev as i32
    };
    let went_game_over = gs.debt_collection_timer == 0 && gs.funds < 0;
    let msg = gs.draw_funds(0, debits);
    proof {
        let a = *old(gs);
        assert(gs.layers@ == mid.layers@);
        assert forall|i: int| 0 <= i < a.layers@.len() implies spec_threshold_step(
            a.layers@[i],
            #[trigger] gs.layers@[i],
            move_out_thresh,
            move_in_thresh,
        ) by {
            assert(spec_threshold_step(
                a.layers@[i],
                mid.layers@[i],
                move_out_thresh,
                move_in_thresh,
            ));
        }
        assert(crate::game_state::layers_wf(gs.layers@));
    }
    Effect { redraw_tower: true, redraw_pool: went_game_over, funds_message: Some(msg) }
}

} // verus!
