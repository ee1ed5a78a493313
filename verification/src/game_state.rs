//! The aggregate game state: menus, building, economy and loop flags, with
//! one owner. All mutation goes through the methods here, each of which
//! preserves the state's invariants: occupancy stays within capacity, layer
//! rates come from the fixed table, display cards stay current, and the
//! registries themselves are never modified after initialization.

use vstd::prelude::*;
use vstd::string::*;

use crate::command::pool_binds;
use crate::command::spec_help_panel;
use crate::command::spec_label;
use crate::command::Action;
use crate::command::Command;
use crate::command::CommandPool;
use crate::command::CommandPoolArray;
use crate::command::CommandPoolArrayBuilder;
use crate::command::CommandPoolBuilder;
use crate::command::CommandPoolId;
use crate::command::MOD_NONE;
use crate::layer::lemma_revenue_bound;
use crate::layer::spec_tower_view;
use crate::layer::Layer;
use crate::layer::LayerType;
use crate::rng::random_below;
use crate::rng::UNIT_SCALE;
use crate::screen::ScreenLine;
use crate::text::int_rep;

verus! {

/// Ticks between two visits of the debt collector.
pub const DEBT_COLLECTION_PERIOD: u32 = 50;

/// The funds balance a fresh game starts with.
pub const INITIAL_FUNDS: i32 = 10000;

/// Purchase price of a food-court layer.
pub const FOOD_COST: i32 = 10000;

/// Purchase price of an apartment layer.
pub const APARTMENT_COST: i32 = 12000;

/// Purchase price of a retail layer.
pub const RETAIL_COST: i32 = 8000;

/// Every layer is well formed.
pub open spec fn layers_wf(layers: Seq<Layer>) -> bool {
    forall|i: int| 0 <= i < layers.len() ==> (#[trigger] layers[i]).wf()
}

/// `x` clamped into the `i32` range.
pub open spec fn sat_i32(x: int) -> int {
    if x > i32::MAX {
        i32::MAX as int
    } else if x < i32::MIN {
        i32::MIN as int
    } else {
        x
    }
}

/// `x` clamped from above into the `u64` range.
pub open spec fn clamp_u64(x: int) -> int {
    if x > u64::MAX {
        u64::MAX as int
    } else {
        x
    }
}

/// Saturating `i32` addition.
pub fn sat_add_i32(a: i32, b: i32) -> (r: i32)
    ensures
        r as int == sat_i32(a as int + b as int),
{
    let s: i64 = a as i64 + b as i64;
    if s > i32::MAX as i64 {
        i32::MAX
    } else if s < i32::MIN as i64 {
        i32::MIN
    } else {
        s as i32
    }
}

/// Saturating `i32` subtraction.
pub fn sat_sub_i32(a: i32, b: i32) -> (r: i32)
    ensures
        r as int == sat_i32(a as int - b as int),
{
    let s: i64 = a as i64 - b as i64;
    if s > i32::MAX as i64 {
        i32::MAX
    } else if s < i32::MIN as i64 {
        i32::MIN
    } else {
        s as i32
    }
}

/// Sum of all layers' occupancies.
pub open spec fn spec_total_occupancy(layers: Seq<Layer>) -> int
    decreases layers.len(),
{
    if layers.len() == 0 {
        0
    } else {
        spec_total_occupancy(layers.drop_last()) + layers.last().occupancy
    }
}

/// Sum of all layers' per-tick revenues.
pub open spec fn spec_total_revenue(layers: Seq<Layer>) -> int
    decreases layers.len(),
{
    if layers.len() == 0 {
        0
    } else {
        spec_total_revenue(layers.drop_last()) + layers.last().spec_revenue()
    }
}

/// The occupancy sum is never negative.
proof fn lemma_total_occupancy_nonneg(layers: Seq<Layer>)
    ensures
        spec_total_occupancy(layers) >= 0,
    decreases layers.len(),
{
    if layers.len() > 0 {
        lemma_total_occupancy_nonneg(layers.drop_last());
    }
}

/// The revenue sum is never negative.
proof fn lemma_total_revenue_nonneg(layers: Seq<Layer>)
    ensures
        spec_total_revenue(layers) >= 0,
    decreases layers.len(),
{
    if layers.len() > 0 {
        lemma_total_revenue_nonneg(layers.drop_last());
        vstd::arithmetic::mul::lemma_mul_nonnegative(
            layers.last().occupancy as int,
            layers.last().revenue_per_occupant as int,
        );
    }
}

/// The whole game: menus, building, economy, and the loop flags. The output
/// sink is not part of the state; drawing functions return positioned lines.
pub struct GameState {
    pub running: bool,
    pub restarting: bool,
    pub command_pool_array: CommandPoolArray,
    pub command_pool_main_id: CommandPoolId,
    pub command_pool_build_id: CommandPoolId,
    pub command_pool_game_over_id: CommandPoolId,
    pub layers: Vec<Layer>,
    pub scroll_pos: u16,
    pub funds: i32,
    pub debt_collection_timer: u32,
}

impl GameState {
    /// The three menu ids index into the registry array.
    pub open spec fn ids_wf(self) -> bool {
        &&& 0 <= self.command_pool_main_id.spec_idx() < self.command_pool_array.spec_pools().len()
        &&& 0 <= self.command_pool_build_id.spec_idx() < self.command_pool_array.spec_pools().len()
        &&& 0 <= self.command_pool_game_over_id.spec_idx()
            < self.command_pool_array.spec_pools().len()
    }

    /// The game state's invariant: a well-formed registry array, valid menu
    /// ids, and well-formed layers.
    pub open spec fn wf(self) -> bool {
        &&& self.command_pool_array.wf()
        &&& self.ids_wf()
        &&& layers_wf(self.layers@)
    }

    /// The active registry, abstractly.
    pub open spec fn spec_cur_pool(self) -> CommandPool {
        self.command_pool_array.spec_cur()
    }

    /// `self` and `other` agree on the menus: the same registry array (the
    /// active id included) and the same three menu ids.
    pub open spec fn same_menus(self, other: GameState) -> bool {
        &&& self.command_pool_array == other.command_pool_array
        &&& self.command_pool_main_id == other.command_pool_main_id
        &&& self.command_pool_build_id == other.command_pool_build_id
        &&& self.command_pool_game_over_id == other.command_pool_game_over_id
    }

    /// `self` and `other` agree on funds and debt timer.
    pub open spec fn same_economy(self, other: GameState) -> bool {
        self.funds == other.funds && self.debt_collection_timer == other.debt_collection_timer
    }

    /// `self` and `other` agree on the loop flags.
    pub open spec fn same_flags(self, other: GameState) -> bool {
        self.running == other.running && self.restarting == other.restarting
    }

    /// `self` and `other` agree on the building: same layers, same scroll.
    pub open spec fn same_building(self, other: GameState) -> bool {
        self.layers@ == other.layers@ && self.scroll_pos == other.scroll_pos
    }

    /// The active registry.
    pub fn command_pool(&self) -> (r: &CommandPool)
        requires
            self.command_pool_array.wf(),
        ensures
            *r == self.spec_cur_pool(),
    {
        self.command_pool_array.cur()
    }

    /// The rendered help panel of the active registry.
    pub fn draw_command_pool(&self) -> (r: Vec<ScreenLine>)
        requires
            self.command_pool_array.wf(),
        ensures
            spec_help_panel(self.spec_cur_pool(), r@),
    {
        let pool = self.command_pool_array.cur();
        pool.draw()
    }

    /// The rendered building viewport, given the ground and roof art.
    pub fn draw_tower(&self, ground: &Vec<String>, roof: &Vec<String>) -> (r: Vec<ScreenLine>)
        requires
            layers_wf(self.layers@),
        ensures
            spec_tower_view(self.layers@, ground@, roof@, self.scroll_pos, r@),
    {
        proof {
            assert forall|i: int| 0 <= i < self.layers@.len() implies (#[trigger] self.layers@[i]).spec_revenue()
                <= u64::MAX by {
                lemma_revenue_bound(self.layers@[i]);
            }
        }
        crate::layer::layer_draw(&self.layers, ground, roof, self.scroll_pos)
    }

    /// Activates the registry `command_pool_id` selects. Registry contents
    /// are never touched.
    pub fn enter_menu(&mut self, command_pool_id: CommandPoolId)
        requires
            0 <= command_pool_id.spec_idx() < old(self).command_pool_array.spec_pools().len(),
        ensures
            final(self).command_pool_array.spec_id() == command_pool_id,
            final(self).command_pool_array.spec_pools() == old(self).command_pool_array.spec_pools(),
            final(self).command_pool_main_id == old(self).command_pool_main_id,
            final(self).command_pool_build_id == old(self).command_pool_build_id,
            final(self).command_pool_game_over_id == old(self).command_pool_game_over_id,
            final(self).same_building(*old(self)),
            final(self).same_economy(*old(self)),
            final(self).same_flags(*old(self)),
    {
        self.command_pool_array.set_id(command_pool_id);
    }

    /// Buys a new layer: capacity and revenue rate come from the fixed
    /// per-type table, occupancy starts at zero, and the display card is
    /// computed at once. The layer is appended on top of the building.
    pub fn add_layer(&mut self, style: LayerType)
        ensures
            final(self).layers@.len() == old(self).layers@.len() + 1,
            forall|i: int|
                0 <= i < old(self).layers@.len() ==> final(self).layers@[i] == old(self).layers@[i],
            ({
                let l = final(self).layers@.last();
                &&& l.style == style
                &&& l.occupancy == 0
                &&& l.wf()
            }),
            final(self).same_menus(*old(self)),
            final(self).same_economy(*old(self)),
            final(self).same_flags(*old(self)),
            final(self).scroll_pos == old(self).scroll_pos,
    {
        let (max_occupancy, revenue_per_occupant): (usize, usize) = match style {
            LayerType::Apartment => (20, 17),
            LayerType::Food => (30, 7),
            LayerType::Retail => (10, 12),
        };
        let mut new_layer = Layer::new(style, revenue_per_occupant, max_occupancy);
        new_layer.set_string();
        self.layers.push(new_layer);
    }

    /// Sum of all layers' occupancies, saturating at `u64::MAX`.
    pub fn total_occupancy(&self) -> (r: u64)
        ensures
            r as int == clamp_u64(spec_total_occupancy(self.layers@)),
    {
        let mut acc: u64 = 0;
        let mut i: usize = 0;
        while i < self.layers.len()
            invariant
                i <= self.layers@.len(),
                acc as int == clamp_u64(spec_total_occupancy(self.layers@.subrange(0, i as int))),
            decreases self.layers@.len() - i,
        {
            let occ = self.layers[i].occupancy as u64;
            proof {
                lemma_total_occupancy_nonneg(self.layers@.subrange(0, i as int));
                assert(self.layers@.subrange(0, i + 1).drop_last() =~= self.layers@.subrange(
                    0,
                    i as int,
                ));
                assert(self.layers@.subrange(0, i + 1).last() == self.layers@[i as int]);
            }
            acc = if acc > u64::MAX - occ {
                u64::MAX
            } else {
                acc + occ
            };
            i = i + 1;
        }
        proof {
            assert(self.layers@.subrange(0, self.layers@.len() as int) =~= self.layers@);
        }
        acc
    }

    /// One simulation tick of the occupancy model. For each layer one
    /// uniform random draw in `[0, UNIT_SCALE)` decides: below
    /// `move_out_thresh` one occupant leaves (floored at zero); otherwise
    /// below `move_in_thresh` one moves in (capped at capacity); otherwise
    /// nothing changes. Move-out is checked first, so the two outcomes are
    /// mutually exclusive per layer per tick. The thresholds are the
    /// caller's probabilities, scaled to `UNIT_SCALE`-ths of the unit
    /// interval. Each layer's display card is recomputed.
    pub fn update_occupancies(&mut self, move_out_thresh: u64, move_in_thresh: u64)
        requires
            layers_wf(old(self).layers@),
        ensures
            final(self).layers@.len() == old(self).layers@.len(),
            forall|i: int|
                0 <= i < old(self).layers@.len() ==> spec_threshold_step(
                    old(self).layers@[i],
                    #[trigger] final(self).layers@[i],
                    move_out_thresh,
                    move_in_thresh,
                ),
            layers_wf(final(self).layers@),
            final(self).same_menus(*old(self)),
            final(self).same_economy(*old(self)),
            final(self).same_flags(*old(self)),
            final(self).scroll_pos == old(self).scroll_pos,
    {
        let mut i: usize = 0;
        while i < self.layers.len()
            invariant
                i <= self.layers@.len(),
                self.layers@.len() == old(self).layers@.len(),
                layers_wf(old(self).layers@),
                forall|j: int|
                    i <= j < self.layers@.len() ==> self.layers@[j] == old(self).layers@[j],
                forall|j: int|
                    0 <= j < i ==> spec_threshold_step(
                        old(self).layers@[j],
                        #[trigger] self.layers@[j],
                        move_out_thresh,
                        move_in_thresh,
                    ),
                forall|j: int| 0 <= j < i ==> (#[trigger] self.layers@[j]).wf(),
                self.same_menus(*old(self)),
                self.same_economy(*old(self)),
                self.same_flags(*old(self)),
                self.scroll_pos == old(self).scroll_pos,
            decreases self.layers@.len() - i,
        {
            let n = random_below(UNIT_SCALE);
            let layer = &mut self.layers[i];
            if n < move_out_thresh {
                if layer.occupancy > 0 {
                    layer.occupancy = layer.occupancy - 1;
                }
            } else if n < move_in_thresh {
                if layer.occupancy < layer.max_occupancy {
                    layer.occupancy = layer.occupancy + 1;
                }
            }
            proof {
                lemma_revenue_bound(*layer);
            }
            layer.set_string();
            i = i + 1;
        }
    }

    /// Applies a funds update and the debt-collection mechanic, and returns
    /// the status message to display. `charges` is subtracted from the funds
    /// and `debits` added (both saturating), after the debt check: when the
    /// timer has reached zero, non-negative funds pass the inspection and
    /// reset the timer to the full period, while negative funds switch the
    /// active menu to the terminal game-over registry (the timer stays at
    /// zero and the registries themselves are untouched).
    pub fn draw_funds(&mut self, charges: i32, debits: i32) -> (msg: String)
        requires
            0 <= old(self).command_pool_game_over_id.spec_idx() < old(
                self,
            ).command_pool_array.spec_pools().len(),
        ensures
            msg@ == spec_funds_msg(
                old(self).debt_collection_timer as int,
                old(self).funds as int,
                charges as int,
                debits as int,
            ),
            final(self).debt_collection_timer as int == spec_debt_timer_after(
                old(self).debt_collection_timer as int,
                old(self).funds as int,
            ),
            final(self).funds as int == sat_i32(
                sat_i32(old(self).funds as int + debits as int) - charges as int,
            ),
            final(self).command_pool_array.spec_pools() == old(
                self,
            ).command_pool_array.spec_pools(),
            final(self).command_pool_array.spec_id() == (if spec_goes_game_over(
                old(self).debt_collection_timer as int,
                old(self).funds as int,
            ) {
                old(self).command_pool_game_over_id
            } else {
                old(self).command_pool_array.spec_id()
            }),
            final(self).command_pool_main_id == old(self).command_pool_main_id,
            final(self).command_pool_build_id == old(self).command_pool_build_id,
            final(self).command_pool_game_over_id == old(self).command_pool_game_over_id,
            final(self).same_building(*old(self)),
            final(self).same_flags(*old(self)),
    {
        let mut msg: String;
        if charges > 0 {
            msg = String::new();
            msg.append("You were charged $");
            let digits = crate::text::i64_string(charges as i64);
            msg.append(digits.as_str());
            proof {
                assert(msg@ =~= "You were charged $"@ + int_rep(charges as int));
            }
        } else if debits > 0 {
            msg = String::new();
            msg.append("You made $");
            let digits = crate::text::i64_string(debits as i64);
            msg.append(digits.as_str());
            proof {
                assert(msg@ =~= "You made $"@ + int_rep(debits as int));
            }
        } else {
            msg = String::new();
        }
        if self.debt_collection_timer == 0 {
            if self.funds >= 0 {
                msg = String::from_str("YOU PASSED THE DEBT COLLECTOR'S INSPECTION!");
                self.debt_collection_timer = DEBT_COLLECTION_PERIOD;
            } else {
                msg = String::from_str("YOU DID NOT HAVE FUNDS TO PAY THE DEBT COLLECTOR. GAME OVER.");
                let id = self.command_pool_game_over_id;
                self.command_pool_array.set_id(id);
            }
        }
        self.funds = sat_sub_i32(sat_add_i32(self.funds, debits), charges);
        msg
    }

    /// Sum of all layers' per-tick revenues, saturating at `u64::MAX`.
    pub fn total_revenue(&self) -> (r: u64)
        requires
            layers_wf(self.layers@),
        ensures
            r as int == clamp_u64(spec_total_revenue(self.layers@)),
    {
        let mut acc: u64 = 0;
        let mut i: usize = 0;
        while i < self.layers.len()
            invariant
                layers_wf(self.layers@),
                i <= self.layers@.len(),
                acc as int == clamp_u64(spec_total_revenue(self.layers@.subrange(0, i as int))),
            decreases self.layers@.len() - i,
        {
            proof {
                lemma_revenue_bound(self.layers@[i as int]);
                lemma_total_revenue_nonneg(self.layers@.subrange(0, i as int));
                assert(self.layers@.subrange(0, i + 1).drop_last() =~= self.layers@.subrange(
                    0,
                    i as int,
                ));
                assert(self.layers@.subrange(0, i + 1).last() == self.layers@[i as int]);
            }
            let rev = self.layers[i].revenue_u64();
            acc = if acc > u64::MAX - rev {
                u64::MAX
            } else {
                acc + rev
            };
            i = i + 1;
        }
        proof {
            assert(self.layers@.subrange(0, self.layers@.len() as int) =~= self.layers@);
        }
        acc
    }
}

/// One layer's move-in / move-out step: type and rates unchanged, occupancy
/// moved by at most one and kept within `[0, capacity]`, display card
/// recomputed.
pub open spec fn spec_occupancy_step(a: Layer, b: Layer) -> bool {
    &&& b.style == a.style
    &&& b.max_occupancy == a.max_occupancy
    &&& b.revenue_per_occupant == a.revenue_per_occupant
    &&& (b.occupancy == a.occupancy || (a.occupancy > 0 && b.occupancy == a.occupancy - 1) || (
    a.occupancy < a.max_occupancy && b.occupancy == a.occupancy + 1))
    &&& b.text_wf()
}

/// `spec_occupancy_step`, pinned down where the thresholds leave no room for
/// chance: a full move-out threshold always evicts one occupant, a zero
/// move-out threshold never does, and with that, a full move-in threshold
/// always admits one and a zero one changes nothing.
pub open spec fn spec_threshold_step(a: Layer, b: Layer, out_t: u64, in_t: u64) -> bool {
    &&& spec_occupancy_step(a, b)
    &&& (out_t >= UNIT_SCALE ==> b.occupancy as int == (if a.occupancy > 0 {
        a.occupancy as int - 1
    } else {
        0
    }))
    &&& (out_t == 0 ==> b.occupancy >= a.occupancy)
    &&& (out_t == 0 && in_t >= UNIT_SCALE ==> b.occupancy as int == (if a.occupancy
        < a.max_occupancy {
        a.occupancy as int + 1
    } else {
        a.occupancy as int
    }))
    &&& (out_t == 0 && in_t == 0 ==> b.occupancy == a.occupancy)
}

/// The debt timer after a funds update: reaching zero with non-negative
/// funds resets it to the full period; otherwise it stays as it is.
pub open spec fn spec_debt_timer_after(t: int, funds: int) -> int {
    if t == 0 && funds >= 0 {
        DEBT_COLLECTION_PERIOD as int
    } else {
        t
    }
}

/// The debt timer has run out while the funds are negative: the game ends.
pub open spec fn spec_goes_game_over(t: int, funds: int) -> bool {
    t == 0 && funds < 0
}

/// The message shown when the debt collector's inspection is passed.
pub open spec fn spec_passed_msg() -> Seq<char> {
    "YOU PASSED THE DEBT COLLECTOR'S INSPECTION!"@
}

/// The message shown when the game is lost.
pub open spec fn spec_game_over_msg() -> Seq<char> {
    "YOU DID NOT HAVE FUNDS TO PAY THE DEBT COLLECTOR. GAME OVER."@
}

/// The status message of a funds update: the debt verdict when the timer has
/// run out, else the charge or income note, else nothing.
pub open spec fn spec_funds_msg(t: int, funds: int, charges: int, debits: int) -> Seq<char> {
    if t == 0 {
        if funds >= 0 {
            spec_passed_msg()
        } else {
            spec_game_over_msg()
        }
    } else if charges > 0 {
        "You were charged $"@ + int_rep(charges)
    } else if debits > 0 {
        "You made $"@ + int_rep(debits)
    } else {
        Seq::empty()
    }
}

/// The main menu as initialization builds it: scroll and build commands on
/// `w`, `s` and `b`, nothing else.
pub open spec fn spec_main_pool_ok(p: CommandPool) -> bool {
    &&& pool_binds(p, 'w', MOD_NONE, Action::ScrollUp, false)
    &&& pool_binds(p, 's', MOD_NONE, Action::ScrollDown, false)
    &&& pool_binds(p, 'b', MOD_NONE, Action::EnterBuildMenu, false)
    &&& forall|k: char, m: u8|
        #[trigger] p.spec_get(k, m) is Some ==> m == MOD_NONE && (k == 'w' || k == 's' || k == 'b')
    &&& p.spec_descriptions() == seq![
        spec_label('w', "Scroll up"@),
        spec_label('s', "Scroll down"@),
        spec_label('b', "Build"@),
    ]
}

/// The build menu as initialization builds it: one purchase command per
/// layer type plus a cancel, nothing else.
pub open spec fn spec_build_pool_ok(p: CommandPool) -> bool {
    &&& pool_binds(p, 'f', MOD_NONE, Action::BuildFood, false)
    &&& pool_binds(p, 'a', MOD_NONE, Action::BuildApartment, false)
    &&& pool_binds(p, 'r', MOD_NONE, Action::BuildRetail, false)
    &&& pool_binds(p, 'x', MOD_NONE, Action::CancelBuild, false)
    &&& forall|k: char, m: u8|
        #[trigger] p.spec_get(k, m) is Some ==> m == MOD_NONE && (k == 'f' || k == 'a' || k == 'r'
            || k == 'x')
    &&& p.spec_descriptions() == seq![
        spec_label('f', "Food court- $10000"@),
        spec_label('a', "Apartments- $12000"@),
        spec_label('r', "Retail- $8000"@),
        spec_label('x', "Cancel"@),
    ]
}

/// The terminal game-over menu as initialization builds it: only retry and
/// exit, so no normal-mode binding is reachable until a retry.
pub open spec fn spec_game_over_pool_ok(p: CommandPool) -> bool {
    &&& pool_binds(p, 'r', MOD_NONE, Action::Retry, false)
    &&& pool_binds(p, 'x', MOD_NONE, Action::Exit, false)
    &&& forall|k: char, m: u8|
        #[trigger] p.spec_get(k, m) is Some ==> m == MOD_NONE && (k == 'r' || k == 'x')
    &&& p.spec_descriptions() == seq![spec_label('r', "Retry"@), spec_label('x', "Exit"@)]
}

/// The registry array is exactly the one initialization builds: the main,
/// build and game-over menus under ids 0, 1 and 2. Every state reachable
/// from a fresh game satisfies this: no mutation ever touches the
/// registries.
pub open spec fn has_standard_pools(gs: GameState) -> bool {
    let pools = gs.command_pool_array.spec_pools();
    &&& pools.len() == 3
    &&& gs.command_pool_main_id.spec_idx() == 0
    &&& gs.command_pool_build_id.spec_idx() == 1
    &&& gs.command_pool_game_over_id.spec_idx() == 2
    &&& spec_main_pool_ok(pools[0])
    &&& spec_build_pool_ok(pools[1])
    &&& spec_game_over_pool_ok(pools[2])
}

/// In every well-formed state — initialization establishes well-formedness
/// and every mutation preserves it — each layer's occupancy lies between
/// zero and its capacity.
pub proof fn lemma_occupancy_within_capacity(gs: GameState)
    requires
        gs.wf(),
    ensures
        forall|i: int|
            0 <= i < gs.layers@.len() ==> 0 <= (#[trigger] gs.layers@[i]).occupancy
                <= gs.layers@[i].max_occupancy,
{
}

/// In the game-over context no normal-mode binding is reachable: every bound
/// key is `r` (retry) or `x` (exit), unmodified, and those two are bound to
/// exactly the retry and exit commands.
pub proof fn lemma_game_over_locks_controls(gs: GameState)
    requires
        has_standard_pools(gs),
        gs.command_pool_array.spec_id() == gs.command_pool_game_over_id,
    ensures
        forall|k: char, m: u8|
            #[trigger] gs.spec_cur_pool().spec_get(k, m) is Some ==> m == MOD_NONE && (k == 'r' || k
                == 'x'),
        pool_binds(gs.spec_cur_pool(), 'r', MOD_NONE, Action::Retry, false),
        pool_binds(gs.spec_cur_pool(), 'x', MOD_NONE, Action::Exit, false),
{
}

/// A fresh game: the three standard menus with the main one active, no
/// layers, the starting funds, a full debt timer, and the loop set to run.
pub fn init_game_state() -> (gs: GameState)
    ensures
        gs.wf(),
        has_standard_pools(gs),
        gs.command_pool_array.spec_id() == gs.command_pool_main_id,
        gs.layers@.len() == 0,
        gs.scroll_pos == 0,
        gs.funds == INITIAL_FUNDS,
        gs.debt_collection_timer == DEBT_COLLECTION_PERIOD,
        gs.running,
        !gs.restarting,
{
    let mut pool_array_builder = CommandPoolArrayBuilder::new();

    let m0 = CommandPoolBuilder::new();
    let m1 = m0.on_letter_press('w', "Scroll up", Command::new(Action::ScrollUp));
    let m2 = m1.on_letter_press('s', "Scroll down", Command::new(Action::ScrollDown));
    let m3 = m2.on_letter_press('b', "Build", Command::new(Action::EnterBuildMenu));
    let main_pool = m3.build();
    proof {
        assert forall|k: char, m: u8| #[trigger] main_pool.spec_get(k, m) is Some implies m
            == MOD_NONE && (k == 'w' || k == 's' || k == 'b') by {
            if !(m == MOD_NONE && (k == 'w' || k == 's' || k == 'b')) {
                assert(main_pool.spec_get(k, m) == m0.spec_pool().spec_get(k, m));
                assert(crate::command::lookup_seq(Seq::empty(), k, m) is None);
            }
        }
        assert(main_pool.spec_descriptions() =~= seq![
            spec_label('w', "Scroll up"@),
            spec_label('s', "Scroll down"@),
            spec_label('b', "Build"@),
        ]);
    }
    let command_pool_main_id = pool_array_builder.add_pool(main_pool);

    let b0 = CommandPoolBuilder::new();
    let b1 = b0.on_letter_press('f', "Food court- $10000", Command::new(Action::BuildFood));
    let b2 = b1.on_letter_press('a', "Apartments- $12000", Command::new(Action::BuildApartment));
    let b3 = b2.on_letter_press('r', "Retail- $8000", Command::new(Action::BuildRetail));
    let b4 = b3.on_letter_press('x', "Cancel", Command::new(Action::CancelBuild));
    let build_pool = b4.build();
    proof {
        assert forall|k: char, m: u8| #[trigger] build_pool.spec_get(k, m) is Some implies m
            == MOD_NONE && (k == 'f' || k == 'a' || k == 'r' || k == 'x') by {
            if !(m == MOD_NONE && (k == 'f' || k == 'a' || k == 'r' || k == 'x')) {
                assert(build_pool.spec_get(k, m) == b0.spec_pool().spec_get(k, m));
                assert(crate::command::lookup_seq(Seq::empty(), k, m) is None);
            }
        }
        assert(build_pool.spec_descriptions() =~= seq![
            spec_label('f', "Food court- $10000"@),
            spec_label('a', "Apartments- $12000"@),
            spec_label('r', "Retail- $8000"@),
            spec_label('x', "Cancel"@),
        ]);
    }
    let command_pool_build_id = pool_array_builder.add_pool(build_pool);

    let g0 = CommandPoolBuilder::new();
    let g1 = g0.on_letter_press('r', "Retry", Command::new(Action::Retry));
    let g2 = g1.on_letter_press('x', "Exit", Command::new(Action::Exit));
    let game_over_pool = g2.build();
    proof {
        assert forall|k: char, m: u8| #[trigger] game_over_pool.spec_get(k, m) is Some implies m
            == MOD_NONE && (k == 'r' || k == 'x') by {
            if !(m == MOD_NONE && (k == 'r' || k == 'x')) {
                assert(game_over_pool.spec_get(k, m) == g0.spec_pool().spec_get(k, m));
                assert(crate::command::lookup_seq(Seq::empty(), k, m) is None);
            }
        }
        assert(game_over_pool.spec_descriptions() =~= seq![
            spec_label('r', "Retry"@),
            spec_label('x', "Exit"@),
        ]);
    }
    let command_pool_game_over_id = pool_array_builder.add_pool(game_over_pool);

    let gs = GameState {
        running: true,
        restarting: false,
        command_pool_array: pool_array_builder.with_initial_pool(command_pool_main_id),
        command_pool_main_id,
        command_pool_build_id,
        command_pool_game_over_id,
        layers: Vec::new(),
        scroll_pos: 0,
        funds: INITIAL_FUNDS,
        debt_collection_timer: DEBT_COLLECTION_PERIOD,
    };
    gs
}

} // verus!
