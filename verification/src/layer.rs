//! Building floors: each purchasable layer has a type, a capacity, a current
//! occupancy and a cached display card. The per-type capacity and revenue
//! tables live here, as does the exact text of a layer's card.

use vstd::prelude::*;
use vstd::string::*;

use crate::screen::ColorName;
use crate::screen::Colors;
use crate::text::centered;
use crate::text::center;
use crate::text::dec_rep;
use crate::text::left_align;
use crate::text::left_aligned;
use crate::text::spaces;
use crate::text::spaces_string;
use crate::text::u64_string;
use crate::TOWER_WINDOW_HEIGHT;

verus! {

/// Interior width of a layer card, between its border bars.
pub const TOWER_WIDTH: usize = 24;

/// The kind of a purchasable floor.
#[derive(Copy, Clone, PartialEq, Eq, Structural, Debug)]
pub enum LayerType {
    Apartment,
    Retail,
    Food,
}

/// The fixed per-type occupant capacity.
pub open spec fn spec_max_occupancy(t: LayerType) -> usize {
    match t {
        LayerType::Apartment => 20,
        LayerType::Food => 30,
        LayerType::Retail => 10,
    }
}

/// The fixed per-type revenue per occupant.
pub open spec fn spec_revenue_per_occupant(t: LayerType) -> usize {
    match t {
        LayerType::Apartment => 17,
        LayerType::Food => 7,
        LayerType::Retail => 12,
    }
}

/// The display name of a layer type.
pub open spec fn spec_name(t: LayerType) -> Seq<char> {
    match t {
        LayerType::Apartment => "APARTMENT COMPLEX"@,
        LayerType::Retail => "RETAIL STORE"@,
        LayerType::Food => "FOOD COURT"@,
    }
}

/// The color pair a layer type is drawn with.
pub open spec fn spec_colors_of(t: LayerType) -> Colors {
    match t {
        LayerType::Apartment => Colors { foreground: ColorName::Green, background: ColorName::Black },
        LayerType::Retail => Colors { foreground: ColorName::Magenta, background: ColorName::Black },
        LayerType::Food => Colors { foreground: ColorName::Yellow, background: ColorName::Black },
    }
}

impl LayerType {
    /// The display name of this layer type.
    pub fn name(&self) -> (r: &'static str)
        ensures
            r@ == spec_name(*self),
    {
        match self {
            LayerType::Apartment => "APARTMENT COMPLEX",
            LayerType::Retail => "RETAIL STORE",
            LayerType::Food => "FOOD COURT",
        }
    }

    /// The color pair this layer type is drawn with.
    pub fn colors(&self) -> (r: Colors)
        ensures
            r == spec_colors_of(*self),
    {
        match self {
            LayerType::Apartment => Colors {
                foreground: ColorName::Green,
                background: ColorName::Black,
            },
            LayerType::Retail => Colors {
                foreground: ColorName::Magenta,
                background: ColorName::Black,
            },
            LayerType::Food => Colors {
                foreground: ColorName::Yellow,
                background: ColorName::Black,
            },
        }
    }
}

/// Line `k` (top-down, `0 <= k < 4`) of the card for a layer with the given
/// type, occupancy and revenue.
pub open spec fn spec_card_line(style: LayerType, occ: nat, rev: nat, k: int) -> Seq<char> {
    if k == 0 {
        seq!['|'] + centered(spec_name(style), TOWER_WIDTH as nat) + seq!['|']
    } else if k == 1 {
        seq!['|'] + spaces(TOWER_WIDTH as nat) + seq!['|']
    } else if k == 2 {
        "|       REVENUE: "@ + left_aligned(dec_rep(rev), 4) + "    |"@
    } else {
        "|      OCCUPANCY: "@ + left_aligned(dec_rep(occ), 4) + "   |"@
    }
}

/// The full card text: the four card lines, each followed by a newline.
pub open spec fn spec_card_text(style: LayerType, occ: nat, rev: nat) -> Seq<char> {
    spec_card_line(style, occ, rev, 0) + seq!['\n'] + spec_card_line(style, occ, rev, 1)
        + seq!['\n'] + spec_card_line(style, occ, rev, 2) + seq!['\n'] + spec_card_line(
        style,
        occ,
        rev,
        3,
    ) + seq!['\n']
}

/// One purchasable floor.
pub struct Layer {
    pub style: LayerType,
    pub revenue_per_occupant: usize,
    pub occupancy: usize,
    pub max_occupancy: usize,
    pub text: String,
}

impl Layer {
    /// Occupancy never exceeds capacity.
    pub open spec fn occ_wf(self) -> bool {
        self.occupancy <= self.max_occupancy
    }

    /// Capacity and revenue rate come from the fixed per-type table.
    pub open spec fn from_table(self) -> bool {
        &&& self.max_occupancy == spec_max_occupancy(self.style)
        &&& self.revenue_per_occupant == spec_revenue_per_occupant(self.style)
    }

    /// The layer's revenue per tick: occupancy times revenue per occupant.
    pub open spec fn spec_revenue(self) -> int {
        self.occupancy * self.revenue_per_occupant
    }

    /// The cached display card matches the layer's current fields.
    pub open spec fn text_wf(self) -> bool {
        self.text@ == spec_card_text(self.style, self.occupancy as nat, self.spec_revenue() as nat)
    }

    /// A fully well-formed layer: clamped occupancy, table-driven rates, and
    /// an up-to-date display card.
    pub open spec fn wf(self) -> bool {
        self.occ_wf() && self.from_table() && self.text_wf()
    }

    /// A new, empty layer. Its display card is empty until `set_string` runs.
    pub fn new(style: LayerType, revenue_per_occupant: usize, max_occupancy: usize) -> (r: Layer)
        ensures
            r.style == style,
            r.revenue_per_occupant == revenue_per_occupant,
            r.max_occupancy == max_occupancy,
            r.occupancy == 0,
            r.text@ == Seq::<char>::empty(),
    {
        Layer { style, revenue_per_occupant, occupancy: 0, max_occupancy, text: String::new() }
    }

    /// The layer's revenue per tick.
    pub fn revenue(&self) -> (r: usize)
        requires
            self.spec_revenue() <= usize::MAX,
        ensures
            r == self.spec_revenue(),
    {
        self.occupancy * self.revenue_per_occupant
    }

    /// The layer's revenue per tick, widened for display arithmetic.
    pub fn revenue_u64(&self) -> (r: u64)
        requires
            self.spec_revenue() <= u64::MAX,
        ensures
            r == self.spec_revenue(),
    {
        (self.occupancy as u64) * (self.revenue_per_occupant as u64)
    }

    /// The four lines of this layer's display card, top-down.
    pub fn card_lines(&self) -> (r: Vec<String>)
        requires
            self.spec_revenue() <= u64::MAX,
        ensures
            r@.len() == 4,
            forall|k: int|
                0 <= k < 4 ==> (#[trigger] r@[k])@ == spec_card_line(
                    self.style,
                    self.occupancy as nat,
                    self.spec_revenue() as nat,
                    k,
                ),
    {
        let occ = self.occupancy as u64;
        let rev = self.revenue_u64();

        let mut l0 = String::new();
        l0.append("|");
        let name_field = center(self.style.name(), TOWER_WIDTH);
        l0.append(name_field.as_str());
        l0.append("|");

        let mut l1 = String::new();
        l1.append("|");
        let blank_field = spaces_string(TOWER_WIDTH);
        l1.append(blank_field.as_str());
        l1.append("|");

        let mut l2 = String::new();
        l2.append("|       REVENUE: ");
        let rev_digits = u64_string(rev);
        let rev_field = left_align(rev_digits.as_str(), 4);
        l2.append(rev_field.as_str());
        l2.append("    |");

        let mut l3 = String::new();
        l3.append("|      OCCUPANCY: ");
        let occ_digits = u64_string(occ);
        let occ_field = left_align(occ_digits.as_str(), 4);
        l3.append(occ_field.as_str());
        l3.append("   |");

        proof {
            reveal_strlit("|");
            assert(l0@ =~= spec_card_line(
                self.style,
                self.occupancy as nat,
                self.spec_revenue() as nat,
                0,
            ));
            assert(l1@ =~= spec_card_line(
                self.style,
                self.occupancy as nat,
                self.spec_revenue() as nat,
                1,
            ));
            assert(l2@ =~= spec_card_line(
                self.style,
                self.occupancy as nat,
                self.spec_revenue() as nat,
                2,
            ));
            assert(l3@ =~= spec_card_line(
                self.style,
                self.occupancy as nat,
                self.spec_revenue() as nat,
                3,
            ));
        }
        let mut r: Vec<String> = Vec::new();
        r.push(l0);
        r.push(l1);
        r.push(l2);
        r.push(l3);
        r
    }

    /// Recomputes the cached display card from the layer's current fields.
    pub fn set_string(&mut self)
        requires
            old(self).spec_revenue() <= u64::MAX,
        ensures
            final(self).style == old(self).style,
            final(self).revenue_per_occupant == old(self).revenue_per_occupant,
            final(self).occupancy == old(self).occupancy,
            final(self).max_occupancy == old(self).max_occupancy,
            final(self).text_wf(),
    {
        let lines = self.card_lines();
        let mut t = String::new();
        let mut k: usize = 0;
        while k < 4
            invariant
                lines@.len() == 4,
                forall|j: int|
                    0 <= j < 4 ==> (#[trigger] lines@[j])@ == spec_card_line(
                        self.style,
                        self.occupancy as nat,
                        self.spec_revenue() as nat,
                        j,
                    ),
                k <= 4,
                t@ == spec_card_lines_prefix(
                    self.style,
                    self.occupancy as nat,
                    self.spec_revenue() as nat,
                    k as int,
                ),
            decreases 4 - k,
        {
            t.append(lines[k].as_str());
            t.push('\n');
            proof {
                assert(t@ =~= spec_card_lines_prefix(
                    self.style,
                    self.occupancy as nat,
                    self.spec_revenue() as nat,
                    k + 1,
                ));
            }
            k = k + 1;
        }
        proof {
            reveal_with_fuel(spec_card_lines_prefix, 5);
            assert(spec_card_lines_prefix(
                self.style,
                self.occupancy as nat,
                self.spec_revenue() as nat,
                4,
            ) =~= spec_card_text(self.style, self.occupancy as nat, self.spec_revenue() as nat));
        }
        self.text = t;
    }
}

/// The first `k` card lines, each followed by a newline.
pub open spec fn spec_card_lines_prefix(style: LayerType, occ: nat, rev: nat, k: int) -> Seq<char>
    decreases k,
{
    if k <= 0 {
        Seq::empty()
    } else {
        spec_card_lines_prefix(style, occ, rev, k - 1) + spec_card_line(style, occ, rev, k - 1)
            + seq!['\n']
    }
}

/// The separator line drawn above each layer card.
pub open spec fn spec_ceiling() -> Seq<char> {
    "|________________________|"@
}

/// The separator line drawn above each layer card.
pub fn ceiling_str() -> (r: &'static str)
    ensures
        r@ == spec_ceiling(),
{
    "|________________________|"
}

/// The color pair of the roof art.
pub open spec fn spec_roof_colors() -> Colors {
    Colors { foreground: ColorName::Cyan, background: ColorName::Black }
}

/// The views of a list of text lines.
pub open spec fn lines_view(v: Seq<String>) -> Seq<Seq<char>> {
    v.map_values(|s: String| s@)
}

/// Total number of rows of the composed tower column: the ground art, five
/// rows per layer (a four-line card plus its separator), and the roof art.
pub open spec fn spec_column_len(nlayers: nat, g: nat, rl: nat) -> int {
    g as int + 5 * (nlayers as int) + rl as int
}

/// The text at absolute row `r` of the composed tower column. Rows count
/// upward from the bottom of the ground art; each block's text lines read
/// top-down, so the line at relative offset `k` of a block starting at row
/// `b` sits at absolute row `b + height - 1 - k`.
pub open spec fn spec_column_text(
    layers: Seq<Layer>,
    ground: Seq<Seq<char>>,
    roof: Seq<Seq<char>>,
    r: int,
) -> Seq<char> {
    let g = ground.len() as int;
    let n = layers.len() as int;
    if r < g {
        ground[g - 1 - r]
    } else {
        let q = r - g;
        if q < 5 * n {
            let i = q / 5;
            let w = q % 5;
            if w == 4 {
                spec_ceiling()
            } else {
                spec_card_line(
                    layers[i].style,
                    layers[i].occupancy as nat,
                    layers[i].spec_revenue() as nat,
                    3 - w,
                )
            }
        } else {
            roof[roof.len() - 1 - (q - 5 * n)]
        }
    }
}

/// The color pair at absolute row `r` of the composed tower column.
pub open spec fn spec_column_colors(layers: Seq<Layer>, g: int, r: int) -> Colors {
    let n = layers.len() as int;
    if r < g {
        crate::screen::spec_plain_colors()
    } else {
        let q = r - g;
        if q < 5 * n {
            if q % 5 == 4 {
                crate::screen::spec_plain_colors()
            } else {
                spec_colors_of(layers[q / 5].style)
            }
        } else {
            spec_roof_colors()
        }
    }
}

/// One row of the composed tower column.
struct ColumnLine {
    text: String,
    colors: Colors,
}

/// Every row of `col` agrees with the composed column of the given building.
spec fn column_matches(
    col: Seq<ColumnLine>,
    layers: Seq<Layer>,
    ground: Seq<Seq<char>>,
    roof: Seq<Seq<char>>,
) -> bool {
    forall|j: int|
        0 <= j < col.len() ==> (#[trigger] col[j]).text@ == spec_column_text(layers, ground, roof, j)
            && col[j].colors == spec_column_colors(layers, ground.len() as int, j)
}

/// Composes ground art, per-layer cards with separators, and roof art into
/// the full tower column, bottom row first.
fn build_column(layers: &Vec<Layer>, ground: &Vec<String>, roof: &Vec<String>) -> (r: Vec<
    ColumnLine,
>)
    requires
        forall|i: int| 0 <= i < layers@.len() ==> (#[trigger] layers@[i]).spec_revenue() <= u64::MAX,
    ensures
        r@.len() == spec_column_len(layers@.len(), ground@.len(), roof@.len()),
        column_matches(r@, layers@, lines_view(ground@), lines_view(roof@)),
{
    let ghost gv = lines_view(ground@);
    let ghost rv = lines_view(roof@);
    let mut col: Vec<ColumnLine> = Vec::new();
    let g = ground.len();

    let mut j: usize = 0;
    while j < g
        invariant
            g == ground@.len(),
            j <= g,
            col@.len() == j,
            gv == lines_view(ground@),
            rv == lines_view(roof@),
            column_matches(col@, layers@, gv, rv),
        decreases g - j,
    {
        col.push(ColumnLine { text: ground[g - 1 - j].clone(), colors: crate::screen::plain_colors() });
        j = j + 1;
    }

    let mut i: usize = 0;
    while i < layers.len()
        invariant
            g == ground@.len(),
            i <= layers@.len(),
            col@.len() == g + 5 * i,
            gv == lines_view(ground@),
            rv == lines_view(roof@),
            column_matches(col@, layers@, gv, rv),
            forall|k: int|
                0 <= k < layers@.len() ==> (#[trigger] layers@[k]).spec_revenue() <= u64::MAX,
        decreases layers@.len() - i,
    {
        let layer = &layers[i];
        let card = layer.card_lines();
        let lc = layer.style.colors();
        let ghost before = col@.len() as int;
        col.push(ColumnLine { text: card[3].clone(), colors: lc });
        col.push(ColumnLine { text: card[2].clone(), colors: lc });
        col.push(ColumnLine { text: card[1].clone(), colors: lc });
        col.push(ColumnLine { text: card[0].clone(), colors: lc });
        col.push(ColumnLine { text: String::from_str(ceiling_str()), colors: crate::screen::plain_colors() });
        proof {
            assert forall|j2: int| before <= j2 < col@.len() implies (#[trigger] col@[j2]).text@
                == spec_column_text(layers@, gv, rv, j2) && col@[j2].colors == spec_column_colors(
                layers@,
                g as int,
                j2,
            ) by {
                let w = j2 - before;
                assert(j2 - g == 5 * i + w);
                assert(0 <= w < 5);
                assert(5 * i + w < 5 * layers@.len());
                assert((5 * i + w) / 5 == i as int && (5 * i + w) % 5 == w) by (nonlinear_arith)
                    requires
                        0 <= w < 5,
                        0 <= i,
                ;
            }
        }
        i = i + 1;
    }

    let rl = roof.len();
    let mut j: usize = 0;
    while j < rl
        invariant
            g == ground@.len(),
            rl == roof@.len(),
            j <= rl,
            col@.len() == g + 5 * layers@.len() + j,
            gv == lines_view(ground@),
            rv == lines_view(roof@),
            column_matches(col@, layers@, gv, rv),
        decreases rl - j,
    {
        col.push(ColumnLine { text: roof[rl - 1 - j].clone(), colors: Colors {
            foreground: ColorName::Cyan,
            background: ColorName::Black,
        } });
        j = j + 1;
    }
    col
}

/// Absolute row `a` has a line in the clipped output for scroll offset `s`.
pub open spec fn spec_row_drawn(out: Seq<crate::screen::ScreenLine>, s: int, a: int) -> bool {
    0 <= a - s < out.len()
}

/// `r` is the rendered viewport of the building: the composed tower column,
/// clipped to absolute rows `[scroll_pos, scroll_pos + TOWER_WINDOW_HEIGHT)`.
/// Each visible row appears exactly once, highest row at the top of the
/// screen, with its block's color pair; a column row is drawn if and only if
/// it falls inside the viewport window.
pub open spec fn spec_tower_view(
    layers: Seq<Layer>,
    ground: Seq<String>,
    roof: Seq<String>,
    scroll_pos: u16,
    r: Seq<crate::screen::ScreenLine>,
) -> bool {
    let col_len = spec_column_len(layers.len(), ground.len(), roof.len());
    let s = scroll_pos as int;
    let h = TOWER_WINDOW_HEIGHT as int;
    &&& r.len() == if s < col_len {
        (if s + h < col_len {
            s + h
        } else {
            col_len
        }) - s
    } else {
        0
    }
    &&& forall|i: int|
        0 <= i < r.len() ==> {
            &&& (#[trigger] r[i]).col == 0
            &&& r[i].row == h - 1 - i
            &&& r[i].text@ == spec_column_text(layers, lines_view(ground), lines_view(roof), s + i)
            &&& r[i].colors == spec_column_colors(layers, ground.len() as int, s + i)
        }
    &&& forall|a: int|
        0 <= a < col_len ==> ((s <= a < s + h) <==> #[trigger] spec_row_drawn(r, s, a))
}

/// Under the fixed per-type table, a layer's revenue per tick is bounded by
/// the largest capacity-times-rate entry.
pub proof fn lemma_revenue_bound(l: Layer)
    requires
        l.occ_wf(),
        l.from_table(),
    ensures
        0 <= l.spec_revenue() <= 510,
{
    vstd::arithmetic::mul::lemma_mul_nonnegative(
        l.occupancy as int,
        l.revenue_per_occupant as int,
    );
    vstd::arithmetic::mul::lemma_mul_inequality(
        l.occupancy as int,
        l.max_occupancy as int,
        l.revenue_per_occupant as int,
    );
}

/// Renders the building into the viewport: the composed tower column is
/// clipped to absolute rows `[scroll_pos, scroll_pos + TOWER_WINDOW_HEIGHT)`,
/// and each visible row is emitted exactly once, highest row at the top of
/// the screen, with its block's color pair.
pub fn layer_draw(
    layers: &Vec<Layer>,
    ground: &Vec<String>,
    roof: &Vec<String>,
    scroll_pos: u16,
) -> (r: Vec<crate::screen::ScreenLine>)
    requires
        forall|i: int| 0 <= i < layers@.len() ==> (#[trigger] layers@[i]).spec_revenue() <= u64::MAX,
    ensures
        spec_tower_view(layers@, ground@, roof@, scroll_pos, r@),
{
    let column = build_column(layers, ground, roof);
    let s = scroll_pos as usize;
    let h = TOWER_WINDOW_HEIGHT as usize;
    let mut out: Vec<crate::screen::ScreenLine> = Vec::new();
    let mut i: usize = 0;
    while s + i < column.len() && i < h
        invariant
            s == scroll_pos as int,
            h == TOWER_WINDOW_HEIGHT as int,
            i <= h,
            out@.len() == i,
            s + i <= column.len() || i == 0,
            column@.len() == spec_column_len(layers@.len(), ground@.len(), roof@.len()),
            column_matches(column@, layers@, lines_view(ground@), lines_view(roof@)),
            forall|k: int|
                0 <= k < i ==> {
                    &&& (#[trigger] out@[k]).col == 0
                    &&& out@[k].row == h - 1 - k
                    &&& out@[k].text@ == spec_column_text(
                        layers@,
                        lines_view(ground@),
                        lines_view(roof@),
                        s + k,
                    )
                    &&& out@[k].colors == spec_column_colors(layers@, ground@.len() as int, s + k)
                }
        decreases column@.len() - (s + i),
    {
        let line = &column[s + i];
        out.push(crate::screen::ScreenLine {
            col: 0,
            row: (h - 1 - i) as u16,
            colors: line.colors,
            text: line.text.clone(),
        });
        i = i + 1;
    }
    out
}

/// Width at which the funds/debt readout and status message are drawn.
pub const INFO_MSG_WIDTH: u16 = 35;

/// The funds/debt panel: the status message above the help panel, the funds
/// balance at the top, and the debt countdown below it.
pub fn funds_draw(funds: i32, debt_timer: u32, msg: &str) -> (r: Vec<crate::screen::ScreenLine>)
    ensures
        r@.len() == 3,
        r@[0].col == INFO_MSG_WIDTH && r@[0].row == TOWER_WINDOW_HEIGHT - 1 && r@[0].colors
            == crate::screen::spec_plain_colors() && r@[0].text@ == msg@,
        r@[1].col == INFO_MSG_WIDTH && r@[1].row == 0 && r@[1].colors == (Colors {
            foreground: ColorName::Green,
            background: ColorName::Black,
        }) && r@[1].text@ == "CURRENT FUNDS: "@ + crate::text::int_rep(funds as int),
        r@[2].col == INFO_MSG_WIDTH && r@[2].row == 1 && r@[2].colors == (Colors {
            foreground: ColorName::Red,
            background: ColorName::Black,
        }) && r@[2].text@ == "TIME UNTIL DEBT COLLECTOR COMES: "@ + dec_rep(debt_timer as nat),
{
    let mut fund_string = String::new();
    fund_string.append("CURRENT FUNDS: ");
    let fund_digits = crate::text::i64_string(funds as i64);
    fund_string.append(fund_digits.as_str());

    let mut debt_string = String::new();
    debt_string.append("TIME UNTIL DEBT COLLECTOR COMES: ");
    let debt_digits = u64_string(debt_timer as u64);
    debt_string.append(debt_digits.as_str());

    proof {
        assert(fund_string@ =~= "CURRENT FUNDS: "@ + crate::text::int_rep(funds as int));
        assert(debt_string@ =~= "TIME UNTIL DEBT COLLECTOR COMES: "@ + dec_rep(
            debt_timer as nat,
        ));
    }

    let mut r: Vec<crate::screen::ScreenLine> = Vec::new();
    r.push(crate::screen::ScreenLine {
        col: INFO_MSG_WIDTH,
        row: TOWER_WINDOW_HEIGHT - 1,
        colors: crate::screen::plain_colors(),
        text: String::from_str(msg),
    });
    r.push(crate::screen::ScreenLine {
        col: INFO_MSG_WIDTH,
        row: 0,
        colors: Colors { foreground: ColorName::Green, background: ColorName::Black },
        text: fund_string,
    });
    r.push(crate::screen::ScreenLine {
        col: INFO_MSG_WIDTH,
        row: 1,
        colors: Colors { foreground: ColorName::Red, background: ColorName::Black },
        text: debt_string,
    });
    r
}

} // verus!
