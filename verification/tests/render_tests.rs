use tower_game::layer::funds_draw;
use tower_game::layer::layer_draw;
use tower_game::layer::Layer;
use tower_game::layer::LayerType;
use tower_game::screen::ColorName;
use tower_game::text::center;
use tower_game::text::i64_string;
use tower_game::text::left_align;
use tower_game::text::spaces_string;
use tower_game::text::u64_string;

fn apartment_with_occupancy(occ: usize) -> Layer {
    let mut l = Layer::new(LayerType::Apartment, 17, 20);
    l.occupancy = occ;
    l.set_string();
    l
}

#[test]
fn decimal_rendering() {
    assert_eq!(u64_string(0), "0");
    assert_eq!(u64_string(7), "7");
    assert_eq!(u64_string(1234), "1234");
    assert_eq!(u64_string(1000000), "1000000");
    assert_eq!(i64_string(-42), "-42");
    assert_eq!(i64_string(0), "0");
    assert_eq!(i64_string(2000), "2000");
}

#[test]
fn padding_and_centering() {
    assert_eq!(spaces_string(3), "   ");
    assert_eq!(left_align("ab", 4), "ab  ");
    assert_eq!(left_align("abcdef", 4), "abcdef");
    assert_eq!(center("abc", 7), "  abc  ");
    assert_eq!(center("abc", 6), " abc  ");
    assert_eq!(center("abcdef", 4), "abcdef");
}

#[test]
fn card_text_exact() {
    let l = apartment_with_occupancy(0);
    assert_eq!(
        l.text,
        "|   APARTMENT COMPLEX    |\n\
         |                        |\n\
         |       REVENUE: 0       |\n\
         |      OCCUPANCY: 0      |\n"
    );
    let l = apartment_with_occupancy(12);
    assert_eq!(
        l.text,
        "|   APARTMENT COMPLEX    |\n\
         |                        |\n\
         |       REVENUE: 204     |\n\
         |      OCCUPANCY: 12     |\n"
    );
}

#[test]
fn card_lines_match_cached_text() {
    let l = apartment_with_occupancy(3);
    let lines = l.card_lines();
    assert_eq!(lines.len(), 4);
    let mut joined = String::new();
    for line in &lines {
        joined.push_str(line);
        joined.push('\n');
    }
    assert_eq!(joined, l.text);
}

#[test]
fn revenue_formula() {
    let l = apartment_with_occupancy(5);
    assert_eq!(l.revenue(), 85);
    let mut food = Layer::new(LayerType::Food, 7, 30);
    food.occupancy = 30;
    assert_eq!(food.revenue(), 210);
}

#[test]
fn layer_type_colors() {
    assert_eq!(LayerType::Apartment.colors().foreground, ColorName::Green);
    assert_eq!(LayerType::Retail.colors().foreground, ColorName::Magenta);
    assert_eq!(LayerType::Food.colors().foreground, ColorName::Yellow);
    assert_eq!(LayerType::Apartment.colors().background, ColorName::Black);
}

fn two_line_ground() -> Vec<String> {
    vec!["ground-top".to_string(), "ground-bottom".to_string()]
}

fn one_line_roof() -> Vec<String> {
    vec!["roof-line".to_string()]
}

#[test]
fn tower_composition_from_ground_up() {
    // One layer: the column is ground (2 rows), card (4) + separator (1),
    // roof (1) = 8 rows; all fit in the 19-row viewport at scroll 0.
    let layers = vec![apartment_with_occupancy(0)];
    let out = layer_draw(&layers, &two_line_ground(), &one_line_roof(), 0);
    assert_eq!(out.len(), 8);
    // Bottom of the screen is absolute row 0: the last ground line.
    assert_eq!(out[0].row, 18);
    assert_eq!(out[0].col, 0);
    assert_eq!(out[0].text, "ground-bottom");
    assert_eq!(out[1].text, "ground-top");
    // The card reads top-down on screen, so bottom-up in absolute rows.
    assert_eq!(out[2].text, "|      OCCUPANCY: 0      |");
    assert_eq!(out[3].text, "|       REVENUE: 0       |");
    assert_eq!(out[4].text, "|                        |");
    assert_eq!(out[5].text, "|   APARTMENT COMPLEX    |");
    assert_eq!(out[6].text, "|________________________|");
    assert_eq!(out[7].text, "roof-line");
    assert_eq!(out[7].row, 11);
    // Color pairs follow the owning block.
    assert_eq!(out[0].colors.foreground, ColorName::White);
    assert_eq!(out[2].colors.foreground, ColorName::Green);
    assert_eq!(out[6].colors.foreground, ColorName::White);
    assert_eq!(out[7].colors.foreground, ColorName::Cyan);
}

#[test]
fn viewport_clipping_bounds() {
    // A line at absolute row r is drawn iff scroll <= r < scroll + 19.
    let layers = vec![apartment_with_occupancy(0)];
    // 8 rows total; scrolled past the bottom two.
    let out = layer_draw(&layers, &two_line_ground(), &one_line_roof(), 2);
    assert_eq!(out.len(), 6);
    assert_eq!(out[0].text, "|      OCCUPANCY: 0      |");
    assert_eq!(out[0].row, 18);
    assert_eq!(out[5].text, "roof-line");
    // Scrolled to the very top row.
    let out = layer_draw(&layers, &two_line_ground(), &one_line_roof(), 7);
    assert_eq!(out.len(), 1);
    assert_eq!(out[0].text, "roof-line");
    assert_eq!(out[0].row, 18);
    // Scrolled past everything: nothing is drawn.
    let out = layer_draw(&layers, &two_line_ground(), &one_line_roof(), 8);
    assert_eq!(out.len(), 0);
    let out = layer_draw(&layers, &two_line_ground(), &one_line_roof(), 500);
    assert_eq!(out.len(), 0);
}

#[test]
fn viewport_clips_tall_towers() {
    // Five layers: 2 + 25 + 1 = 28 rows, more than the 19-row viewport.
    let mut layers = Vec::new();
    for _ in 0..5 {
        layers.push(apartment_with_occupancy(0));
    }
    let out = layer_draw(&layers, &two_line_ground(), &one_line_roof(), 0);
    assert_eq!(out.len(), 19);
    assert_eq!(out[0].text, "ground-bottom");
    assert_eq!(out[0].row, 18);
    assert_eq!(out[18].row, 0);
    // Scrolling up by 9 shows the rest, roof included.
    let out = layer_draw(&layers, &two_line_ground(), &one_line_roof(), 9);
    assert_eq!(out.len(), 19);
    assert_eq!(out[18].text, "roof-line");
}

#[test]
fn empty_building_draws_ground_and_roof() {
    let layers: Vec<Layer> = Vec::new();
    let out = layer_draw(&layers, &two_line_ground(), &one_line_roof(), 0);
    assert_eq!(out.len(), 3);
    assert_eq!(out[0].text, "ground-bottom");
    assert_eq!(out[2].text, "roof-line");
}

#[test]
fn funds_panel_exact() {
    let out = funds_draw(-2000, 50, "hello");
    assert_eq!(out.len(), 3);
    assert_eq!(out[0].col, 35);
    assert_eq!(out[0].row, 18);
    assert_eq!(out[0].text, "hello");
    assert_eq!(out[1].col, 35);
    assert_eq!(out[1].row, 0);
    assert_eq!(out[1].text, "CURRENT FUNDS: -2000");
    assert_eq!(out[1].colors.foreground, ColorName::Green);
    assert_eq!(out[2].col, 35);
    assert_eq!(out[2].row, 1);
    assert_eq!(out[2].text, "TIME UNTIL DEBT COLLECTOR COMES: 50");
    assert_eq!(out[2].colors.foreground, ColorName::Red);
}
