use weathr::animation::sprite::Cell;
use weathr::color::Color;
use weathr::scene::world::decorations::{render_art, DecorationLayout, Decorations};
use weathr::scene::world::ground::{ground_cell, pond_art, pseudo_rand, Ground};
use weathr::scene::world::{WorldScene, GROUND_HEIGHT};
use weathr::scene::ChimneyPosition;
use weathr::ui::layout::Rect;
use weathr::scene::world::style::WorldSceneStyle;
use weathr::scene::{pond_bounds, SceneContext, POND_HEIGHT, POND_WIDTH};
use weathr::season::Season;
use weathr::theme::catalogue::default_palette;
use weathr::weather::provider::icon_global::{IconGlobalProvider, ICON_D2_ATTRIBUTION, ICON_GLOBAL_MODEL};
use weathr::weather::WeatherConditions;

fn summer_style() -> WorldSceneStyle {
    let conditions = WeatherConditions::default();
    let palette = default_palette();
    WorldSceneStyle::resolve(&SceneContext {
        conditions: &conditions,
        palette: &palette,
        season: Season::Summer,
    })
}

#[test]
fn pond_art_has_fixed_dimensions() {
    assert_eq!(pond_art().len(), POND_HEIGHT as usize);
    for line in pond_art() {
        assert_eq!(line.chars().count(), POND_WIDTH as usize);
    }
}

#[test]
fn uses_dwd_icon_d2_attribution() {
    assert_eq!(
        IconGlobalProvider::new().get_attribution(),
        ICON_D2_ATTRIBUTION
    );
}

#[test]
fn icon_provider_requests_the_global_icon_model() {
    let provider = IconGlobalProvider::default();
    assert_eq!(provider.model(), ICON_GLOBAL_MODEL);
    assert_eq!(ICON_GLOBAL_MODEL, "icon_global");
    assert_eq!(ICON_D2_ATTRIBUTION, "DWD ICON D2 via Open-Meteo");
}

#[test]
fn pseudo_random_ground_values_are_fixed() {
    assert_eq!(pseudo_rand(0, 0), (0x5DEECE6u32.wrapping_mul(0xB)) % 100);
    assert_eq!(pseudo_rand(3, 1), ((3u32 ^ 0x5DEECE6).wrapping_mul(1 ^ 0xB)) % 100);
    for x in 0..50 {
        for y in 0..7 {
            assert!(pseudo_rand(x, y) < 100);
        }
    }
}

#[test]
fn ground_top_row_is_grass_and_lower_rows_are_soil() {
    let style = summer_style();
    for x in 0..80 {
        let (ch, color) = ground_cell(x, 0, &style);
        assert!(matches!(ch, '*' | ',' | '^'));
        if ch == '^' {
            assert_eq!(color, style.grass_primary);
        }
        let (below, below_color) = ground_cell(x, 3, &style);
        assert!(matches!(below, '~' | '.' | ' '));
        assert_eq!(below_color, style.soil);
    }
}

#[test]
fn ground_cells_cover_every_cell_row_by_row() {
    let style = summer_style();
    let cells = Ground.cells(10, 3, 17, &style);
    assert_eq!(cells.len(), 30);
    assert_eq!((cells[0].x, cells[0].y), (0, 17));
    assert_eq!((cells[13].x, cells[13].y), (3, 18));
    let (ch, color) = ground_cell(3, 1, &style);
    assert_eq!((cells[13].ch, cells[13].color), (ch, color));
}

#[test]
fn pond_cells_skip_blanks_and_colour_the_water() {
    let style = summer_style();
    assert!(Ground.pond_cells(None, &style).is_empty());
    let pond = pond_bounds(80, 24, 17);
    let cells = Ground.pond_cells(pond, &style);
    assert_eq!(cells.len(), 7 + 7 + 7);
    assert_eq!(cells[0], Cell { x: 67, y: 20, ch: '.', color: style.water_edge });
    assert_eq!(cells[1], Cell { x: 68, y: 20, ch: '~', color: style.water });
    assert!(cells.iter().all(|c| c.ch != ' '));
    assert_ne!(style.water, Color::Reset);
}

const TREE: [&str; 5] = ["  ####  ", " ###### ", "########", "  _||_  ", "   ||   "];
const FENCE: [&str; 2] = ["|-|-|", "| | |"];

fn decoration_layout(house_x: u16, width: u16) -> DecorationLayout {
    DecorationLayout { horizon_y: 17, house_x, house_width: 30, width }
}

#[test]
fn render_art_skips_blanks_row_by_row() {
    let cells = render_art(&["ab c", " d"], 2, 3, Color::Green);
    assert_eq!(
        cells,
        vec![
            Cell { x: 2, y: 3, ch: 'a', color: Color::Green },
            Cell { x: 3, y: 3, ch: 'b', color: Color::Green },
            Cell { x: 5, y: 3, ch: 'c', color: Color::Green },
            Cell { x: 3, y: 4, ch: 'd', color: Color::Green },
        ]
    );
    assert!(render_art(&[], 0, 0, Color::Red).is_empty());
}

#[test]
fn tree_stands_twenty_columns_left_of_the_house_on_the_horizon() {
    assert_eq!(Decorations.tree_origin(&decoration_layout(30, 80), 5), Some((10, 12)));
    assert_eq!(Decorations.tree_origin(&decoration_layout(20, 80), 5), None);
    assert_eq!(Decorations.tree_origin(&decoration_layout(5, 80), 5), None);
    let low = DecorationLayout { horizon_y: 3, house_x: 30, house_width: 30, width: 80 };
    assert_eq!(Decorations.tree_origin(&low, 5), Some((10, 0)));
}

#[test]
fn fence_stands_two_columns_right_of_the_house() {
    assert_eq!(Decorations.fence_origin(&decoration_layout(30, 80), 2), Some((62, 15)));
    assert_eq!(Decorations.fence_origin(&decoration_layout(30, 62), 2), None);
    assert_eq!(Decorations.fence_origin(&decoration_layout(30, 63), 2), Some((62, 15)));
}

#[test]
fn decorations_draw_tree_then_fence_in_their_colours() {
    let style = summer_style();
    let cells = Decorations.cells(&decoration_layout(30, 80), &TREE, &FENCE, &style);
    let tree = render_art(&TREE, 10, 12, style.tree_foliage);
    let fence = render_art(&FENCE, 62, 15, style.fence);
    assert_eq!(cells.len(), tree.len() + fence.len());
    assert_eq!(&cells[..tree.len()], &tree[..]);
    assert_eq!(&cells[tree.len()..], &fence[..]);
    assert_eq!(cells[0], Cell { x: 12, y: 12, ch: '#', color: style.tree_foliage });
    assert_eq!(*cells.last().unwrap(), Cell { x: 66, y: 16, ch: '|', color: style.fence });

    let no_tree = Decorations.cells(&decoration_layout(20, 80), &TREE, &FENCE, &style);
    assert_eq!(no_tree, render_art(&FENCE, 52, 15, style.fence));
    let neither = Decorations.cells(&decoration_layout(20, 40), &TREE, &FENCE, &style);
    assert!(neither.is_empty());
}

#[test]
fn world_layout_centres_the_house_on_the_horizon() {
    let scene = WorldScene::new(Rect::new(0, 0, 80, 24));
    assert_eq!(scene.id(), "world");
    let layout = scene.layout(30, 10, 22);
    assert_eq!(layout.ground_y, 24 - GROUND_HEIGHT);
    assert_eq!(layout.chimney_pos, Some(ChimneyPosition { x: 47, y: 7 }));
    assert_eq!((layout.width, layout.height), (80, 24));
}

#[test]
fn short_scenes_shrink_the_ground_before_the_house() {
    assert_eq!(WorldScene::ground_height(24, 10), 7);
    assert_eq!(WorldScene::ground_height(12, 10), 2);
    assert_eq!(WorldScene::ground_height(5, 10), 0);
    let mut scene = WorldScene::new(Rect::new(0, 0, 80, 24));
    scene.update_size(Rect::new(0, 0, 20, 12));
    assert_eq!(scene.viewport, Rect::new(0, 0, 20, 12));
    let layout = scene.layout(30, 10, 22);
    assert_eq!(layout.ground_y, 10);
    assert_eq!(layout.chimney_pos, Some(ChimneyPosition { x: 22, y: 0 }));
}

#[test]
fn world_cells_are_the_ground_then_tree_and_fence() {
    let style = summer_style();
    let scene = WorldScene::new(Rect::new(0, 0, 80, 24));
    let cells = scene.cells(30, 10, &TREE, &FENCE, &style);
    let ground = Ground.cells(80, 7, 17, &style);
    let decorations = Decorations.cells(
        &DecorationLayout { horizon_y: 17, house_x: 25, house_width: 30, width: 80 },
        &TREE,
        &FENCE,
        &style,
    );
    assert_eq!(cells.len(), ground.len() + decorations.len());
    assert_eq!(&cells[..ground.len()], &ground[..]);
    assert_eq!(&cells[ground.len()..], &decorations[..]);
    // The tree stands at column 5, its top five rows above the horizon.
    assert_eq!(decorations[0], Cell { x: 7, y: 12, ch: '#', color: style.tree_foliage });
}

fn style_in(season: Season, is_day: bool) -> WorldSceneStyle {
    let mut conditions = WeatherConditions::default();
    conditions.is_day = is_day;
    let palette = default_palette();
    WorldSceneStyle::resolve(&SceneContext { conditions: &conditions, palette: &palette, season })
}

#[test]
fn winter_lawns_have_no_flowers() {
    for is_day in [true, false] {
        let winter = style_in(Season::Winter, is_day);
        assert_eq!(winter.flower_chance, 0);
        let cells = Ground.cells(80, 1, 17, &winter);
        assert_eq!(cells.len(), 80);
        assert!(cells.iter().all(|c| c.ch != '*'));
    }
}

#[test]
fn flowers_grow_with_the_season_flower_chance() {
    let count = |season: Season| {
        let style = style_in(season, true);
        let cells = Ground.cells(200, 1, 17, &style);
        cells.iter().filter(|c| c.ch == '*').count()
    };
    let (spring, summer, autumn, winter) =
        (count(Season::Spring), count(Season::Summer), count(Season::Autumn), count(Season::Winter));
    assert!(spring > summer && summer >= autumn && autumn >= winter);
    assert_eq!(winter, 0);
    let style = style_in(Season::Spring, true);
    for x in 0..200 {
        let (ch, _) = ground_cell(x, 0, &style);
        assert_eq!(ch == '*', pseudo_rand(x, 0) < style.flower_chance);
    }
}

#[test]
fn house_bounds_centre_the_house_above_the_horizon() {
    let house = WorldScene::house_bounds(80, 64, 17);
    assert_eq!((house.left, house.right, house.bottom), (8, 71, 16));
    let wide = WorldScene::house_bounds(100, 64, 17);
    assert_eq!((wide.left, wide.right), (18, 81));
    let tiny = WorldScene::house_bounds(10, 64, 0);
    assert_eq!((tiny.left, tiny.right, tiny.bottom), (0, 63, 0));
}
