use weathr::ui::layout::{LayoutTier, Rect, RenderRegions};

#[test]
fn selects_the_three_layout_tiers_at_the_declared_boundaries() {
    assert_eq!(
        RenderRegions::calculate(70, 20, true, false).tier,
        LayoutTier::Small
    );
    assert_eq!(
        RenderRegions::calculate(70, 20, true, false)
            .hud
            .unwrap()
            .height,
        4
    );
    assert_eq!(
        RenderRegions::calculate(70, 20, true, true)
            .hud
            .unwrap()
            .height,
        6
    );
    assert_eq!(
        RenderRegions::calculate(89, 22, true, false).tier,
        LayoutTier::Small
    );
    assert_eq!(
        RenderRegions::calculate(90, 23, true, false).tier,
        LayoutTier::Medium
    );
    assert_eq!(
        RenderRegions::calculate(119, 27, true, false).tier,
        LayoutTier::Medium
    );
    assert_eq!(
        RenderRegions::calculate(120, 28, true, false).tier,
        LayoutTier::Large
    );
}

#[test]
fn hud_and_scene_are_disjoint() {
    for (width, height) in [(70, 20), (90, 23), (120, 28), (180, 50)] {
        for details in [false, true] {
            let regions = RenderRegions::calculate(width, height, true, details);
            let hud = regions.hud.expect("HUD must fit supported sizes");
            assert!(
                regions.scene.right() <= hud.x
                    || regions.scene.bottom() <= hud.y
                    || hud.right() <= regions.scene.x
                    || hud.bottom() <= regions.scene.y,
                "scene and HUD overlap for {width}x{height} ({details})"
            );
            assert!(!regions.scene.is_empty());
            assert!(!regions.status.is_empty());
        }
    }
}

#[test]
fn hidden_hud_gives_the_scene_the_whole_body() {
    let regions = RenderRegions::calculate(90, 23, false, true);
    assert_eq!(regions.hud, None);
    assert_eq!(regions.scene, Rect::new(0, 0, 90, 22));
}

#[test]
fn all_regions_stay_inside_the_screen() {
    for (width, height) in [(70, 20), (90, 23), (120, 28), (240, 60)] {
        for details in [false, true] {
            let regions = RenderRegions::calculate(width, height, true, details);

            assert!(regions.scene.right() <= regions.screen.right());
            assert!(regions.scene.bottom() <= regions.screen.bottom());
            assert!(regions.status.right() <= regions.screen.right());
            assert!(regions.status.bottom() <= regions.screen.bottom());
            if let Some(hud) = regions.hud {
                assert!(hud.right() <= regions.screen.right());
                assert!(hud.bottom() <= regions.screen.bottom());
            }
        }
    }
}

#[test]
fn large_tier_puts_a_side_panel_right_of_the_scene() {
    let regions = RenderRegions::calculate(120, 28, true, false);
    assert_eq!(regions.scene, Rect::new(0, 0, 91, 27));
    assert_eq!(regions.hud, Some(Rect::new(92, 1, 28, 25)));
    assert_eq!(regions.status, Rect::new(0, 27, 120, 1));
}

#[test]
fn medium_tier_puts_the_hud_above_the_scene() {
    let regions = RenderRegions::calculate(90, 23, true, true);
    assert_eq!(regions.hud, Some(Rect::new(1, 0, 88, 6)));
    assert_eq!(regions.scene, Rect::new(0, 7, 90, 15));
}

#[test]
fn small_tier_puts_the_hud_below_the_scene() {
    let regions = RenderRegions::calculate(70, 20, true, false);
    assert_eq!(regions.hud, Some(Rect::new(1, 15, 68, 4)));
    assert_eq!(regions.scene, Rect::new(0, 0, 70, 14));
}

#[test]
fn empty_terminal_has_no_hud_and_no_status_row() {
    let regions = RenderRegions::calculate(0, 0, true, true);
    assert_eq!(regions.hud, None);
    assert_eq!(regions.status, Rect::default());
    let one_row = RenderRegions::calculate(40, 1, true, true);
    assert_eq!(one_row.hud, None);
    assert_eq!(one_row.status, Rect::new(0, 0, 40, 1));
}

#[test]
fn rect_edges_saturate_and_contain_their_cells() {
    let r = Rect::new(65530, 2, 10, 3);
    assert_eq!(r.right(), u16::MAX);
    assert_eq!(r.bottom(), 5);
    assert!(r.contains(65531, 4));
    assert!(!r.contains(65531, 5));
    assert!(Rect::new(0, 0, 0, 5).is_empty());
    assert_eq!(LayoutTier::Medium.name(), "medium");
}
