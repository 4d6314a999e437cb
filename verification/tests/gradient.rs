use visage_graphics::color::Color;
use visage_graphics::gradient::Gradient;

#[test]
fn new_gradient_is_empty() {
    let g = Gradient::new();
    assert_eq!(g.resolution(), 0);
    assert!(g.color(0).is_none());
}

#[test]
fn from_colors_keeps_order() {
    let stops = [Color::black(), Color::white(), Color::transparent()];
    let g = Gradient::from_colors(&stops);
    assert_eq!(g.resolution(), 3);
    assert_eq!(g.color(0).unwrap(), Color::black());
    assert_eq!(g.color(1).unwrap(), Color::white());
    assert_eq!(g.color(2).unwrap(), Color::transparent());
}

#[test]
fn set_resolution_grows_with_transparent_stops() {
    let mut g = Gradient::from_colors(&[Color::white()]);
    g.set_resolution(3);
    assert_eq!(g.resolution(), 3);
    assert_eq!(g.color(0).unwrap(), Color::white());
    assert_eq!(g.color(1).unwrap(), Color::transparent());
    assert_eq!(g.color(2).unwrap(), Color::transparent());
}

#[test]
fn set_resolution_shrinks_from_the_end() {
    let mut g = Gradient::from_colors(&[Color::black(), Color::white()]);
    g.set_resolution(1);
    assert_eq!(g.resolution(), 1);
    assert_eq!(g.color(0).unwrap(), Color::black());
    assert!(g.color(1).is_none());
}

#[test]
fn set_color_rejects_out_of_range_index() {
    let mut g = Gradient::from_colors(&[Color::black()]);
    assert_eq!(g.set_color(0, Color::white()), Ok(()));
    assert_eq!(g.color(0).unwrap(), Color::white());
    assert_eq!(g.set_color(1, Color::white()), Err(()));
    assert_eq!(g.resolution(), 1);
}

#[test]
fn interpolate_with_moves_each_stop() {
    let mut g = Gradient::from_colors(&[Color::black(), Color::white()]);
    let target = Gradient::from_colors(&[Color::white(), Color::white()]);
    g.interpolate_with(&target, 255);
    assert_eq!(g.color(0).unwrap(), Color::white());
    assert_eq!(g.color(1).unwrap(), Color::white());
}

#[test]
fn interpolate_with_ignores_mismatched_resolutions() {
    let mut g = Gradient::from_colors(&[Color::black()]);
    let target = Gradient::from_colors(&[Color::white(), Color::white()]);
    g.interpolate_with(&target, 255);
    assert_eq!(g.color(0).unwrap(), Color::black());
}

#[test]
fn multiply_alpha_scales_every_stop() {
    let mut opaque = Color::white();
    opaque.set_alpha(255);
    let mut faint = Color::white();
    faint.set_alpha(100);
    let mut g = Gradient::from_colors(&[opaque, faint]);
    g.multiply_alpha(51);
    // 255 * 51 / 255 == 51 and 100 * 51 / 255 == 20
    assert_eq!(g.color(0).unwrap().a(), 51);
    assert_eq!(g.color(1).unwrap().a(), 20);
    assert_eq!(g.color(0).unwrap().r(), 255);
}

#[test]
fn gradients_compare_by_stops() {
    let a = Gradient::from_colors(&[Color::black(), Color::white()]);
    let b = Gradient::from_colors(&[Color::black(), Color::white()]);
    let c = Gradient::from_colors(&[Color::black()]);
    let d = Gradient::from_colors(&[Color::black(), Color::black()]);
    assert!(a == b);
    assert!(a != c);
    assert!(a != d);
}

#[test]
fn clone_and_default_behave() {
    let a = Gradient::from_colors(&[Color::black(), Color::white()]);
    let b = a.clone();
    assert!(a == b);
    let e = Gradient::default();
    assert_eq!(e.resolution(), 0);
}

#[test]
fn raw_exposes_the_stop_list() {
    let g = Gradient::from_colors(&[Color::black(), Color::white()]);
    let stops = g.raw();
    assert_eq!(stops.len(), 2);
    assert_eq!(stops[0], Color::black());
    assert_eq!(stops[1], Color::white());
}
