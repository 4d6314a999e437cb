use visage_graphics::brush::{Brush, BrushStyle};
use visage_graphics::color::Color;
use visage_graphics::gradient::Gradient;

#[test]
fn new_brush_has_no_style() {
    let b = Brush::new();
    assert!(matches!(b.raw(), BrushStyle::Unset));
    assert!(matches!(Brush::default().raw(), BrushStyle::Unset));
}

#[test]
fn solid_sets_the_color() {
    let mut b = Brush::new();
    b.solid(Color::white());
    match b.raw() {
        BrushStyle::Solid(c) => assert_eq!(*c, Color::white()),
        _ => panic!("expected a solid brush"),
    }
}

#[test]
fn horizontal_copies_the_gradient() {
    let g = Gradient::from_colors(&[Color::black(), Color::white()]);
    let mut b = Brush::new();
    b.horizontal(&g);
    match b.raw() {
        BrushStyle::Horizontal(h) => assert!(*h == g),
        _ => panic!("expected a horizontal brush"),
    }
}

#[test]
fn vertical_copies_the_gradient() {
    let g = Gradient::from_colors(&[Color::white()]);
    let mut b = Brush::new();
    b.vertical(&g);
    match b.raw() {
        BrushStyle::Vertical(v) => assert!(*v == g),
        _ => panic!("expected a vertical brush"),
    }
}

#[test]
fn from_two_builds_two_stop_gradients() {
    let mut b = Brush::new();
    b.horizontal_from_two(Color::black(), Color::white());
    match b.raw() {
        BrushStyle::Horizontal(h) => {
            assert_eq!(h.resolution(), 2);
            assert_eq!(h.color(0).unwrap(), Color::black());
            assert_eq!(h.color(1).unwrap(), Color::white());
        },
        _ => panic!("expected a horizontal brush"),
    }
    b.vertical_from_two(Color::white(), Color::black());
    match b.raw() {
        BrushStyle::Vertical(v) => {
            assert_eq!(v.color(0).unwrap(), Color::white());
            assert_eq!(v.color(1).unwrap(), Color::black());
        },
        _ => panic!("expected a vertical brush"),
    }
}

#[test]
fn multiply_alpha_reaches_the_style() {
    let mut b = Brush::new();
    b.multiply_alpha(51);
    assert!(matches!(b.raw(), BrushStyle::Unset));

    let mut faint = Color::white();
    faint.set_alpha(100);
    b.solid(faint);
    b.multiply_alpha(51);
    match b.raw() {
        // 100 * 51 / 255 == 20
        BrushStyle::Solid(c) => assert_eq!(c.a(), 20),
        _ => panic!("expected a solid brush"),
    }

    let mut b = Brush::new();
    b.horizontal_from_two(faint, Color::white());
    b.multiply_alpha(51);
    match b.raw() {
        BrushStyle::Horizontal(h) => {
            assert_eq!(h.color(0).unwrap().a(), 20);
            assert_eq!(h.color(1).unwrap().a(), 51);
        },
        _ => panic!("expected a horizontal brush"),
    }
}

#[test]
fn interpolate_with_mixes_solid_colors() {
    let mut b = Brush::new();
    b.solid(Color::black());
    let mut target = Brush::new();
    target.solid(Color::white());
    b.interpolate_with(&target, 255);
    match b.raw() {
        BrushStyle::Solid(c) => assert_eq!(*c, Color::white()),
        _ => panic!("expected a solid brush"),
    }
    // (0 * 204 + 255 * 51) / 255 == 51
    let mut b = Brush::new();
    b.solid(Color::black());
    b.interpolate_with(&target, 51);
    match b.raw() {
        BrushStyle::Solid(c) => assert_eq!(c.r(), 51),
        _ => panic!("expected a solid brush"),
    }
}

#[test]
fn interpolate_with_mixes_matching_gradients() {
    let mut b = Brush::new();
    b.horizontal_from_two(Color::black(), Color::white());
    let mut target = Brush::new();
    target.horizontal_from_two(Color::white(), Color::white());
    b.interpolate_with(&target, 255);
    match b.raw() {
        BrushStyle::Horizontal(h) => {
            assert_eq!(h.color(0).unwrap(), Color::white());
            assert_eq!(h.color(1).unwrap(), Color::white());
        },
        _ => panic!("expected a horizontal brush"),
    }
}

#[test]
fn interpolate_with_leaves_unmatched_styles_alone() {
    let mut b = Brush::new();
    b.solid(Color::black());
    let mut vertical_target = Brush::new();
    vertical_target.vertical_from_two(Color::white(), Color::white());
    b.interpolate_with(&vertical_target, 255);
    match b.raw() {
        BrushStyle::Solid(c) => assert_eq!(*c, Color::black()),
        _ => panic!("expected a solid brush"),
    }

    let mut wide = Brush::new();
    wide.horizontal(&Gradient::from_colors(&[Color::black(), Color::black(), Color::black()]));
    let mut narrow = Brush::new();
    narrow.horizontal_from_two(Color::white(), Color::white());
    wide.interpolate_with(&narrow, 255);
    match wide.raw() {
        BrushStyle::Horizontal(h) => {
            assert_eq!(h.resolution(), 3);
            assert_eq!(h.color(0).unwrap(), Color::black());
        },
        _ => panic!("expected a horizontal brush"),
    }
}

#[test]
fn clone_keeps_the_style() {
    let mut b = Brush::new();
    b.solid(Color::black());
    let copy = b.clone();
    match copy.raw() {
        BrushStyle::Solid(c) => assert_eq!(*c, Color::black()),
        _ => panic!("expected a solid brush"),
    }
}
