use visage_graphics::color::{Color, ColorValues, CHANNEL_MAX, HDR_ONE};

#[test]
fn abgr_decodes_channel_by_channel() {
    let c = Color::from_abgr(0x11223344);
    let v = c.raw();
    assert_eq!(v.alpha, 0x11);
    assert_eq!(v.blue, 0x22);
    assert_eq!(v.green, 0x33);
    assert_eq!(v.red, 0x44);
    assert_eq!(v.hdr, HDR_ONE);
}

#[test]
fn argb_decodes_channel_by_channel() {
    let c = Color::from_argb(0x80ff0001);
    let v = c.raw();
    assert_eq!(v.alpha, 0x80);
    assert_eq!(v.red, 0xff);
    assert_eq!(v.green, 0x00);
    assert_eq!(v.blue, 0x01);
    assert_eq!(v.hdr, HDR_ONE);
}

#[test]
fn abgr_round_trips() {
    assert_eq!(Color::from_abgr(0xdeadbeef).to_abgr(), 0xdeadbeef);
    assert_eq!(Color::from_abgr(0).to_abgr(), 0);
    assert_eq!(Color::from_abgr(u32::MAX).to_abgr(), u32::MAX);
}

#[test]
fn argb_round_trips() {
    assert_eq!(Color::from_argb(0xdeadbeef).to_argb(), 0xdeadbeef);
    assert_eq!(Color::from_argb(0x00000001).to_argb(), 0x00000001);
}

#[test]
fn rgb_drops_alpha() {
    let c = Color::from_argb(0x80ff2001);
    assert_eq!(c.to_rgb(), 0x00ff2001);
}

#[test]
fn from_raw_keeps_every_value() {
    let v = ColorValues { blue: 1, green: 2, red: 3, alpha: 4, hdr: 512 };
    let c = Color::from_raw(v);
    assert_eq!(c.raw(), v);
}

#[test]
fn hex_parses_six_digits_as_opaque() {
    let c = Color::from_hex_string("#ff8800").unwrap();
    let v = c.raw();
    assert_eq!(v.red, 0xff);
    assert_eq!(v.green, 0x88);
    assert_eq!(v.blue, 0x00);
    assert_eq!(v.alpha, CHANNEL_MAX);
    assert_eq!(v.hdr, HDR_ONE);
}

#[test]
fn hex_parses_eight_digits_with_alpha() {
    let c = Color::from_hex_string("80ff8800").unwrap();
    let v = c.raw();
    assert_eq!(v.alpha, 0x80);
    assert_eq!(v.red, 0xff);
    assert_eq!(v.green, 0x88);
    assert_eq!(v.blue, 0x00);
}

#[test]
fn hex_accepts_either_case_and_no_hash() {
    assert_eq!(
        Color::from_hex_string("A0B1C2").unwrap().raw(),
        Color::from_hex_string("#a0b1c2").unwrap().raw()
    );
}

#[test]
fn hex_rejects_malformed_text() {
    assert!(Color::from_hex_string("").is_none());
    assert!(Color::from_hex_string("#").is_none());
    assert!(Color::from_hex_string("#ff88").is_none());
    assert!(Color::from_hex_string("#ff880g").is_none());
    assert!(Color::from_hex_string("ff8800ff00").is_none());
    assert!(Color::from_hex_string("##ff8800").is_none());
}

#[test]
fn named_colors_hold_their_values() {
    assert_eq!(Color::black().to_argb(), 0xff000000);
    assert_eq!(Color::white().to_argb(), 0xffffffff);
    assert_eq!(Color::transparent().to_argb(), 0x00000000);
    assert_eq!(Color::black().hdr(), HDR_ONE);
}

#[test]
fn setters_replace_one_channel() {
    let mut c = Color::black();
    c.set_blue(10);
    c.set_green(20);
    c.set_red(30);
    c.set_alpha(40);
    c.set_hdr(510);
    assert_eq!(c.b(), 10);
    assert_eq!(c.g(), 20);
    assert_eq!(c.r(), 30);
    assert_eq!(c.a(), 40);
    assert_eq!(c.hdr(), 510);
}

#[test]
fn value_is_the_brightest_channel() {
    let mut c = Color::black();
    c.set_red(80);
    c.set_green(200);
    c.set_blue(100);
    assert_eq!(c.value(), 200);
    assert_eq!(Color::black().value(), 0);
    assert_eq!(Color::white().value(), 255);
}

#[test]
fn interpolate_hits_both_endpoints() {
    let a = Color::from_argb(0x11223344);
    let b = Color::from_argb(0xffeeddcc);
    assert_eq!(Color::interpolate(&a, &b, 0).raw(), a.raw());
    assert_eq!(Color::interpolate(&a, &b, 255).raw(), b.raw());
}

#[test]
fn interpolate_scales_between() {
    let a = Color::transparent();
    let mut b = Color::transparent();
    b.set_red(255);
    // (0 * 204 + 255 * 51) / 255 == 51
    assert_eq!(Color::interpolate(&a, &b, 51).r(), 51);
    assert_eq!(Color::interpolate(&a, &b, 51).g(), 0);
}

#[test]
fn colors_order_lexicographically() {
    let low = Color::from_raw(ColorValues { blue: 1, green: 9, red: 9, alpha: 9, hdr: 9 });
    let high = Color::from_raw(ColorValues { blue: 2, green: 0, red: 0, alpha: 0, hdr: 0 });
    assert!(low < high);
    let mut hdr_high = low;
    hdr_high.set_hdr(10);
    assert!(low < hdr_high);
    assert_eq!(low.partial_cmp(&low), Some(std::cmp::Ordering::Equal));
}

#[test]
fn from_u32_reads_argb() {
    let c: Color = 0x80ff0001u32.into();
    assert_eq!(c.raw(), Color::from_argb(0x80ff0001).raw());
    assert_eq!(Color::from(0xff000000u32).raw(), Color::black().raw());
}
