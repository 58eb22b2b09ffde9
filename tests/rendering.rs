use mycelia::rendering::{
    brighten_color, corruption_color, lerp_color, segment_color, Color, TendrilSegment, TendrilStyle, TendrilType,
};

fn segment(health: u64, max_health: u64, corrupted: bool, corruption_level: u32) -> TendrilSegment {
    TendrilSegment { health, max_health, corrupted, corruption_level, ..TendrilSegment::default() }
}

#[test]
fn test_tendril_segment_default() {
    let segment = TendrilSegment::default();
    assert_eq!(segment.health, 100);
    assert_eq!(segment.tendril_type, TendrilType::Basic);
    assert!(!segment.corrupted);
}

#[test]
fn test_tendril_type_default() {
    assert_eq!(TendrilType::default(), TendrilType::Basic);
}

#[test]
fn test_tendril_style_for_basic() {
    let style = TendrilStyle::for_type(TendrilType::Basic);
    assert!(style.thickness > 0);
    assert!(style.color.green > style.color.red);
}

#[test]
fn test_tendril_style_for_toxic() {
    let style = TendrilStyle::for_type(TendrilType::Toxic);
    assert!(style.color.blue > style.color.green);
}

#[test]
fn test_tendril_style_for_sticky() {
    let style = TendrilStyle::for_type(TendrilType::Sticky);
    let basic = TendrilStyle::for_type(TendrilType::Basic);
    assert!(style.thickness > basic.thickness);
}

#[test]
fn test_tendril_style_for_explosive() {
    let style = TendrilStyle::for_type(TendrilType::Explosive);
    assert!(style.color.red > style.color.green);
    assert!(style.color.red > style.color.blue);
}

#[test]
fn test_all_types_have_different_colors() {
    let basic = TendrilStyle::for_type(TendrilType::Basic);
    let toxic = TendrilStyle::for_type(TendrilType::Toxic);
    let sticky = TendrilStyle::for_type(TendrilType::Sticky);
    let explosive = TendrilStyle::for_type(TendrilType::Explosive);
    assert_ne!(basic.color, toxic.color);
    assert_ne!(basic.color, sticky.color);
    assert_ne!(basic.color, explosive.color);
    assert_ne!(toxic.color, sticky.color);
    assert_ne!(toxic.color, explosive.color);
    assert_ne!(sticky.color, explosive.color);
}

#[test]
fn test_lerp_color_at_zero() {
    let a = Color::rgb(0, 0, 0);
    let b = Color::rgb(1000, 1000, 1000);
    assert_eq!(lerp_color(a, b, 0), a);
}

#[test]
fn test_lerp_color_at_one() {
    let a = Color::rgb(0, 0, 0);
    let b = Color::rgb(1000, 1000, 1000);
    assert_eq!(lerp_color(a, b, 1000), b);
}

#[test]
fn test_lerp_color_at_half() {
    let a = Color::rgb(0, 0, 0);
    let b = Color::rgb(1000, 1000, 1000);
    let r = lerp_color(a, b, 500);
    assert_eq!((r.red, r.green, r.blue), (500, 500, 500));
}

#[test]
fn test_lerp_color_clamps_t() {
    let a = Color::rgb(0, 0, 0);
    let b = Color::rgb(1000, 1000, 1000);
    assert_eq!(lerp_color(a, b, 2000).red, 1000);
}

#[test]
fn test_segment_color_healthy() {
    let style = TendrilStyle::for_type(TendrilType::Basic);
    assert_eq!(segment_color(&segment(100, 100, false, 0), &style), style.color);
}

#[test]
fn test_segment_color_damaged() {
    let style = TendrilStyle::for_type(TendrilType::Basic);
    let color = segment_color(&segment(50, 100, false, 0), &style);
    assert!(color.red < style.color.red);
    assert!(color.green < style.color.green);
    assert!(color.blue < style.color.blue);
    assert_eq!(color, Color { red: 200, green: 350, blue: 150, alpha: 1000 });
}

#[test]
fn test_segment_color_heavily_damaged_has_minimum() {
    let style = TendrilStyle::for_type(TendrilType::Basic);
    let color = segment_color(&segment(0, 100, false, 0), &style);
    assert_eq!(color.green, style.color.green * 3 / 10);
}

#[test]
fn test_segment_color_corrupted() {
    let style = TendrilStyle::for_type(TendrilType::Basic);
    assert_eq!(segment_color(&segment(100, 100, true, 1000), &style), corruption_color());
}

#[test]
fn test_segment_color_partially_corrupted() {
    let style = TendrilStyle::for_type(TendrilType::Basic);
    let color = segment_color(&segment(100, 100, true, 500), &style);
    let base = style.color;
    let corruption = corruption_color();
    assert!(color.red >= base.red.min(corruption.red));
    assert!(color.red <= base.red.max(corruption.red));
    assert_eq!(color.red, 450);
}

#[test]
fn test_segment_color_zero_max_health() {
    let style = TendrilStyle::for_type(TendrilType::Basic);
    let color = segment_color(&segment(0, 0, false, 0), &style);
    assert_eq!(color.green, style.color.green);
}

#[test]
fn fully_corrupted_segment_ignores_health() {
    let style = TendrilStyle::for_type(TendrilType::Toxic);
    assert_eq!(segment_color(&segment(3, 100, true, 1000), &style), corruption_color());
}

#[test]
fn test_brighten_color_increases_rgb() {
    let r = brighten_color(Color::rgb(500, 500, 500));
    assert_eq!((r.red, r.green, r.blue), (650, 650, 650));
}

#[test]
fn test_brighten_color_clamps_to_one() {
    let r = brighten_color(Color::rgb(900, 900, 900));
    assert_eq!((r.red, r.green, r.blue), (1000, 1000, 1000));
}

#[test]
fn test_brighten_color_preserves_alpha() {
    let r = brighten_color(Color { red: 500, green: 500, blue: 500, alpha: 700 });
    assert_eq!(r.alpha, 700);
}

#[test]
fn test_growth_tip_unselected_color_is_brightened() {
    let base = Color::rgb(400, 700, 300);
    let r = brighten_color(base);
    assert!(r.red > base.red);
    assert!(r.green > base.green);
    assert!(r.blue > base.blue);
}
