use particles::{Color, ColorGradient, GradientPoint, FX_ONE};

#[test]
fn midpoint_interpolates_alpha() {
    let mut gradient = ColorGradient::new();
    gradient.add_point(GradientPoint::new(0, Color::from_rgba(255, 255, 255, 0)));
    gradient.add_point(GradientPoint::new(FX_ONE, Color::from_rgba(255, 255, 255, 255)));
    let c = gradient.get_color(FX_ONE / 2);
    // Linear interpolation, truncated: 255 * 0.5 = 127.
    assert_eq!(c.a, 127);
    assert_eq!(c.r, 255);
    assert_eq!(c.g, 255);
    assert_eq!(c.b, 255);
}

#[test]
fn quarter_point_interpolates_all_channels() {
    let mut gradient = ColorGradient::new();
    gradient.add_point(GradientPoint::new(0, Color::from_rgba(0, 100, 200, 0)));
    gradient.add_point(GradientPoint::new(FX_ONE, Color::from_rgba(100, 0, 200, 255)));
    let c = gradient.get_color(FX_ONE / 4);
    assert_eq!(c.r, 25);
    assert_eq!(c.g, 75);
    assert_eq!(c.b, 200);
    assert_eq!(c.a, 63);
}

#[test]
fn evaluation_clamps_to_outer_points() {
    let mut gradient = ColorGradient::new();
    gradient.add_point(GradientPoint::new(200_000, Color::from_rgba(10, 20, 30, 40)));
    gradient.add_point(GradientPoint::new(800_000, Color::from_rgba(50, 60, 70, 80)));
    assert_eq!(gradient.get_color(0), Color::from_rgba(10, 20, 30, 40));
    assert_eq!(gradient.get_color(100_000), Color::from_rgba(10, 20, 30, 40));
    assert_eq!(gradient.get_color(900_000), Color::from_rgba(50, 60, 70, 80));
    assert_eq!(gradient.get_color(FX_ONE), Color::from_rgba(50, 60, 70, 80));
}

#[test]
fn empty_gradient_is_white() {
    let gradient = ColorGradient::new();
    assert_eq!(gradient.get_color(FX_ONE / 2), Color::white());
}

#[test]
fn single_point_gradient_is_constant() {
    let mut gradient = ColorGradient::new();
    gradient.add_point(GradientPoint::new(500_000, Color::from_rgba(1, 2, 3, 4)));
    assert_eq!(gradient.get_color(0), Color::from_rgba(1, 2, 3, 4));
    assert_eq!(gradient.get_color(FX_ONE), Color::from_rgba(1, 2, 3, 4));
}

#[test]
fn multi_segment_gradient_picks_bracketing_pair() {
    let mut gradient = ColorGradient::new();
    gradient.add_point(GradientPoint::new(0, Color::from_rgba(0, 0, 0, 0)));
    gradient.add_point(GradientPoint::new(500_000, Color::from_rgba(100, 100, 100, 100)));
    gradient.add_point(GradientPoint::new(FX_ONE, Color::from_rgba(200, 200, 200, 200)));
    // Halfway into the second segment: 100 + 100 * 0.5 = 150.
    assert_eq!(gradient.get_color(750_000).r, 150);
    // Exactly on an interior keypoint.
    assert_eq!(gradient.get_color(500_000).r, 100);
}
