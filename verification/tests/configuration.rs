use health_bar::color::{Color, ColorSpace};
use health_bar::configuration::{
    BarBorder, BarHeight, BarOrientation, BarSettings, ColorScheme, ForegroundColor,
};
use health_bar::constants::{
    default_background_color, default_border_color, default_high_color, default_low_color,
    default_moderate_color, default_relative_height, default_width, DEFAULT_RELATIVE_HEIGHT_BITS,
    DEFAULT_WIDTH_BITS,
};
use health_bar::material::Vector4;
use health_bar::scalar::Scalar;

fn scalar(x: f32) -> Scalar {
    Scalar::from_bits(x.to_bits())
}

fn srgba(red: f32, green: f32, blue: f32, alpha: f32) -> Color {
    Color::srgba(scalar(red), scalar(green), scalar(blue), scalar(alpha))
}

#[test]
fn default_numbers() {
    assert_eq!(DEFAULT_WIDTH_BITS, 1.2f32.to_bits());
    assert_eq!(DEFAULT_RELATIVE_HEIGHT_BITS, 0.1666f32.to_bits());
    assert_eq!(default_width(), scalar(1.2));
    assert_eq!(default_relative_height(), scalar(0.1666));
}

#[test]
fn default_colors() {
    assert_eq!(default_background_color(), srgba(0., 0., 0., 0.75));
    assert_eq!(default_border_color(), srgba(0.02, 0.02, 0.02, 0.95));
    assert_eq!(default_high_color(), srgba(0., 1., 0., 0.95));
    assert_eq!(default_moderate_color(), srgba(1., 1., 0., 0.95));
    assert_eq!(default_low_color(), srgba(1., 0., 0., 0.95));
}

#[test]
fn srgba_fills_the_components_in_order() {
    let color = srgba(0.1, 0.2, 0.3, 0.4);
    assert_eq!(color.space, ColorSpace::Srgba);
    assert_eq!(color.first, scalar(0.1));
    assert_eq!(color.second, scalar(0.2));
    assert_eq!(color.third, scalar(0.3));
    assert_eq!(color.alpha, scalar(0.4));
}

#[test]
fn default_settings() {
    let settings = BarSettings::default();
    assert_eq!(settings.width, scalar(1.2));
    assert_eq!(settings.offset, scalar(0.0));
    assert_eq!(settings.height, BarHeight::Relative(scalar(0.1666)));
    assert_eq!(settings.border.width, scalar(0.0));
    assert_eq!(settings.border.color, srgba(0.02, 0.02, 0.02, 0.95));
    assert_eq!(settings.orientation, BarOrientation::Horizontal);
}

#[test]
fn default_orientation_and_height() {
    assert_eq!(BarOrientation::default(), BarOrientation::Horizontal);
    assert_eq!(BarHeight::default(), BarHeight::Relative(scalar(0.1666)));
}

#[test]
fn border_defaults_to_no_border() {
    let border = BarBorder::default();
    assert_eq!(border.width, scalar(0.0));
    assert!(!border.width.is_positive());
    assert_eq!(border.color, default_border_color());
}

#[test]
fn border_new_keeps_width_and_takes_default_color() {
    let border = BarBorder::new(scalar(0.05));
    assert_eq!(border.width, scalar(0.05));
    assert_eq!(border.color, srgba(0.02, 0.02, 0.02, 0.95));
}

#[test]
fn border_color_replaces_only_the_color() {
    let red = srgba(1., 0., 0., 1.);
    let border = BarBorder::new(scalar(0.05)).color(red);
    assert_eq!(border, BarBorder { width: scalar(0.05), color: red });
}

#[test]
fn color_scheme_new_is_default() {
    let scheme = ColorScheme::new();
    assert_eq!(scheme, ColorScheme::default());
    assert_eq!(
        scheme.foreground_color,
        ForegroundColor::TriSpectrum {
            high: srgba(0., 1., 0., 0.95),
            moderate: srgba(1., 1., 0., 0.95),
            low: srgba(1., 0., 0., 0.95),
        }
    );
    assert_eq!(scheme.background_color, srgba(0., 0., 0., 0.75));
}

#[test]
fn color_scheme_builders_replace_one_field_each() {
    let blue = srgba(0., 0., 1., 1.);
    let white = srgba(1., 1., 1., 1.);
    let scheme = ColorScheme::new().foreground_color(ForegroundColor::Static(blue));
    assert_eq!(scheme.foreground_color, ForegroundColor::Static(blue));
    assert_eq!(scheme.background_color, default_background_color());
    let scheme = scheme.background_color(white);
    assert_eq!(scheme.foreground_color, ForegroundColor::Static(blue));
    assert_eq!(scheme.background_color, white);
}

#[test]
fn static_foreground_fills_the_spectrum() {
    let blue = srgba(0., 0., 1., 1.);
    assert_eq!(ForegroundColor::Static(blue).spectrum(), (blue, blue, blue));
}

#[test]
fn tri_spectrum_keeps_its_order() {
    let high = srgba(0., 1., 0., 1.);
    let moderate = srgba(1., 0.5, 0., 1.);
    let low = srgba(1., 0., 0., 1.);
    assert_eq!(
        ForegroundColor::TriSpectrum { high, moderate, low }.spectrum(),
        (high, moderate, low)
    );
}

#[test]
fn absolute_height_of_relative_and_static() {
    let relative = BarSettings::default();
    assert_eq!(relative.absolute_height(scalar(0.2)), scalar(0.2));
    let fixed = BarSettings { height: BarHeight::Static(scalar(0.5)), ..BarSettings::default() };
    assert_eq!(fixed.absolute_height(scalar(0.2)), scalar(0.5));
}

#[test]
fn horizontal_bar_keeps_its_extents() {
    let settings = BarSettings {
        width: scalar(2.0),
        height: BarHeight::Static(scalar(0.5)),
        offset: scalar(1.5),
        ..BarSettings::default()
    };
    assert_eq!(settings.normalized_width(scalar(9.0)), scalar(2.0));
    assert_eq!(settings.normalized_height(scalar(9.0)), scalar(0.5));
    assert_eq!(
        settings.normalized_offset(),
        Vector4 { x: scalar(0.0), y: scalar(1.5), z: scalar(0.0), w: scalar(0.0) }
    );
}

#[test]
fn vertical_bar_swaps_its_extents() {
    let settings = BarSettings {
        width: scalar(2.0),
        height: BarHeight::Static(scalar(0.5)),
        offset: scalar(1.5),
        orientation: BarOrientation::Vertical,
        ..BarSettings::default()
    };
    assert_eq!(settings.normalized_width(scalar(9.0)), scalar(0.5));
    assert_eq!(settings.normalized_height(scalar(9.0)), scalar(2.0));
    assert_eq!(
        settings.normalized_offset(),
        Vector4 { x: scalar(1.5), y: scalar(0.0), z: scalar(0.0), w: scalar(0.0) }
    );
}

#[test]
fn relative_height_comes_from_the_caller() {
    let settings = BarSettings::default();
    let product = 0.1666f32 * 1.2f32;
    assert_eq!(settings.normalized_width(scalar(product)), scalar(1.2));
    assert_eq!(settings.normalized_height(scalar(product)), scalar(product));
    let upright = BarSettings { orientation: BarOrientation::Vertical, ..settings };
    assert_eq!(upright.normalized_width(scalar(product)), scalar(product));
    assert_eq!(upright.normalized_height(scalar(product)), scalar(1.2));
}
