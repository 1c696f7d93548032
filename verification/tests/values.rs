use tray_rust::error::{Fault, Key, Kind, LoadError, Part};
use tray_rust::json::{parse, Json};
use tray_rust::scalar::Real;
use tray_rust::values::{load_animated_color, load_color, load_point, load_vector};
use tray_rust::values::{require_color, require_point, require_vector};
use tray_rust::values::{AnimatedColor, ColorKeyframe, Colorf, Point, ScaledColor, Vector};

fn doc(text: &str) -> Json {
    parse(text).unwrap()
}

fn num(x: f64) -> Real {
    Real { bits: x.to_bits() }
}

fn color(r: f64, g: f64, b: f64) -> ScaledColor {
    ScaledColor { base: Colorf { r: num(r), g: num(g), b: num(b) }, scale: None }
}

fn scaled(r: f64, g: f64, b: f64, s: f64) -> ScaledColor {
    ScaledColor { base: Colorf { r: num(r), g: num(g), b: num(b) }, scale: Some(num(s)) }
}

fn invalid(part: Part, key: Key, kind: Kind) -> LoadError {
    LoadError::Invalid(Fault { part, key, kind })
}

#[test]
fn load_vector_reads_three_numbers() {
    assert_eq!(
        load_vector(&doc("[1.0, 2.0, 0.5]")),
        Some(Vector { x: num(1.0), y: num(2.0), z: num(0.5) })
    );
    assert_eq!(
        load_vector(&doc("[1, -2, 0]")),
        Some(Vector { x: num(1.0), y: num(-2.0), z: num(0.0) })
    );
}

#[test]
fn load_vector_refuses_other_lengths() {
    assert_eq!(load_vector(&doc("[]")), None);
    assert_eq!(load_vector(&doc("[1, 2]")), None);
    assert_eq!(load_vector(&doc("[1, 2, 3, 4]")), None);
}

#[test]
fn load_vector_refuses_what_is_no_array_of_numbers() {
    assert_eq!(load_vector(&doc("3")), None);
    assert_eq!(load_vector(&doc("{\"x\": 1, \"y\": 2, \"z\": 3}")), None);
    assert_eq!(load_vector(&doc("[1, \"2\", 3]")), None);
    assert_eq!(load_vector(&doc("[null, 2, 3]")), None);
    assert_eq!(load_vector(&doc("[1, 2, [3]]")), None);
}

#[test]
fn load_point_reads_three_numbers() {
    assert_eq!(
        load_point(&doc("[0, 1.5, -12]")),
        Some(Point { x: num(0.0), y: num(1.5), z: num(-12.0) })
    );
    assert_eq!(load_point(&doc("[0, 1.5]")), None);
    assert_eq!(load_point(&doc("[0, 1.5, true]")), None);
    assert_eq!(load_point(&doc("\"origin\"")), None);
}

#[test]
fn load_color_reads_three_channels() {
    assert_eq!(load_color(&doc("[1, 0.5, 0.25]")), Some(color(1.0, 0.5, 0.25)));
}

#[test]
fn load_color_keeps_a_fourth_number_as_the_scale() {
    assert_eq!(load_color(&doc("[1, 0.5, 0.25, 30]")), Some(scaled(1.0, 0.5, 0.25, 30.0)));
    assert_eq!(load_color(&doc("[1, 1, 1, 0]")), Some(scaled(1.0, 1.0, 1.0, 0.0)));
}

#[test]
fn load_color_refuses_other_lengths() {
    assert_eq!(load_color(&doc("[]")), None);
    assert_eq!(load_color(&doc("[1, 0.5]")), None);
    assert_eq!(load_color(&doc("[1, 0.5, 0.25, 30, 2]")), None);
}

#[test]
fn load_color_refuses_what_is_no_array_of_numbers() {
    assert_eq!(load_color(&doc("\"red\"")), None);
    assert_eq!(load_color(&doc("[1, 0.5, \"0.25\"]")), None);
    assert_eq!(load_color(&doc("[1, 0.5, 0.25, null]")), None);
    assert_eq!(load_color(&doc("[[1], 0.5, 0.25]")), None);
}

#[test]
fn colorf_is_black_when_every_channel_is_zero() {
    assert!(Colorf::new(num(0.0), num(0.0), num(0.0)).is_black());
    assert!(Colorf::new(num(-0.0), num(0.0), num(-0.0)).is_black());
    assert!(!Colorf::new(num(0.0), num(0.0), num(1e-300)).is_black());
    assert!(!Colorf::new(num(0.5), num(0.0), num(0.0)).is_black());
    assert!(!Colorf::new(num(0.0), num(-1.0), num(0.0)).is_black());
    assert!(!Colorf::new(num(f64::NAN), num(0.0), num(0.0)).is_black());
}

#[test]
fn require_color_tells_missing_from_mistyped() {
    let data = doc("{\"reflect\": [1, 1, 1], \"transmit\": [1, 1]}");
    assert_eq!(require_color(&data, Part::Glass, Key::Reflect), Ok(color(1.0, 1.0, 1.0)));
    assert_eq!(
        require_color(&data, Part::Glass, Key::Transmit),
        Err(invalid(Part::Glass, Key::Transmit, Kind::Mistyped))
    );
    assert_eq!(
        require_color(&data, Part::Matte, Key::Diffuse),
        Err(invalid(Part::Matte, Key::Diffuse, Kind::Missing))
    );
}

#[test]
fn require_vector_and_point_tell_missing_from_mistyped() {
    let data = doc("{\"up\": [0, 1, 0], \"position\": [0, 0, 5], \"target\": 0, \"axis\": []}");
    assert_eq!(
        require_vector(&data, Part::Camera, Key::Up),
        Ok(Vector { x: num(0.0), y: num(1.0), z: num(0.0) })
    );
    assert_eq!(
        require_point(&data, Part::Camera, Key::Position),
        Ok(Point { x: num(0.0), y: num(0.0), z: num(5.0) })
    );
    assert_eq!(
        require_point(&data, Part::Camera, Key::Target),
        Err(invalid(Part::Camera, Key::Target, Kind::Mistyped))
    );
    assert_eq!(
        require_vector(&data, Part::Rotate, Key::Axis),
        Err(invalid(Part::Rotate, Key::Axis, Kind::Mistyped))
    );
    assert_eq!(
        require_vector(&data, Part::Translate, Key::Translation),
        Err(invalid(Part::Translate, Key::Translation, Kind::Missing))
    );
    assert_eq!(
        require_point(&data, Part::PointLight, Key::Emission),
        Err(invalid(Part::PointLight, Key::Emission, Kind::Missing))
    );
}

#[test]
fn load_animated_color_takes_a_single_color_at_time_zero() {
    let loaded = load_animated_color(&doc("[1, 0.5, 0.25, 30]"));
    let expected = AnimatedColor {
        keyframes: vec![ColorKeyframe { color: scaled(1.0, 0.5, 0.25, 30.0), time: num(0.0) }],
    };
    assert_eq!(loaded, Ok(Some(expected)));
}

#[test]
fn load_animated_color_reads_keyframes_in_order() {
    let loaded = load_animated_color(&doc(
        "[{\"time\": 2, \"color\": [1, 0, 0]}, {\"time\": 0.5, \"color\": [0, 0, 1, 4]}]",
    ));
    let expected = AnimatedColor {
        keyframes: vec![
            ColorKeyframe { color: color(1.0, 0.0, 0.0), time: num(2.0) },
            ColorKeyframe { color: scaled(0.0, 0.0, 1.0, 4.0), time: num(0.5) },
        ],
    };
    assert_eq!(loaded, Ok(Some(expected)));
}

#[test]
fn load_animated_color_states_none_for_no_array_and_for_an_empty_one() {
    assert_eq!(load_animated_color(&doc("1")), Ok(None));
    assert_eq!(load_animated_color(&doc("{\"time\": 0, \"color\": [1, 1, 1]}")), Ok(None));
    assert_eq!(load_animated_color(&doc("[]")), Ok(None));
}

#[test]
fn load_animated_color_states_none_for_a_bad_single_color() {
    assert_eq!(load_animated_color(&doc("[1, 2]")), Ok(None));
    assert_eq!(load_animated_color(&doc("[1, \"a\", 3]")), Ok(None));
    assert_eq!(load_animated_color(&doc("[1, 2, 3, 4, 5]")), Ok(None));
}

#[test]
fn load_animated_color_tells_the_first_fault_of_a_keyframe() {
    assert_eq!(
        load_animated_color(&doc("[{\"color\": [1, 1, 1]}]")),
        Err(invalid(Part::ColorKeyframe, Key::Time, Kind::Missing))
    );
    assert_eq!(
        load_animated_color(&doc("[{\"time\": \"0\", \"color\": [1, 1, 1]}]")),
        Err(invalid(Part::ColorKeyframe, Key::Time, Kind::Mistyped))
    );
    assert_eq!(
        load_animated_color(&doc("[{\"time\": 0}]")),
        Err(invalid(Part::ColorKeyframe, Key::Color, Kind::Missing))
    );
    assert_eq!(
        load_animated_color(&doc("[{\"time\": 0, \"color\": [1, 1]}]")),
        Err(invalid(Part::ColorKeyframe, Key::Color, Kind::Mistyped))
    );
    assert_eq!(
        load_animated_color(&doc(
            "[{\"time\": 0, \"color\": [1, 1, 1]}, {\"time\": 1}, {\"color\": [1, 1, 1]}]"
        )),
        Err(invalid(Part::ColorKeyframe, Key::Color, Kind::Missing))
    );
    assert_eq!(
        load_animated_color(&doc("[\"red\"]")),
        Err(invalid(Part::ColorKeyframe, Key::Time, Kind::Missing))
    );
}
