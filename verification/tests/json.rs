use tray_rust::error::{Fault, Key, Kind, LoadError, Part};
use tray_rust::json::{parse, require, require_real, require_text, require_unsigned, same_text};
use tray_rust::json::{Json, Number};
use tray_rust::scalar::Real;

fn num(x: f64) -> Real {
    Real { bits: x.to_bits() }
}

fn number(x: f64) -> Json {
    Json::Number(Number { unsigned: None, scalar: Some(num(x)) })
}

fn invalid(part: Part, key: Key, kind: Kind) -> LoadError {
    LoadError::Invalid(Fault { part, key, kind })
}

#[test]
fn parse_reads_every_kind_of_value() {
    assert_eq!(parse("null"), Ok(Json::Null));
    assert_eq!(parse("true"), Ok(Json::Bool(true)));
    assert_eq!(parse("\"glass\""), Ok(Json::Text("glass".to_string())));
    assert_eq!(parse("[]"), Ok(Json::Array(vec![])));
    assert_eq!(parse("{}"), Ok(Json::Object(vec![])));
}

#[test]
fn parse_reads_an_unsigned_integer_both_ways() {
    let expected = Json::Number(Number { unsigned: Some(64), scalar: Some(num(64.0)) });
    assert_eq!(parse("64"), Ok(expected));
}

#[test]
fn parse_reads_a_negative_integer_as_a_real_only() {
    let expected = Json::Number(Number { unsigned: None, scalar: Some(num(-64.0)) });
    assert_eq!(parse("-64"), Ok(expected));
}

#[test]
fn parse_reads_a_fraction_as_a_real_only() {
    assert_eq!(parse("256.0"), Ok(number(256.0)));
    assert_eq!(parse("1.52"), Ok(number(1.52)));
    assert_eq!(parse("-0.0"), Ok(number(-0.0)));
}

#[test]
fn parse_keeps_the_items_of_an_array_in_order() {
    let expected = Json::Array(vec![
        Json::Text("b".to_string()),
        Json::Text("a".to_string()),
        Json::Array(vec![Json::Null]),
    ]);
    assert_eq!(parse("[\"b\", \"a\", [null]]"), Ok(expected));
}

#[test]
fn parse_keeps_the_entries_of_an_object() {
    let data = parse("{\"name\": \"ball\", \"radius\": 2.5}").unwrap();
    assert_eq!(data.find("name"), Some(&Json::Text("ball".to_string())));
    assert_eq!(data.find("radius"), Some(&number(2.5)));
    assert_eq!(data.find("type"), None);
}

#[test]
fn parse_rejects_text_that_is_not_json() {
    assert_eq!(parse("{ \"a\": "), Err(LoadError::Syntax));
    assert_eq!(parse(""), Err(LoadError::Syntax));
    assert_eq!(parse("[1, 2,]"), Err(LoadError::Syntax));
    assert_eq!(parse("1 2"), Err(LoadError::Syntax));
}

#[test]
fn find_takes_the_first_entry_with_the_key() {
    let data = Json::Object(vec![
        ("a".to_string(), Json::Bool(false)),
        ("b".to_string(), Json::Null),
        ("a".to_string(), Json::Bool(true)),
    ]);
    assert_eq!(data.find("a"), Some(&Json::Bool(false)));
    assert_eq!(data.find("b"), Some(&Json::Null));
    assert_eq!(data.find("c"), None);
}

#[test]
fn find_gives_nothing_for_what_is_no_object() {
    assert_eq!(Json::Array(vec![Json::Null]).find("0"), None);
    assert_eq!(Json::Text("a".to_string()).find("a"), None);
    assert_eq!(Json::Null.find(""), None);
}

#[test]
fn accessors_tell_the_kinds_apart() {
    let n = parse("7").unwrap();
    assert_eq!(n.as_u64(), Some(7));
    assert_eq!(n.as_real(), Some(num(7.0)));
    assert_eq!(n.as_string(), None);
    assert!(n.as_array().is_none());
    assert!(n.is_number() && !n.is_array() && !n.is_object());

    let s = parse("\"7\"").unwrap();
    assert_eq!(s.as_u64(), None);
    assert_eq!(s.as_real(), None);
    assert_eq!(s.as_string(), Some("7"));
    assert!(!s.is_number());

    let a = parse("[7]").unwrap();
    assert_eq!(a.as_array().map(|items| items.len()), Some(1));
    assert!(a.is_array() && !a.is_object());

    let o = parse("{\"x\": 7}").unwrap();
    assert!(o.is_object() && !o.is_array() && !o.is_number());
}

#[test]
fn as_u64_refuses_fractions_and_negatives() {
    assert_eq!(parse("1.0").unwrap().as_u64(), None);
    assert_eq!(parse("-1").unwrap().as_u64(), None);
    assert_eq!(parse("18446744073709551615").unwrap().as_u64(), Some(u64::MAX));
}

#[test]
fn same_text_compares_whole_texts() {
    assert!(same_text("glass", "glass"));
    assert!(!same_text("glass", "glas"));
    assert!(!same_text("glass", "Glass"));
    assert!(same_text("", ""));
}

#[test]
fn require_tells_a_missing_entry() {
    let data = parse("{\"width\": 8}").unwrap();
    assert_eq!(require(&data, Part::Film, Key::Width), Ok(data.find("width").unwrap()));
    assert_eq!(
        require(&data, Part::Film, Key::Height),
        Err(invalid(Part::Film, Key::Height, Kind::Missing))
    );
}

#[test]
fn require_unsigned_tells_missing_from_mistyped() {
    let data = parse("{\"width\": 8, \"height\": 2.5, \"samples\": \"4\"}").unwrap();
    assert_eq!(require_unsigned(&data, Part::Film, Key::Width), Ok(8));
    assert_eq!(
        require_unsigned(&data, Part::Film, Key::Height),
        Err(invalid(Part::Film, Key::Height, Kind::Mistyped))
    );
    assert_eq!(
        require_unsigned(&data, Part::Film, Key::Samples),
        Err(invalid(Part::Film, Key::Samples, Kind::Mistyped))
    );
    assert_eq!(
        require_unsigned(&data, Part::Film, Key::Frames),
        Err(invalid(Part::Film, Key::Frames, Kind::Missing))
    );
}

#[test]
fn require_real_takes_integers_too() {
    let data = parse("{\"fov\": 40, \"eta\": 1.5, \"b\": null}").unwrap();
    assert_eq!(require_real(&data, Part::Camera, Key::Fov), Ok(num(40.0)));
    assert_eq!(require_real(&data, Part::Glass, Key::Eta), Ok(num(1.5)));
    assert_eq!(
        require_real(&data, Part::MitchellNetravali, Key::B),
        Err(invalid(Part::MitchellNetravali, Key::B, Kind::Mistyped))
    );
    assert_eq!(
        require_real(&data, Part::MitchellNetravali, Key::C),
        Err(invalid(Part::MitchellNetravali, Key::C, Kind::Missing))
    );
}

#[test]
fn require_text_tells_missing_from_mistyped() {
    let data = parse("{\"type\": \"sphere\", \"name\": 3}").unwrap();
    assert_eq!(require_text(&data, Part::Geometry, Key::Type), Ok("sphere"));
    assert_eq!(
        require_text(&data, Part::Object, Key::Name),
        Err(invalid(Part::Object, Key::Name, Kind::Mistyped))
    );
    assert_eq!(
        require_text(&data, Part::Mesh, Key::File),
        Err(invalid(Part::Mesh, Key::File, Kind::Missing))
    );
}

#[test]
fn key_names_are_those_of_the_documents() {
    assert_eq!(Key::StartFrame.name(), "start_frame");
    assert_eq!(Key::SceneTime.name(), "scene_time");
    assert_eq!(Key::AbsorptionCoefficient.name(), "absorption_coefficient");
    assert_eq!(Key::RefractiveIndex.name(), "refractive_index");
    assert_eq!(Key::InnerRadius.name(), "inner_radius");
    assert_eq!(Key::MinDepth.name(), "min_depth");
    assert_eq!(Key::MaxDepth.name(), "max_depth");
    assert_eq!(Key::EndFrame.name(), "end_frame");
    assert_eq!(Key::B.name(), "b");
    assert_eq!(Key::C.name(), "c");
}

#[test]
fn in_material_places_faults_only() {
    let e = invalid(Part::Glass, Key::Eta, Kind::Missing);
    assert_eq!(
        e.in_material(3),
        LoadError::Material {
            index: 3,
            fault: Fault { part: Part::Glass, key: Key::Eta, kind: Kind::Missing }
        }
    );
    assert_eq!(LoadError::Syntax.in_material(3), LoadError::Syntax);
    assert_eq!(LoadError::Root.in_material(0), LoadError::Root);
    let placed = LoadError::Material {
        index: 1,
        fault: Fault { part: Part::Matte, key: Key::Diffuse, kind: Kind::Mistyped },
    };
    assert_eq!(placed.in_material(5), placed);
}
