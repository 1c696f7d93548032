use tray_rust::error::{Fault, Key, Kind, LoadError, Part};
use tray_rust::geometry::Geometry;
use tray_rust::instance::{load_objects, load_placement, Body, Instance};
use tray_rust::json::{parse, Json};
use tray_rust::material::{Material, NamedMaterial};
use tray_rust::scalar::Real;
use tray_rust::transform::{AnimatedTransform, Keyframe, Transform, TransformOp};
use tray_rust::values::{AnimatedColor, ColorKeyframe, Colorf, Point, ScaledColor};

fn doc(text: &str) -> Json {
    parse(text).unwrap()
}

fn num(x: f64) -> Real {
    Real { bits: x.to_bits() }
}

fn invalid(part: Part, key: Key, kind: Kind) -> LoadError {
    LoadError::Invalid(Fault { part, key, kind })
}

fn materials() -> Vec<NamedMaterial> {
    vec![
        NamedMaterial { name: "red".to_string(), material: Material::Merl { file: "r".to_string() } },
        NamedMaterial {
            name: "blue".to_string(),
            material: Material::Merl { file: "b".to_string() },
        },
    ]
}

fn turn(degrees: f64) -> Vec<Keyframe> {
    vec![Keyframe {
        transform: Transform { ops: vec![TransformOp::RotateY(num(degrees))] },
        time: num(0.0),
    }]
}

fn white() -> AnimatedColor {
    AnimatedColor {
        keyframes: vec![ColorKeyframe {
            color: ScaledColor {
                base: Colorf { r: num(1.0), g: num(1.0), b: num(1.0) },
                scale: None,
            },
            time: num(0.0),
        }],
    }
}

fn one(body: &str) -> Result<Vec<Instance>, LoadError> {
    load_objects(&materials(), &doc(&format!("[{{{}}}]", body)))
}

const TURN_10: &str = "\"transform\": [{\"type\": \"rotate_y\", \"rotation\": 10}]";

#[test]
fn load_objects_reads_a_receiver() {
    let loaded = one(&format!(
        "\"name\": \"ball\", \"type\": \"receiver\", \"material\": \"blue\",
         \"geometry\": {{\"type\": \"sphere\", \"radius\": 2}}, {}",
        TURN_10
    ));
    let expected = Instance {
        name: "ball".to_string(),
        body: Body::Receiver { geometry: Geometry::Sphere { radius: num(2.0) }, material: 1 },
        transform: AnimatedTransform { layers: vec![turn(10.0)] },
    };
    assert_eq!(loaded, Ok(vec![expected]));
}

#[test]
fn load_objects_reads_a_point_light_that_no_transform_places() {
    let loaded = one(&format!(
        "\"name\": \"lamp\", \"type\": \"emitter\", \"emitter\": \"point\",
         \"emission\": [1, 1, 1], \"position\": [0, 5, 0], {}",
        TURN_10
    ));
    let expected = Instance {
        name: "lamp".to_string(),
        body: Body::PointLight {
            position: Point { x: num(0.0), y: num(5.0), z: num(0.0) },
            emission: white(),
        },
        transform: AnimatedTransform { layers: vec![] },
    };
    assert_eq!(loaded, Ok(vec![expected]));
}

#[test]
fn load_objects_reads_an_area_light() {
    let loaded = one(&format!(
        "\"name\": \"panel\", \"type\": \"emitter\", \"emitter\": \"area\",
         \"emission\": [1, 1, 1], \"material\": \"red\",
         \"geometry\": {{\"type\": \"disk\", \"radius\": 2, \"inner_radius\": 0}}, {}",
        TURN_10
    ));
    let expected = Instance {
        name: "panel".to_string(),
        body: Body::AreaLight {
            geometry: Geometry::Disk { radius: num(2.0), inner_radius: num(0.0) },
            material: 0,
            emission: white(),
        },
        transform: AnimatedTransform { layers: vec![turn(10.0)] },
    };
    assert_eq!(loaded, Ok(vec![expected]));
}

#[test]
fn load_objects_prefers_keyframes_to_a_transform() {
    let loaded = one(
        "\"name\": \"ball\", \"type\": \"receiver\", \"material\": \"red\",
         \"geometry\": {\"type\": \"plane\"},
         \"keyframes\": [{\"time\": 0, \"transform\": []}, {\"time\": 1, \"transform\": []}],
         \"transform\": 7",
    )
    .unwrap();
    let expected = vec![
        Keyframe { transform: Transform { ops: vec![] }, time: num(0.0) },
        Keyframe { transform: Transform { ops: vec![] }, time: num(1.0) },
    ];
    assert_eq!(loaded[0].transform.layers, vec![expected]);
}

#[test]
fn load_objects_puts_the_members_of_a_group_in_its_place() {
    let text = format!(
        "[{{\"name\": \"first\", \"type\": \"receiver\", \"material\": \"red\",
            \"geometry\": {{\"type\": \"plane\"}}, \"transform\": []}},
          {{\"name\": \"g\", \"type\": \"group\", {},
            \"objects\": [
              {{\"name\": \"inner\", \"type\": \"receiver\", \"material\": \"blue\",
                \"geometry\": {{\"type\": \"plane\"}},
                \"transform\": [{{\"type\": \"rotate_y\", \"rotation\": 20}}]}},
              {{\"name\": \"lamp\", \"type\": \"emitter\", \"emitter\": \"point\",
                \"emission\": [1, 1, 1], \"position\": [0, 5, 0], \"transform\": []}},
              {{\"name\": \"h\", \"type\": \"group\",
                \"transform\": [{{\"type\": \"rotate_y\", \"rotation\": 30}}],
                \"objects\": [
                  {{\"name\": \"deep\", \"type\": \"receiver\", \"material\": \"red\",
                    \"geometry\": {{\"type\": \"plane\"}},
                    \"transform\": [{{\"type\": \"rotate_y\", \"rotation\": 40}}]}}]}}]}},
          {{\"name\": \"last\", \"type\": \"receiver\", \"material\": \"red\",
            \"geometry\": {{\"type\": \"plane\"}}, \"transform\": []}}]",
        TURN_10
    );
    let loaded = load_objects(&materials(), &doc(&text)).unwrap();
    let names: Vec<&str> = loaded.iter().map(|i| i.name.as_str()).collect();
    assert_eq!(names, vec!["first", "inner", "lamp", "deep", "last"]);
    assert_eq!(loaded[1].transform.layers, vec![turn(10.0), turn(20.0)]);
    assert_eq!(loaded[2].transform.layers, vec![turn(10.0)]);
    assert_eq!(loaded[3].transform.layers, vec![turn(10.0), turn(30.0), turn(40.0)]);
    assert_eq!(
        loaded[4].transform.layers,
        vec![vec![Keyframe { transform: Transform { ops: vec![] }, time: num(0.0) }]]
    );
}

#[test]
fn load_objects_of_an_empty_group_places_nothing() {
    let loaded = one("\"name\": \"g\", \"type\": \"group\", \"transform\": [], \"objects\": []");
    assert_eq!(loaded, Ok(vec![]));
    assert_eq!(load_objects(&materials(), &doc("[]")), Ok(vec![]));
}

#[test]
fn load_objects_asks_for_an_array() {
    assert_eq!(
        load_objects(&materials(), &doc("{}")),
        Err(invalid(Part::Root, Key::Objects, Kind::Mistyped))
    );
    assert_eq!(
        one("\"name\": \"g\", \"type\": \"group\", \"transform\": [], \"objects\": {}"),
        Err(invalid(Part::Root, Key::Objects, Kind::Mistyped))
    );
}

#[test]
fn load_objects_asks_for_name_type_and_transform_in_this_order() {
    assert_eq!(one("\"type\": 1"), Err(invalid(Part::Object, Key::Name, Kind::Missing)));
    assert_eq!(
        one("\"name\": [], \"type\": 1"),
        Err(invalid(Part::Object, Key::Name, Kind::Mistyped))
    );
    assert_eq!(one("\"name\": \"a\""), Err(invalid(Part::Object, Key::Type, Kind::Missing)));
    assert_eq!(
        one("\"name\": \"a\", \"type\": 1"),
        Err(invalid(Part::Object, Key::Type, Kind::Mistyped))
    );
    assert_eq!(
        one("\"name\": \"a\", \"type\": \"wall\""),
        Err(invalid(Part::Object, Key::Transform, Kind::Missing))
    );
    assert_eq!(
        one("\"name\": \"a\", \"type\": \"wall\", \"transform\": []"),
        Err(invalid(Part::Object, Key::Type, Kind::Unrecognized))
    );
}

#[test]
fn load_objects_tells_the_faults_of_a_transform() {
    assert_eq!(
        one("\"name\": \"a\", \"type\": \"receiver\", \"transform\": 1"),
        Err(invalid(Part::Object, Key::Transform, Kind::Mistyped))
    );
    assert_eq!(
        one("\"name\": \"a\", \"type\": \"receiver\", \"transform\": [{\"type\": \"shear\"}]"),
        Err(invalid(Part::Object, Key::Transform, Kind::Mistyped))
    );
    assert_eq!(
        one("\"name\": \"a\", \"type\": \"receiver\", \"keyframes\": 1, \"transform\": []"),
        Err(invalid(Part::Object, Key::Keyframes, Kind::Mistyped))
    );
    assert_eq!(
        one("\"name\": \"a\", \"type\": \"receiver\", \"keyframes\": [{\"time\": 0}]"),
        Err(invalid(Part::Keyframe, Key::Transform, Kind::Missing))
    );
    assert_eq!(
        one("\"name\": \"a\", \"type\": \"receiver\", \"transform\": [{\"type\": \"rotate\"}]"),
        Err(invalid(Part::Rotate, Key::Rotation, Kind::Missing))
    );
}

#[test]
fn load_objects_tells_the_faults_of_a_receiver() {
    let receiver =
        |rest: &str| one(&format!("\"name\": \"a\", \"type\": \"receiver\", {}{}", TURN_10, rest));
    assert_eq!(receiver(""), Err(invalid(Part::Receiver, Key::Material, Kind::Missing)));
    assert_eq!(
        receiver(", \"material\": 1"),
        Err(invalid(Part::Receiver, Key::Material, Kind::Mistyped))
    );
    assert_eq!(
        receiver(", \"material\": \"green\""),
        Err(invalid(Part::Receiver, Key::Material, Kind::Unresolved))
    );
    assert_eq!(
        receiver(", \"material\": \"red\""),
        Err(invalid(Part::Receiver, Key::Geometry, Kind::Missing))
    );
    assert_eq!(
        receiver(", \"material\": \"red\", \"geometry\": {\"type\": \"cube\"}"),
        Err(invalid(Part::Geometry, Key::Type, Kind::Unrecognized))
    );
}

#[test]
fn load_objects_tells_the_faults_of_an_emitter() {
    let emitter =
        |rest: &str| one(&format!("\"name\": \"a\", \"type\": \"emitter\", {}{}", TURN_10, rest));
    assert_eq!(emitter(""), Err(invalid(Part::Emitter, Key::Emitter, Kind::Missing)));
    assert_eq!(
        emitter(", \"emitter\": 1"),
        Err(invalid(Part::Emitter, Key::Emitter, Kind::Mistyped))
    );
    assert_eq!(
        emitter(", \"emitter\": \"spot\""),
        Err(invalid(Part::Emitter, Key::Emission, Kind::Missing))
    );
    assert_eq!(
        emitter(", \"emitter\": \"spot\", \"emission\": []"),
        Err(invalid(Part::Emitter, Key::Emission, Kind::Mistyped))
    );
    assert_eq!(
        emitter(", \"emitter\": \"spot\", \"emission\": [{\"time\": 0}]"),
        Err(invalid(Part::ColorKeyframe, Key::Color, Kind::Missing))
    );
    assert_eq!(
        emitter(", \"emitter\": \"spot\", \"emission\": [1, 1, 1]"),
        Err(invalid(Part::Emitter, Key::Emitter, Kind::Unrecognized))
    );
}

#[test]
fn load_objects_tells_the_faults_of_a_point_light() {
    let point = |rest: &str| {
        one(&format!(
            "\"name\": \"a\", \"type\": \"emitter\", \"emitter\": \"point\",
             \"emission\": [1, 1, 1], {}{}",
            TURN_10, rest
        ))
    };
    assert_eq!(point(""), Err(invalid(Part::PointLight, Key::Position, Kind::Missing)));
    assert_eq!(
        point(", \"position\": [1, 2]"),
        Err(invalid(Part::PointLight, Key::Position, Kind::Mistyped))
    );
}

#[test]
fn load_objects_tells_the_faults_of_an_area_light() {
    let area = |rest: &str| {
        one(&format!(
            "\"name\": \"a\", \"type\": \"emitter\", \"emitter\": \"area\",
             \"emission\": [1, 1, 1], {}{}",
            TURN_10, rest
        ))
    };
    assert_eq!(area(""), Err(invalid(Part::AreaLight, Key::Material, Kind::Missing)));
    assert_eq!(
        area(", \"material\": {}"),
        Err(invalid(Part::AreaLight, Key::Material, Kind::Mistyped))
    );
    assert_eq!(
        area(", \"material\": \"green\""),
        Err(invalid(Part::AreaLight, Key::Material, Kind::Unresolved))
    );
    assert_eq!(
        area(", \"material\": \"red\""),
        Err(invalid(Part::AreaLight, Key::Geometry, Kind::Missing))
    );
    assert_eq!(
        area(", \"material\": \"red\", \"geometry\": {\"type\": \"plane\"}"),
        Err(invalid(Part::Geometry, Key::Type, Kind::Unsampleable))
    );
}

#[test]
fn load_objects_tells_the_faults_of_a_group() {
    let group =
        |rest: &str| one(&format!("\"name\": \"g\", \"type\": \"group\", {}{}", TURN_10, rest));
    assert_eq!(group(""), Err(invalid(Part::Group, Key::Objects, Kind::Missing)));
    assert_eq!(
        group(", \"objects\": [{\"name\": \"a\"}]"),
        Err(invalid(Part::Object, Key::Type, Kind::Missing))
    );
}

#[test]
fn load_objects_tells_the_first_fault_in_the_order_of_the_document() {
    let text = "[{\"name\": \"a\", \"type\": \"receiver\", \"material\": \"red\",
                  \"geometry\": {\"type\": \"plane\"}, \"transform\": []},
                 {\"name\": \"b\", \"type\": \"receiver\", \"material\": \"red\",
                  \"transform\": []},
                 {\"type\": \"receiver\"}]";
    assert_eq!(
        load_objects(&materials(), &doc(text)),
        Err(invalid(Part::Receiver, Key::Geometry, Kind::Missing))
    );
}

#[test]
fn load_placement_states_none_without_keyframes_and_transform() {
    assert_eq!(load_placement(&doc("{\"fov\": 40}"), Part::Camera), Ok(None));
    assert_eq!(load_placement(&doc("[]"), Part::Camera), Ok(None));
    assert_eq!(
        load_placement(&doc("{\"transform\": {}}"), Part::Camera),
        Err(invalid(Part::Camera, Key::Transform, Kind::Mistyped))
    );
    assert_eq!(
        load_placement(&doc("{\"keyframes\": []}"), Part::Object),
        Ok(Some(AnimatedTransform { layers: vec![vec![]] }))
    );
}

#[test]
fn instances_keep_what_they_are_made_of() {
    let placed = AnimatedTransform { layers: vec![turn(10.0)] };
    let mut receiver =
        Instance::receiver(Geometry::Plane, 3, placed.duplicate(), "floor".to_string());
    assert_eq!(receiver.name, "floor");
    assert_eq!(receiver.body, Body::Receiver { geometry: Geometry::Plane, material: 3 });
    assert_eq!(receiver.get_transform(), &placed);
    receiver.set_transform(AnimatedTransform { layers: vec![turn(10.0), turn(20.0)] });
    assert_eq!(receiver.get_transform().layers, vec![turn(10.0), turn(20.0)]);
    assert_eq!(receiver.name, "floor");
    assert_eq!(receiver.body, Body::Receiver { geometry: Geometry::Plane, material: 3 });

    let origin = Point { x: num(0.0), y: num(0.0), z: num(0.0) };
    let lamp = Instance::point_light(origin, white(), "lamp".to_string());
    assert_eq!(lamp.get_transform().layers.len(), 0);
    assert_eq!(lamp.body, Body::PointLight { position: origin, emission: white() });

    let sphere = Geometry::Sphere { radius: num(1.0) };
    let panel =
        Instance::area_light(sphere.clone(), 0, white(), placed.duplicate(), "sun".to_string());
    assert_eq!(panel.body, Body::AreaLight { geometry: sphere, material: 0, emission: white() });
    assert_eq!(panel.get_transform(), &placed);
}
