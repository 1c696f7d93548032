use tray_rust::error::{Fault, Key, Kind, LoadError, Part};
use tray_rust::film::{load_camera, load_film, load_filter, to_size};
use tray_rust::film::{Camera, Filter, FrameInfo, RenderTarget};
use tray_rust::integrator::{load_integrator, to_depth, Bounce, Integrator};
use tray_rust::json::{parse, Json};
use tray_rust::scalar::Real;
use tray_rust::transform::{AnimatedTransform, Keyframe, Transform, TransformOp};
use tray_rust::values::{Point, Vector};

fn doc(text: &str) -> Json {
    parse(text).unwrap()
}

fn num(x: f64) -> Real {
    Real { bits: x.to_bits() }
}

fn invalid(part: Part, key: Key, kind: Kind) -> LoadError {
    LoadError::Invalid(Fault { part, key, kind })
}

const FILTER: &str =
    "{\"type\": \"mitchell_netravali\", \"width\": 2, \"height\": 2.5, \"b\": 0.25, \"c\": 0.5}";

fn film(entries: &str) -> Result<(RenderTarget, usize, FrameInfo), LoadError> {
    load_film(&doc(&format!("{{{}}}", entries)))
}

#[test]
fn load_filter_reads_mitchell_netravali() {
    assert_eq!(
        load_filter(&doc(FILTER)),
        Ok(Filter::MitchellNetravali {
            width: num(2.0),
            height: num(2.5),
            b: num(0.25),
            c: num(0.5)
        })
    );
}

#[test]
fn load_filter_reads_the_extent_before_the_type() {
    assert_eq!(load_filter(&doc("{}")), Err(invalid(Part::Filter, Key::Width, Kind::Missing)));
    assert_eq!(
        load_filter(&doc("{\"type\": \"box\", \"width\": \"2\"}")),
        Err(invalid(Part::Filter, Key::Width, Kind::Mistyped))
    );
    assert_eq!(
        load_filter(&doc("{\"type\": \"box\", \"width\": 2}")),
        Err(invalid(Part::Filter, Key::Height, Kind::Missing))
    );
    assert_eq!(
        load_filter(&doc("{\"width\": 2, \"height\": 2}")),
        Err(invalid(Part::Filter, Key::Type, Kind::Missing))
    );
    assert_eq!(
        load_filter(&doc("{\"width\": 2, \"height\": 2, \"type\": 0}")),
        Err(invalid(Part::Filter, Key::Type, Kind::Mistyped))
    );
    assert_eq!(
        load_filter(&doc("{\"width\": 2, \"height\": 2, \"type\": \"box\"}")),
        Err(invalid(Part::Filter, Key::Type, Kind::Unrecognized))
    );
}

#[test]
fn load_filter_tells_the_faults_of_the_parameters() {
    assert_eq!(
        load_filter(&doc("{\"width\": 2, \"height\": 2, \"type\": \"mitchell_netravali\"}")),
        Err(invalid(Part::MitchellNetravali, Key::B, Kind::Missing))
    );
    assert_eq!(
        load_filter(&doc(
            "{\"width\": 2, \"height\": 2, \"type\": \"mitchell_netravali\", \"b\": \"x\"}"
        )),
        Err(invalid(Part::MitchellNetravali, Key::B, Kind::Mistyped))
    );
    assert_eq!(
        load_filter(&doc(
            "{\"width\": 2, \"height\": 2, \"type\": \"mitchell_netravali\", \"b\": 1}"
        )),
        Err(invalid(Part::MitchellNetravali, Key::C, Kind::Missing))
    );
}

#[test]
fn load_film_reads_the_target_the_samples_and_the_frames() {
    let loaded = film(&format!(
        "\"width\": 800, \"height\": 600, \"samples\": 16, \"start_frame\": 2,
         \"end_frame\": 5, \"frames\": 24, \"scene_time\": 1.5, \"filter\": {}",
        FILTER
    ));
    let target = RenderTarget {
        width: 800,
        height: 600,
        block: (2, 2),
        filter: Filter::MitchellNetravali {
            width: num(2.0),
            height: num(2.5),
            b: num(0.25),
            c: num(0.5),
        },
    };
    let frames = FrameInfo { frames: 24, time: num(1.5), start: 2, end: 5 };
    assert_eq!(loaded, Ok((target, 16, frames)));
    assert_eq!(target.dimensions(), (800, 600));
}

#[test]
fn load_film_lets_the_last_frame_be_the_first() {
    let loaded = film(&format!(
        "\"width\": 1, \"height\": 1, \"samples\": 1, \"start_frame\": 3,
         \"end_frame\": 3, \"frames\": 1, \"scene_time\": 0, \"filter\": {}",
        FILTER
    ));
    assert_eq!(loaded.map(|f| (f.2.start, f.2.end)), Ok((3, 3)));
}

#[test]
fn load_film_refuses_a_last_frame_before_the_first() {
    let loaded = film("\"width\": 1, \"height\": 1, \"samples\": 1, \"start_frame\": 3, \"end_frame\": 2");
    assert_eq!(loaded, Err(invalid(Part::Film, Key::EndFrame, Kind::Misordered)));
}

#[test]
fn load_film_reads_its_entries_in_order() {
    assert_eq!(film(""), Err(invalid(Part::Film, Key::Width, Kind::Missing)));
    assert_eq!(film("\"width\": 1.5"), Err(invalid(Part::Film, Key::Width, Kind::Mistyped)));
    assert_eq!(film("\"width\": -1"), Err(invalid(Part::Film, Key::Width, Kind::Mistyped)));
    assert_eq!(film("\"width\": 1"), Err(invalid(Part::Film, Key::Height, Kind::Missing)));
    assert_eq!(
        film("\"width\": 1, \"height\": 1"),
        Err(invalid(Part::Film, Key::Samples, Kind::Missing))
    );
    assert_eq!(
        film("\"width\": 1, \"height\": 1, \"samples\": 1"),
        Err(invalid(Part::Film, Key::StartFrame, Kind::Missing))
    );
    assert_eq!(
        film("\"width\": 1, \"height\": 1, \"samples\": 1, \"start_frame\": 0"),
        Err(invalid(Part::Film, Key::EndFrame, Kind::Missing))
    );
    assert_eq!(
        film("\"width\": 1, \"height\": 1, \"samples\": 1, \"start_frame\": 0, \"end_frame\": 0"),
        Err(invalid(Part::Film, Key::Frames, Kind::Missing))
    );
    assert_eq!(
        film(
            "\"width\": 1, \"height\": 1, \"samples\": 1, \"start_frame\": 0, \"end_frame\": 0,
             \"frames\": 1"
        ),
        Err(invalid(Part::Film, Key::SceneTime, Kind::Missing))
    );
    assert_eq!(
        film(
            "\"width\": 1, \"height\": 1, \"samples\": 1, \"start_frame\": 0, \"end_frame\": 0,
             \"frames\": 1, \"scene_time\": \"1\""
        ),
        Err(invalid(Part::Film, Key::SceneTime, Kind::Mistyped))
    );
    assert_eq!(
        film(
            "\"width\": 1, \"height\": 1, \"samples\": 1, \"start_frame\": 0, \"end_frame\": 0,
             \"frames\": 1, \"scene_time\": 1"
        ),
        Err(invalid(Part::Film, Key::Filter, Kind::Missing))
    );
    assert_eq!(
        film(
            "\"width\": 1, \"height\": 1, \"samples\": 1, \"start_frame\": 0, \"end_frame\": 0,
             \"frames\": 1, \"scene_time\": 1, \"filter\": {}"
        ),
        Err(invalid(Part::Filter, Key::Width, Kind::Missing))
    );
}

#[test]
fn to_size_keeps_counts_that_fit() {
    assert_eq!(to_size(0), 0);
    assert_eq!(to_size(800), 800);
    assert_eq!(to_size(usize::MAX as u64), usize::MAX);
}

#[test]
fn to_depth_keeps_the_low_bits() {
    assert_eq!(to_depth(0), 0);
    assert_eq!(to_depth(8), 8);
    assert_eq!(to_depth(u32::MAX as u64), u32::MAX);
    assert_eq!(to_depth(u32::MAX as u64 + 1), 0);
    assert_eq!(to_depth((1u64 << 32) + 5), 5);
}

#[test]
fn load_camera_reads_a_transform_at_time_zero() {
    let loaded = load_camera(
        &doc("{\"fov\": 40, \"transform\": [{\"type\": \"translate\", \"translation\": [0, 0, 5]}]}"),
        (800, 600),
    );
    let step = TransformOp::Translate(Vector { x: num(0.0), y: num(0.0), z: num(5.0) });
    let expected = Camera {
        transform: AnimatedTransform {
            layers: vec![vec![Keyframe { transform: Transform { ops: vec![step] }, time: num(0.0) }]],
        },
        fov: num(40.0),
        width: 800,
        height: 600,
    };
    assert_eq!(loaded, Ok(expected));
}

#[test]
fn load_camera_prefers_keyframes() {
    let loaded = load_camera(
        &doc(
            "{\"fov\": 40.5, \"transform\": 1, \"position\": 2,
              \"keyframes\": [{\"time\": 0.5, \"transform\": []}]}",
        ),
        (4, 3),
    )
    .unwrap();
    assert_eq!(
        loaded.transform.layers,
        vec![vec![Keyframe { transform: Transform { ops: vec![] }, time: num(0.5) }]]
    );
    assert_eq!(loaded.fov, num(40.5));
}

#[test]
fn load_camera_looks_at_a_target_where_it_has_no_transform() {
    let loaded = load_camera(
        &doc("{\"fov\": 30, \"position\": [0, 1, 5], \"target\": [0, 1, 0], \"up\": [0, 1, 0]}"),
        (2, 2),
    )
    .unwrap();
    let step = TransformOp::LookAt {
        position: Point { x: num(0.0), y: num(1.0), z: num(5.0) },
        target: Point { x: num(0.0), y: num(1.0), z: num(0.0) },
        up: Vector { x: num(0.0), y: num(1.0), z: num(0.0) },
    };
    assert_eq!(
        loaded.transform.layers,
        vec![vec![Keyframe { transform: Transform { ops: vec![step] }, time: num(0.0) }]]
    );
}

#[test]
fn load_camera_tells_its_faults_in_order() {
    let camera = |text: &str| load_camera(&doc(text), (1, 1));
    assert_eq!(camera("{}"), Err(invalid(Part::Camera, Key::Fov, Kind::Missing)));
    assert_eq!(
        camera("{\"fov\": \"wide\"}"),
        Err(invalid(Part::Camera, Key::Fov, Kind::Mistyped))
    );
    assert_eq!(
        camera("{\"fov\": 1, \"keyframes\": 3}"),
        Err(invalid(Part::Camera, Key::Keyframes, Kind::Mistyped))
    );
    assert_eq!(
        camera("{\"fov\": 1, \"transform\": [{\"type\": \"shear\"}]}"),
        Err(invalid(Part::Camera, Key::Transform, Kind::Mistyped))
    );
    assert_eq!(camera("{\"fov\": 1}"), Err(invalid(Part::Camera, Key::Position, Kind::Missing)));
    assert_eq!(
        camera("{\"fov\": 1, \"position\": [1]}"),
        Err(invalid(Part::Camera, Key::Position, Kind::Mistyped))
    );
    assert_eq!(
        camera("{\"fov\": 1, \"position\": [1, 1, 1]}"),
        Err(invalid(Part::Camera, Key::Target, Kind::Missing))
    );
    assert_eq!(
        camera("{\"fov\": 1, \"position\": [1, 1, 1], \"target\": [0, 0, 0]}"),
        Err(invalid(Part::Camera, Key::Up, Kind::Missing))
    );
    assert_eq!(
        camera("{\"fov\": 1, \"position\": [1, 1, 1], \"target\": [0, 0, 0], \"up\": 1}"),
        Err(invalid(Part::Camera, Key::Up, Kind::Mistyped))
    );
}

#[test]
fn load_integrator_reads_a_path_tracer() {
    assert_eq!(
        load_integrator(&doc("{\"type\": \"pathtracer\", \"min_depth\": 3, \"max_depth\": 8}")),
        Ok(Integrator::Path { min_depth: 3, max_depth: 8 })
    );
}

#[test]
fn load_integrator_reads_the_depth_of_whitted_from_min_depth() {
    assert_eq!(
        load_integrator(&doc("{\"type\": \"whitted\", \"min_depth\": 6, \"max_depth\": 9}")),
        Ok(Integrator::Whitted { max_depth: 6 })
    );
    assert_eq!(
        load_integrator(&doc("{\"type\": \"whitted\", \"max_depth\": 9}")),
        Err(invalid(Part::Integrator, Key::MinDepth, Kind::Missing))
    );
}

#[test]
fn load_integrator_keeps_the_low_bits_of_a_depth() {
    assert_eq!(
        load_integrator(&doc(
            "{\"type\": \"pathtracer\", \"min_depth\": 4294967297, \"max_depth\": 4294967295}"
        )),
        Ok(Integrator::Path { min_depth: 1, max_depth: u32::MAX })
    );
}

#[test]
fn load_integrator_tells_its_faults_in_order() {
    assert_eq!(
        load_integrator(&doc("{}")),
        Err(invalid(Part::Integrator, Key::Type, Kind::Missing))
    );
    assert_eq!(
        load_integrator(&doc("{\"type\": 1}")),
        Err(invalid(Part::Integrator, Key::Type, Kind::Mistyped))
    );
    assert_eq!(
        load_integrator(&doc("{\"type\": \"bidirectional\", \"min_depth\": 1}")),
        Err(invalid(Part::Integrator, Key::Type, Kind::Unrecognized))
    );
    assert_eq!(
        load_integrator(&doc("{\"type\": \"pathtracer\", \"max_depth\": 1}")),
        Err(invalid(Part::Integrator, Key::MinDepth, Kind::Missing))
    );
    assert_eq!(
        load_integrator(&doc("{\"type\": \"pathtracer\", \"min_depth\": 1.5, \"max_depth\": 1}")),
        Err(invalid(Part::Integrator, Key::MinDepth, Kind::Mistyped))
    );
    assert_eq!(
        load_integrator(&doc("{\"type\": \"pathtracer\", \"min_depth\": 1}")),
        Err(invalid(Part::Integrator, Key::MaxDepth, Kind::Missing))
    );
    assert_eq!(
        load_integrator(&doc("{\"type\": \"pathtracer\", \"min_depth\": 1, \"max_depth\": -1}")),
        Err(invalid(Part::Integrator, Key::MaxDepth, Kind::Mistyped))
    );
}

#[test]
fn a_path_tracer_goes_on_by_roulette_from_min_depth_and_ends_at_max_depth() {
    let path = Integrator::Path { min_depth: 3, max_depth: 5 };
    assert_eq!(path.max_depth(), 5);
    assert_eq!(path.after_hit(0, 0), Bounce::Go);
    assert_eq!(path.after_hit(2, 7), Bounce::Go);
    assert_eq!(path.after_hit(3, 0), Bounce::Roulette);
    assert_eq!(path.after_hit(4, 0), Bounce::Roulette);
    assert_eq!(path.after_hit(5, 0), Bounce::End);
    assert_eq!(path.after_hit(9, 2), Bounce::End);
}

#[test]
fn a_path_tracer_whose_depths_are_equal_never_plays_roulette() {
    let path = Integrator::Path { min_depth: 1, max_depth: 1 };
    assert_eq!(path.after_hit(0, 0), Bounce::Go);
    assert_eq!(path.after_hit(1, 0), Bounce::End);
    let inverted = Integrator::Path { min_depth: 4, max_depth: 2 };
    assert_eq!(inverted.after_hit(1, 0), Bounce::Go);
    assert_eq!(inverted.after_hit(2, 0), Bounce::End);
    assert_eq!(inverted.after_hit(4, 0), Bounce::End);
}

#[test]
fn a_whitted_integrator_follows_specular_terms_below_its_depth() {
    let whitted = Integrator::Whitted { max_depth: 2 };
    assert_eq!(whitted.max_depth(), 2);
    assert_eq!(whitted.after_hit(0, 2), Bounce::Go);
    assert_eq!(whitted.after_hit(1, 1), Bounce::Go);
    assert_eq!(whitted.after_hit(1, 0), Bounce::End);
    assert_eq!(whitted.after_hit(2, 2), Bounce::End);
    assert_eq!(Integrator::Whitted { max_depth: 0 }.after_hit(0, 1), Bounce::End);
}
