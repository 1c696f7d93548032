//! What can be wrong with a scene document.

use vstd::prelude::*;

verus! {

/// The part of a scene document that a fault was found in.
#[derive(Clone, Copy, Debug, PartialEq, Eq)]
pub enum Part {
    Root,
    Film,
    Filter,
    MitchellNetravali,
    Camera,
    Integrator,
    Materials,
    Material,
    Glass,
    Matte,
    Merl,
    Metal,
    Plastic,
    SpecularMetal,
    Objects,
    Object,
    Emitter,
    PointLight,
    AreaLight,
    Receiver,
    Group,
    Geometry,
    Sphere,
    Disk,
    Mesh,
    ColorKeyframe,
    Transform,
    Translate,
    Scale,
    RotateX,
    RotateY,
    RotateZ,
    Rotate,
    Keyframe,
}

/// The keys that a scene document is read by.
#[derive(Clone, Copy, Debug, PartialEq, Eq)]
pub enum Key {
    Film,
    Camera,
    Integrator,
    Materials,
    Objects,
    Width,
    Height,
    Samples,
    StartFrame,
    EndFrame,
    Frames,
    SceneTime,
    Filter,
    Type,
    B,
    C,
    Fov,
    Keyframes,
    Transform,
    Position,
    Target,
    Up,
    MinDepth,
    MaxDepth,
    Name,
    Reflect,
    Transmit,
    Eta,
    Diffuse,
    Roughness,
    File,
    RefractiveIndex,
    AbsorptionCoefficient,
    Gloss,
    Emitter,
    Emission,
    Material,
    Geometry,
    Radius,
    InnerRadius,
    Model,
    Time,
    Color,
    Translation,
    Scaling,
    Rotation,
    Axis,
}

impl Key {
    /// The key as it is written in a document.
    pub open spec fn text(self) -> Seq<char> {
        match self {
            Key::Film => "film"@,
            Key::Camera => "camera"@,
            Key::Integrator => "integrator"@,
            Key::Materials => "materials"@,
            Key::Objects => "objects"@,
            Key::Width => "width"@,
            Key::Height => "height"@,
            Key::Samples => "samples"@,
            Key::StartFrame => "start_frame"@,
            Key::EndFrame => "end_frame"@,
            Key::Frames => "frames"@,
            Key::SceneTime => "scene_time"@,
            Key::Filter => "filter"@,
            Key::Type => "type"@,
            Key::B => "b"@,
            Key::C => "c"@,
            Key::Fov => "fov"@,
            Key::Keyframes => "keyframes"@,
            Key::Transform => "transform"@,
            Key::Position => "position"@,
            Key::Target => "target"@,
            Key::Up => "up"@,
            Key::MinDepth => "min_depth"@,
            Key::MaxDepth => "max_depth"@,
            Key::Name => "name"@,
            Key::Reflect => "reflect"@,
            Key::Transmit => "transmit"@,
            Key::Eta => "eta"@,
            Key::Diffuse => "diffuse"@,
            Key::Roughness => "roughness"@,
            Key::File => "file"@,
            Key::RefractiveIndex => "refractive_index"@,
            Key::AbsorptionCoefficient => "absorption_coefficient"@,
            Key::Gloss => "gloss"@,
            Key::Emitter => "emitter"@,
            Key::Emission => "emission"@,
            Key::Material => "material"@,
            Key::Geometry => "geometry"@,
            Key::Radius => "radius"@,
            Key::InnerRadius => "inner_radius"@,
            Key::Model => "model"@,
            Key::Time => "time"@,
            Key::Color => "color"@,
            Key::Translation => "translation"@,
            Key::Scaling => "scaling"@,
            Key::Rotation => "rotation"@,
            Key::Axis => "axis"@,
        }
    }

    /// The key as it is written in a document.
    pub fn name(self) -> (r: &'static str)
        ensures
            r@ == self.text(),
    {
        match self {
            Key::Film => "film",
            Key::Camera => "camera",
            Key::Integrator => "integrator",
            Key::Materials => "materials",
            Key::Objects => "objects",
            Key::Width => "width",
            Key::Height => "height",
            Key::Samples => "samples",
            Key::StartFrame => "start_frame",
            Key::EndFrame => "end_frame",
            Key::Frames => "frames",
            Key::SceneTime => "scene_time",
            Key::Filter => "filter",
            Key::Type => "type",
            Key::B => "b",
            Key::C => "c",
            Key::Fov => "fov",
            Key::Keyframes => "keyframes",
            Key::Transform => "transform",
            Key::Position => "position",
            Key::Target => "target",
            Key::Up => "up",
            Key::MinDepth => "min_depth",
            Key::MaxDepth => "max_depth",
            Key::Name => "name",
            Key::Reflect => "reflect",
            Key::Transmit => "transmit",
            Key::Eta => "eta",
            Key::Diffuse => "diffuse",
            Key::Roughness => "roughness",
            Key::File => "file",
            Key::RefractiveIndex => "refractive_index",
            Key::AbsorptionCoefficient => "absorption_coefficient",
            Key::Gloss => "gloss",
            Key::Emitter => "emitter",
            Key::Emission => "emission",
            Key::Material => "material",
            Key::Geometry => "geometry",
            Key::Radius => "radius",
            Key::InnerRadius => "inner_radius",
            Key::Model => "model",
            Key::Time => "time",
            Key::Color => "color",
            Key::Translation => "translation",
            Key::Scaling => "scaling",
            Key::Rotation => "rotation",
            Key::Axis => "axis",
        }
    }
}

/// What is wrong with an entry of a document.
#[derive(Clone, Copy, Debug, PartialEq, Eq)]
pub enum Kind {
    /// The entry is required and the object has no such key.
    Missing,
    /// The entry is there and its value is not of the form that is read
    /// from it.
    Mistyped,
    /// The entry is a tag and names nothing that is known.
    Unrecognized,
    /// The entry is a name that an earlier entry of the list has taken.
    Duplicate,
    /// The entry names a material that the list of materials does not hold.
    Unresolved,
    /// The entry is the last frame and lies before the first.
    Misordered,
    /// The entry is the tag of a geometry that cannot be sampled, where the
    /// geometry of an area light is read.
    Unsampleable,
    /// The entry is the list of objects and places nothing in the scene.
    Empty,
}

/// A fault: the part of the document, the key of the entry, and what is
/// wrong with it.
#[derive(Clone, Copy, Debug, PartialEq, Eq)]
pub struct Fault {
    pub part: Part,
    pub key: Key,
    pub kind: Kind,
}

impl Fault {
    /// The words for the fault. A fault that no part of a document can have
    /// is worded as one of the scene.
    pub open spec fn wording(self) -> Seq<char> {
        match (self.part, self.key, self.kind) {
            (Part::Root, Key::Film, Kind::Missing) => "The scene must specify a film to write to"@,
            (Part::Root, Key::Camera, Kind::Missing) => "The scene must specify a camera"@,
            (Part::Root, Key::Integrator, Kind::Missing) => "The scene must specify the integrator to render with"@,
            (Part::Root, Key::Materials, Kind::Missing) => "The scene must specify an array of materials"@,
            (Part::Root, Key::Objects, Kind::Missing) => "The scene must specify a list of objects"@,
            (Part::Root, Key::Materials, Kind::Mistyped) => "The materials must be an array of materials used"@,
            (Part::Root, Key::Objects, Kind::Mistyped) => "The objects must be an array of objects used"@,
            (Part::Root, Key::Objects, Kind::Empty) => "Aborting: the scene does not have any objects!"@,
            (Part::Film, Key::Width, Kind::Missing) => "The film must specify the image width"@,
            (Part::Film, Key::Width, Kind::Mistyped) => "Image width must be a number"@,
            (Part::Film, Key::Height, Kind::Missing) => "The film must specify the image height"@,
            (Part::Film, Key::Height, Kind::Mistyped) => "Image height must be a number"@,
            (Part::Film, Key::Samples, Kind::Missing) => "The film must specify the number of samples per pixel"@,
            (Part::Film, Key::Samples, Kind::Mistyped) => "Samples per pixel must be a number"@,
            (Part::Film, Key::StartFrame, Kind::Missing) => "The film must specify the starting frame"@,
            (Part::Film, Key::StartFrame, Kind::Mistyped) => "Start frame must be a number"@,
            (Part::Film, Key::EndFrame, Kind::Missing) => "The film must specify the frame to end on"@,
            (Part::Film, Key::EndFrame, Kind::Mistyped) => "End frame must be a number"@,
            (Part::Film, Key::EndFrame, Kind::Misordered) => "End frame must be greater or equal to the starting frame"@,
            (Part::Film, Key::Frames, Kind::Missing) => "The film must specify the total number of frames"@,
            (Part::Film, Key::Frames, Kind::Mistyped) => "Frames must be a number"@,
            (Part::Film, Key::SceneTime, Kind::Missing) => "The film must specify the overall scene time"@,
            (Part::Film, Key::SceneTime, Kind::Mistyped) => "Scene time must be a number"@,
            (Part::Film, Key::Filter, Kind::Missing) => "The film must specify a reconstruction filter"@,
            (Part::Filter, Key::Width, Kind::Missing) => "The filter must specify the filter width"@,
            (Part::Filter, Key::Width, Kind::Mistyped) => "Filter width must be a number"@,
            (Part::Filter, Key::Height, Kind::Missing) => "The filter must specify the filter height"@,
            (Part::Filter, Key::Height, Kind::Mistyped) => "Filter height must be a number"@,
            (Part::Filter, Key::Type, Kind::Missing) => "A type is required for the filter"@,
            (Part::Filter, Key::Type, Kind::Mistyped) => "Filter type must be a string"@,
            (Part::Filter, Key::Type, Kind::Unrecognized) => "Unrecognized filter type"@,
            (Part::MitchellNetravali, Key::B, Kind::Missing) => "A b parameter is required for the Mitchell-Netravali filter"@,
            (Part::MitchellNetravali, Key::B, Kind::Mistyped) => "b must be a number"@,
            (Part::MitchellNetravali, Key::C, Kind::Missing) => "A c parameter is required for the Mitchell-Netravali filter"@,
            (Part::MitchellNetravali, Key::C, Kind::Mistyped) => "c must be a number"@,
            (Part::Camera, Key::Fov, Kind::Missing) => "The camera must specify a field of view"@,
            (Part::Camera, Key::Fov, Kind::Mistyped) => "fov must be a float"@,
            (Part::Camera, Key::Keyframes, Kind::Mistyped) => "Invalid keyframes specified"@,
            (Part::Camera, Key::Transform, Kind::Mistyped) => "Invalid transform specified"@,
            (Part::Camera, Key::Position, Kind::Missing) => "The camera must specify a position"@,
            (Part::Camera, Key::Position, Kind::Mistyped) => "position must be an array of 3 floats"@,
            (Part::Camera, Key::Target, Kind::Missing) => "The camera must specify a target"@,
            (Part::Camera, Key::Target, Kind::Mistyped) => "target must be an array of 3 floats"@,
            (Part::Camera, Key::Up, Kind::Missing) => "The camera must specify an up vector"@,
            (Part::Camera, Key::Up, Kind::Mistyped) => "up must be an array of 3 floats"@,
            (Part::Integrator, Key::Type, Kind::Missing) => "Integrator must specify a type"@,
            (Part::Integrator, Key::Type, Kind::Mistyped) => "Integrator type must be a string"@,
            (Part::Integrator, Key::Type, Kind::Unrecognized) => "Unrecognized integrator type"@,
            (Part::Integrator, Key::MinDepth, Kind::Missing) => "The integrator must specify the minimum ray depth"@,
            (Part::Integrator, Key::MinDepth, Kind::Mistyped) => "min_depth must be a number"@,
            (Part::Integrator, Key::MaxDepth, Kind::Missing) => "The integrator must specify the maximum ray depth"@,
            (Part::Integrator, Key::MaxDepth, Kind::Mistyped) => "max_depth must be a number"@,
            (Part::Material, Key::Name, Kind::Missing) => "A name is required"@,
            (Part::Material, Key::Name, Kind::Mistyped) => "name must be a string"@,
            (Part::Material, Key::Name, Kind::Duplicate) => "name conflicts with an existing entry"@,
            (Part::Material, Key::Type, Kind::Missing) => "a type is required"@,
            (Part::Material, Key::Type, Kind::Mistyped) => "type must be a string"@,
            (Part::Material, Key::Type, Kind::Unrecognized) => "unrecognized type"@,
            (Part::Glass, Key::Reflect, Kind::Missing) => "A reflect color is required for glass"@,
            (Part::Glass, Key::Reflect, Kind::Mistyped) => "Invalid color specified for reflect of glass"@,
            (Part::Glass, Key::Transmit, Kind::Missing) => "A transmit color is required for glass"@,
            (Part::Glass, Key::Transmit, Kind::Mistyped) => "Invalid color specified for transmit of glass"@,
            (Part::Glass, Key::Eta, Kind::Missing) => "A refractive index 'eta' is required for glass"@,
            (Part::Glass, Key::Eta, Kind::Mistyped) => "glass eta must be a float"@,
            (Part::Matte, Key::Diffuse, Kind::Missing) => "A diffuse color is required for matte"@,
            (Part::Matte, Key::Diffuse, Kind::Mistyped) => "Invalid color specified for diffuse of matte"@,
            (Part::Matte, Key::Roughness, Kind::Missing) => "A roughness is required for matte"@,
            (Part::Matte, Key::Roughness, Kind::Mistyped) => "roughness must be a float"@,
            (Part::Merl, Key::File, Kind::Missing) => "A filename containing the MERL material data is required"@,
            (Part::Merl, Key::File, Kind::Mistyped) => "The MERL file must be a string"@,
            (Part::Metal, Key::RefractiveIndex, Kind::Missing) => "A refractive_index color is required for metal"@,
            (Part::Metal, Key::RefractiveIndex, Kind::Mistyped) => "Invalid color specified for refractive_index of metal"@,
            (Part::Metal, Key::AbsorptionCoefficient, Kind::Missing) => "An absorption_coefficient color is required for metal"@,
            (Part::Metal, Key::AbsorptionCoefficient, Kind::Mistyped) => "Invalid color specified for absorption_coefficient of metal"@,
            (Part::Metal, Key::Roughness, Kind::Missing) => "A roughness is required for metal"@,
            (Part::Metal, Key::Roughness, Kind::Mistyped) => "roughness must be a float"@,
            (Part::Plastic, Key::Diffuse, Kind::Missing) => "A diffuse color is required for plastic"@,
            (Part::Plastic, Key::Diffuse, Kind::Mistyped) => "Invalid color specified for diffuse of plastic"@,
            (Part::Plastic, Key::Gloss, Kind::Missing) => "A gloss color is required for plastic"@,
            (Part::Plastic, Key::Gloss, Kind::Mistyped) => "Invalid color specified for gloss of plastic"@,
            (Part::Plastic, Key::Roughness, Kind::Missing) => "A roughness is required for plastic"@,
            (Part::Plastic, Key::Roughness, Kind::Mistyped) => "roughness must be a float"@,
            (Part::SpecularMetal, Key::RefractiveIndex, Kind::Missing) => "A refractive_index color is required for specular metal"@,
            (Part::SpecularMetal, Key::RefractiveIndex, Kind::Mistyped) => "Invalid color specified for refractive_index of specular metal"@,
            (Part::SpecularMetal, Key::AbsorptionCoefficient, Kind::Missing) => "An absorption_coefficient color is required for specular metal"@,
            (Part::SpecularMetal, Key::AbsorptionCoefficient, Kind::Mistyped) => "Invalid color specified for absorption_coefficient of specular metal"@,
            (Part::Object, Key::Name, Kind::Missing) => "A name is required for an object"@,
            (Part::Object, Key::Name, Kind::Mistyped) => "Object name must be a string"@,
            (Part::Object, Key::Type, Kind::Missing) => "A type is required for an object"@,
            (Part::Object, Key::Type, Kind::Mistyped) => "Object type must be a string"@,
            (Part::Object, Key::Type, Kind::Unrecognized) => "Unrecognized object type"@,
            (Part::Object, Key::Keyframes, Kind::Mistyped) => "Invalid keyframes specified"@,
            (Part::Object, Key::Transform, Kind::Mistyped) => "Invalid transform specified"@,
            (Part::Object, Key::Transform, Kind::Missing) => "No transform specified for object"@,
            (Part::Emitter, Key::Emitter, Kind::Missing) => "An emitter type is required for emitters"@,
            (Part::Emitter, Key::Emitter, Kind::Mistyped) => "Emitter type must be a string"@,
            (Part::Emitter, Key::Emitter, Kind::Unrecognized) => "Invalid emitter type specified"@,
            (Part::Emitter, Key::Emission, Kind::Missing) => "An emission color is required for emitters"@,
            (Part::Emitter, Key::Emission, Kind::Mistyped) => "Emitter emission must be a color"@,
            (Part::PointLight, Key::Position, Kind::Missing) => "A position is required for point lights"@,
            (Part::PointLight, Key::Position, Kind::Mistyped) => "Invalid position point specified for point light"@,
            (Part::AreaLight, Key::Material, Kind::Missing) => "A material is required for an object"@,
            (Part::AreaLight, Key::Material, Kind::Mistyped) => "Object material name must be a string"@,
            (Part::AreaLight, Key::Material, Kind::Unresolved) => "Material was not found in the material list"@,
            (Part::AreaLight, Key::Geometry, Kind::Missing) => "Geometry is required for area lights"@,
            (Part::Receiver, Key::Material, Kind::Missing) => "A material is required for an object"@,
            (Part::Receiver, Key::Material, Kind::Mistyped) => "Object material name must be a string"@,
            (Part::Receiver, Key::Material, Kind::Unresolved) => "Material was not found in the material list"@,
            (Part::Receiver, Key::Geometry, Kind::Missing) => "Geometry is required for receivers"@,
            (Part::Group, Key::Objects, Kind::Missing) => "A group must specify an array of objects in the group"@,
            (Part::Geometry, Key::Type, Kind::Missing) => "A type is required for geometry"@,
            (Part::Geometry, Key::Type, Kind::Mistyped) => "Geometry type must be a string"@,
            (Part::Geometry, Key::Type, Kind::Unrecognized) => "Unrecognized geometry type"@,
            (Part::Geometry, Key::Type, Kind::Unsampleable) => "Geometry of this type is not sampleable and can't be used for area light geometry"@,
            (Part::Sphere, Key::Radius, Kind::Missing) => "A radius is required for a sphere"@,
            (Part::Sphere, Key::Radius, Kind::Mistyped) => "radius must be a number"@,
            (Part::Disk, Key::Radius, Kind::Missing) => "A radius is required for a disk"@,
            (Part::Disk, Key::Radius, Kind::Mistyped) => "radius must be a number"@,
            (Part::Disk, Key::InnerRadius, Kind::Missing) => "An inner radius is required for a disk"@,
            (Part::Disk, Key::InnerRadius, Kind::Mistyped) => "inner radius must be a number"@,
            (Part::Mesh, Key::File, Kind::Missing) => "An OBJ file is required for meshes"@,
            (Part::Mesh, Key::File, Kind::Mistyped) => "OBJ filename must be a string"@,
            (Part::Mesh, Key::Model, Kind::Missing) => "A model name is required for geometry"@,
            (Part::Mesh, Key::Model, Kind::Mistyped) => "Model name type must be a string"@,
            (Part::ColorKeyframe, Key::Time, Kind::Missing) => "A time must be specified for a color keyframe"@,
            (Part::ColorKeyframe, Key::Time, Kind::Mistyped) => "Time for color keyframe must be a number"@,
            (Part::ColorKeyframe, Key::Color, Kind::Missing) => "A color must be specified for a color keyframe"@,
            (Part::ColorKeyframe, Key::Color, Kind::Mistyped) => "A valid color is required for a color keyframe"@,
            (Part::Transform, Key::Type, Kind::Missing) => "A type is required for a transform"@,
            (Part::Transform, Key::Type, Kind::Mistyped) => "Transform type must be a string"@,
            (Part::Translate, Key::Translation, Kind::Missing) => "A translation vector is required for translate"@,
            (Part::Translate, Key::Translation, Kind::Mistyped) => "Invalid vector specified for translation direction"@,
            (Part::Scale, Key::Scaling, Kind::Missing) => "A scaling value or vector is required for scale"@,
            (Part::Scale, Key::Scaling, Kind::Mistyped) => "Invalid vector specified for scaling vector"@,
            (Part::Scale, Key::Scaling, Kind::Unrecognized) => "Scaling value should be an array of 3 floats or a single float"@,
            (Part::RotateX, Key::Rotation, Kind::Missing) => "A rotation in degrees is required for rotate_x"@,
            (Part::RotateX, Key::Rotation, Kind::Mistyped) => "rotation for rotate_x must be a number"@,
            (Part::RotateY, Key::Rotation, Kind::Missing) => "A rotation in degrees is required for rotate_y"@,
            (Part::RotateY, Key::Rotation, Kind::Mistyped) => "rotation for rotate_y must be a number"@,
            (Part::RotateZ, Key::Rotation, Kind::Missing) => "A rotation in degrees is required for rotate_z"@,
            (Part::RotateZ, Key::Rotation, Kind::Mistyped) => "rotation for rotate_z must be a number"@,
            (Part::Rotate, Key::Rotation, Kind::Missing) => "A rotation in degrees is required for rotate"@,
            (Part::Rotate, Key::Rotation, Kind::Mistyped) => "rotation for rotate must be a number"@,
            (Part::Rotate, Key::Axis, Kind::Missing) => "An axis vector is required for rotate"@,
            (Part::Rotate, Key::Axis, Kind::Mistyped) => "Invalid vector specified for rotation axis"@,
            (Part::Keyframe, Key::Time, Kind::Missing) => "A time is required for a keyframe"@,
            (Part::Keyframe, Key::Time, Kind::Mistyped) => "Time must be a number"@,
            (Part::Keyframe, Key::Time, Kind::Misordered) => "Keyframe times must be strictly increasing"@,
            (Part::Keyframe, Key::Transform, Kind::Missing) => "A transform is required for a keyframe"@,
            (Part::Keyframe, Key::Transform, Kind::Mistyped) => "Invalid transform for keyframe"@,
            _ => "The scene is not valid"@,
        }
    }

    /// Words the fault.
    pub fn text(self) -> (r: &'static str)
        ensures
            r@ == self.wording(),
    {
        match (self.part, self.key, self.kind) {
            (Part::Root, Key::Film, Kind::Missing) => "The scene must specify a film to write to",
            (Part::Root, Key::Camera, Kind::Missing) => "The scene must specify a camera",
            (Part::Root, Key::Integrator, Kind::Missing) => "The scene must specify the integrator to render with",
            (Part::Root, Key::Materials, Kind::Missing) => "The scene must specify an array of materials",
            (Part::Root, Key::Objects, Kind::Missing) => "The scene must specify a list of objects",
            (Part::Root, Key::Materials, Kind::Mistyped) => "The materials must be an array of materials used",
            (Part::Root, Key::Objects, Kind::Mistyped) => "The objects must be an array of objects used",
            (Part::Root, Key::Objects, Kind::Empty) => "Aborting: the scene does not have any objects!",
            (Part::Film, Key::Width, Kind::Missing) => "The film must specify the image width",
            (Part::Film, Key::Width, Kind::Mistyped) => "Image width must be a number",
            (Part::Film, Key::Height, Kind::Missing) => "The film must specify the image height",
            (Part::Film, Key::Height, Kind::Mistyped) => "Image height must be a number",
            (Part::Film, Key::Samples, Kind::Missing) => "The film must specify the number of samples per pixel",
            (Part::Film, Key::Samples, Kind::Mistyped) => "Samples per pixel must be a number",
            (Part::Film, Key::StartFrame, Kind::Missing) => "The film must specify the starting frame",
            (Part::Film, Key::StartFrame, Kind::Mistyped) => "Start frame must be a number",
            (Part::Film, Key::EndFrame, Kind::Missing) => "The film must specify the frame to end on",
            (Part::Film, Key::EndFrame, Kind::Mistyped) => "End frame must be a number",
            (Part::Film, Key::EndFrame, Kind::Misordered) => "End frame must be greater or equal to the starting frame",
            (Part::Film, Key::Frames, Kind::Missing) => "The film must specify the total number of frames",
            (Part::Film, Key::Frames, Kind::Mistyped) => "Frames must be a number",
            (Part::Film, Key::SceneTime, Kind::Missing) => "The film must specify the overall scene time",
            (Part::Film, Key::SceneTime, Kind::Mistyped) => "Scene time must be a number",
            (Part::Film, Key::Filter, Kind::Missing) => "The film must specify a reconstruction filter",
            (Part::Filter, Key::Width, Kind::Missing) => "The filter must specify the filter width",
            (Part::Filter, Key::Width, Kind::Mistyped) => "Filter width must be a number",
            (Part::Filter, Key::Height, Kind::Missing) => "The filter must specify the filter height",
            (Part::Filter, Key::Height, Kind::Mistyped) => "Filter height must be a number",
            (Part::Filter, Key::Type, Kind::Missing) => "A type is required for the filter",
            (Part::Filter, Key::Type, Kind::Mistyped) => "Filter type must be a string",
            (Part::Filter, Key::Type, Kind::Unrecognized) => "Unrecognized filter type",
            (Part::MitchellNetravali, Key::B, Kind::Missing) => "A b parameter is required for the Mitchell-Netravali filter",
            (Part::MitchellNetravali, Key::B, Kind::Mistyped) => "b must be a number",
            (Part::MitchellNetravali, Key::C, Kind::Missing) => "A c parameter is required for the Mitchell-Netravali filter",
            (Part::MitchellNetravali, Key::C, Kind::Mistyped) => "c must be a number",
            (Part::Camera, Key::Fov, Kind::Missing) => "The camera must specify a field of view",
            (Part::Camera, Key::Fov, Kind::Mistyped) => "fov must be a float",
            (Part::Camera, Key::Keyframes, Kind::Mistyped) => "Invalid keyframes specified",
            (Part::Camera, Key::Transform, Kind::Mistyped) => "Invalid transform specified",
            (Part::Camera, Key::Position, Kind::Missing) => "The camera must specify a position",
            (Part::Camera, Key::Position, Kind::Mistyped) => "position must be an array of 3 floats",
            (Part::Camera, Key::Target, Kind::Missing) => "The camera must specify a target",
            (Part::Camera, Key::Target, Kind::Mistyped) => "target must be an array of 3 floats",
            (Part::Camera, Key::Up, Kind::Missing) => "The camera must specify an up vector",
            (Part::Camera, Key::Up, Kind::Mistyped) => "up must be an array of 3 floats",
            (Part::Integrator, Key::Type, Kind::Missing) => "Integrator must specify a type",
            (Part::Integrator, Key::Type, Kind::Mistyped) => "Integrator type must be a string",
            (Part::Integrator, Key::Type, Kind::Unrecognized) => "Unrecognized integrator type",
            (Part::Integrator, Key::MinDepth, Kind::Missing) => "The integrator must specify the minimum ray depth",
            (Part::Integrator, Key::MinDepth, Kind::Mistyped) => "min_depth must be a number",
            (Part::Integrator, Key::MaxDepth, Kind::Missing) => "The integrator must specify the maximum ray depth",
            (Part::Integrator, Key::MaxDepth, Kind::Mistyped) => "max_depth must be a number",
            (Part::Material, Key::Name, Kind::Missing) => "A name is required",
            (Part::Material, Key::Name, Kind::Mistyped) => "name must be a string",
            (Part::Material, Key::Name, Kind::Duplicate) => "name conflicts with an existing entry",
            (Part::Material, Key::Type, Kind::Missing) => "a type is required",
            (Part::Material, Key::Type, Kind::Mistyped) => "type must be a string",
            (Part::Material, Key::Type, Kind::Unrecognized) => "unrecognized type",
            (Part::Glass, Key::Reflect, Kind::Missing) => "A reflect color is required for glass",
            (Part::Glass, Key::Reflect, Kind::Mistyped) => "Invalid color specified for reflect of glass",
            (Part::Glass, Key::Transmit, Kind::Missing) => "A transmit color is required for glass",
            (Part::Glass, Key::Transmit, Kind::Mistyped) => "Invalid color specified for transmit of glass",
            (Part::Glass, Key::Eta, Kind::Missing) => "A refractive index 'eta' is required for glass",
            (Part::Glass, Key::Eta, Kind::Mistyped) => "glass eta must be a float",
            (Part::Matte, Key::Diffuse, Kind::Missing) => "A diffuse color is required for matte",
            (Part::Matte, Key::Diffuse, Kind::Mistyped) => "Invalid color specified for diffuse of matte",
            (Part::Matte, Key::Roughness, Kind::Missing) => "A roughness is required for matte",
            (Part::Matte, Key::Roughness, Kind::Mistyped) => "roughness must be a float",
            (Part::Merl, Key::File, Kind::Missing) => "A filename containing the MERL material data is required",
            (Part::Merl, Key::File, Kind::Mistyped) => "The MERL file must be a string",
            (Part::Metal, Key::RefractiveIndex, Kind::Missing) => "A refractive_index color is required for metal",
            (Part::Metal, Key::RefractiveIndex, Kind::Mistyped) => "Invalid color specified for refractive_index of metal",
            (Part::Metal, Key::AbsorptionCoefficient, Kind::Missing) => "An absorption_coefficient color is required for metal",
            (Part::Metal, Key::AbsorptionCoefficient, Kind::Mistyped) => "Invalid color specified for absorption_coefficient of metal",
            (Part::Metal, Key::Roughness, Kind::Missing) => "A roughness is required for metal",
            (Part::Metal, Key::Roughness, Kind::Mistyped) => "roughness must be a float",
            (Part::Plastic, Key::Diffuse, Kind::Missing) => "A diffuse color is required for plastic",
            (Part::Plastic, Key::Diffuse, Kind::Mistyped) => "Invalid color specified for diffuse of plastic",
            (Part::Plastic, Key::Gloss, Kind::Missing) => "A gloss color is required for plastic",
            (Part::Plastic, Key::Gloss, Kind::Mistyped) => "Invalid color specified for gloss of plastic",
            (Part::Plastic, Key::Roughness, Kind::Missing) => "A roughness is required for plastic",
            (Part::Plastic, Key::Roughness, Kind::Mistyped) => "roughness must be a float",
            (Part::SpecularMetal, Key::RefractiveIndex, Kind::Missing) => "A refractive_index color is required for specular metal",
            (Part::SpecularMetal, Key::RefractiveIndex, Kind::Mistyped) => "Invalid color specified for refractive_index of specular metal",
            (Part::SpecularMetal, Key::AbsorptionCoefficient, Kind::Missing) => "An absorption_coefficient color is required for specular metal",
            (Part::SpecularMetal, Key::AbsorptionCoefficient, Kind::Mistyped) => "Invalid color specified for absorption_coefficient of specular metal",
            (Part::Object, Key::Name, Kind::Missing) => "A name is required for an object",
            (Part::Object, Key::Name, Kind::Mistyped) => "Object name must be a string",
            (Part::Object, Key::Type, Kind::Missing) => "A type is required for an object",
            (Part::Object, Key::Type, Kind::Mistyped) => "Object type must be a string",
            (Part::Object, Key::Type, Kind::Unrecognized) => "Unrecognized object type",
            (Part::Object, Key::Keyframes, Kind::Mistyped) => "Invalid keyframes specified",
            (Part::Object, Key::Transform, Kind::Mistyped) => "Invalid transform specified",
            (Part::Object, Key::Transform, Kind::Missing) => "No transform specified for object",
            (Part::Emitter, Key::Emitter, Kind::Missing) => "An emitter type is required for emitters",
            (Part::Emitter, Key::Emitter, Kind::Mistyped) => "Emitter type must be a string",
            (Part::Emitter, Key::Emitter, Kind::Unrecognized) => "Invalid emitter type specified",
            (Part::Emitter, Key::Emission, Kind::Missing) => "An emission color is required for emitters",
            (Part::Emitter, Key::Emission, Kind::Mistyped) => "Emitter emission must be a color",
            (Part::PointLight, Key::Position, Kind::Missing) => "A position is required for point lights",
            (Part::PointLight, Key::Position, Kind::Mistyped) => "Invalid position point specified for point light",
            (Part::AreaLight, Key::Material, Kind::Missing) => "A material is required for an object",
            (Part::AreaLight, Key::Material, Kind::Mistyped) => "Object material name must be a string",
            (Part::AreaLight, Key::Material, Kind::Unresolved) => "Material was not found in the material list",
            (Part::AreaLight, Key::Geometry, Kind::Missing) => "Geometry is required for area lights",
            (Part::Receiver, Key::Material, Kind::Missing) => "A material is required for an object",
            (Part::Receiver, Key::Material, Kind::Mistyped) => "Object material name must be a string",
            (Part::Receiver, Key::Material, Kind::Unresolved) => "Material was not found in the material list",
            (Part::Receiver, Key::Geometry, Kind::Missing) => "Geometry is required for receivers",
            (Part::Group, Key::Objects, Kind::Missing) => "A group must specify an array of objects in the group",
            (Part::Geometry, Key::Type, Kind::Missing) => "A type is required for geometry",
            (Part::Geometry, Key::Type, Kind::Mistyped) => "Geometry type must be a string",
            (Part::Geometry, Key::Type, Kind::Unrecognized) => "Unrecognized geometry type",
            (Part::Geometry, Key::Type, Kind::Unsampleable) => "Geometry of this type is not sampleable and can't be used for area light geometry",
            (Part::Sphere, Key::Radius, Kind::Missing) => "A radius is required for a sphere",
            (Part::Sphere, Key::Radius, Kind::Mistyped) => "radius must be a number",
            (Part::Disk, Key::Radius, Kind::Missing) => "A radius is required for a disk",
            (Part::Disk, Key::Radius, Kind::Mistyped) => "radius must be a number",
            (Part::Disk, Key::InnerRadius, Kind::Missing) => "An inner radius is required for a disk",
            (Part::Disk, Key::InnerRadius, Kind::Mistyped) => "inner radius must be a number",
            (Part::Mesh, Key::File, Kind::Missing) => "An OBJ file is required for meshes",
            (Part::Mesh, Key::File, Kind::Mistyped) => "OBJ filename must be a string",
            (Part::Mesh, Key::Model, Kind::Missing) => "A model name is required for geometry",
            (Part::Mesh, Key::Model, Kind::Mistyped) => "Model name type must be a string",
            (Part::ColorKeyframe, Key::Time, Kind::Missing) => "A time must be specified for a color keyframe",
            (Part::ColorKeyframe, Key::Time, Kind::Mistyped) => "Time for color keyframe must be a number",
            (Part::ColorKeyframe, Key::Color, Kind::Missing) => "A color must be specified for a color keyframe",
            (Part::ColorKeyframe, Key::Color, Kind::Mistyped) => "A valid color is required for a color keyframe",
            (Part::Transform, Key::Type, Kind::Missing) => "A type is required for a transform",
            (Part::Transform, Key::Type, Kind::Mistyped) => "Transform type must be a string",
            (Part::Translate, Key::Translation, Kind::Missing) => "A translation vector is required for translate",
            (Part::Translate, Key::Translation, Kind::Mistyped) => "Invalid vector specified for translation direction",
            (Part::Scale, Key::Scaling, Kind::Missing) => "A scaling value or vector is required for scale",
            (Part::Scale, Key::Scaling, Kind::Mistyped) => "Invalid vector specified for scaling vector",
            (Part::Scale, Key::Scaling, Kind::Unrecognized) => "Scaling value should be an array of 3 floats or a single float",
            (Part::RotateX, Key::Rotation, Kind::Missing) => "A rotation in degrees is required for rotate_x",
            (Part::RotateX, Key::Rotation, Kind::Mistyped) => "rotation for rotate_x must be a number",
            (Part::RotateY, Key::Rotation, Kind::Missing) => "A rotation in degrees is required for rotate_y",
            (Part::RotateY, Key::Rotation, Kind::Mistyped) => "rotation for rotate_y must be a number",
            (Part::RotateZ, Key::Rotation, Kind::Missing) => "A rotation in degrees is required for rotate_z",
            (Part::RotateZ, Key::Rotation, Kind::Mistyped) => "rotation for rotate_z must be a number",
            (Part::Rotate, Key::Rotation, Kind::Missing) => "A rotation in degrees is required for rotate",
            (Part::Rotate, Key::Rotation, Kind::Mistyped) => "rotation for rotate must be a number",
            (Part::Rotate, Key::Axis, Kind::Missing) => "An axis vector is required for rotate",
            (Part::Rotate, Key::Axis, Kind::Mistyped) => "Invalid vector specified for rotation axis",
            (Part::Keyframe, Key::Time, Kind::Missing) => "A time is required for a keyframe",
            (Part::Keyframe, Key::Time, Kind::Mistyped) => "Time must be a number",
            (Part::Keyframe, Key::Time, Kind::Misordered) => "Keyframe times must be strictly increasing",
            (Part::Keyframe, Key::Transform, Kind::Missing) => "A transform is required for a keyframe",
            (Part::Keyframe, Key::Transform, Kind::Mistyped) => "Invalid transform for keyframe",
            _ => "The scene is not valid",
        }
    }
}

/// Why a scene document was turned down.
#[derive(Clone, Copy, Debug, PartialEq, Eq)]
pub enum LoadError {
    /// The text is not JSON.
    Syntax,
    /// The document is not a JSON object.
    Root,
    /// An entry is at fault.
    Invalid(Fault),
    /// An entry of the material at this place in the list of materials is at
    /// fault.
    Material { index: usize, fault: Fault },
}

/// The fault of a required entry that is not there.
pub open spec fn missing(part: Part, key: Key) -> LoadError {
    LoadError::Invalid(Fault { part, key, kind: Kind::Missing })
}

/// The fault of an entry whose value has the wrong form.
pub open spec fn mistyped(part: Part, key: Key) -> LoadError {
    LoadError::Invalid(Fault { part, key, kind: Kind::Mistyped })
}

/// The fault of the given kind at an entry.
pub open spec fn fault(part: Part, key: Key, kind: Kind) -> LoadError {
    LoadError::Invalid(Fault { part, key, kind })
}

impl LoadError {
    /// The fault of the given kind at an entry.
    pub fn at(part: Part, key: Key, kind: Kind) -> (r: LoadError)
        ensures
            r == fault(part, key, kind),
    {
        LoadError::Invalid(Fault { part, key, kind })
    }

    /// The error as it stands for the material at `index` of the list: a
    /// fault at an entry is told with that place, any other error is kept.
    pub open spec fn within(self, index: usize) -> LoadError {
        match self {
            LoadError::Invalid(fault) => LoadError::Material { index, fault },
            other => other,
        }
    }

    /// Tells the place of the material that a fault was found in.
    pub fn in_material(self, index: usize) -> (r: LoadError)
        ensures
            r == self.within(index),
    {
        match self {
            LoadError::Invalid(fault) => LoadError::Material { index, fault },
            other => other,
        }
    }
}

} // verus!
