//! The materials of a scene document.

use crate::error::{Key, Kind, LoadError, Part};
use crate::error::{fault, mistyped};
use crate::json::{require_real, require_text, required_real, required_text, same_text, Json};
use crate::error::Fault;
use crate::outcome::{accumulate, lemma_accumulate_fault, lemma_accumulate_fault_place};
use crate::outcome::{lemma_accumulate_readings, lemma_accumulate_step, viewed};
use crate::scalar::Real;
use crate::values::{require_color, required_color, ScaledColor};
use vstd::prelude::*;
use vstd::string::StringExecFns;

pub mod glass;

verus! {

/// How a surface scatters light, as a document states it.
#[derive(Clone, Debug, PartialEq, Eq)]
pub enum Material {
    /// Glass that reflects and transmits without roughness.
    Glass { reflect: ScaledColor, transmit: ScaledColor, eta: Real },
    /// A diffuse surface.
    Matte { diffuse: ScaledColor, roughness: Real },
    /// A measured surface, in the file that is named as the document names it.
    Merl { file: String },
    /// A rough metal.
    Metal { refractive_index: ScaledColor, absorption_coefficient: ScaledColor, roughness: Real },
    /// A diffuse surface under a glossy coat.
    Plastic { diffuse: ScaledColor, gloss: ScaledColor, roughness: Real },
    /// A metal that mirrors.
    SpecularMetal { refractive_index: ScaledColor, absorption_coefficient: ScaledColor },
}

/// A material as contracts speak of it.
pub enum MaterialView {
    Glass { reflect: ScaledColor, transmit: ScaledColor, eta: Real },
    Matte { diffuse: ScaledColor, roughness: Real },
    Merl { file: Seq<char> },
    Metal { refractive_index: ScaledColor, absorption_coefficient: ScaledColor, roughness: Real },
    Plastic { diffuse: ScaledColor, gloss: ScaledColor, roughness: Real },
    SpecularMetal { refractive_index: ScaledColor, absorption_coefficient: ScaledColor },
}

impl View for Material {
    type V = MaterialView;

    open spec fn view(&self) -> MaterialView {
        match *self {
            Material::Glass { reflect, transmit, eta } => MaterialView::Glass {
                reflect,
                transmit,
                eta,
            },
            Material::Matte { diffuse, roughness } => MaterialView::Matte { diffuse, roughness },
            Material::Merl { file } => MaterialView::Merl { file: file@ },
            Material::Metal {
                refractive_index,
                absorption_coefficient,
                roughness,
            } => MaterialView::Metal { refractive_index, absorption_coefficient, roughness },
            Material::Plastic { diffuse, gloss, roughness } => MaterialView::Plastic {
                diffuse,
                gloss,
                roughness,
            },
            Material::SpecularMetal {
                refractive_index,
                absorption_coefficient,
            } => MaterialView::SpecularMetal { refractive_index, absorption_coefficient },
        }
    }
}

/// A material under the name by which objects refer to it.
#[derive(Clone, Debug, PartialEq, Eq)]
pub struct NamedMaterial {
    pub name: String,
    pub material: Material,
}

/// A named material as contracts speak of it.
pub struct NamedMaterialView {
    pub name: Seq<char>,
    pub material: MaterialView,
}

impl View for NamedMaterial {
    type V = NamedMaterialView;

    open spec fn view(&self) -> NamedMaterialView {
        NamedMaterialView { name: self.name@, material: self.material@ }
    }
}

/// A list of named materials as contracts speak of it.
pub open spec fn material_views(list: Seq<NamedMaterial>) -> Seq<NamedMaterialView> {
    Seq::new(list.len(), |i: int| list[i]@)
}

/// Whether one of the materials has the name.
pub open spec fn names(list: Seq<NamedMaterialView>, name: Seq<char>) -> bool {
    exists|j: int| 0 <= j < list.len() && (#[trigger] list[j]).name == name
}

/// Whether no two of the materials have the same name.
pub open spec fn distinct_names(list: Seq<NamedMaterialView>) -> bool {
    forall|i: int, j: int|
        0 <= i < j < list.len() ==> (#[trigger] list[i]).name != (#[trigger] list[j]).name
}

/// The place in a list of materials of the first one with the name; the
/// length of the list where none has it.
pub open spec fn material_position(list: Seq<NamedMaterialView>, name: Seq<char>) -> int
    decreases list.len(),
{
    if list.len() == 0 {
        0
    } else if list[0].name == name {
        0
    } else {
        1 + material_position(list.skip(1), name)
    }
}

/// The place in a list of materials of the one that a name refers to: the
/// first with that name.
pub open spec fn material_named(list: Seq<NamedMaterialView>, name: Seq<char>) -> Option<usize> {
    let at = material_position(list, name);
    if 0 <= at < list.len() {
        Some(at as usize)
    } else {
        None
    }
}

/// Where no material before `upto` has the name, the first material with the
/// name is at `upto` or later.
pub proof fn lemma_material_position(list: Seq<NamedMaterialView>, name: Seq<char>, upto: int)
    requires
        0 <= upto <= list.len(),
        forall|j: int| 0 <= j < upto ==> (#[trigger] list[j]).name != name,
    ensures
        upto <= material_position(list, name) <= list.len(),
        upto < list.len() && list[upto].name == name ==> material_position(list, name) == upto,
    decreases list.len(),
{
    if list.len() == 0 {
    } else if upto == 0 {
        if list[0].name != name {
            lemma_material_position(list.skip(1), name, 0);
        }
    } else {
        let rest = list.skip(1);
        assert forall|j: int| 0 <= j < upto - 1 implies (#[trigger] rest[j]).name != name by {
            assert(rest[j] == list[j + 1]);
        }
        lemma_material_position(rest, name, upto - 1);
        assert(list[0].name != name);
        if upto < list.len() {
            assert(rest[upto - 1] == list[upto]);
        }
    }
}

/// The text of the fault `msg` in the material called `mat_name`.
pub open spec fn mat_error_text(mat_name: Seq<char>, msg: Seq<char>) -> Seq<char> {
    "Error loading material '"@ + mat_name + "': "@ + msg
}

/// Words a fault in a material: the material's name in quotes, then what is
/// wrong.
pub fn mat_error(mat_name: &String, msg: &str) -> (r: String)
    ensures
        r@ == mat_error_text(mat_name@, msg@),
{
    let mut text = String::from_str("Error loading material '");
    text.append(mat_name.as_str());
    text.append("': ");
    text.append(msg);
    text
}

/// What an entry of the list of materials states of the material itself,
/// given its `type`.
pub open spec fn material_of(m: Json, ty: Seq<char>) -> Result<MaterialView, LoadError> {
    if ty == "glass"@ {
        match required_color(m, Part::Glass, Key::Reflect) {
            Err(e) => Err(e),
            Ok(reflect) => match required_color(m, Part::Glass, Key::Transmit) {
                Err(e) => Err(e),
                Ok(transmit) => match required_real(m, Part::Glass, Key::Eta) {
                    Err(e) => Err(e),
                    Ok(eta) => Ok(MaterialView::Glass { reflect, transmit, eta }),
                },
            },
        }
    } else if ty == "matte"@ {
        match required_color(m, Part::Matte, Key::Diffuse) {
            Err(e) => Err(e),
            Ok(diffuse) => match required_real(m, Part::Matte, Key::Roughness) {
                Err(e) => Err(e),
                Ok(roughness) => Ok(MaterialView::Matte { diffuse, roughness }),
            },
        }
    } else if ty == "merl"@ {
        match required_text(m, Part::Merl, Key::File) {
            Err(e) => Err(e),
            Ok(file) => Ok(MaterialView::Merl { file }),
        }
    } else if ty == "metal"@ {
        match required_color(m, Part::Metal, Key::RefractiveIndex) {
            Err(e) => Err(e),
            Ok(refractive_index) => match required_color(
                m,
                Part::Metal,
                Key::AbsorptionCoefficient,
            ) {
                Err(e) => Err(e),
                Ok(absorption_coefficient) => match required_real(
                    m,
                    Part::Metal,
                    Key::Roughness,
                ) {
                    Err(e) => Err(e),
                    Ok(roughness) => Ok(
                        MaterialView::Metal { refractive_index, absorption_coefficient, roughness },
                    ),
                },
            },
        }
    } else if ty == "plastic"@ {
        match required_color(m, Part::Plastic, Key::Diffuse) {
            Err(e) => Err(e),
            Ok(diffuse) => match required_color(m, Part::Plastic, Key::Gloss) {
                Err(e) => Err(e),
                Ok(gloss) => match required_real(m, Part::Plastic, Key::Roughness) {
                    Err(e) => Err(e),
                    Ok(roughness) => Ok(MaterialView::Plastic { diffuse, gloss, roughness }),
                },
            },
        }
    } else if ty == "specular_metal"@ {
        match required_color(m, Part::SpecularMetal, Key::RefractiveIndex) {
            Err(e) => Err(e),
            Ok(refractive_index) => match required_color(
                m,
                Part::SpecularMetal,
                Key::AbsorptionCoefficient,
            ) {
                Err(e) => Err(e),
                Ok(absorption_coefficient) => Ok(
                    MaterialView::SpecularMetal { refractive_index, absorption_coefficient },
                ),
            },
        }
    } else {
        Err(fault(Part::Material, Key::Type, Kind::Unrecognized))
    }
}

/// What an entry of the list of materials states, after the entries before
/// it gave `earlier`: its `name`, then its `type`, then that no earlier
/// material has the name, then what the type asks for.
pub open spec fn named_material_of(m: Json, earlier: Seq<NamedMaterialView>) -> Result<
    NamedMaterialView,
    LoadError,
> {
    match required_text(m, Part::Material, Key::Name) {
        Err(e) => Err(e),
        Ok(name) => match required_text(m, Part::Material, Key::Type) {
            Err(e) => Err(e),
            Ok(ty) => if names(earlier, name) {
                Err(fault(Part::Material, Key::Name, Kind::Duplicate))
            } else {
                match material_of(m, ty) {
                    Err(e) => Err(e),
                    Ok(material) => Ok(NamedMaterialView { name, material }),
                }
            },
        },
    }
}

/// What the entry at the end of a list of entries states, told with its place
/// in the list where it is at fault.
pub open spec fn placed_material_of(m: Json, earlier: Seq<NamedMaterialView>) -> Result<
    NamedMaterialView,
    LoadError,
> {
    match named_material_of(m, earlier) {
        Err(e) => Err(e.within(earlier.len() as usize)),
        Ok(material) => Ok(material),
    }
}

/// The materials that a list of entries states: each entry states one. The
/// first fault, in the order of the entries, is the fault of the list.
pub open spec fn materials_among(items: Seq<Json>) -> Result<Seq<NamedMaterialView>, LoadError> {
    accumulate(items, |m: Json, earlier: Seq<NamedMaterialView>| placed_material_of(m, earlier))
}

/// The materials that a value states: it is an array, and each item states
/// one.
pub open spec fn materials_of(elem: Json) -> Result<Seq<NamedMaterialView>, LoadError> {
    match elem.items() {
        None => Err(mistyped(Part::Root, Key::Materials)),
        Some(items) => materials_among(items),
    }
}

/// The fault of a list of materials is told with the place of the first
/// entry that cannot be read after those before it, and is the fault of that
/// entry.
pub proof fn lemma_material_fault_place(items: Seq<Json>, index: usize, fault: Fault)
    requires
        items.len() <= usize::MAX,
        materials_among(items) == Err::<Seq<NamedMaterialView>, LoadError>(
            LoadError::Material { index, fault },
        ),
    ensures
        index < items.len(),
        materials_among(items.take(index as int)) is Ok,
        named_material_of(items[index as int], materials_among(items.take(index as int))->Ok_0)
            == Err::<NamedMaterialView, LoadError>(LoadError::Invalid(fault)),
{
    let read = |m: Json, earlier: Seq<NamedMaterialView>| placed_material_of(m, earlier);
    let k = lemma_accumulate_fault_place(items, read);
    let earlier = accumulate(items.take(k), read)->Ok_0;
    assert(placed_material_of(items[k], earlier) == Err::<NamedMaterialView, LoadError>(
        LoadError::Material { index, fault },
    ));
    assert(named_material_of(items[k], earlier) is Err);
    assert(earlier.len() as usize == k);
}

/// The materials of a list that can be read are as many as its entries, and
/// each is what its entry states after the materials before it.
pub proof fn lemma_materials_readings(items: Seq<Json>)
    ensures
        materials_among(items) matches Ok(list) ==> {
            &&& list.len() == items.len()
            &&& forall|i: int|
                0 <= i < items.len() ==> named_material_of(items[i], list.take(i)) == Ok::<
                    NamedMaterialView,
                    LoadError,
                >(#[trigger] list[i])
        },
{
    let read = |m: Json, earlier: Seq<NamedMaterialView>| placed_material_of(m, earlier);
    lemma_accumulate_readings(items, read);
}

/// Tells whether one of the materials has the name.
pub fn has_name(list: &Vec<NamedMaterial>, name: &str) -> (r: bool)
    ensures
        r == names(material_views(list@), name@),
{
    let mut i: usize = 0;
    while i < list.len()
        invariant
            i <= list.len(),
            forall|j: int| 0 <= j < i ==> (#[trigger] material_views(list@)[j]).name != name@,
        decreases list.len() - i,
    {
        if same_text(list[i].name.as_str(), name) {
            assert(material_views(list@)[i as int].name == name@);
            return true;
        }
        i += 1;
    }
    false
}

/// Tells whether no two of the materials have the same name.
pub fn has_distinct_names(list: &Vec<NamedMaterial>) -> (r: bool)
    ensures
        r == distinct_names(material_views(list@)),
{
    let ghost views = material_views(list@);
    let mut i: usize = 0;
    while i < list.len()
        invariant
            i <= list.len(),
            views == material_views(list@),
            forall|a: int, b: int|
                0 <= a < b < views.len() && a < i ==> (#[trigger] views[a]).name != (
                #[trigger] views[b]).name,
        decreases list.len() - i,
    {
        let mut j: usize = i + 1;
        while j < list.len()
            invariant
                i < j <= list.len(),
                views == material_views(list@),
                forall|b: int| i < b < j ==> views[i as int].name != (#[trigger] views[b]).name,
            decreases list.len() - j,
        {
            if same_text(list[i].name.as_str(), list[j].name.as_str()) {
                assert(views[i as int].name == views[j as int].name);
                return false;
            }
            j += 1;
        }
        i += 1;
    }
    true
}

/// Finds the material that a name refers to, and tells its place in the list.
pub fn find_material(list: &Vec<NamedMaterial>, name: &str) -> (r: Option<usize>)
    ensures
        r == material_named(material_views(list@), name@),
        r matches Some(at) ==> at < list.len() && list@[at as int].name@ == name@,
{
    let mut i: usize = 0;
    while i < list.len()
        invariant
            i <= list.len(),
            forall|j: int| 0 <= j < i ==> (#[trigger] material_views(list@)[j]).name != name@,
        decreases list.len() - i,
    {
        if same_text(list[i].name.as_str(), name) {
            proof {
                assert(material_views(list@)[i as int].name == name@);
                lemma_material_position(material_views(list@), name@, i as int);
            }
            return Some(i);
        }
        i += 1;
    }
    proof {
        lemma_material_position(material_views(list@), name@, i as int);
    }
    None
}

/// Reads what an entry of the list of materials states of the material
/// itself.
fn load_material(m: &Json, ty: &str) -> (r: Result<Material, LoadError>)
    ensures
        viewed(r) == material_of(*m, ty@),
{
    if same_text(ty, "glass") {
        let reflect = require_color(m, Part::Glass, Key::Reflect)?;
        let transmit = require_color(m, Part::Glass, Key::Transmit)?;
        let eta = require_real(m, Part::Glass, Key::Eta)?;
        Ok(Material::Glass { reflect, transmit, eta })
    } else if same_text(ty, "matte") {
        let diffuse = require_color(m, Part::Matte, Key::Diffuse)?;
        let roughness = require_real(m, Part::Matte, Key::Roughness)?;
        Ok(Material::Matte { diffuse, roughness })
    } else if same_text(ty, "merl") {
        let file = require_text(m, Part::Merl, Key::File)?;
        Ok(Material::Merl { file: file.to_owned() })
    } else if same_text(ty, "metal") {
        let refractive_index = require_color(m, Part::Metal, Key::RefractiveIndex)?;
        let absorption_coefficient = require_color(m, Part::Metal, Key::AbsorptionCoefficient)?;
        let roughness = require_real(m, Part::Metal, Key::Roughness)?;
        Ok(Material::Metal { refractive_index, absorption_coefficient, roughness })
    } else if same_text(ty, "plastic") {
        let diffuse = require_color(m, Part::Plastic, Key::Diffuse)?;
        let gloss = require_color(m, Part::Plastic, Key::Gloss)?;
        let roughness = require_real(m, Part::Plastic, Key::Roughness)?;
        Ok(Material::Plastic { diffuse, gloss, roughness })
    } else if same_text(ty, "specular_metal") {
        let refractive_index = require_color(m, Part::SpecularMetal, Key::RefractiveIndex)?;
        let absorption_coefficient = require_color(
            m,
            Part::SpecularMetal,
            Key::AbsorptionCoefficient,
        )?;
        Ok(Material::SpecularMetal { refractive_index, absorption_coefficient })
    } else {
        Err(LoadError::at(Part::Material, Key::Type, Kind::Unrecognized))
    }
}

/// Reads an entry of the list of materials, after the entries before it gave
/// `earlier`.
fn load_named_material(m: &Json, earlier: &Vec<NamedMaterial>) -> (r: Result<
    NamedMaterial,
    LoadError,
>)
    ensures
        viewed(r) == named_material_of(*m, material_views(earlier@)),
{
    let name = require_text(m, Part::Material, Key::Name)?;
    let ty = require_text(m, Part::Material, Key::Type)?;
    if has_name(earlier, name) {
        return Err(LoadError::at(Part::Material, Key::Name, Kind::Duplicate));
    }
    let material = load_material(m, ty)?;
    Ok(NamedMaterial { name: name.to_owned(), material })
}

/// Reads the list of materials of a scene. The materials come in the order
/// of the document, and no two of them have the same name.
pub fn load_materials(elem: &Json) -> (r: Result<Vec<NamedMaterial>, LoadError>)
    ensures
        match r {
            Ok(list) => materials_of(*elem) == Ok::<Seq<NamedMaterialView>, LoadError>(
                material_views(list@),
            ),
            Err(e) => materials_of(*elem) == Err::<Seq<NamedMaterialView>, LoadError>(e),
        },
        r matches Ok(list) ==> distinct_names(material_views(list@)),
{
    let array = match elem.as_array() {
        Some(a) => a,
        None => return Err(LoadError::at(Part::Root, Key::Materials, Kind::Mistyped)),
    };
    let ghost read = |m: Json, earlier: Seq<NamedMaterialView>| placed_material_of(m, earlier);
    let mut materials: Vec<NamedMaterial> = Vec::new();
    let mut i: usize = 0;
    assert(material_views(materials@) =~= Seq::<NamedMaterialView>::empty());
    while i < array.len()
        invariant
            i <= array.len(),
            elem.items() == Some(array@),
            read == (|m: Json, earlier: Seq<NamedMaterialView>| placed_material_of(m, earlier)),
            materials@.len() == i,
            accumulate(array@.take(i as int), read) == Ok::<Seq<NamedMaterialView>, LoadError>(
                material_views(materials@),
            ),
            distinct_names(material_views(materials@)),
        decreases array.len() - i,
    {
        proof {
            lemma_accumulate_step(array@, read, i as int);
        }
        match load_named_material(&array[i], &materials) {
            Ok(material) => {
                let ghost before = material_views(materials@);
                materials.push(material);
                assert(material_views(materials@) =~= before.push(material@));
                assert(!names(before, material@.name));
            },
            Err(e) => {
                proof {
                    lemma_accumulate_fault(array@, read, i as int + 1);
                }
                return Err(e.in_material(i));
            },
        }
        i += 1;
    }
    assert(array@.take(i as int) =~= array@);
    Ok(materials)
}

} // verus!
