//! Words for the errors of loading.

use crate::error::{Key, LoadError};
use crate::json::Json;
use crate::material::{mat_error, mat_error_text};
use vstd::prelude::*;
use vstd::string::StringExecFns;

verus! {

/// The digit that stands for a number below ten.
pub open spec fn digit_text(d: nat) -> Seq<char> {
    if d == 0 {
        "0"@
    } else if d == 1 {
        "1"@
    } else if d == 2 {
        "2"@
    } else if d == 3 {
        "3"@
    } else if d == 4 {
        "4"@
    } else if d == 5 {
        "5"@
    } else if d == 6 {
        "6"@
    } else if d == 7 {
        "7"@
    } else if d == 8 {
        "8"@
    } else {
        "9"@
    }
}

/// A number in decimal digits, without leading zeros.
pub open spec fn decimal_text(n: nat) -> Seq<char>
    decreases n,
{
    if n < 10 {
        digit_text(n)
    } else {
        decimal_text(n / 10) + digit_text(n % 10)
    }
}

/// The name of the material at a place in the list of materials of a
/// document, where the document has such a list, the list such a place, and
/// the entry there a name that is a text.
pub open spec fn material_name(data: Json, index: usize) -> Option<Seq<char>> {
    match data.field(Key::Materials.text()) {
        Some(list) => match list.items() {
            Some(items) => if index < items.len() {
                match items[index as int].field(Key::Name.text()) {
                    Some(name) => name.text(),
                    None => None,
                }
            } else {
                None
            },
            None => None,
        },
        None => None,
    }
}

/// The words for an error that loading a document gave. A fault in a
/// material is worded with the name of the material, or with its place in
/// the list where it has no name.
pub open spec fn message_text(error: LoadError, data: Json) -> Seq<char> {
    match error {
        LoadError::Syntax => "JSON parsing error"@,
        LoadError::Root => "Expected a root JSON object. See example scenes"@,
        LoadError::Invalid(fault) => fault.wording(),
        LoadError::Material { index, fault } => match material_name(data, index) {
            Some(name) => mat_error_text(name, fault.wording()),
            None => "Error loading material #"@ + decimal_text(index as nat) + ": "@
                + fault.wording(),
        },
    }
}

/// Writes the digit that stands for a number below ten.
fn digit(d: usize) -> (r: &'static str)
    requires
        d < 10,
    ensures
        r@ == digit_text(d as nat),
{
    if d == 0 {
        "0"
    } else if d == 1 {
        "1"
    } else if d == 2 {
        "2"
    } else if d == 3 {
        "3"
    } else if d == 4 {
        "4"
    } else if d == 5 {
        "5"
    } else if d == 6 {
        "6"
    } else if d == 7 {
        "7"
    } else if d == 8 {
        "8"
    } else {
        "9"
    }
}

/// Writes a number in decimal digits.
pub fn decimal(n: usize) -> (r: String)
    ensures
        r@ == decimal_text(n as nat),
    decreases n,
{
    if n < 10 {
        String::from_str(digit(n))
    } else {
        let mut text = decimal(n / 10);
        text.append(digit(n % 10));
        text
    }
}

/// Finds the name of the material at a place in the list of materials of a
/// document.
pub fn material_name_at(data: &Json, index: usize) -> (r: Option<&str>)
    ensures
        match r {
            Some(name) => material_name(*data, index) == Some(name@),
            None => material_name(*data, index) is None,
        },
{
    let list = match data.find(Key::Materials.name()) {
        Some(list) => list,
        None => return None,
    };
    let items = match list.as_array() {
        Some(items) => items,
        None => return None,
    };
    if index >= items.len() {
        return None;
    }
    match items[index].find(Key::Name.name()) {
        Some(name) => name.as_string(),
        None => None,
    }
}

/// Words an error that loading a document gave.
pub fn message(error: LoadError, data: &Json) -> (r: String)
    ensures
        r@ == message_text(error, *data),
{
    match error {
        LoadError::Syntax => String::from_str("JSON parsing error"),
        LoadError::Root => String::from_str("Expected a root JSON object. See example scenes"),
        LoadError::Invalid(fault) => String::from_str(fault.text()),
        LoadError::Material { index, fault } => match material_name_at(data, index) {
            Some(name) => {
                let name = name.to_owned();
                mat_error(&name, fault.text())
            },
            None => {
                let mut text = String::from_str("Error loading material #");
                let place = decimal(index);
                text.append(place.as_str());
                text.append(": ");
                text.append(fault.text());
                text
            },
        },
    }
}

} // verus!
