//! Paths of folders: as text wherever they are text, and else in the platform's own units.

use vstd::prelude::*;
use vstd::utf8::*;

verus! {

/// A path.
#[derive(Debug, PartialEq, Eq)]
pub enum RawPath {
    /// A path that is text.
    Text(String),
    /// A path of a platform on which paths are bytes.
    Bytes(Vec<u8>),
    /// A path of a platform on which paths are 16-bit units.
    Wide(Vec<u16>),
}

/// A path, as a sequence.
pub enum PathModel {
    Text(Seq<char>),
    Bytes(Seq<u8>),
    Wide(Seq<u16>),
}

impl View for RawPath {
    type V = PathModel;

    open spec fn view(&self) -> PathModel {
        match self {
            RawPath::Text(text) => PathModel::Text(text@),
            RawPath::Bytes(bytes) => PathModel::Bytes(bytes@),
            RawPath::Wide(units) => PathModel::Wide(units@),
        }
    }
}

impl Clone for RawPath {
    fn clone(&self) -> (copy: Self)
        ensures
            copy@ == self@,
    {
        match self {
            RawPath::Text(text) => RawPath::Text(text.clone()),
            RawPath::Bytes(bytes) => {
                let copy = bytes.clone();
                assert(copy@ =~= bytes@);
                RawPath::Bytes(copy)
            },
            RawPath::Wide(units) => {
                let copy = units.clone();
                assert(copy@ =~= units@);
                RawPath::Wide(copy)
            },
        }
    }
}

/// The text that `String::from_utf8_lossy` makes of some bytes.
pub uninterp spec fn lossy_text(bytes: Seq<u8>) -> Seq<char>;

/// The text that 16-bit units encode as UTF-16, with the replacement character for each surrogate
/// that is not one of a pair.
pub open spec fn wide_text(units: Seq<u16>) -> Seq<char>
    decreases units.len(),
{
    if units.len() == 0 {
        seq![]
    } else if !(0xd800 <= units[0] <= 0xdfff) {
        seq![units[0] as char] + wide_text(units.skip(1))
    } else if units[0] <= 0xdbff && units.len() > 1 && 0xdc00 <= units[1] <= 0xdfff {
        let code = 0x10000 + (units[0] - 0xd800) * 0x400 + (units[1] - 0xdc00);
        seq![code as char] + wide_text(units.skip(2))
    } else {
        seq!['\u{fffd}'] + wide_text(units.skip(1))
    }
}

/// The path that is shown, and offered as a start, where none has been chosen.
pub open spec fn default_folder() -> PathModel {
    PathModel::Text("~/Videos"@)
}

/// The path that a text names.
pub open spec fn path_named(text: Seq<char>) -> PathModel {
    PathModel::Text(text)
}

/// The contents of an optional path.
pub open spec fn path_of(value: Option<RawPath>) -> Option<PathModel> {
    match value {
        Some(path) => Some(path@),
        None => None,
    }
}

/// A chosen folder, or the default one.
pub open spec fn folder_or_default(folder: Option<PathModel>) -> PathModel {
    match folder {
        Some(path) => path,
        None => default_folder(),
    }
}

/// Whether a text is how a path is shown: the path itself, where that is text, and otherwise
/// what the lossy decoding makes of it.
pub open spec fn shown_as(path: PathModel, text: Seq<char>) -> bool {
    match path {
        PathModel::Text(itself) => text == itself,
        PathModel::Bytes(bytes) => {
            &&& text == lossy_text(bytes)
            &&& valid_utf8(bytes) ==> text == decode_utf8(bytes)
        },
        PathModel::Wide(units) => text == wide_text(units),
    }
}

/// Calls `String::from_utf8_lossy`. Bytes that are UTF-8 come out as the text they encode; what
/// becomes of others is named, not described.
#[verifier::external_body]
fn decode_lossy(bytes: &Vec<u8>) -> (text: String)
    ensures
        text@ == lossy_text(bytes@),
        valid_utf8(bytes@) ==> text@ == decode_utf8(bytes@),
{
    String::from_utf8_lossy(bytes).into_owned()
}

/// Calls `String::from_utf16_lossy`: the units are decoded as UTF-16, and each surrogate that is
/// not one of a pair comes out as the replacement character.
#[verifier::external_body]
fn decode_wide_lossy(units: &Vec<u16>) -> (text: String)
    ensures
        text@ == wide_text(units@),
{
    String::from_utf16_lossy(units)
}

impl RawPath {
    /// The path that a text names.
    pub fn from_text(text: &str) -> (path: Self)
        ensures
            path@ == PathModel::Text(text@),
            path@ == path_named(text@),
    {
        RawPath::Text(String::from_str(text))
    }

    /// The path as it is shown to the user.
    pub fn to_text(&self) -> (text: String)
        ensures
            shown_as(self@, text@),
    {
        match self {
            RawPath::Text(text) => text.clone(),
            RawPath::Bytes(bytes) => decode_lossy(bytes),
            RawPath::Wide(units) => decode_wide_lossy(units),
        }
    }
}

/// Copies an optional path.
pub fn copy_path(value: &Option<RawPath>) -> (copy: Option<RawPath>)
    ensures
        path_of(copy) == path_of(*value),
{
    match value {
        Some(path) => Some(path.clone()),
        None => None,
    }
}

/// A chosen folder, or the default one.
pub fn chosen_folder(folder: &Option<RawPath>) -> (path: RawPath)
    ensures
        path@ == folder_or_default(path_of(*folder)),
{
    match folder {
        Some(path) => path.clone(),
        None => RawPath::from_text("~/Videos"),
    }
}

} // verus!
