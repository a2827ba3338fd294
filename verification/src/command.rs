//! Plain value shapes exchanged with the surrounding application shell, and
//! the decisions it delegates: option listing and upload validation.

use vstd::prelude::*;

use crate::schema::DifficultyType;
use crate::schema::all_tags;

verus! {

/// The envelope a command hands back: either a payload or an error text.
#[derive(Debug)]
pub struct CommandResult<T> {
    pub success: bool,
    pub data: Option<T>,
    pub error: Option<String>,
}

impl<T> CommandResult<T> {
    /// Wrap a payload in a successful envelope.
    pub fn success(data: T) -> (r: Self)
        ensures
            r.success == true,
            r.data == Some(data),
            r.error is None,
    {
        Self { success: true, data: Some(data), error: None }
    }

    /// Wrap an error text in a failed envelope.
    pub fn error(error: String) -> (r: Self)
        ensures
            r.success == false,
            r.data is None,
            r.error == Some(error),
    {
        Self { success: false, data: None, error: Some(error) }
    }
}

/// Metadata of a validated upload.
#[derive(Debug)]
pub struct FileInfo {
    pub name: String,
    pub path: String,
    pub size: u64,
    pub extension: String,
}

/// One selectable category, as label/value pair.
#[derive(Debug)]
pub struct DifficultyTypeOption {
    pub label: String,
    pub value: String,
}

/// A snapshot of system memory use.
#[derive(Debug, Clone, Copy, PartialEq, Eq, Structural)]
pub struct Memory {
    pub total_memory: u64,
    pub used_memory: u64,
    pub total_swap: u64,
    pub used_swap: u64,
}

/// Only the two spreadsheet container formats are accepted, selected by
/// file extension.
pub fn extension_supported(ext: &str) -> (r: bool)
    ensures
        r == (ext@ == "xlsx"@ || ext@ == "xls"@),
{
    let key = String::from_str(ext);
    key == String::from_str("xlsx") || key == String::from_str("xls")
}

/// The selectable category options, one per tag in canonical order, each
/// carrying the tag's label as both label and value.
pub fn get_difficulty_type_options() -> (r: Vec<DifficultyTypeOption>)
    ensures
        r@.len() == all_tags().len(),
        forall|k: int|
            0 <= k < r@.len() ==> (#[trigger] r@[k]).label@ == all_tags()[k].label_spec() && r@[
                k
            ].value@ == all_tags()[k].label_spec(),
{
    let tags = DifficultyType::all();
    let mut r: Vec<DifficultyTypeOption> = Vec::new();
    let mut k: usize = 0;
    while k < tags.len()
        invariant
            tags@ == all_tags(),
            k <= tags@.len(),
            r@.len() == k,
            forall|j: int|
                0 <= j < k ==> (#[trigger] r@[j]).label@ == all_tags()[j].label_spec() && r@[
                    j
                ].value@ == all_tags()[j].label_spec(),
        decreases tags@.len() - k,
    {
        let tag = tags[k];
        r.push(DifficultyTypeOption { label: tag.label(), value: tag.label() });
        k = k + 1;
    }
    r
}

} // verus!
