//! Reconciliation of a master student roster against independently-formatted
//! hardship-category rosters.
//!
//! Each category source is a spreadsheet with its own layout; a schema from
//! the registry says where its identifying fields live. Extraction walks the
//! rows of a source under its schema and produces canonical records whose
//! identifiers are normalized, so that equivalent identifiers compare equal
//! despite formatting noise; the matcher then joins roster records with
//! category records on the normalized identifier, and the aggregator projects
//! counts and filters from the match results.
//!
//! Sources are handed in as plain sheets of optional cell texts; opening the
//! spreadsheet containers and every other I/O concern lives outside this
//! crate.

use vstd::prelude::*;

mod aggregate;
mod command;
mod extract;
mod matcher;
mod normalize;
mod records;
mod schema;
mod text;

pub use aggregate::MatchStatistics;
pub use aggregate::count_matches_by_type;
pub use aggregate::filter_by_name;
pub use aggregate::filter_by_type;
pub use aggregate::match_statistics;
pub use command::CommandResult;
pub use command::DifficultyTypeOption;
pub use command::FileInfo;
pub use command::Memory;
pub use command::extension_supported;
pub use command::get_difficulty_type_options;
pub use extract::detect_header_row;
pub use extract::extract_category_sheet;
pub use extract::extract_roster;
pub use extract::read_difficult_type_table;
pub use matcher::match_students_with_difficulty;
pub use normalize::normalize_id_number;
pub use records::DifficultPerson;
pub use records::ExcelError;
pub use records::MatchResult;
pub use records::Student;
pub use schema::CategorySchema;
pub use schema::DifficultyType;
pub use schema::HeaderRule;
pub use schema::difficulty_type_from_label;
pub use schema::schema_for;

verus! {

} // verus!
