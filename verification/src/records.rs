//! The canonical record shapes produced by extraction and matching.

use vstd::prelude::*;

use crate::schema::DifficultyType;

verus! {

/// A master-roster entity: identity is the normalized identifier; the name
/// and the secondary attributes are descriptive only.
#[derive(Debug)]
pub struct Student {
    pub name: String,
    pub id_number: String,
    pub student_id: Option<String>,
    pub class: Option<String>,
    pub grade: Option<String>,
    pub school: Option<String>,
}

/// The mathematical model of a `Student`.
#[verifier::ext_equal]
pub ghost struct StudentV {
    pub name: Seq<char>,
    pub id_number: Seq<char>,
    pub student_id: Option<Seq<char>>,
    pub class: Option<Seq<char>>,
    pub grade: Option<Seq<char>>,
    pub school: Option<Seq<char>>,
}

pub open spec fn view_opt(o: Option<String>) -> Option<Seq<char>> {
    match o {
        Some(s) => Some(s@),
        None => None,
    }
}

impl View for Student {
    type V = StudentV;

    open spec fn view(&self) -> StudentV {
        StudentV {
            name: self.name@,
            id_number: self.id_number@,
            student_id: view_opt(self.student_id),
            class: view_opt(self.class),
            grade: view_opt(self.grade),
            school: view_opt(self.school),
        }
    }
}

impl DeepView for Student {
    type V = StudentV;

    open spec fn deep_view(&self) -> StudentV {
        self.view()
    }
}

fn clone_opt_string(o: &Option<String>) -> (r: Option<String>)
    ensures
        r == *o,
{
    match o {
        Some(s) => Some(s.clone()),
        None => None,
    }
}

impl Clone for Student {
    fn clone(&self) -> (r: Self)
        ensures
            r == *self,
    {
        Student {
            name: self.name.clone(),
            id_number: self.id_number.clone(),
            student_id: clone_opt_string(&self.student_id),
            class: clone_opt_string(&self.class),
            grade: clone_opt_string(&self.grade),
            school: clone_opt_string(&self.school),
        }
    }
}

/// One individual found in a category source, carrying the classification of
/// that source. The name is the sentinel "unknown" when the source's schema
/// has no name column.
#[derive(Debug)]
pub struct DifficultPerson {
    pub name: String,
    pub id_number: String,
    pub difficulty_type: DifficultyType,
}

/// The mathematical model of a `DifficultPerson`.
#[verifier::ext_equal]
pub ghost struct DifficultPersonV {
    pub name: Seq<char>,
    pub id_number: Seq<char>,
    pub difficulty_type: DifficultyType,
}

impl View for DifficultPerson {
    type V = DifficultPersonV;

    open spec fn view(&self) -> DifficultPersonV {
        DifficultPersonV {
            name: self.name@,
            id_number: self.id_number@,
            difficulty_type: self.difficulty_type,
        }
    }
}

impl DeepView for DifficultPerson {
    type V = DifficultPersonV;

    open spec fn deep_view(&self) -> DifficultPersonV {
        self.view()
    }
}

impl Clone for DifficultPerson {
    fn clone(&self) -> (r: Self)
        ensures
            r == *self,
    {
        DifficultPerson {
            name: self.name.clone(),
            id_number: self.id_number.clone(),
            difficulty_type: self.difficulty_type,
        }
    }
}

/// One join result: a roster entity paired with a category record whose
/// normalized identifiers are equal.
#[derive(Debug)]
pub struct MatchResult {
    pub student: Student,
    pub difficult_info: DifficultPerson,
}

/// The mathematical model of a `MatchResult`.
#[verifier::ext_equal]
pub ghost struct MatchResultV {
    pub student: StudentV,
    pub difficult_info: DifficultPersonV,
}

impl View for MatchResult {
    type V = MatchResultV;

    open spec fn view(&self) -> MatchResultV {
        MatchResultV { student: self.student@, difficult_info: self.difficult_info@ }
    }
}

impl DeepView for MatchResult {
    type V = MatchResultV;

    open spec fn deep_view(&self) -> MatchResultV {
        self.view()
    }
}

impl Clone for MatchResult {
    fn clone(&self) -> (r: Self)
        ensures
            r == *self,
    {
        MatchResult { student: self.student.clone(), difficult_info: self.difficult_info.clone() }
    }
}

/// Whole-source failures of spreadsheet reading. Row-level malformation is
/// never an error: malformed rows are silently dropped during extraction.
#[derive(Debug)]
pub enum ExcelError {
    /// The source path does not exist.
    FileNotFound(String),
    /// The bytes cannot be read as a supported container, or a requested
    /// sheet is missing from the workbook.
    ReadError(String),
    /// A cell or sheet could not be interpreted.
    ParseError(String),
}

impl Clone for ExcelError {
    fn clone(&self) -> (r: Self)
        ensures
            r == *self,
    {
        match self {
            ExcelError::FileNotFound(s) => ExcelError::FileNotFound(s.clone()),
            ExcelError::ReadError(s) => ExcelError::ReadError(s.clone()),
            ExcelError::ParseError(s) => ExcelError::ParseError(s.clone()),
        }
    }
}

impl ExcelError {
    /// The human-readable description of this failure.
    pub fn message(&self) -> (r: String)
        ensures
            self is FileNotFound ==> r@ == "File not found: "@ + self->FileNotFound_0@,
            self is ReadError ==> r@ == "Read error: "@ + self->ReadError_0@,
            self is ParseError ==> r@ == "Parse error: "@ + self->ParseError_0@,
    {
        match self {
            ExcelError::FileNotFound(s) => String::from_str("File not found: ").concat(s.as_str()),
            ExcelError::ReadError(s) => String::from_str("Read error: ").concat(s.as_str()),
            ExcelError::ParseError(s) => String::from_str("Parse error: ").concat(s.as_str()),
        }
    }
}

} // verus!
