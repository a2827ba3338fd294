//! Schema-driven record extraction from tabular sources.
//!
//! A source is modelled as a sheet of rows, each row a vector of optional
//! cell texts: a missing or empty cell is an absent value, never an error.
//! One row-walking algorithm serves the roster (fixed schema) and every
//! category source (schema from the registry); rows that fail the record
//! invariant (empty identifier, or empty name where a name field exists)
//! are silently dropped, and extraction of the remaining rows continues.

use vstd::prelude::*;

use crate::normalize::normalize_id_number;
use crate::records::DifficultPerson;
use crate::records::DifficultPersonV;
use crate::records::ExcelError;
use crate::schema::CategorySchema;
use crate::schema::CategorySchemaV;
use crate::schema::DifficultyType;
use crate::schema::HeaderRule;
use crate::schema::HeaderRuleV;
use crate::schema::schema_spec;
use crate::schema::schema_for;
use crate::text::contains_sub;
use crate::text::str_contains;
use crate::normalize::normalize_spec;
use crate::normalize::trim_spec;
use crate::normalize::trim_str;
use crate::records::Student;
use crate::records::StudentV;
use crate::records::view_opt;

verus! {

/// One row of cells: an absent cell carries no text.
pub type RowV = Seq<Option<Seq<char>>>;

/// One sheet: a sequence of rows.
pub type SheetV = Seq<RowV>;

/// The text of a cell; absent and out-of-range cells read as empty.
pub open spec fn cell_text(row: RowV, i: int) -> Seq<char> {
    if 0 <= i < row.len() {
        match row[i] {
            Some(s) => s,
            None => Seq::empty(),
        }
    } else {
        Seq::empty()
    }
}

/// A secondary attribute: present cells are kept (trimmed), absent and
/// out-of-range cells are absent values.
pub open spec fn opt_cell(row: RowV, i: int) -> Option<Seq<char>> {
    if 0 <= i < row.len() {
        match row[i] {
            Some(s) => Some(trim_spec(s)),
            None => None,
        }
    } else {
        None
    }
}

fn cell_str<'a>(row: &'a Vec<Option<String>>, col: usize) -> (r: &'a str)
    ensures
        r@ == cell_text(row.deep_view(), col as int),
{
    proof {
        reveal_strlit("");
        assert(""@ =~= Seq::<char>::empty());
    }
    if col < row.len() {
        match &row[col] {
            Some(s) => s.as_str(),
            None => "",
        }
    } else {
        ""
    }
}

fn opt_cell_trimmed(row: &Vec<Option<String>>, col: usize) -> (r: Option<String>)
    ensures
        view_opt(r) == opt_cell(row.deep_view(), col as int),
{
    if col < row.len() {
        match &row[col] {
            Some(s) => Some(trim_str(s.as_str())),
            None => None,
        }
    } else {
        None
    }
}

/// A roster row yields a record exactly when it is wide enough and has a
/// non-empty name and a non-empty normalized identifier.
pub open spec fn roster_row_ok(row: RowV) -> bool {
    &&& row.len() >= 3
    &&& trim_spec(cell_text(row, 0)).len() > 0
    &&& normalize_spec(cell_text(row, 1)).len() > 0
}

/// The record a roster row yields: name in column 0, identifier in column 1,
/// secondary attributes at their fixed columns.
pub open spec fn student_of_row(row: RowV) -> StudentV {
    StudentV {
        name: trim_spec(cell_text(row, 0)),
        id_number: normalize_spec(cell_text(row, 1)),
        student_id: opt_cell(row, 10),
        class: opt_cell(row, 9),
        grade: opt_cell(row, 8),
        school: opt_cell(row, 4),
    }
}

/// The roster records of rows `1 .. i` (row 0 is the header).
pub open spec fn students_up_to(sheet: SheetV, i: int) -> Seq<StudentV>
    decreases i,
{
    if i <= 1 {
        Seq::empty()
    } else {
        students_up_to(sheet, i - 1) + if roster_row_ok(sheet[i - 1]) {
            seq![student_of_row(sheet[i - 1])]
        } else {
            Seq::<StudentV>::empty()
        }
    }
}

/// Every roster record the sheet yields, in row order.
pub open spec fn extract_roster_spec(sheet: SheetV) -> Seq<StudentV> {
    students_up_to(sheet, sheet.len() as int)
}

/// Extract the master roster: skip one header row, then read name, identifier
/// and the secondary attribute columns of every following row. Malformed and
/// short rows are dropped, never an error.
pub fn extract_roster(sheet: &Vec<Vec<Option<String>>>) -> (r: Vec<Student>)
    ensures
        r.deep_view() == extract_roster_spec(sheet.deep_view()),
{
    let mut out: Vec<Student> = Vec::new();
    let mut i: usize = 1;
    while i < sheet.len()
        invariant
            1 <= i,
            i <= sheet.len() || i == 1,
            out.deep_view() == students_up_to(sheet.deep_view(), i as int),
        decreases sheet.len() - i,
    {
        let row = &sheet[i];
        let ghost rv = sheet.deep_view()[i as int];
        proof {
            assert(rv =~= row.deep_view());
        }
        if row.len() >= 3 {
            let name = trim_str(cell_str(row, 0));
            let id_norm = normalize_id_number(cell_str(row, 1));
            if !name.as_str().is_empty() && !id_norm.as_str().is_empty() {
                let student = Student {
                    name,
                    id_number: id_norm,
                    student_id: opt_cell_trimmed(row, 10),
                    class: opt_cell_trimmed(row, 9),
                    grade: opt_cell_trimmed(row, 8),
                    school: opt_cell_trimmed(row, 4),
                };
                proof {
                    assert(student@ =~~= student_of_row(rv));
                }
                out.push(student);
                proof {
                    assert(out.deep_view() =~= students_up_to(sheet.deep_view(), i as int).push(
                        student_of_row(rv),
                    ));
                    assert(students_up_to(sheet.deep_view(), i as int + 1) =~= students_up_to(
                        sheet.deep_view(),
                        i as int,
                    ).push(student_of_row(rv)));
                }
            } else {
                proof {
                    assert(!roster_row_ok(rv));
                    assert(students_up_to(sheet.deep_view(), i as int + 1) =~= students_up_to(
                        sheet.deep_view(),
                        i as int,
                    ));
                }
            }
        } else {
            proof {
                assert(!roster_row_ok(rv));
                assert(students_up_to(sheet.deep_view(), i as int + 1) =~= students_up_to(
                    sheet.deep_view(),
                    i as int,
                ));
            }
        }
        i = i + 1;
    }
    proof {
        if sheet.deep_view().len() == 0 {
            assert(students_up_to(sheet.deep_view(), 1) =~= extract_roster_spec(
                sheet.deep_view(),
            ));
        }
    }
    out
}


/// A header row holds both a name-like token and an identifier-like token.
pub open spec fn is_header_row(row: RowV, rule: HeaderRuleV) -> bool {
    &&& exists|j: int|
        0 <= j < row.len() && contains_sub(#[trigger] cell_text(row, j), rule.name_token)
    &&& exists|j: int|
        0 <= j < row.len() && contains_sub(#[trigger] cell_text(row, j), rule.id_token)
}

/// How many leading rows a detection rule may inspect on this sheet.
pub open spec fn scan_limit(sheet: SheetV, rule: HeaderRuleV) -> int {
    if (rule.max_scan as int) < sheet.len() as int {
        rule.max_scan as int
    } else {
        sheet.len() as int
    }
}

/// The first header row at or after `i` within the scanned range, if any.
pub open spec fn header_scan(sheet: SheetV, rule: HeaderRuleV, i: int) -> Option<int>
    decreases scan_limit(sheet, rule) - i,
{
    if i < 0 || i >= scan_limit(sheet, rule) {
        None
    } else if is_header_row(sheet[i], rule) {
        Some(i)
    } else {
        header_scan(sheet, rule, i + 1)
    }
}

/// Where data begins: one past a dynamically detected header row, or the
/// schema's fixed skip count when no rule is given or nothing is detected.
pub open spec fn data_start_spec(sheet: SheetV, schema: CategorySchemaV) -> int {
    match schema.header_rule {
        None => schema.skip_rows as int,
        Some(rule) => match header_scan(sheet, rule, 0) {
            Some(h) => h + 1,
            None => schema.skip_rows as int,
        },
    }
}

fn row_is_header(row: &Vec<Option<String>>, rule: &HeaderRule) -> (r: bool)
    ensures
        r == is_header_row(row.deep_view(), rule@),
{
    let ghost rv = row.deep_view();
    let mut has_name = false;
    let mut has_id = false;
    let mut j: usize = 0;
    while j < row.len()
        invariant
            rv == row.deep_view(),
            j <= rv.len(),
            has_name == exists|k: int|
                0 <= k < j && contains_sub(#[trigger] cell_text(rv, k), rule@.name_token),
            has_id == exists|k: int|
                0 <= k < j && contains_sub(#[trigger] cell_text(rv, k), rule@.id_token),
        decreases row.len() - j,
    {
        let cell = cell_str(row, j);
        if !has_name && str_contains(cell, rule.name_token.as_str()) {
            has_name = true;
        }
        if !has_id && str_contains(cell, rule.id_token.as_str()) {
            has_id = true;
        }
        j = j + 1;
    }
    has_name && has_id
}

proof fn lemma_header_scan_finds(sheet: SheetV, rule: HeaderRuleV, i: int, h: int)
    requires
        0 <= i <= h < scan_limit(sheet, rule),
        is_header_row(sheet[h], rule),
        forall|k: int| i <= k < h ==> !is_header_row(#[trigger] sheet[k], rule),
    ensures
        header_scan(sheet, rule, i) == Some(h),
    decreases h - i,
{
    if i < h {
        lemma_header_scan_finds(sheet, rule, i + 1, h);
    }
}

proof fn lemma_header_scan_misses(sheet: SheetV, rule: HeaderRuleV, i: int)
    requires
        0 <= i,
        forall|k: int| i <= k < scan_limit(sheet, rule) ==> !is_header_row(#[trigger] sheet[k], rule),
    ensures
        header_scan(sheet, rule, i) is None,
    decreases scan_limit(sheet, rule) - i,
{
    if i < scan_limit(sheet, rule) {
        lemma_header_scan_misses(sheet, rule, i + 1);
    }
}

/// Scan the first rows of a sheet for the true header row: the first row
/// holding both of the rule's tokens. `None` means the bounded scan found
/// nothing and the caller falls back to the fixed skip count.
pub fn detect_header_row(sheet: &Vec<Vec<Option<String>>>, rule: &HeaderRule) -> (r: Option<usize>)
    ensures
        match r {
            Some(h) => h < sheet@.len() && header_scan(sheet.deep_view(), rule@, 0) == Some(
                h as int,
            ),
            None => header_scan(sheet.deep_view(), rule@, 0) is None,
        },
{
    let ghost sv = sheet.deep_view();
    let limit = if rule.max_scan < sheet.len() {
        rule.max_scan
    } else {
        sheet.len()
    };
    let mut i: usize = 0;
    while i < limit
        invariant
            sv == sheet.deep_view(),
            limit as int == scan_limit(sv, rule@),
            limit <= sheet@.len(),
            i <= limit,
            forall|k: int| 0 <= k < i ==> !is_header_row(#[trigger] sv[k], rule@),
        decreases limit - i,
    {
        let row = &sheet[i];
        proof {
            assert(sv[i as int] =~= row.deep_view());
        }
        if row_is_header(row, rule) {
            proof {
                lemma_header_scan_finds(sv, rule@, 0, i as int);
            }
            return Some(i);
        }
        i = i + 1;
    }
    proof {
        lemma_header_scan_misses(sv, rule@, 0);
    }
    None
}

/// The sentinel name recorded when a schema has no name column.
pub open spec fn unknown_name() -> Seq<char> {
    "unknown"@
}

/// The name a category record takes from its row.
pub open spec fn category_name(row: RowV, name_column: Option<usize>) -> Seq<char> {
    match name_column {
        Some(c) => trim_spec(cell_text(row, c as int)),
        None => unknown_name(),
    }
}

/// A listed column yields a record exactly when its normalized identifier is
/// non-empty and, where the schema has a name column, the name is non-empty.
pub open spec fn col_yields(row: RowV, col: int, name_column: Option<usize>) -> bool {
    &&& normalize_spec(cell_text(row, col)).len() > 0
    &&& match name_column {
        Some(c) => trim_spec(cell_text(row, c as int)).len() > 0,
        None => true,
    }
}

/// The record one listed column of a row yields.
pub open spec fn person_of(
    row: RowV,
    col: int,
    name_column: Option<usize>,
    tag: DifficultyType,
) -> DifficultPersonV {
    DifficultPersonV {
        name: category_name(row, name_column),
        id_number: normalize_spec(cell_text(row, col)),
        difficulty_type: tag,
    }
}

/// The records one row yields: one per listed column holding a non-empty
/// identifier, in column-list order.
pub open spec fn row_records(
    row: RowV,
    cols: Seq<usize>,
    name_column: Option<usize>,
    tag: DifficultyType,
) -> Seq<DifficultPersonV>
    decreases cols.len(),
{
    if cols.len() == 0 {
        Seq::empty()
    } else {
        row_records(row, cols.drop_last(), name_column, tag) + if col_yields(
            row,
            cols.last() as int,
            name_column,
        ) {
            seq![person_of(row, cols.last() as int, name_column, tag)]
        } else {
            Seq::<DifficultPersonV>::empty()
        }
    }
}

/// The category records of rows `start .. i` of a sheet.
pub open spec fn category_rows_up_to(
    sheet: SheetV,
    start: int,
    i: int,
    cols: Seq<usize>,
    name_column: Option<usize>,
    tag: DifficultyType,
) -> Seq<DifficultPersonV>
    decreases i - start,
{
    if i <= start {
        Seq::empty()
    } else {
        category_rows_up_to(sheet, start, i - 1, cols, name_column, tag) + row_records(
            sheet[i - 1],
            cols,
            name_column,
            tag,
        )
    }
}

/// Every record one sheet yields under a schema, in row-major order.
pub open spec fn category_sheet_spec(
    sheet: SheetV,
    schema: CategorySchemaV,
    tag: DifficultyType,
) -> Seq<DifficultPersonV> {
    category_rows_up_to(
        sheet,
        data_start_spec(sheet, schema),
        sheet.len() as int,
        schema.id_columns,
        schema.name_column,
        tag,
    )
}

fn data_start(sheet: &Vec<Vec<Option<String>>>, schema: &CategorySchema) -> (r: usize)
    ensures
        r as int == data_start_spec(sheet.deep_view(), schema@),
{
    let n = sheet.len();
    match &schema.header_rule {
        None => schema.skip_rows,
        Some(rule) => match detect_header_row(sheet, rule) {
            Some(h) => {
                proof {
                    assert(h < n);
                }
                h + 1
            },
            None => schema.skip_rows,
        },
    }
}

/// Extract one sheet of a category source under a schema: the generic
/// row-walking engine shared by every category layout. Total: short rows and
/// empty cells yield nothing, and never abort the remaining rows.
pub fn extract_category_sheet(
    sheet: &Vec<Vec<Option<String>>>,
    schema: &CategorySchema,
    tag: DifficultyType,
) -> (r: Vec<DifficultPerson>)
    ensures
        r.deep_view() == category_sheet_spec(sheet.deep_view(), schema@, tag),
{
    let ghost sv = sheet.deep_view();
    let ghost cols = schema@.id_columns;
    let ghost nc = schema@.name_column;
    let start = data_start(sheet, schema);
    let mut out: Vec<DifficultPerson> = Vec::new();
    let mut i: usize = start;
    while i < sheet.len()
        invariant
            sv == sheet.deep_view(),
            cols == schema@.id_columns,
            nc == schema@.name_column,
            start as int == data_start_spec(sv, schema@),
            start <= i || i == start,
            i >= start,
            i <= sheet@.len() || i == start,
            out.deep_view() == category_rows_up_to(sv, start as int, i as int, cols, nc, tag),
        decreases sheet@.len() - i,
    {
        let row = &sheet[i];
        let ghost rv = sv[i as int];
        proof {
            assert(rv =~= row.deep_view());
        }
        let ghost before_row = out.deep_view();
        let mut j: usize = 0;
        while j < schema.id_columns.len()
            invariant
                sv == sheet.deep_view(),
                cols == schema@.id_columns,
                nc == schema@.name_column,
                i < sheet@.len(),
                rv == sv[i as int],
                rv == row.deep_view(),
                j <= cols.len(),
                before_row == category_rows_up_to(sv, start as int, i as int, cols, nc, tag),
                out.deep_view() == before_row + row_records(rv, cols.take(j as int), nc, tag),
            decreases cols.len() - j,
        {
            let col = schema.id_columns[j];
            proof {
                assert(cols.take(j as int + 1).drop_last() =~= cols.take(j as int));
                assert(cols.take(j as int + 1).last() == cols[j as int]);
            }
            let id_norm = normalize_id_number(cell_str(row, col));
            if !id_norm.as_str().is_empty() {
                match &schema.name_column {
                    Some(c) => {
                        let nm = trim_str(cell_str(row, *c));
                        if !nm.as_str().is_empty() {
                            let person = DifficultPerson {
                                name: nm,
                                id_number: id_norm,
                                difficulty_type: tag,
                            };
                            proof {
                                assert(person@ =~~= person_of(rv, col as int, nc, tag));
                            }
                            out.push(person);
                            proof {
                                assert(row_records(rv, cols.take(j as int + 1), nc, tag)
                                    =~= row_records(rv, cols.take(j as int), nc, tag) + seq![
                                    person_of(rv, col as int, nc, tag),
                                ]);
                                assert(out.deep_view() =~= (before_row + row_records(
                                    rv,
                                    cols.take(j as int),
                                    nc,
                                    tag,
                                )).push(person_of(rv, col as int, nc, tag)));
                                assert(out.deep_view() =~= before_row + row_records(
                                    rv,
                                    cols.take(j as int + 1),
                                    nc,
                                    tag,
                                ));
                            }
                        } else {
                            proof {
                                assert(!col_yields(rv, col as int, nc));
                                assert(row_records(rv, cols.take(j as int + 1), nc, tag)
                                    =~= row_records(rv, cols.take(j as int), nc, tag));
                            }
                        }
                    },
                    None => {
                        let person = DifficultPerson {
                            name: String::from_str("unknown"),
                            id_number: id_norm,
                            difficulty_type: tag,
                        };
                        proof {
                            assert(person@ =~~= person_of(rv, col as int, nc, tag));
                        }
                        out.push(person);
                        proof {
                            assert(row_records(rv, cols.take(j as int + 1), nc, tag) =~=
                                row_records(rv, cols.take(j as int), nc, tag) + seq![
                                person_of(rv, col as int, nc, tag),
                            ]);
                            assert(out.deep_view() =~= (before_row + row_records(
                                rv,
                                cols.take(j as int),
                                nc,
                                tag,
                            )).push(person_of(rv, col as int, nc, tag)));
                            assert(out.deep_view() =~= before_row + row_records(
                                rv,
                                cols.take(j as int + 1),
                                nc,
                                tag,
                            ));
                        }
                    },
                }
            } else {
                proof {
                    assert(!col_yields(rv, col as int, nc));
                    assert(row_records(rv, cols.take(j as int + 1), nc, tag) =~= row_records(
                        rv,
                        cols.take(j as int),
                        nc,
                        tag,
                    ));
                }
            }
            j = j + 1;
        }
        proof {
            assert(cols.take(cols.len() as int) =~= cols);
            assert(out.deep_view() =~= category_rows_up_to(
                sv,
                start as int,
                i as int + 1,
                cols,
                nc,
                tag,
            ));
        }
        i = i + 1;
    }
    proof {
        if sheet@.len() <= start {
            assert(out.deep_view() =~= category_sheet_spec(sv, schema@, tag));
        }
    }
    out
}

/// Whether every sheet the schema lists exists in the workbook.
pub open spec fn sheets_listed_ok(wb: Seq<SheetV>, schema: CategorySchemaV) -> bool {
    forall|j: int|
        0 <= j < schema.sheet_indices.len() ==> (#[trigger] schema.sheet_indices[j] as int)
            < wb.len()
}

/// The records of the first `k` sheets the schema lists, concatenated.
pub open spec fn table_records_up_to(
    wb: Seq<SheetV>,
    schema: CategorySchemaV,
    tag: DifficultyType,
    k: int,
) -> Seq<DifficultPersonV>
    decreases k,
{
    if k <= 0 {
        Seq::empty()
    } else {
        table_records_up_to(wb, schema, tag, k - 1) + category_sheet_spec(
            wb[schema.sheet_indices[k - 1] as int],
            schema,
            tag,
        )
    }
}

/// Every record a category source yields: the records of each sheet its
/// schema lists, in listed order.
pub open spec fn table_records_spec(wb: Seq<SheetV>, tag: DifficultyType) -> Seq<
    DifficultPersonV,
> {
    table_records_up_to(wb, schema_spec(tag), tag, schema_spec(tag).sheet_indices.len() as int)
}

/// Extract a category source: look up the tag's schema, read every sheet it
/// lists, and concatenate their records. A listed sheet missing from the
/// workbook is a whole-source failure; nothing else is.
pub fn read_difficult_type_table(
    workbook: &Vec<Vec<Vec<Option<String>>>>,
    difficulty_type: DifficultyType,
) -> (r: Result<Vec<DifficultPerson>, ExcelError>)
    ensures
        sheets_listed_ok(workbook.deep_view(), schema_spec(difficulty_type)) <==> r is Ok,
        r is Ok ==> r->Ok_0.deep_view() == table_records_spec(
            workbook.deep_view(),
            difficulty_type,
        ),
        r is Err ==> r->Err_0 is ReadError,
{
    let ghost wv = workbook.deep_view();
    let schema = schema_for(difficulty_type);
    let mut out: Vec<DifficultPerson> = Vec::new();
    let mut k: usize = 0;
    while k < schema.sheet_indices.len()
        invariant
            wv == workbook.deep_view(),
            schema@ == schema_spec(difficulty_type),
            k <= schema@.sheet_indices.len(),
            forall|j: int|
                0 <= j < k ==> (#[trigger] schema@.sheet_indices[j] as int) < wv.len(),
            out.deep_view() == table_records_up_to(wv, schema@, difficulty_type, k as int),
        decreases schema@.sheet_indices.len() - k,
    {
        let si = schema.sheet_indices[k];
        if si >= workbook.len() {
            proof {
                assert(!sheets_listed_ok(wv, schema_spec(difficulty_type)));
            }
            return Err(ExcelError::ReadError(String::from_str("Cannot find worksheet")));
        }
        let sheet = &workbook[si];
        proof {
            assert(wv[si as int] =~= sheet.deep_view());
        }
        let mut part = extract_category_sheet(sheet, &schema, difficulty_type);
        let ghost part_v = part.deep_view();
        out.append(&mut part);
        proof {
            assert(out.deep_view() =~= table_records_up_to(
                wv,
                schema@,
                difficulty_type,
                k as int,
            ) + part_v);
        }
        k = k + 1;
    }
    Ok(out)
}


/// Empty source: a roster sheet with no data rows (at most a header row)
/// yields no records, not an error.
pub proof fn lemma_empty_roster(sheet: SheetV)
    requires
        sheet.len() <= 1,
    ensures
        extract_roster_spec(sheet).len() == 0,
{
}

/// Empty source: a category sheet with no rows past its data start yields no
/// records, not an error.
pub proof fn lemma_empty_category_sheet(
    sheet: SheetV,
    schema: CategorySchemaV,
    tag: DifficultyType,
)
    requires
        sheet.len() <= data_start_spec(sheet, schema),
    ensures
        category_sheet_spec(sheet, schema, tag).len() == 0,
{
}

proof fn lemma_students_up_to_remove(sheet: SheetV, i: int, n: int)
    requires
        1 <= i < sheet.len(),
        !roster_row_ok(sheet[i]),
        0 <= n <= sheet.len(),
    ensures
        n <= i ==> students_up_to(sheet, n) == students_up_to(sheet.remove(i), n),
        n > i ==> students_up_to(sheet, n) == students_up_to(sheet.remove(i), n - 1),
    decreases n,
{
    let t = sheet.remove(i);
    sheet.remove_ensures(i);
    if n <= 1 {
        assert(students_up_to(sheet, n) =~= students_up_to(t, n));
    } else {
        lemma_students_up_to_remove(sheet, i, n - 1);
        if n <= i {
            assert(t[n - 1] == sheet[n - 1]);
        } else if n == i + 1 {
            assert(students_up_to(sheet, n) =~= students_up_to(sheet, i) + Seq::<
                StudentV,
            >::empty());
            assert(students_up_to(sheet, n) =~= students_up_to(sheet, i));
        } else {
            assert(t[n - 2] == sheet[n - 1]);
            assert(students_up_to(t, n - 1) =~= students_up_to(t, n - 2) + if roster_row_ok(
                t[n - 2],
            ) {
                seq![student_of_row(t[n - 2])]
            } else {
                Seq::<StudentV>::empty()
            });
        }
    }
}

/// A roster row with fewer columns than the schema expects yields an absent
/// record, never an error: extraction of the sheet equals extraction of the
/// sheet without that row, so every later row is still extracted.
pub proof fn lemma_short_row_dropped(sheet: SheetV, i: int)
    requires
        1 <= i < sheet.len(),
        sheet[i].len() < 3,
    ensures
        extract_roster_spec(sheet) == extract_roster_spec(sheet.remove(i)),
{
    sheet.remove_ensures(i);
    lemma_students_up_to_remove(sheet, i, sheet.len() as int);
}

/// How many listed columns of a row yield a record: those holding a
/// non-empty identifier (and a non-empty name, where the schema names one).
pub open spec fn populated_count(row: RowV, cols: Seq<usize>, name_column: Option<usize>) -> nat
    decreases cols.len(),
{
    if cols.len() == 0 {
        0
    } else {
        populated_count(row, cols.drop_last(), name_column) + if col_yields(
            row,
            cols.last() as int,
            name_column,
        ) {
            1nat
        } else {
            0nat
        }
    }
}

/// Multi-column schemas emit exactly one record per listed column holding a
/// non-empty identifier within a single row.
pub proof fn lemma_one_record_per_populated_column(
    row: RowV,
    cols: Seq<usize>,
    name_column: Option<usize>,
    tag: DifficultyType,
)
    ensures
        row_records(row, cols, name_column, tag).len() == populated_count(row, cols, name_column),
    decreases cols.len(),
{
    if cols.len() > 0 {
        lemma_one_record_per_populated_column(row, cols.drop_last(), name_column, tag);
    }
}

/// A row shorter than every listed column yields no records: its missing
/// cells read as absent values, not errors.
pub proof fn lemma_short_row_no_records(
    row: RowV,
    cols: Seq<usize>,
    name_column: Option<usize>,
    tag: DifficultyType,
)
    requires
        forall|j: int| 0 <= j < cols.len() ==> row.len() <= #[trigger] cols[j],
    ensures
        row_records(row, cols, name_column, tag).len() == 0,
    decreases cols.len(),
{
    if cols.len() > 0 {
        let t = cols.drop_last();
        assert(forall|j: int| 0 <= j < t.len() ==> row.len() <= #[trigger] t[j]);
        lemma_short_row_no_records(row, t, name_column, tag);
        assert(cell_text(row, cols.last() as int) =~= Seq::<char>::empty());
        assert(!col_yields(row, cols.last() as int, name_column));
    }
}

} // verus!
