//! Pure projections over the sequence of match results: counts per category
//! tag, filtering by tag, filtering by a name substring, and totals.

use vstd::prelude::*;

use crate::extract::RowV;
use crate::extract::SheetV;
use crate::extract::category_rows_up_to;
use crate::extract::data_start_spec;
use crate::extract::row_records;
use crate::extract::table_records_spec;
use crate::extract::table_records_up_to;
use crate::records::DifficultPersonV;
use crate::schema::CategorySchemaV;
use crate::schema::schema_spec;
use crate::matcher::match_spec;
use crate::records::MatchResult;
use crate::records::MatchResultV;
use crate::records::StudentV;
use crate::schema::DifficultyType;
use crate::schema::all_tags;
use crate::text::contains_sub;
use crate::text::str_contains;

verus! {

/// How many match results carry a given category tag.
pub open spec fn count_with_tag(ms: Seq<MatchResultV>, tag: DifficultyType) -> nat
    decreases ms.len(),
{
    if ms.len() == 0 {
        0
    } else {
        count_with_tag(ms.drop_last(), tag) + if ms.last().difficult_info.difficulty_type == tag {
            1nat
        } else {
            0nat
        }
    }
}

/// The match results carrying a given category tag, in input order.
pub open spec fn filter_by_type_spec(ms: Seq<MatchResultV>, tag: DifficultyType) -> Seq<
    MatchResultV,
>
    decreases ms.len(),
{
    if ms.len() == 0 {
        Seq::empty()
    } else {
        filter_by_type_spec(ms.drop_last(), tag) + if ms.last().difficult_info.difficulty_type
            == tag {
            seq![ms.last()]
        } else {
            Seq::<MatchResultV>::empty()
        }
    }
}

/// The match results whose student name holds the given substring, in input
/// order.
pub open spec fn filter_by_name_spec(ms: Seq<MatchResultV>, needle: Seq<char>) -> Seq<
    MatchResultV,
>
    decreases ms.len(),
{
    if ms.len() == 0 {
        Seq::empty()
    } else {
        filter_by_name_spec(ms.drop_last(), needle) + if contains_sub(
            ms.last().student.name,
            needle,
        ) {
            seq![ms.last()]
        } else {
            Seq::<MatchResultV>::empty()
        }
    }
}

/// Count the match results carrying one tag.
fn count_tag(matches: &Vec<MatchResult>, tag: DifficultyType) -> (c: usize)
    ensures
        c as nat == count_with_tag(matches.deep_view(), tag),
{
    let ghost mv = matches.deep_view();
    let mut c: usize = 0;
    let mut i: usize = 0;
    while i < matches.len()
        invariant
            mv == matches.deep_view(),
            i <= mv.len(),
            c <= i,
            c as nat == count_with_tag(mv.take(i as int), tag),
        decreases mv.len() - i,
    {
        proof {
            assert(mv.take(i as int + 1).drop_last() =~= mv.take(i as int));
            assert(mv.take(i as int + 1).last() == mv[i as int]);
        }
        let m = &matches[i];
        if m.difficult_info.difficulty_type == tag {
            c = c + 1;
        }
        i = i + 1;
    }
    proof {
        assert(mv.take(mv.len() as int) =~= mv);
    }
    c
}

/// The per-tag counts of a match sequence, one entry per category tag in
/// canonical order.
pub fn count_matches_by_type(matches: &Vec<MatchResult>) -> (r: Vec<(DifficultyType, usize)>)
    ensures
        r@.len() == all_tags().len(),
        forall|k: int|
            0 <= k < r@.len() ==> (#[trigger] r@[k]).0 == all_tags()[k] && r@[k].1 as nat
                == count_with_tag(matches.deep_view(), all_tags()[k]),
{
    let tags = DifficultyType::all();
    let mut r: Vec<(DifficultyType, usize)> = Vec::new();
    let mut k: usize = 0;
    while k < tags.len()
        invariant
            tags@ == all_tags(),
            k <= tags@.len(),
            r@.len() == k,
            forall|j: int|
                0 <= j < k ==> (#[trigger] r@[j]).0 == all_tags()[j] && r@[j].1 as nat
                    == count_with_tag(matches.deep_view(), all_tags()[j]),
        decreases tags@.len() - k,
    {
        let tag = tags[k];
        let c = count_tag(matches, tag);
        r.push((tag, c));
        k = k + 1;
    }
    r
}

/// Keep the match results carrying one category tag.
pub fn filter_by_type(matches: &Vec<MatchResult>, tag: DifficultyType) -> (r: Vec<MatchResult>)
    ensures
        r.deep_view() == filter_by_type_spec(matches.deep_view(), tag),
{
    let ghost mv = matches.deep_view();
    let mut r: Vec<MatchResult> = Vec::new();
    let mut i: usize = 0;
    while i < matches.len()
        invariant
            mv == matches.deep_view(),
            i <= mv.len(),
            r.deep_view() == filter_by_type_spec(mv.take(i as int), tag),
        decreases mv.len() - i,
    {
        proof {
            assert(mv.take(i as int + 1).drop_last() =~= mv.take(i as int));
            assert(mv.take(i as int + 1).last() == mv[i as int]);
        }
        let m = &matches[i];
        if m.difficult_info.difficulty_type == tag {
            r.push(m.clone());
            proof {
                assert(r.deep_view() =~= filter_by_type_spec(mv.take(i as int), tag).push(
                    mv[i as int],
                ));
                assert(filter_by_type_spec(mv.take(i as int + 1), tag) =~= filter_by_type_spec(
                    mv.take(i as int),
                    tag,
                ).push(mv[i as int]));
            }
        } else {
            proof {
                assert(filter_by_type_spec(mv.take(i as int + 1), tag) =~= filter_by_type_spec(
                    mv.take(i as int),
                    tag,
                ));
            }
        }
        i = i + 1;
    }
    proof {
        assert(mv.take(mv.len() as int) =~= mv);
    }
    r
}

/// Keep the match results whose student name holds the given substring.
pub fn filter_by_name(matches: &Vec<MatchResult>, needle: &str) -> (r: Vec<MatchResult>)
    ensures
        r.deep_view() == filter_by_name_spec(matches.deep_view(), needle@),
{
    let ghost mv = matches.deep_view();
    let mut r: Vec<MatchResult> = Vec::new();
    let mut i: usize = 0;
    while i < matches.len()
        invariant
            mv == matches.deep_view(),
            i <= mv.len(),
            r.deep_view() == filter_by_name_spec(mv.take(i as int), needle@),
        decreases mv.len() - i,
    {
        proof {
            assert(mv.take(i as int + 1).drop_last() =~= mv.take(i as int));
            assert(mv.take(i as int + 1).last() == mv[i as int]);
        }
        let m = &matches[i];
        if str_contains(m.student.name.as_str(), needle) {
            r.push(m.clone());
            proof {
                assert(r.deep_view() =~= filter_by_name_spec(mv.take(i as int), needle@).push(
                    mv[i as int],
                ));
                assert(filter_by_name_spec(mv.take(i as int + 1), needle@)
                    =~= filter_by_name_spec(mv.take(i as int), needle@).push(mv[i as int]));
            }
        } else {
            proof {
                assert(filter_by_name_spec(mv.take(i as int + 1), needle@)
                    =~= filter_by_name_spec(mv.take(i as int), needle@));
            }
        }
        i = i + 1;
    }
    proof {
        assert(mv.take(mv.len() as int) =~= mv);
    }
    r
}

/// Summary of one matching run: totals and the per-tag distribution.
#[derive(Debug)]
pub struct MatchStatistics {
    pub total_students: usize,
    pub total_matches: usize,
    pub difficulty_type_counts: Vec<(DifficultyType, usize)>,
}

/// Compute the statistics of a match sequence: both totals equal the number
/// of match results, and the distribution holds one entry per category tag.
pub fn match_statistics(matches: &Vec<MatchResult>) -> (r: MatchStatistics)
    ensures
        r.total_students == matches@.len(),
        r.total_matches == matches@.len(),
        r.difficulty_type_counts@.len() == all_tags().len(),
        forall|k: int|
            0 <= k < r.difficulty_type_counts@.len() ==> (#[trigger] r.difficulty_type_counts@[
                k
            ]).0 == all_tags()[k] && r.difficulty_type_counts@[k].1 as nat == count_with_tag(
                matches.deep_view(),
                all_tags()[k],
            ),
{
    let total = matches.len();
    MatchStatistics {
        total_students: total,
        total_matches: total,
        difficulty_type_counts: count_matches_by_type(matches),
    }
}

proof fn lemma_row_records_tags(
    row: RowV,
    cols: Seq<usize>,
    nc: Option<usize>,
    tag: DifficultyType,
)
    ensures
        forall|k: int|
            0 <= k < row_records(row, cols, nc, tag).len() ==> (#[trigger] row_records(
                row,
                cols,
                nc,
                tag,
            )[k]).difficulty_type == tag,
    decreases cols.len(),
{
    if cols.len() > 0 {
        lemma_row_records_tags(row, cols.drop_last(), nc, tag);
    }
}

proof fn lemma_category_rows_tags(
    sheet: SheetV,
    start: int,
    i: int,
    cols: Seq<usize>,
    nc: Option<usize>,
    tag: DifficultyType,
)
    ensures
        forall|k: int|
            0 <= k < category_rows_up_to(sheet, start, i, cols, nc, tag).len() ==> (
            #[trigger] category_rows_up_to(sheet, start, i, cols, nc, tag)[k]).difficulty_type
                == tag,
    decreases i - start,
{
    if i > start {
        lemma_category_rows_tags(sheet, start, i - 1, cols, nc, tag);
        lemma_row_records_tags(sheet[i - 1], cols, nc, tag);
    }
}

proof fn lemma_table_records_tags(
    wb: Seq<SheetV>,
    schema: CategorySchemaV,
    tag: DifficultyType,
    k: int,
)
    ensures
        forall|m: int|
            0 <= m < table_records_up_to(wb, schema, tag, k).len() ==> (
            #[trigger] table_records_up_to(wb, schema, tag, k)[m]).difficulty_type == tag,
    decreases k,
{
    if k > 0 {
        lemma_table_records_tags(wb, schema, tag, k - 1);
        let sheet = wb[schema.sheet_indices[k - 1] as int];
        lemma_category_rows_tags(
            sheet,
            data_start_spec(sheet, schema),
            sheet.len() as int,
            schema.id_columns,
            schema.name_column,
            tag,
        );
    }
}

proof fn lemma_match_keeps_tags(
    students: Seq<StudentV>,
    candidates: Seq<DifficultPersonV>,
    tag: DifficultyType,
)
    requires
        forall|k: int|
            0 <= k < candidates.len() ==> (#[trigger] candidates[k]).difficulty_type == tag,
    ensures
        forall|k: int|
            0 <= k < match_spec(students, candidates).len() ==> (#[trigger] match_spec(
                students,
                candidates,
            )[k]).difficult_info.difficulty_type == tag,
    decreases candidates.len(),
{
    if candidates.len() > 0 {
        let t = candidates.drop_last();
        assert(forall|k: int| 0 <= k < t.len() ==> (#[trigger] t[k]).difficulty_type == tag);
        lemma_match_keeps_tags(students, t, tag);
    }
}

proof fn lemma_filter_all_pass(ms: Seq<MatchResultV>, tag: DifficultyType)
    requires
        forall|k: int|
            0 <= k < ms.len() ==> (#[trigger] ms[k]).difficult_info.difficulty_type == tag,
    ensures
        filter_by_type_spec(ms, tag) == ms,
    decreases ms.len(),
{
    if ms.len() == 0 {
        assert(filter_by_type_spec(ms, tag) =~= ms);
    } else {
        let t = ms.drop_last();
        assert(forall|k: int|
            0 <= k < t.len() ==> (#[trigger] t[k]).difficult_info.difficulty_type == tag);
        lemma_filter_all_pass(t, tag);
        assert(filter_by_type_spec(ms, tag) =~= ms);
    }
}

/// Round trip: extracting a category source and filtering the matches by
/// that same category tag gives back the full matched set, because every
/// record the source yields carries its tag.
pub proof fn lemma_category_round_trip(
    students: Seq<StudentV>,
    wb: Seq<SheetV>,
    tag: DifficultyType,
)
    ensures
        filter_by_type_spec(match_spec(students, table_records_spec(wb, tag)), tag) == match_spec(
            students,
            table_records_spec(wb, tag),
        ),
{
    let records = table_records_spec(wb, tag);
    lemma_table_records_tags(wb, schema_spec(tag), tag, schema_spec(tag).sheet_indices.len() as int);
    lemma_match_keeps_tags(students, records, tag);
    lemma_filter_all_pass(match_spec(students, records), tag);
}

} // verus!
