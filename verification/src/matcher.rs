//! The join of roster records with category records on the normalized
//! identifier.

use vstd::prelude::*;

use crate::records::DifficultPerson;
use crate::records::DifficultPersonV;
use crate::records::MatchResult;
use crate::records::MatchResultV;
use crate::records::Student;
use crate::records::StudentV;

verus! {

/// The roster index: normalized identifier to roster record. On duplicate
/// identifiers the later roster row wins; this is a deliberate, documented
/// policy, not an accident of an index structure.
pub open spec fn roster_index(students: Seq<StudentV>) -> Map<Seq<char>, StudentV>
    decreases students.len(),
{
    if students.len() == 0 {
        Map::empty()
    } else {
        roster_index(students.drop_last()).insert(
            students.last().id_number,
            students.last(),
        )
    }
}

/// The join, in candidate order: each candidate whose identifier the index
/// holds pairs with the indexed roster record; misses are silently excluded.
pub open spec fn match_spec(
    students: Seq<StudentV>,
    candidates: Seq<DifficultPersonV>,
) -> Seq<MatchResultV>
    decreases candidates.len(),
{
    if candidates.len() == 0 {
        Seq::empty()
    } else {
        match_spec(students, candidates.drop_last()) + if roster_index(students).contains_key(
            candidates.last().id_number,
        ) {
            seq![
                MatchResultV {
                    student: roster_index(students)[candidates.last().id_number],
                    difficult_info: candidates.last(),
                },
            ]
        } else {
            Seq::<MatchResultV>::empty()
        }
    }
}

proof fn lemma_roster_index_hit(s: Seq<StudentV>, id: Seq<char>, k: int)
    requires
        0 <= k < s.len(),
        s[k].id_number == id,
        forall|m: int| k < m < s.len() ==> (#[trigger] s[m]).id_number != id,
    ensures
        roster_index(s).contains_key(id),
        roster_index(s)[id] == s[k],
    decreases s.len(),
{
    if k < s.len() - 1 {
        let t = s.drop_last();
        assert(forall|m: int| k < m < t.len() ==> (#[trigger] t[m]).id_number != id);
        lemma_roster_index_hit(t, id, k);
    }
}

proof fn lemma_roster_index_miss(s: Seq<StudentV>, id: Seq<char>)
    requires
        forall|m: int| 0 <= m < s.len() ==> (#[trigger] s[m]).id_number != id,
    ensures
        !roster_index(s).contains_key(id),
    decreases s.len(),
{
    if s.len() > 0 {
        let t = s.drop_last();
        assert(forall|m: int| 0 <= m < t.len() ==> (#[trigger] t[m]).id_number != id);
        lemma_roster_index_miss(t, id);
    }
}

fn lookup_student(students: &Vec<Student>, id: &String) -> (r: Option<usize>)
    ensures
        match r {
            Some(k) => k < students@.len() && roster_index(students.deep_view()).contains_key(id@)
                && roster_index(students.deep_view())[id@] == students.deep_view()[k as int],
            None => !roster_index(students.deep_view()).contains_key(id@),
        },
{
    let ghost sv = students.deep_view();
    let mut k = students.len();
    while k > 0
        invariant
            sv == students.deep_view(),
            k <= students@.len(),
            forall|m: int| k <= m < sv.len() ==> (#[trigger] sv[m]).id_number != id@,
        decreases k,
    {
        k = k - 1;
        let st = &students[k];
        if st.id_number == *id {
            proof {
                lemma_roster_index_hit(sv, id@, k as int);
            }
            return Some(k);
        }
    }
    proof {
        lemma_roster_index_miss(sv, id@);
    }
    None
}

/// Join roster records with category records: build the identifier index of
/// the roster (later rows win on duplicates), then pair each candidate in
/// input order with the indexed roster record, silently excluding misses.
pub fn match_students_with_difficulty(
    students: &Vec<Student>,
    difficult_people: &Vec<DifficultPerson>,
) -> (r: Vec<MatchResult>)
    ensures
        r.deep_view() == match_spec(students.deep_view(), difficult_people.deep_view()),
{
    let ghost sv = students.deep_view();
    let ghost dv = difficult_people.deep_view();
    let mut results: Vec<MatchResult> = Vec::new();
    let mut i: usize = 0;
    while i < difficult_people.len()
        invariant
            sv == students.deep_view(),
            dv == difficult_people.deep_view(),
            i <= dv.len(),
            results.deep_view() == match_spec(sv, dv.take(i as int)),
        decreases dv.len() - i,
    {
        let cand = &difficult_people[i];
        proof {
            assert(dv.take(i as int + 1).drop_last() =~= dv.take(i as int));
            assert(dv.take(i as int + 1).last() == dv[i as int]);
            assert(cand.deep_view() == dv[i as int]);
        }
        match lookup_student(students, &cand.id_number) {
            Some(k) => {
                let st = &students[k];
                let m = MatchResult { student: st.clone(), difficult_info: cand.clone() };
                proof {
                    assert(m@ =~~= MatchResultV {
                        student: roster_index(sv)[dv[i as int].id_number],
                        difficult_info: dv[i as int],
                    });
                }
                results.push(m);
                proof {
                    assert(match_spec(sv, dv.take(i as int + 1)) =~= match_spec(
                        sv,
                        dv.take(i as int),
                    ) + seq![
                        MatchResultV {
                            student: roster_index(sv)[dv[i as int].id_number],
                            difficult_info: dv[i as int],
                        },
                    ]);
                    assert(results.deep_view() =~= match_spec(sv, dv.take(i as int)).push(
                        MatchResultV {
                            student: roster_index(sv)[dv[i as int].id_number],
                            difficult_info: dv[i as int],
                        },
                    ));
                    assert(results.deep_view() =~= match_spec(sv, dv.take(i as int + 1)));
                }
            },
            None => {
                proof {
                    assert(match_spec(sv, dv.take(i as int + 1)) =~= match_spec(
                        sv,
                        dv.take(i as int),
                    ));
                }
            },
        }
        i = i + 1;
    }
    proof {
        assert(dv.take(dv.len() as int) =~= dv);
    }
    results
}

/// Duplicate roster identifiers are resolved deterministically: the index
/// holds an identifier exactly when some roster record bears it, and it then
/// maps the identifier to the last such record (later rows win).
pub proof fn lemma_roster_index_last_wins(students: Seq<StudentV>, id: Seq<char>)
    ensures
        roster_index(students).contains_key(id) <==> exists|j: int|
            0 <= j < students.len() && (#[trigger] students[j]).id_number == id,
        roster_index(students).contains_key(id) ==> exists|j: int|
            0 <= j < students.len() && (#[trigger] students[j]).id_number == id && roster_index(
                students,
            )[id] == students[j] && forall|m: int|
                j < m < students.len() ==> students[m].id_number != id,
    decreases students.len(),
{
    if students.len() > 0 {
        let t = students.drop_last();
        let last = students.last();
        lemma_roster_index_last_wins(t, id);
        if last.id_number == id {
            let j = students.len() - 1;
            assert(students[j].id_number == id);
            assert(roster_index(students)[id] == students[j]);
            assert(forall|m: int| j < m < students.len() ==> students[m].id_number != id);
        } else {
            if roster_index(students).contains_key(id) {
                let j = choose|j: int|
                    0 <= j < t.len() && (#[trigger] t[j]).id_number == id && roster_index(t)[id]
                        == t[j] && forall|m: int| j < m < t.len() ==> t[m].id_number != id;
                assert(students[j].id_number == id);
                assert(roster_index(students)[id] == students[j]);
                assert(forall|m: int|
                    j < m < students.len() ==> students[m].id_number != id) by {
                    assert(forall|m: int| j < m < t.len() ==> t[m].id_number != id);
                    assert(forall|m: int| j < m < t.len() ==> students[m] == t[m]);
                }
            } else {
                assert(forall|j: int|
                    0 <= j < students.len() ==> (#[trigger] students[j]).id_number != id) by {
                    assert(forall|j: int| 0 <= j < t.len() ==> students[j] == t[j]);
                }
            }
        }
    }
}

/// The join emits at most one result per candidate: duplicate roster rows
/// never multiply results.
pub proof fn lemma_match_no_duplication(
    students: Seq<StudentV>,
    candidates: Seq<DifficultPersonV>,
)
    ensures
        match_spec(students, candidates).len() <= candidates.len(),
    decreases candidates.len(),
{
    if candidates.len() > 0 {
        lemma_match_no_duplication(students, candidates.drop_last());
    }
}

} // verus!
