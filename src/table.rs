use vstd::prelude::*;
use crate::model::{
    hundredths_of, representable, CouponError, CouponRequest, CouponResponse, CouponRow,
    CouponUpdate, LookupKey,
};
use crate::service::{
    accepted_id, converted, existence_check, fetch_outcome, insert_record_of, rejected,
};

verus! {

/// The row the table holds under `id`.
pub open spec fn row_with_id(t: Seq<CouponRow>, id: i32) -> Option<CouponRow>
    decreases t.len(),
{
    if t.len() == 0 {
        None
    } else if t.last().id == id {
        Some(t.last())
    } else {
        row_with_id(t.drop_last(), id)
    }
}

/// The row the table holds under `code`.
pub open spec fn row_with_code(t: Seq<CouponRow>, code: Seq<char>) -> Option<CouponRow>
    decreases t.len(),
{
    if t.len() == 0 {
        None
    } else if t.last().code@ == code {
        Some(t.last())
    } else {
        row_with_code(t.drop_last(), code)
    }
}

/// The table after the rows with `id` are deleted.
pub open spec fn without_id(t: Seq<CouponRow>, id: i32) -> Seq<CouponRow>
    decreases t.len(),
{
    if t.len() == 0 {
        t
    } else {
        let rest = without_id(t.drop_last(), id);
        if t.last().id == id {
            rest
        } else {
            rest.push(t.last())
        }
    }
}

/// The table after the rows with `code` are deleted.
pub open spec fn without_code(t: Seq<CouponRow>, code: Seq<char>) -> Seq<CouponRow>
    decreases t.len(),
{
    if t.len() == 0 {
        t
    } else {
        let rest = without_code(t.drop_last(), code);
        if t.last().code@ == code {
            rest
        } else {
            rest.push(t.last())
        }
    }
}

/// A row with the fields that `u` gives replaced.
pub open spec fn updated_row(row: CouponRow, u: CouponUpdate) -> CouponRow {
    CouponRow {
        code: match u.code {
            Some(c) => c,
            None => row.code,
        },
        discount: match u.discount {
            Some(d) => d,
            None => row.discount,
        },
        max_usage_count: match u.max_usage_count {
            Some(m) => m,
            None => row.max_usage_count,
        },
        ..row
    }
}

/// The table after `u` is written.
pub open spec fn with_update(t: Seq<CouponRow>, u: CouponUpdate) -> Seq<CouponRow> {
    t.map_values(|r: CouponRow| if r.id == u.id { updated_row(r, u) } else { r })
}

/// The table after a delete by id runs against `t`: the check, then the write.
pub open spec fn delete_by_id_run(t: Seq<CouponRow>, id: i32) -> Seq<CouponRow> {
    match existence_check(LookupKey::Id(id), Ok(row_with_id(t, id))) {
        Ok(_) => without_id(t, id),
        Err(_) => t,
    }
}

/// The table after a delete by code runs against `t`: the check, then the write.
pub open spec fn delete_by_code_run(t: Seq<CouponRow>, code: String) -> Seq<CouponRow> {
    match existence_check(LookupKey::Code(code), Ok(row_with_code(t, code@))) {
        Ok(_) => without_code(t, code@),
        Err(_) => t,
    }
}

/// The table and the caller's outcome after an update runs against `t`.
pub open spec fn update_run(t: Seq<CouponRow>, u: CouponUpdate) -> (Seq<CouponRow>, Result<
    (),
    CouponError,
>) {
    match existence_check(LookupKey::Id(u.id), Ok(row_with_id(t, u.id))) {
        Ok(_) => (with_update(t, u), Ok(())),
        Err(e) => (t, Err(e)),
    }
}

/// The table and the caller's outcome after an insert to which the table assigned the
/// identifier `assigned`. The outcome is `None` where `inserted_id` refuses that identifier,
/// which the caller receives as `UnexpectedError`; the table then holds no row of it.
pub open spec fn insert_run(
    t: Seq<CouponRow>,
    req: CouponRequest,
    assigned: u64,
    date: Option<i64>,
) -> (Seq<CouponRow>, Option<Result<CouponResponse, CouponError>>) {
    match accepted_id(assigned) {
        Some(id) => {
            let rec = insert_record_of(req);
            let t2 = t.push(
                CouponRow {
                    id,
                    code: rec.code,
                    discount: rec.discount,
                    max_usage_count: rec.max_usage_count,
                    date_created: date,
                },
            );
            (t2, Some(fetch_outcome(LookupKey::Id(id), Ok(row_with_id(t2, id)))))
        },
        None => (t, None),
    }
}

/// No two rows share an identifier or a code.
pub open spec fn valid_table(t: Seq<CouponRow>) -> bool {
    forall|i: int, j: int|
        0 <= i < t.len() && 0 <= j < t.len() && i != j ==> t[i].id != t[j].id && t[i].code@
            != t[j].code@
}

proof fn lemma_row_with_id_found(t: Seq<CouponRow>, id: i32) -> (i: int)
    requires
        row_with_id(t, id) is Some,
    ensures
        0 <= i < t.len(),
        row_with_id(t, id) == Some(t[i]),
        t[i].id == id,
    decreases t.len(),
{
    if t.last().id == id {
        t.len() - 1
    } else {
        lemma_row_with_id_found(t.drop_last(), id)
    }
}

proof fn lemma_row_with_code_at(t: Seq<CouponRow>, i: int)
    requires
        valid_table(t),
        0 <= i < t.len(),
    ensures
        row_with_code(t, t[i].code@) == Some(t[i]),
    decreases t.len(),
{
    if i != t.len() - 1 {
        let s = t.drop_last();
        assert(valid_table(s)) by {
            assert forall|a: int, b: int|
                0 <= a < s.len() && 0 <= b < s.len() && a != b implies s[a].id != s[b].id
                && s[a].code@ != s[b].code@ by {
                assert(s[a] == t[a] && s[b] == t[b]);
            }
        }
        assert(s[i] == t[i]);
        lemma_row_with_code_at(s, i);
    }
}

proof fn lemma_without_id_misses(t: Seq<CouponRow>, id: i32)
    ensures
        row_with_id(without_id(t, id), id) is None,
    decreases t.len(),
{
    if t.len() > 0 {
        lemma_without_id_misses(t.drop_last(), id);
        let rest = without_id(t.drop_last(), id);
        if t.last().id != id {
            assert(rest.push(t.last()).drop_last() == rest);
        }
    }
}

proof fn lemma_without_code_misses(t: Seq<CouponRow>, code: Seq<char>)
    ensures
        row_with_code(without_code(t, code), code) is None,
    decreases t.len(),
{
    if t.len() > 0 {
        lemma_without_code_misses(t.drop_last(), code);
        let rest = without_code(t.drop_last(), code);
        if t.last().code@ != code {
            assert(rest.push(t.last()).drop_last() == rest);
        }
    }
}

/// An insert with a representable discount, to which the table assigned an identifier that
/// fits an `i32`, returns the request's code, discount and usage limit under exactly that
/// identifier. That the table assigns an identifier no row holds is assumed here, not shown:
/// it is the database's part.
pub proof fn lemma_insert_returns_request(
    t: Seq<CouponRow>,
    req: CouponRequest,
    assigned: u64,
    date: Option<i64>,
)
    requires
        0 < assigned <= i32::MAX,
        row_with_id(t, assigned as i32) is None,
        representable(req.discount),
    ensures
        insert_run(t, req, assigned, date).1 == Some(
            Ok::<CouponResponse, CouponError>(
                CouponResponse {
                    id: assigned as i32,
                    code: req.code,
                    discount: hundredths_of(req.discount) as i64,
                    max_usage_count: req.max_usage_count,
                    date_created: date,
                },
            ),
        ),
{
}

/// An insert to which the table assigned an identifier beyond `i32` fetches nothing back
/// and leaves the modelled table as it was.
pub proof fn lemma_insert_out_of_range(
    t: Seq<CouponRow>,
    req: CouponRequest,
    assigned: u64,
    date: Option<i64>,
)
    requires
        assigned > i32::MAX,
    ensures
        insert_run(t, req, assigned, date) == (t, None::<Result<CouponResponse, CouponError>>),
{
}

/// In a valid table, the row found by an identifier is the row found by its code.
pub proof fn lemma_id_and_code_find_same_row(t: Seq<CouponRow>, id: i32)
    requires
        valid_table(t),
        row_with_id(t, id) is Some,
    ensures
        row_with_code(t, row_with_id(t, id)->Some_0.code@) == row_with_id(t, id),
{
    let i = lemma_row_with_id_found(t, id);
    lemma_row_with_code_at(t, i);
}

/// Where one row answers both an id and a code, the two lookups return the same.
pub proof fn lemma_lookups_agree(t: Seq<CouponRow>, id: i32, code: String)
    requires
        row_with_id(t, id) is Some,
        row_with_id(t, id) == row_with_code(t, code@),
    ensures
        fetch_outcome(LookupKey::Id(id), Ok(row_with_id(t, id))) == fetch_outcome(
            LookupKey::Code(code),
            Ok(row_with_code(t, code@)),
        ),
{
}

/// After a delete by id, a lookup of that id is `NotFoundError`.
pub proof fn lemma_deleted_id_not_found(t: Seq<CouponRow>, id: i32)
    ensures
        fetch_outcome(LookupKey::Id(id), Ok(row_with_id(delete_by_id_run(t, id), id))) == Err::<
            CouponResponse,
            CouponError,
        >(CouponError::NotFoundError(LookupKey::Id(id))),
{
    lemma_without_id_misses(t, id);
}

/// After a delete by code, a lookup of that code is `NotFoundError`.
pub proof fn lemma_deleted_code_not_found(t: Seq<CouponRow>, code: String)
    ensures
        fetch_outcome(
            LookupKey::Code(code),
            Ok(row_with_code(delete_by_code_run(t, code), code@)),
        ) == Err::<CouponResponse, CouponError>(CouponError::NotFoundError(LookupKey::Code(code))),
{
    lemma_without_code_misses(t, code@);
}

/// An update of an identifier the table does not hold is `NotFoundError` and writes nothing.
pub proof fn lemma_update_missing_id(t: Seq<CouponRow>, u: CouponUpdate)
    requires
        row_with_id(t, u.id) is None,
    ensures
        update_run(t, u) == (t, Err::<(), CouponError>(CouponError::NotFoundError(LookupKey::Id(u.id)))),
{
}

/// Of `n` rows of which `k` fail to convert, the list holds `n - k`.
pub proof fn lemma_list_drops_rejected(rows: Seq<CouponRow>)
    ensures
        converted(rows).len() == rows.len() - rejected(rows).len(),
    decreases rows.len(),
{
    if rows.len() > 0 {
        lemma_list_drops_rejected(rows.drop_last());
    }
}

} // verus!
