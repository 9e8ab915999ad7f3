use vstd::prelude::*;
use crate::model::{
    response_of, to_response, ConversionError, CouponError, CouponInsert, CouponRequest,
    CouponResponse, CouponRow, CouponUpdate, DbError, LookupKey,
};

verus! {

/// The API forms of the rows that convert, in the order of the rows.
pub open spec fn converted(rows: Seq<CouponRow>) -> Seq<CouponResponse>
    decreases rows.len(),
{
    if rows.len() == 0 {
        Seq::empty()
    } else {
        let rest = converted(rows.drop_last());
        match response_of(rows.last()) {
            Some(c) => rest.push(c),
            None => rest,
        }
    }
}

/// The conversion errors of the rows that fail to convert, in the order of the rows.
pub open spec fn rejected(rows: Seq<CouponRow>) -> Seq<ConversionError>
    decreases rows.len(),
{
    if rows.len() == 0 {
        Seq::empty()
    } else {
        let rest = rejected(rows.drop_last());
        match response_of(rows.last()) {
            Some(_) => rest,
            None => rest.push(ConversionError { discount: rows.last().discount }),
        }
    }
}

/// What a single-coupon lookup returns, given what the table answered for `key`.
pub open spec fn fetch_outcome(
    key: LookupKey,
    fetched: Result<Option<CouponRow>, DbError>,
) -> Result<CouponResponse, CouponError> {
    match fetched {
        Err(e) => Err(CouponError::UnexpectedError(e)),
        Ok(None) => Err(CouponError::NotFoundError(key)),
        Ok(Some(row)) => match response_of(row) {
            Some(c) => Ok(c),
            None => Err(CouponError::InternalError(ConversionError { discount: row.discount })),
        },
    }
}

/// Whether a change may go ahead, given what the existence check answered for `key`.
pub open spec fn existence_check(
    key: LookupKey,
    fetched: Result<Option<CouponRow>, DbError>,
) -> Result<(), CouponError> {
    match fetched {
        Err(e) => Err(CouponError::UnexpectedError(e)),
        Ok(None) => Err(CouponError::NotFoundError(key)),
        Ok(Some(_)) => Ok(()),
    }
}

/// The record written for a new coupon: the request's values, no creation date yet.
pub open spec fn insert_record_of(req: CouponRequest) -> CouponInsert {
    CouponInsert {
        code: req.code,
        discount: req.discount,
        max_usage_count: req.max_usage_count,
        date_created: None,
    }
}

fn check_exists(key: LookupKey, fetched: Result<Option<CouponRow>, DbError>) -> (r: Result<
    (),
    CouponError,
>)
    ensures
        r == existence_check(key, fetched),
{
    match fetched {
        Err(e) => Err(CouponError::UnexpectedError(e)),
        Ok(None) => Err(CouponError::NotFoundError(key)),
        Ok(Some(_)) => Ok(()),
    }
}

fn fetch_one(key: LookupKey, fetched: Result<Option<CouponRow>, DbError>) -> (r: Result<
    CouponResponse,
    CouponError,
>)
    ensures
        r == fetch_outcome(key, fetched),
{
    match fetched {
        Err(e) => Err(CouponError::UnexpectedError(e)),
        Ok(None) => Err(CouponError::NotFoundError(key)),
        Ok(Some(row)) => match to_response(&row) {
            Ok(c) => Ok(c),
            Err(e) => Err(CouponError::InternalError(e)),
        },
    }
}

/// Lists the coupons: rows that fail to convert are left out, never failing the list.
pub fn get_all(fetched: Result<Vec<CouponRow>, DbError>) -> (r: Result<
    Vec<CouponResponse>,
    CouponError,
>)
    ensures
        match fetched {
            Ok(rows) => r is Ok && r->Ok_0@ == converted(rows@),
            Err(e) => r == Err::<Vec<CouponResponse>, CouponError>(CouponError::UnexpectedError(e)),
        },
{
    match fetched {
        Err(e) => Err(CouponError::UnexpectedError(e)),
        Ok(rows) => {
            let mut out: Vec<CouponResponse> = Vec::new();
            let mut i: usize = 0;
            while i < rows.len()
                invariant
                    0 <= i <= rows@.len(),
                    out@ == converted(rows@.take(i as int)),
                decreases rows@.len() - i,
            {
                proof {
                    assert(rows@.take(i + 1).drop_last() == rows@.take(i as int));
                }
                match to_response(&rows[i]) {
                    Ok(c) => out.push(c),
                    Err(_) => {},
                }
                i = i + 1;
            }
            proof {
                assert(rows@.take(rows@.len() as int) == rows@);
            }
            Ok(out)
        },
    }
}

/// The conversion errors of the rows that a list leaves out, for the caller to report.
pub fn rejected_rows(rows: &Vec<CouponRow>) -> (r: Vec<ConversionError>)
    ensures
        r@ == rejected(rows@),
{
    let mut out: Vec<ConversionError> = Vec::new();
    let mut i: usize = 0;
    while i < rows.len()
        invariant
            0 <= i <= rows@.len(),
            out@ == rejected(rows@.take(i as int)),
        decreases rows@.len() - i,
    {
        proof {
            assert(rows@.take(i + 1).drop_last() == rows@.take(i as int));
        }
        match to_response(&rows[i]) {
            Ok(_) => {},
            Err(e) => out.push(e),
        }
        i = i + 1;
    }
    proof {
        assert(rows@.take(rows@.len() as int) == rows@);
    }
    out
}

/// The coupon with `id`, given the row the table answered for it.
pub fn get_by_id(id: i32, fetched: Result<Option<CouponRow>, DbError>) -> (r: Result<
    CouponResponse,
    CouponError,
>)
    ensures
        r == fetch_outcome(LookupKey::Id(id), fetched),
{
    fetch_one(LookupKey::Id(id), fetched)
}

/// The coupon with `code`, given the row the table answered for it.
pub fn get_by_code(code: String, fetched: Result<Option<CouponRow>, DbError>) -> (r: Result<
    CouponResponse,
    CouponError,
>)
    ensures
        r == fetch_outcome(LookupKey::Code(code), fetched),
{
    fetch_one(LookupKey::Code(code), fetched)
}

/// The record to write for a new coupon.
pub fn insert_record(req: &CouponRequest) -> (r: CouponInsert)
    ensures
        r == insert_record_of(*req),
{
    CouponInsert {
        code: req.code.clone(),
        discount: req.discount,
        max_usage_count: req.max_usage_count,
        date_created: None,
    }
}

/// The identifier a new coupon is fetched back by: the one the table assigned, where it
/// fits an `i32`.
pub open spec fn accepted_id(assigned: u64) -> Option<i32> {
    if assigned <= i32::MAX {
        Some(assigned as i32)
    } else {
        None
    }
}

/// The identifier to fetch a new coupon back by, given what the write answered. An assigned
/// identifier beyond `i32` is `UnexpectedError`, never a wrapped one.
pub fn inserted_id(written: Result<u64, DbError>) -> (r: Result<i32, CouponError>)
    ensures
        match written {
            Ok(id) => match accepted_id(id) {
                Some(k) => r == Ok::<i32, CouponError>(k) && k as u64 == id,
                None => r is Err && r->Err_0 is UnexpectedError,
            },
            Err(e) => r == Err::<i32, CouponError>(CouponError::UnexpectedError(e)),
        },
{
    match written {
        Ok(id) => if id <= i32::MAX as u64 {
            Ok(id as i32)
        } else {
            Err(
                CouponError::UnexpectedError(
                    DbError { message: "assigned identifier is beyond the range of i32".to_owned() },
                ),
            )
        },
        Err(e) => Err(CouponError::UnexpectedError(e)),
    }
}

/// The new coupon, given the row fetched back by its identifier; a miss is `NotFoundError`.
pub fn insert(id: i32, refetched: Result<Option<CouponRow>, DbError>) -> (r: Result<
    CouponResponse,
    CouponError,
>)
    ensures
        r == fetch_outcome(LookupKey::Id(id), refetched),
{
    fetch_one(LookupKey::Id(id), refetched)
}

/// The change to write, given what the existence check answered for its identifier.
pub fn update(req: CouponUpdate, fetched: Result<Option<CouponRow>, DbError>) -> (r: Result<
    CouponUpdate,
    CouponError,
>)
    ensures
        r == (match existence_check(LookupKey::Id(req.id), fetched) {
            Ok(_) => Ok(req),
            Err(e) => Err::<CouponUpdate, CouponError>(e),
        }),
{
    match check_exists(LookupKey::Id(req.id), fetched) {
        Ok(_) => Ok(req),
        Err(e) => Err(e),
    }
}

/// The identifier to delete, given what the existence check answered for it.
pub fn delete_by_id(id: i32, fetched: Result<Option<CouponRow>, DbError>) -> (r: Result<
    i32,
    CouponError,
>)
    ensures
        r == (match existence_check(LookupKey::Id(id), fetched) {
            Ok(_) => Ok(id),
            Err(e) => Err::<i32, CouponError>(e),
        }),
{
    match check_exists(LookupKey::Id(id), fetched) {
        Ok(_) => Ok(id),
        Err(e) => Err(e),
    }
}

/// The code to delete, given what the existence check answered for it.
pub fn delete_by_code(code: String, fetched: Result<Option<CouponRow>, DbError>) -> (r: Result<
    String,
    CouponError,
>)
    ensures
        r == (match existence_check(LookupKey::Code(code), fetched) {
            Ok(_) => Ok(code),
            Err(e) => Err::<String, CouponError>(e),
        }),
{
    let key = LookupKey::Code(code.clone());
    match check_exists(key, fetched) {
        Ok(_) => Ok(code),
        Err(e) => Err(e),
    }
}

/// The outcome of a change once the table has answered the write.
pub fn finish_write(written: Result<u64, DbError>) -> (r: Result<(), CouponError>)
    ensures
        r == (match written {
            Ok(_) => Ok(()),
            Err(e) => Err::<(), CouponError>(CouponError::UnexpectedError(e)),
        }),
{
    match written {
        Ok(_) => Ok(()),
        Err(e) => Err(CouponError::UnexpectedError(e)),
    }
}

/// The presented API key opens a session exactly when it equals the configured one.
pub fn key_matches(presented: &String, configured: &String) -> (r: bool)
    ensures
        r == (presented@ == configured@),
{
    presented.eq(configured)
}

} // verus!
