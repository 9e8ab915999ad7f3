use coupon_api::model::{
    discount_hundredths, to_response, ConversionError, CouponError, CouponRequest, CouponRow,
    CouponUpdate, DbError, Decimal, LookupKey,
};
use coupon_api::service::{
    delete_by_code, delete_by_id, finish_write, get_all, get_by_code, get_by_id, insert,
    insert_record, inserted_id, key_matches, rejected_rows, update,
};

fn row(id: i32, code: &str, mantissa: i128, scale: u32, max_usage_count: i32) -> CouponRow {
    CouponRow {
        id,
        code: code.to_string(),
        discount: Decimal { mantissa, scale },
        max_usage_count,
        date_created: Some(1_700_000_000),
    }
}

fn db_error() -> DbError {
    DbError { message: "connection refused".to_string() }
}

#[test]
fn insert_get_delete_round() {
    let req = CouponRequest {
        code: "SAVE10".to_string(),
        discount: Decimal { mantissa: 100, scale: 1 },
        max_usage_count: 5,
    };
    let rec = insert_record(&req);
    assert_eq!(rec.code, "SAVE10");
    assert_eq!(rec.discount, Decimal { mantissa: 100, scale: 1 });
    assert_eq!(rec.max_usage_count, 5);
    assert_eq!(rec.date_created, None);

    let id = inserted_id(Ok(7)).unwrap();
    assert_eq!(id, 7);
    let stored = row(id, &rec.code, 100, 1, rec.max_usage_count);
    let created = insert(id, Ok(Some(stored.clone()))).unwrap();
    assert!(created.id > 0);
    assert_eq!(created.code, "SAVE10");
    assert_eq!(created.discount, 1000);
    assert_eq!(created.max_usage_count, 5);

    let fetched = get_by_id(id, Ok(Some(stored.clone()))).unwrap();
    assert_eq!(fetched, created);

    assert_eq!(delete_by_id(id, Ok(Some(stored))), Ok(7));
    assert_eq!(finish_write(Ok(1)), Ok(()));
    assert_eq!(get_by_id(id, Ok(None)), Err(CouponError::NotFoundError(LookupKey::Id(7))));
}

#[test]
fn insert_refetch_miss_is_not_found() {
    assert_eq!(insert(3, Ok(None)), Err(CouponError::NotFoundError(LookupKey::Id(3))));
}

#[test]
fn inserted_id_beyond_i32_is_unexpected() {
    assert_eq!(inserted_id(Ok(i32::MAX as u64)), Ok(i32::MAX));
    let wrapped = (1u64 << 32) + 7;
    assert!(matches!(inserted_id(Ok(wrapped)), Err(CouponError::UnexpectedError(_))));
    assert!(matches!(inserted_id(Ok(i32::MAX as u64 + 1)), Err(CouponError::UnexpectedError(_))));
}

#[test]
fn rejected_rows_are_reported() {
    let rows = vec![row(1, "A", 5, 0, 1), row(2, "B", 12345, 3, 1), row(3, "C", 7, 4, 9)];
    assert_eq!(
        rejected_rows(&rows),
        vec![
            ConversionError { discount: Decimal { mantissa: 12345, scale: 3 } },
            ConversionError { discount: Decimal { mantissa: 7, scale: 4 } },
        ]
    );
    assert_eq!(rejected_rows(&vec![row(1, "A", 5, 0, 1)]), vec![]);
}

#[test]
fn inserted_id_database_failure() {
    assert_eq!(inserted_id(Err(db_error())), Err(CouponError::UnexpectedError(db_error())));
}

#[test]
fn wrong_key_is_refused() {
    assert!(!key_matches(&"wrong".to_string(), &"s3cret-key".to_string()));
    assert!(!key_matches(&"".to_string(), &"s3cret-key".to_string()));
}

#[test]
fn right_key_is_accepted() {
    assert!(key_matches(&"s3cret-key".to_string(), &"s3cret-key".to_string()));
}

#[test]
fn list_leaves_out_rows_that_fail_conversion() {
    let rows = vec![row(1, "A", 5, 0, 1), row(2, "B", 12345, 3, 1), row(3, "C", 250, 2, 9)];
    let list = get_all(Ok(rows)).unwrap();
    assert_eq!(list.len(), 2);
    assert_eq!(list[0].id, 1);
    assert_eq!(list[0].discount, 500);
    assert_eq!(list[1].id, 3);
    assert_eq!(list[1].discount, 250);
}

#[test]
fn list_of_empty_table() {
    assert_eq!(get_all(Ok(vec![])), Ok(vec![]));
}

#[test]
fn list_database_failure() {
    assert_eq!(get_all(Err(db_error())), Err(CouponError::UnexpectedError(db_error())));
}

#[test]
fn lookups_by_id_and_code_agree() {
    let r = row(4, "WINTER", 75, 1, 3);
    let by_id = get_by_id(4, Ok(Some(r.clone())));
    let by_code = get_by_code("WINTER".to_string(), Ok(Some(r)));
    assert_eq!(by_id, by_code);
    assert_eq!(by_id.unwrap().discount, 750);
}

#[test]
fn get_by_code_not_found_names_the_code() {
    assert_eq!(
        get_by_code("NOPE".to_string(), Ok(None)),
        Err(CouponError::NotFoundError(LookupKey::Code("NOPE".to_string())))
    );
}

#[test]
fn single_fetch_of_bad_row_is_internal_error() {
    let r = row(5, "BAD", 1, 4, 1);
    assert_eq!(
        get_by_id(5, Ok(Some(r))),
        Err(CouponError::InternalError(ConversionError { discount: Decimal { mantissa: 1, scale: 4 } }))
    );
}

#[test]
fn get_by_id_database_failure() {
    assert_eq!(get_by_id(1, Err(db_error())), Err(CouponError::UnexpectedError(db_error())));
}

#[test]
fn update_of_missing_id_is_not_found() {
    let u = CouponUpdate { id: 42, code: Some("X".to_string()), discount: None, max_usage_count: Some(2) };
    assert_eq!(update(u, Ok(None)), Err(CouponError::NotFoundError(LookupKey::Id(42))));
}

#[test]
fn update_of_existing_id_goes_ahead() {
    let u = CouponUpdate { id: 4, code: None, discount: Some(Decimal { mantissa: 5, scale: 0 }), max_usage_count: None };
    assert_eq!(update(u.clone(), Ok(Some(row(4, "W", 1, 0, 1)))), Ok(u));
}

#[test]
fn write_failure_is_unexpected() {
    assert_eq!(finish_write(Err(db_error())), Err(CouponError::UnexpectedError(db_error())));
}

#[test]
fn delete_by_code_existing_and_missing() {
    let r = row(9, "GONE", 1, 0, 1);
    assert_eq!(delete_by_code("GONE".to_string(), Ok(Some(r))), Ok("GONE".to_string()));
    assert_eq!(
        delete_by_code("GONE".to_string(), Ok(None)),
        Err(CouponError::NotFoundError(LookupKey::Code("GONE".to_string())))
    );
    assert_eq!(delete_by_id(9, Err(db_error())), Err(CouponError::UnexpectedError(db_error())));
}

#[test]
fn discount_limits() {
    assert_eq!(discount_hundredths(Decimal { mantissa: 92233720368547758, scale: 0 }), Some(9223372036854775800));
    assert_eq!(discount_hundredths(Decimal { mantissa: 92233720368547759, scale: 0 }), None);
    assert_eq!(discount_hundredths(Decimal { mantissa: -92233720368547759, scale: 0 }), None);
    assert_eq!(discount_hundredths(Decimal { mantissa: 922337203685477580, scale: 1 }), Some(9223372036854775800));
    assert_eq!(discount_hundredths(Decimal { mantissa: 922337203685477581, scale: 1 }), None);
    assert_eq!(discount_hundredths(Decimal { mantissa: i64::MAX as i128, scale: 2 }), Some(i64::MAX));
    assert_eq!(discount_hundredths(Decimal { mantissa: i64::MAX as i128 + 1, scale: 2 }), None);
    assert_eq!(discount_hundredths(Decimal { mantissa: 10, scale: 3 }), Some(1));
    assert_eq!(discount_hundredths(Decimal { mantissa: 15, scale: 3 }), None);
    assert_eq!(discount_hundredths(Decimal { mantissa: -25000, scale: 5 }), Some(-25));
    assert_eq!(discount_hundredths(Decimal { mantissa: -25001, scale: 5 }), None);
    assert_eq!(discount_hundredths(Decimal { mantissa: i128::MIN, scale: 3 }), None);
    assert_eq!(
        discount_hundredths(Decimal { mantissa: i64::MIN as i128 * 1000, scale: 5 }),
        Some(i64::MIN)
    );
    assert_eq!(
        discount_hundredths(Decimal { mantissa: (i64::MAX as i128 + 1) * 10, scale: 3 }),
        None
    );
}

#[test]
fn conversion_keeps_the_fields() {
    let c = to_response(&row(11, "TEN", 1000, 2, 8)).unwrap();
    assert_eq!(c.id, 11);
    assert_eq!(c.code, "TEN");
    assert_eq!(c.discount, 1000);
    assert_eq!(c.max_usage_count, 8);
    assert_eq!(c.date_created, Some(1_700_000_000));
}
