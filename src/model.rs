use vstd::prelude::*;
use vstd::arithmetic::div_mod::{lemma_div_denominator, lemma_mod_breakdown};

verus! {

/// A decimal number `mantissa * 10^(-scale)`, as the coupon table stores a discount.
#[derive(Clone, Copy, Debug, PartialEq, Eq, Structural)]
pub struct Decimal {
    pub mantissa: i128,
    pub scale: u32,
}

/// A coupon as it is stored in the table.
#[derive(Clone, Debug, PartialEq, Eq)]
pub struct CouponRow {
    pub id: i32,
    pub code: String,
    pub discount: Decimal,
    pub max_usage_count: i32,
    /// Seconds since the epoch, assigned by the server on insert.
    pub date_created: Option<i64>,
}

/// A coupon as the API hands it out; the discount is counted in hundredths.
#[derive(Clone, Debug, PartialEq, Eq)]
pub struct CouponResponse {
    pub id: i32,
    pub code: String,
    pub discount: i64,
    pub max_usage_count: i32,
    pub date_created: Option<i64>,
}

/// The body of a request that creates a coupon.
#[derive(Clone, Debug, PartialEq, Eq)]
pub struct CouponRequest {
    pub code: String,
    pub discount: Decimal,
    pub max_usage_count: i32,
}

/// The record written to the table for a new coupon.
#[derive(Clone, Debug, PartialEq, Eq)]
pub struct CouponInsert {
    pub code: String,
    pub discount: Decimal,
    pub max_usage_count: i32,
    pub date_created: Option<i64>,
}

/// The body of a request that changes a coupon; absent fields keep their value.
#[derive(Clone, Debug, PartialEq, Eq)]
pub struct CouponUpdate {
    pub id: i32,
    pub code: Option<String>,
    pub discount: Option<Decimal>,
    pub max_usage_count: Option<i32>,
}

/// A stored discount that the API cannot represent.
#[derive(Clone, Copy, Debug, PartialEq, Eq, Structural)]
pub struct ConversionError {
    pub discount: Decimal,
}

/// A failure of the database or of the connection to it.
#[derive(Clone, Debug, PartialEq, Eq)]
pub struct DbError {
    pub message: String,
}

/// The key a lookup was made with.
#[derive(Clone, Debug, PartialEq, Eq)]
pub enum LookupKey {
    Id(i32),
    Code(String),
}

#[derive(Clone, Debug, PartialEq, Eq)]
pub enum CouponError {
    /// No coupon has the key.
    NotFoundError(LookupKey),
    /// A stored row cannot be represented in the API.
    InternalError(ConversionError),
    /// The database failed.
    UnexpectedError(DbError),
}

/// Largest and smallest mantissas whose value in hundredths fits in an `i64`.
pub const MANTISSA_MAX_UNITS: i128 = 92233720368547758;
pub const MANTISSA_MIN_UNITS: i128 = -92233720368547758;
pub const MANTISSA_MAX_TENTHS: i128 = 922337203685477580;
pub const MANTISSA_MIN_TENTHS: i128 = -922337203685477580;

/// Ten to the power `n`.
pub open spec fn pow10(n: nat) -> nat
    decreases n,
{
    if n == 0 {
        1
    } else {
        10 * pow10((n - 1) as nat)
    }
}

/// The absolute value of a mantissa.
pub open spec fn magnitude(m: i128) -> nat {
    if m < 0 {
        (-m) as nat
    } else {
        m as nat
    }
}

/// `d` is a whole number of hundredths.
pub open spec fn exact_in_hundredths(d: Decimal) -> bool {
    d.scale <= 2 || magnitude(d.mantissa) % pow10((d.scale - 2) as nat) == 0
}

/// The value of `d` in hundredths, rounded toward zero.
pub open spec fn hundredths_of(d: Decimal) -> int {
    if d.scale <= 2 {
        d.mantissa * pow10((2 - d.scale) as nat)
    } else {
        let q = magnitude(d.mantissa) / pow10((d.scale - 2) as nat);
        if d.mantissa < 0 {
            -q
        } else {
            q as int
        }
    }
}

/// `d` is a whole number of hundredths that fits in an `i64`.
pub open spec fn representable(d: Decimal) -> bool {
    exact_in_hundredths(d) && i64::MIN <= hundredths_of(d) <= i64::MAX
}

/// The API form of a stored row, or `None` where its discount cannot be represented.
pub open spec fn response_of(row: CouponRow) -> Option<CouponResponse> {
    if representable(row.discount) {
        Some(
            CouponResponse {
                id: row.id,
                code: row.code,
                discount: hundredths_of(row.discount) as i64,
                max_usage_count: row.max_usage_count,
                date_created: row.date_created,
            },
        )
    } else {
        None
    }
}

proof fn lemma_pow10_positive(n: nat)
    ensures
        pow10(n) >= 1,
    decreases n,
{
    if n > 0 {
        lemma_pow10_positive((n - 1) as nat);
    }
}

/// Dividing by ten `n` times: `a` is a multiple of `10^n` exactly when each step leaves
/// no remainder, and the quotient is what is left.
proof fn lemma_divide_by_ten(a: nat, n: nat)
    requires
        n > 0,
    ensures
        a % pow10(n) == 0 <==> (a % 10 == 0 && (a / 10) as nat % pow10((n - 1) as nat) == 0),
        a / pow10(n) == (a / 10) as nat / pow10((n - 1) as nat),
{
    let p = pow10((n - 1) as nat);
    lemma_pow10_positive((n - 1) as nat);
    assert(pow10(n) == 10 * p);
    lemma_mod_breakdown(a as int, 10, p as int);
    lemma_div_denominator(a as int, 10, p as int);
    let m: int = ((a as int) / 10) % (p as int);
    let d: int = (a as int) % 10;
    assert(0 <= m);
    assert(0 <= d < 10);
    assert((a as int) % (10 * (p as int)) == 10 * m + d);
}

/// The discount in hundredths, or `None` on precision loss or overflow.
pub fn discount_hundredths(d: Decimal) -> (r: Option<i64>)
    ensures
        r == (if representable(d) {
            Some(hundredths_of(d) as i64)
        } else {
            None::<i64>
        }),
{
    proof {
        reveal_with_fuel(pow10, 3);
    }
    assert(pow10(2) == 100 && pow10(1) == 10 && pow10(0) == 1);
    if d.scale == 0 {
        if MANTISSA_MIN_UNITS <= d.mantissa && d.mantissa <= MANTISSA_MAX_UNITS {
            Some((d.mantissa * 100) as i64)
        } else {
            None
        }
    } else if d.scale == 1 {
        if MANTISSA_MIN_TENTHS <= d.mantissa && d.mantissa <= MANTISSA_MAX_TENTHS {
            Some((d.mantissa * 10) as i64)
        } else {
            None
        }
    } else if d.scale == 2 {
        assert(((2 - d.scale) as nat) == 0nat);
        assert(d.mantissa * pow10(0) == d.mantissa);
        if i64::MIN as i128 <= d.mantissa && d.mantissa <= i64::MAX as i128 {
            Some(d.mantissa as i64)
        } else {
            None
        }
    } else {
        let negative = d.mantissa < 0;
        let mut a: u128 = if negative {
            ((-(d.mantissa + 1)) as u128) + 1
        } else {
            d.mantissa as u128
        };
        let k: u32 = d.scale - 2;
        let mut left: u32 = k;
        while left > 0
            invariant
                left <= k,
                k == d.scale - 2,
                magnitude(d.mantissa) % pow10(k as nat) == 0 <==> a as nat % pow10(left as nat)
                    == 0,
                magnitude(d.mantissa) / pow10(k as nat) == a as nat / pow10(left as nat),
            decreases left,
        {
            proof {
                lemma_divide_by_ten(a as nat, left as nat);
            }
            if a % 10 != 0 {
                return None;
            }
            a = a / 10;
            left = left - 1;
        }
        assert(pow10(0) == 1);
        assert(a as nat / 1 == a as nat) by (nonlinear_arith);
        assert(magnitude(d.mantissa) / pow10(k as nat) == a);
        if negative {
            if a <= 9223372036854775808 {
                Some((-(a as i128)) as i64)
            } else {
                None
            }
        } else {
            if a <= 9223372036854775807 {
                Some(a as i64)
            } else {
                None
            }
        }
    }
}

/// Converts a stored row into its API form, rejecting a discount it cannot represent.
pub fn to_response(row: &CouponRow) -> (r: Result<CouponResponse, ConversionError>)
    ensures
        r == (match response_of(*row) {
            Some(c) => Ok(c),
            None => Err(ConversionError { discount: row.discount }),
        }),
{
    match discount_hundredths(row.discount) {
        Some(discount) => Ok(
            CouponResponse {
                id: row.id,
                code: row.code.clone(),
                discount,
                max_usage_count: row.max_usage_count,
                date_created: row.date_created,
            },
        ),
        None => Err(ConversionError { discount: row.discount }),
    }
}

} // verus!
