//! The trusted boundary around polars columns.
//!
//! A column of 64-bit floating-point samples is kept opaque: verified code
//! never inspects a number directly. Each value is identified by its bit
//! pattern (`u64`), a column by the sequence of those bit patterns, and each
//! arithmetic step by an uninterpreted spec function over bit patterns. The
//! wrappers in this module are the only code that touches the column type,
//! and everything proved about the library rests on their contracts.

use polars::prelude::{DataType, NamedFrom, PlSmallStr, Series};
use vstd::prelude::*;

verus! {

#[verifier::external_type_specification]
#[verifier::external_body]
pub struct ExSeries(Series);

// Verus reads the arithmetic trait impls of `Series`, whose output type
// names `PolarsError`, so that type must be declared even though nothing
// else in the library names it.
#[verifier::external_type_specification]
#[verifier::external_body]
pub struct ExPolarsError(polars::prelude::PolarsError);

/// The bit patterns of the samples a column holds, in order.
pub uninterp spec fn vals(s: Series) -> Seq<u64>;

/// The column holds 64-bit floating-point samples with no missing entries.
pub uninterp spec fn col_ok(s: Series) -> bool;

/// The bit pattern of the IEEE 754 binary64 sum of two values, by bit pattern.
pub uninterp spec fn add_bits(a: u64, b: u64) -> u64;

/// The bit pattern of the IEEE 754 binary64 difference of two values.
pub uninterp spec fn sub_bits(a: u64, b: u64) -> u64;

/// The bit pattern of the IEEE 754 binary64 product of two values.
pub uninterp spec fn mul_bits(a: u64, b: u64) -> u64;

/// The bit pattern of the IEEE 754 binary64 quotient of two values.
pub uninterp spec fn div_bits(a: u64, b: u64) -> u64;

/// Whether the first value is strictly below the second in the
/// floating-point order.
pub uninterp spec fn lt_bits(a: u64, b: u64) -> bool;

/// Whether two values compare equal as floating-point numbers (so positive
/// and negative zero compare equal, and nothing compares equal to a NaN).
pub uninterp spec fn eq_bits(a: u64, b: u64) -> bool;

/// The bit pattern of the value a 64-bit machine integer converts to.
pub uninterp spec fn cast_bits(i: i64) -> u64;

/// The bit pattern of the arithmetic mean of a column's samples.
pub uninterp spec fn mean_bits(s: Seq<u64>) -> u64;

/// The bit pattern of the sample standard deviation (divisor `n - 1`) of a
/// column's samples.
pub uninterp spec fn std1_bits(s: Seq<u64>) -> u64;

/// Relies on `Series::new` and `Series::cast`: a column built from machine
/// integers and cast to 64-bit floats holds, in order, the float each
/// integer converts to, with no missing entries.
#[verifier::external_body]
pub(crate) fn ints_to_column(v: &Vec<i64>) -> (r: Series)
    ensures
        col_ok(r),
        vals(r).len() == v@.len(),
        forall|i: int| 0 <= i < v@.len() ==> vals(r)[i] == cast_bits(v@[i]),
{
    Series::new(PlSmallStr::EMPTY, v.as_slice()).cast(&DataType::Float64).unwrap()
}

/// Relies on `Series::len`: the number of samples the column holds.
#[verifier::external_body]
pub(crate) fn col_len(s: &Series) -> (r: usize)
    ensures
        r == vals(*s).len(),
{
    s.len()
}

/// Relies on `Series::clone`: the copy holds the same samples.
#[verifier::external_body]
pub(crate) fn col_clone(s: &Series) -> (r: Series)
    ensures
        vals(r) == vals(*s),
        col_ok(r) == col_ok(*s),
{
    s.clone()
}

/// Relies on `Series::new_from_index`: a column of `length` copies of the
/// single sample, taken verbatim (no arithmetic touches the value).
#[verifier::external_body]
pub(crate) fn col_repeat(s: &Series, length: usize) -> (r: Series)
    requires
        col_ok(*s),
        vals(*s).len() == 1,
        length >= 1,
    ensures
        col_ok(r),
        vals(r).len() == length,
        forall|i: int| 0 <= i < length ==> vals(r)[i] == vals(*s)[0],
{
    s.new_from_index(0, length)
}

/// Relies on `impl Add for &Series` on float columns of equal length: the
/// sum is taken element by element by the plain binary kernel. Equal
/// lengths are required because polars' unit-length broadcast paths take
/// value shortcuts and do not compute the same function.
#[verifier::external_body]
pub(crate) fn col_add(a: &Series, b: &Series) -> (r: Series)
    requires
        col_ok(*a),
        col_ok(*b),
        vals(*a).len() >= 1,
        vals(*a).len() == vals(*b).len(),
    ensures
        col_ok(r),
        vals(r).len() == vals(*a).len(),
        forall|i: int|
            0 <= i < vals(r).len() ==> vals(r)[i] == add_bits(vals(*a)[i], vals(*b)[i]),
{
    (a + b).unwrap()
}

/// Relies on `impl Sub for &Series` on float columns of equal length:
/// elementwise difference by the plain binary kernel (equal lengths keep
/// polars' shortcut-taking broadcast paths out).
#[verifier::external_body]
pub(crate) fn col_sub(a: &Series, b: &Series) -> (r: Series)
    requires
        col_ok(*a),
        col_ok(*b),
        vals(*a).len() >= 1,
        vals(*a).len() == vals(*b).len(),
    ensures
        col_ok(r),
        vals(r).len() == vals(*a).len(),
        forall|i: int|
            0 <= i < vals(r).len() ==> vals(r)[i] == sub_bits(vals(*a)[i], vals(*b)[i]),
{
    (a - b).unwrap()
}

/// Relies on `impl Mul for &Series` on float columns of equal length:
/// elementwise product by the plain binary kernel (equal lengths keep
/// polars' shortcut-taking broadcast paths out).
#[verifier::external_body]
pub(crate) fn col_mul(a: &Series, b: &Series) -> (r: Series)
    requires
        col_ok(*a),
        col_ok(*b),
        vals(*a).len() >= 1,
        vals(*a).len() == vals(*b).len(),
    ensures
        col_ok(r),
        vals(r).len() == vals(*a).len(),
        forall|i: int|
            0 <= i < vals(r).len() ==> vals(r)[i] == mul_bits(vals(*a)[i], vals(*b)[i]),
{
    (a * b).unwrap()
}

/// Relies on `impl Div for &Series` on float columns of equal length:
/// elementwise quotient by the plain binary kernel. Equal lengths matter
/// here most of all: polars' broadcast path would divide by a one-value
/// column through multiplication by its reciprocal, a different function.
#[verifier::external_body]
pub(crate) fn col_div(a: &Series, b: &Series) -> (r: Series)
    requires
        col_ok(*a),
        col_ok(*b),
        vals(*a).len() >= 1,
        vals(*a).len() == vals(*b).len(),
    ensures
        col_ok(r),
        vals(r).len() == vals(*a).len(),
        forall|i: int|
            0 <= i < vals(r).len() ==> vals(r)[i] == div_bits(vals(*a)[i], vals(*b)[i]),
{
    (a / b).unwrap()
}

/// Relies on `Series::mean`: on a non-empty float column with no missing
/// entries it returns the arithmetic mean, a function of the samples alone.
/// The result is wrapped back into a one-value column.
#[verifier::external_body]
pub(crate) fn col_mean(s: &Series) -> (r: Series)
    requires
        col_ok(*s),
        vals(*s).len() >= 1,
    ensures
        col_ok(r),
        vals(r).len() == 1,
        vals(r)[0] == mean_bits(vals(*s)),
{
    let m = s.mean().unwrap();
    Series::new(PlSmallStr::EMPTY, [m])
}

/// Relies on `Series::std` with `ddof = 1`: on a float column of at least
/// two samples and no missing entries it returns the sample standard
/// deviation, a function of the samples alone. The result is wrapped back
/// into a one-value column.
#[verifier::external_body]
pub(crate) fn col_std1(s: &Series) -> (r: Series)
    requires
        col_ok(*s),
        vals(*s).len() >= 2,
    ensures
        col_ok(r),
        vals(r).len() == 1,
        vals(r)[0] == std1_bits(vals(*s)),
{
    let sd = s.std(1).unwrap();
    Series::new(PlSmallStr::EMPTY, [sd])
}

/// Relies on `Series::slice`: the one-sample column holding the sample at
/// `index`.
#[verifier::external_body]
pub(crate) fn col_at(s: &Series, index: usize) -> (r: Series)
    requires
        col_ok(*s),
        index < vals(*s).len(),
    ensures
        col_ok(r),
        vals(r).len() == 1,
        vals(r)[0] == vals(*s)[index as int],
{
    s.slice(index as i64, 1)
}

/// Relies on the `<` order of 64-bit floats, applied to the single samples
/// of two one-value columns, read out through `Series::mean` (the mean of a
/// single sample is that sample).
#[verifier::external_body]
pub(crate) fn col_lt(a: &Series, b: &Series) -> (r: bool)
    requires
        col_ok(*a),
        col_ok(*b),
        vals(*a).len() == 1,
        vals(*b).len() == 1,
    ensures
        r == lt_bits(vals(*a)[0], vals(*b)[0]),
{
    a.mean().unwrap() < b.mean().unwrap()
}

/// Relies on the `==` comparison of 64-bit floats, applied to the single
/// samples of two one-value columns, read out through `Series::mean`.
#[verifier::external_body]
pub(crate) fn col_eq(a: &Series, b: &Series) -> (r: bool)
    requires
        col_ok(*a),
        col_ok(*b),
        vals(*a).len() == 1,
        vals(*b).len() == 1,
    ensures
        r == eq_bits(vals(*a)[0], vals(*b)[0]),
{
    a.mean().unwrap() == b.mean().unwrap()
}

/// Builds a float column from machine integers; the public doorway through
/// which callers hand the library a data column.
pub fn column_from_ints(v: &Vec<i64>) -> (r: Series)
    ensures
        col_ok(r),
        vals(r).len() == v@.len(),
        forall|i: int| 0 <= i < v@.len() ==> vals(r)[i] == cast_bits(v@[i]),
{
    ints_to_column(v)
}

} // verus!
