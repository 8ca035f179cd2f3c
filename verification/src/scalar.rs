//! A single 64-bit floating-point value, carried in a one-value polars
//! column, together with the verified elementwise column operations.

use polars::prelude::Series;
use vstd::prelude::*;

use crate::column::add_bits;
use crate::column::cast_bits;
use crate::column::col_add;
use crate::column::col_at;
use crate::column::col_clone;
use crate::column::col_len;
use crate::column::col_repeat;
use crate::column::col_div;
use crate::column::col_eq;
use crate::column::col_lt;
use crate::column::col_mean;
use crate::column::col_mul;
use crate::column::col_ok;
use crate::column::col_std1;
use crate::column::col_sub;
use crate::column::div_bits;
use crate::column::eq_bits;
use crate::column::ints_to_column;
use crate::column::lt_bits;
use crate::column::mean_bits;
use crate::column::mul_bits;
use crate::column::std1_bits;
use crate::column::sub_bits;
use crate::column::vals;

verus! {

/// One floating-point value. Its view is the bit pattern of that value.
#[derive(Debug)]
pub struct Scalar {
    col: Series,
}

impl View for Scalar {
    type V = u64;

    closed spec fn view(&self) -> u64 {
        vals(self.col)[0]
    }
}

impl Scalar {
    /// The carrier is a float column holding exactly one value.
    pub closed spec fn wf(&self) -> bool {
        col_ok(self.col) && vals(self.col).len() == 1
    }

    /// The value a machine integer converts to.
    pub fn from_int(value: i64) -> (r: Scalar)
        ensures
            r.wf(),
            r@ == cast_bits(value),
    {
        let mut v: Vec<i64> = Vec::new();
        v.push(value);
        Scalar { col: ints_to_column(&v) }
    }

    /// The quotient of two integer-valued floats; the way a caller writes a
    /// fractional constant exactly (a learning rate of one tenth is
    /// `Scalar::ratio(1, 10)`).
    pub fn ratio(numerator: i64, denominator: i64) -> (r: Scalar)
        ensures
            r.wf(),
            r@ == div_bits(cast_bits(numerator), cast_bits(denominator)),
    {
        Scalar::from_int(numerator).over(&Scalar::from_int(denominator))
    }

    /// A copy holding the same value.
    pub fn duplicate(&self) -> (r: Scalar)
        requires
            self.wf(),
        ensures
            r.wf(),
            r@ == self@,
    {
        Scalar { col: col_clone(&self.col) }
    }

    /// The value as a one-value column, for callers that read the number out.
    pub fn to_column(&self) -> (r: Series)
        requires
            self.wf(),
        ensures
            col_ok(r),
            vals(r).len() == 1,
            vals(r)[0] == self@,
    {
        col_clone(&self.col)
    }

    pub fn plus(&self, other: &Scalar) -> (r: Scalar)
        requires
            self.wf(),
            other.wf(),
        ensures
            r.wf(),
            r@ == add_bits(self@, other@),
    {
        Scalar { col: col_add(&self.col, &other.col) }
    }

    pub fn minus(&self, other: &Scalar) -> (r: Scalar)
        requires
            self.wf(),
            other.wf(),
        ensures
            r.wf(),
            r@ == sub_bits(self@, other@),
    {
        Scalar { col: col_sub(&self.col, &other.col) }
    }

    pub fn times(&self, other: &Scalar) -> (r: Scalar)
        requires
            self.wf(),
            other.wf(),
        ensures
            r.wf(),
            r@ == mul_bits(self@, other@),
    {
        Scalar { col: col_mul(&self.col, &other.col) }
    }

    pub fn over(&self, other: &Scalar) -> (r: Scalar)
        requires
            self.wf(),
            other.wf(),
        ensures
            r.wf(),
            r@ == div_bits(self@, other@),
    {
        Scalar { col: col_div(&self.col, &other.col) }
    }

    /// Strictly below in the floating-point order.
    pub fn less_than(&self, other: &Scalar) -> (r: bool)
        requires
            self.wf(),
            other.wf(),
        ensures
            r == lt_bits(self@, other@),
    {
        col_lt(&self.col, &other.col)
    }

    /// Equal as floating-point numbers.
    pub fn equals(&self, other: &Scalar) -> (r: bool)
        requires
            self.wf(),
            other.wf(),
        ensures
            r == eq_bits(self@, other@),
    {
        col_eq(&self.col, &other.col)
    }
}

/// The sample at a position of a column, as one value.
pub fn column_at(s: &Series, index: usize) -> (r: Scalar)
    requires
        col_ok(*s),
        index < vals(*s).len(),
    ensures
        r.wf(),
        r@ == vals(*s)[index as int],
{
    Scalar { col: col_at(s, index) }
}

/// Elementwise product of a column with one value.
pub(crate) fn column_mul_scalar(s: &Series, k: &Scalar) -> (r: Series)
    requires
        col_ok(*s),
        vals(*s).len() >= 1,
        k.wf(),
    ensures
        col_ok(r),
        vals(r).len() == vals(*s).len(),
        forall|i: int| 0 <= i < vals(r).len() ==> vals(r)[i] == mul_bits(vals(*s)[i], k@),
{
    let expanded = col_repeat(&k.col, col_len(s));
    col_mul(s, &expanded)
}

/// Elementwise sum of a column with one value.
pub(crate) fn column_add_scalar(s: &Series, k: &Scalar) -> (r: Series)
    requires
        col_ok(*s),
        vals(*s).len() >= 1,
        k.wf(),
    ensures
        col_ok(r),
        vals(r).len() == vals(*s).len(),
        forall|i: int| 0 <= i < vals(r).len() ==> vals(r)[i] == add_bits(vals(*s)[i], k@),
{
    let expanded = col_repeat(&k.col, col_len(s));
    col_add(s, &expanded)
}

/// Elementwise difference of a column and one value.
pub(crate) fn column_sub_scalar(s: &Series, k: &Scalar) -> (r: Series)
    requires
        col_ok(*s),
        vals(*s).len() >= 1,
        k.wf(),
    ensures
        col_ok(r),
        vals(r).len() == vals(*s).len(),
        forall|i: int| 0 <= i < vals(r).len() ==> vals(r)[i] == sub_bits(vals(*s)[i], k@),
{
    let expanded = col_repeat(&k.col, col_len(s));
    col_sub(s, &expanded)
}

/// Elementwise quotient of a column by one value.
pub(crate) fn column_div_scalar(s: &Series, k: &Scalar) -> (r: Series)
    requires
        col_ok(*s),
        vals(*s).len() >= 1,
        k.wf(),
    ensures
        col_ok(r),
        vals(r).len() == vals(*s).len(),
        forall|i: int| 0 <= i < vals(r).len() ==> vals(r)[i] == div_bits(vals(*s)[i], k@),
{
    let expanded = col_repeat(&k.col, col_len(s));
    col_div(s, &expanded)
}

/// Elementwise difference of two columns of equal length.
pub(crate) fn column_sub(a: &Series, b: &Series) -> (r: Series)
    requires
        col_ok(*a),
        col_ok(*b),
        vals(*a).len() >= 1,
        vals(*a).len() == vals(*b).len(),
    ensures
        col_ok(r),
        vals(r).len() == vals(*a).len(),
        forall|i: int|
            0 <= i < vals(r).len() ==> vals(r)[i] == sub_bits(vals(*a)[i], vals(*b)[i]),
{
    col_sub(a, b)
}

/// Elementwise product of two columns of equal length.
pub(crate) fn column_mul(a: &Series, b: &Series) -> (r: Series)
    requires
        col_ok(*a),
        col_ok(*b),
        vals(*a).len() >= 1,
        vals(*a).len() == vals(*b).len(),
    ensures
        col_ok(r),
        vals(r).len() == vals(*a).len(),
        forall|i: int|
            0 <= i < vals(r).len() ==> vals(r)[i] == mul_bits(vals(*a)[i], vals(*b)[i]),
{
    col_mul(a, b)
}

/// The arithmetic mean of a non-empty column, as one value.
pub(crate) fn column_mean(s: &Series) -> (r: Scalar)
    requires
        col_ok(*s),
        vals(*s).len() >= 1,
    ensures
        r.wf(),
        r@ == mean_bits(vals(*s)),
{
    Scalar { col: col_mean(s) }
}

/// The sample standard deviation of a column of at least two samples.
pub(crate) fn column_std1(s: &Series) -> (r: Scalar)
    requires
        col_ok(*s),
        vals(*s).len() >= 2,
    ensures
        r.wf(),
        r@ == std1_bits(vals(*s)),
{
    Scalar { col: col_std1(s) }
}

} // verus!
