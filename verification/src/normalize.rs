//! Z-score normalization of a column: each sample is mapped to
//! `(x - mean) / stddev`, with the sample standard deviation (divisor
//! `n - 1`).

use polars::prelude::Series;
use vstd::prelude::*;

use crate::column::cast_bits;
use crate::column::col_len;
use crate::column::col_ok;
use crate::column::div_bits;
use crate::column::eq_bits;
use crate::column::mean_bits;
use crate::column::std1_bits;
use crate::column::sub_bits;
use crate::column::vals;
use crate::scalar::column_div_scalar;
use crate::scalar::column_mean;
use crate::scalar::column_std1;
use crate::scalar::column_sub_scalar;
use crate::scalar::Scalar;
use crate::ModelError;

verus! {

/// A column that cannot be normalized: fewer than two samples, or a sample
/// standard deviation that compares equal to zero (a constant column).
pub open spec fn degenerate(v: Seq<u64>) -> bool {
    v.len() < 2 || eq_bits(std1_bits(v), cast_bits(0))
}

/// The z-score image of a column: sample `i` becomes
/// `(v[i] - mean(v)) / stddev(v)`.
pub open spec fn znorm(v: Seq<u64>) -> Seq<u64> {
    Seq::new(v.len(), |i: int| div_bits(sub_bits(v[i], mean_bits(v)), std1_bits(v)))
}

/// Maps each sample of `values` to `(x - mean) / stddev` and returns the
/// normalized column together with the statistics used, or rejects a
/// degenerate column. The input is left untouched and nothing else is
/// observable: the result is a function of the samples alone.
pub fn normalize(values: &Series) -> (res: Result<(Series, Scalar, Scalar), ModelError>)
    requires
        col_ok(*values),
    ensures
        res is Err <==> degenerate(vals(*values)),
        res matches Err(e) ==> e == ModelError::DegenerateInput,
        res matches Ok(out) ==> ({
            &&& out.1.wf()
            &&& out.1@ == mean_bits(vals(*values))
            &&& out.2.wf()
            &&& out.2@ == std1_bits(vals(*values))
            &&& col_ok(out.0)
            &&& vals(out.0) == znorm(vals(*values))
        }),
{
    let n = col_len(values);
    if n < 2 {
        return Result::Err(ModelError::DegenerateInput);
    }
    let m = column_mean(values);
    let sd = column_std1(values);
    let zero = Scalar::from_int(0);
    if sd.equals(&zero) {
        return Result::Err(ModelError::DegenerateInput);
    }
    let centered = column_sub_scalar(values, &m);
    let scaled = column_div_scalar(&centered, &sd);
    proof {
        assert(vals(scaled) =~= znorm(vals(*values)));
    }
    Result::Ok((scaled, m, sd))
}

} // verus!
