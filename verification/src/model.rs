//! The linear model and the fixed-iteration batch gradient-descent trainer.

use polars::prelude::Series;
use vstd::prelude::*;

use crate::column::add_bits;
use crate::column::cast_bits;
use crate::column::col_len;
use crate::column::col_ok;
use crate::column::lt_bits;
use crate::column::mean_bits;
use crate::column::mul_bits;
use crate::column::sub_bits;
use crate::column::vals;
use crate::scalar::column_add_scalar;
use crate::scalar::column_mean;
use crate::scalar::column_mul;
use crate::scalar::column_mul_scalar;
use crate::scalar::column_sub;
use crate::scalar::Scalar;
use crate::ModelError;

verus! {

/// The model's predictions on a feature column: `slope * x + intercept`,
/// element by element.
pub open spec fn predicted(f: Seq<u64>, slope: u64, intercept: u64) -> Seq<u64> {
    Seq::new(f.len(), |i: int| add_bits(mul_bits(f[i], slope), intercept))
}

/// The residuals of the predictions against the target column.
pub open spec fn residuals(f: Seq<u64>, t: Seq<u64>, slope: u64, intercept: u64) -> Seq<u64> {
    Seq::new(f.len(), |i: int| sub_bits(predicted(f, slope, intercept)[i], t[i]))
}

/// One batch gradient-descent step on the mean-squared-error cost: the
/// gradients are the mean residual (for the intercept) and the mean of
/// residual times feature (for the slope), each scaled by the learning rate
/// and subtracted from the current parameter.
pub open spec fn descent_update(
    slope: u64,
    intercept: u64,
    f: Seq<u64>,
    t: Seq<u64>,
    lr: u64,
) -> (u64, u64) {
    let err = residuals(f, t, slope, intercept);
    let grad_slope = mul_bits(mean_bits(Seq::new(f.len(), |i: int| mul_bits(err[i], f[i]))), lr);
    let grad_intercept = mul_bits(mean_bits(err), lr);
    (sub_bits(slope, grad_slope), sub_bits(intercept, grad_intercept))
}

/// The parameters after `iters` descent steps, starting from the
/// zero-initialized pair whatever the model held before.
pub open spec fn descent(f: Seq<u64>, t: Seq<u64>, lr: u64, iters: nat) -> (u64, u64)
    decreases iters,
{
    if iters == 0 {
        (cast_bits(0), cast_bits(0))
    } else {
        let prev = descent(f, t, lr, (iters - 1) as nat);
        descent_update(prev.0, prev.1, f, t, lr)
    }
}

/// The same parameters as `descent`, written as an explicit left fold of
/// the update step over the iteration indices.
pub open spec fn descent_fold(f: Seq<u64>, t: Seq<u64>, lr: u64, iters: nat) -> (u64, u64) {
    Seq::new(iters, |i: int| i).fold_left(
        (cast_bits(0), cast_bits(0)),
        |acc: (u64, u64), _i: int| descent_update(acc.0, acc.1, f, t, lr),
    )
}

/// Each iteration is a pure function of the carried `(slope, intercept)`
/// pair and the fixed data, so running the descent iteratively and as an
/// explicit left fold over the iteration indices gives exactly the same
/// parameters.
pub proof fn lemma_descent_is_left_fold(f: Seq<u64>, t: Seq<u64>, lr: u64, iters: nat)
    ensures
        descent(f, t, lr, iters) == descent_fold(f, t, lr, iters),
    decreases iters,
{
    let idx = Seq::new(iters, |i: int| i);
    let step = |acc: (u64, u64), _i: int| descent_update(acc.0, acc.1, f, t, lr);
    if iters == 0 {
        assert(idx.len() == 0);
        assert(idx.fold_left((cast_bits(0), cast_bits(0)), step) == (
            cast_bits(0),
            cast_bits(0),
        ));
    } else {
        lemma_descent_is_left_fold(f, t, lr, (iters - 1) as nat);
        let prev_idx = Seq::new((iters - 1) as nat, |i: int| i);
        assert(idx.drop_last() =~= prev_idx);
        assert(idx.fold_left((cast_bits(0), cast_bits(0)), step) == step(
            prev_idx.fold_left((cast_bits(0), cast_bits(0)), step),
            idx.last(),
        ));
    }
}

/// Training is deterministic: identical columns, learning rate and
/// iteration budget give exactly the same final parameters.
pub proof fn lemma_descent_deterministic(
    f1: Seq<u64>,
    t1: Seq<u64>,
    lr1: u64,
    iters1: nat,
    f2: Seq<u64>,
    t2: Seq<u64>,
    lr2: u64,
    iters2: nat,
)
    requires
        f1 == f2,
        t1 == t2,
        lr1 == lr2,
        iters1 == iters2,
    ensures
        descent(f1, t1, lr1, iters1) == descent(f2, t2, lr2, iters2),
{
}

/// With an iteration budget of zero the fitted parameters are the
/// zero-initialized pair, whatever the data: a zero-iteration training call
/// resets the model rather than keeping its previous parameters.
pub proof fn lemma_zero_iterations(f: Seq<u64>, t: Seq<u64>, lr: u64)
    ensures
        descent(f, t, lr, 0) == (cast_bits(0), cast_bits(0)),
{
}

/// Two scalar parameters, slope and intercept. The view is the pair of
/// their bit patterns.
pub struct LinearRegressionModel {
    slope: Scalar,
    intercept: Scalar,
}

impl View for LinearRegressionModel {
    type V = (u64, u64);

    closed spec fn view(&self) -> (u64, u64) {
        (self.slope@, self.intercept@)
    }
}

impl LinearRegressionModel {
    pub closed spec fn wf(&self) -> bool {
        self.slope.wf() && self.intercept.wf()
    }

    /// A model that has not been trained: both parameters are zero.
    pub fn new_untrained() -> (m: LinearRegressionModel)
        ensures
            m.wf(),
            m@ == (cast_bits(0), cast_bits(0)),
    {
        LinearRegressionModel { slope: Scalar::from_int(0), intercept: Scalar::from_int(0) }
    }

    /// A model with the given parameters, verbatim.
    pub fn new(slope: Scalar, intercept: Scalar) -> (m: LinearRegressionModel)
        requires
            slope.wf(),
            intercept.wf(),
        ensures
            m.wf(),
            m@ == (slope@, intercept@),
    {
        LinearRegressionModel { slope, intercept }
    }

    pub fn slope(&self) -> (r: Scalar)
        requires
            self.wf(),
        ensures
            r.wf(),
            r@ == self@.0,
    {
        self.slope.duplicate()
    }

    pub fn intercept(&self) -> (r: Scalar)
        requires
            self.wf(),
        ensures
            r.wf(),
            r@ == self@.1,
    {
        self.intercept.duplicate()
    }

    /// The point on the fitted line: `slope * x + intercept`. The caller is
    /// responsible for handing in an `x` on the scale the model was trained
    /// on.
    pub fn predict(&self, x: &Scalar) -> (r: Scalar)
        requires
            self.wf(),
            x.wf(),
        ensures
            r.wf(),
            r@ == add_bits(mul_bits(self@.0, x@), self@.1),
    {
        self.slope.times(x).plus(&self.intercept)
    }

    /// Runs `max_iterations` batch gradient-descent steps over the two
    /// columns and overwrites both parameters with the result; the descent
    /// starts from the zero pair regardless of the parameters held before.
    /// Rejects columns of different lengths, then a learning rate that is
    /// not strictly positive, before any computation; a rejected call
    /// leaves the model exactly as it was.
    pub fn train(
        &mut self,
        feature: &Series,
        target: &Series,
        learning_rate: &Scalar,
        max_iterations: u64,
    ) -> (res: Result<(), ModelError>)
        requires
            old(self).wf(),
            col_ok(*feature),
            col_ok(*target),
            learning_rate.wf(),
            vals(*feature).len() >= 1,
        ensures
            final(self).wf(),
            res matches Err(e) ==> *final(self) == *old(self) && (e == ModelError::ShapeMismatch
                || e == ModelError::InvalidHyperparameter),
            (res matches Err(e) && e == ModelError::ShapeMismatch) <==> vals(*feature).len()
                != vals(*target).len(),
            (res matches Err(e) && e == ModelError::InvalidHyperparameter) <==> (vals(
                *feature,
            ).len() == vals(*target).len() && !lt_bits(cast_bits(0), learning_rate@)),
            res is Ok <==> (vals(*feature).len() == vals(*target).len() && lt_bits(
                cast_bits(0),
                learning_rate@,
            )),
            res is Ok ==> final(self)@ == descent(
                vals(*feature),
                vals(*target),
                learning_rate@,
                max_iterations as nat,
            ),
    {
        if col_len(feature) != col_len(target) {
            return Result::Err(ModelError::ShapeMismatch);
        }
        let zero = Scalar::from_int(0);
        if !zero.less_than(learning_rate) {
            return Result::Err(ModelError::InvalidHyperparameter);
        }
        let fitted = gradient_descent(feature, target, learning_rate, max_iterations);
        self.slope = fitted.slope;
        self.intercept = fitted.intercept;
        Result::Ok(())
    }
}

/// One descent step as an executable function: hands back the next
/// `(slope, intercept)` pair for the given data and learning rate.
pub fn descent_step(
    slope: &Scalar,
    intercept: &Scalar,
    feature: &Series,
    target: &Series,
    learning_rate: &Scalar,
) -> (r: (Scalar, Scalar))
    requires
        slope.wf(),
        intercept.wf(),
        learning_rate.wf(),
        col_ok(*feature),
        col_ok(*target),
        vals(*feature).len() >= 1,
        vals(*feature).len() == vals(*target).len(),
    ensures
        r.0.wf(),
        r.1.wf(),
        (r.0@, r.1@) == descent_update(
            slope@,
            intercept@,
            vals(*feature),
            vals(*target),
            learning_rate@,
        ),
{
    let ghost fs = vals(*feature);
    let ghost ts = vals(*target);
    let pred = column_add_scalar(&column_mul_scalar(feature, slope), intercept);
    let err = column_sub(&pred, target);
    let weighted = column_mul(&err, feature);
    let grad_slope = column_mean(&weighted).times(learning_rate);
    let grad_intercept = column_mean(&err).times(learning_rate);
    proof {
        assert(vals(err) =~= residuals(fs, ts, slope@, intercept@));
        assert(vals(weighted) =~= Seq::new(
            fs.len(),
            |i: int| mul_bits(residuals(fs, ts, slope@, intercept@)[i], fs[i]),
        ));
    }
    (slope.minus(&grad_slope), intercept.minus(&grad_intercept))
}

/// Fits a fresh model to the two columns: `max_iterations` descent steps
/// from the zero-initialized pair.
pub fn gradient_descent(
    feature: &Series,
    target: &Series,
    learning_rate: &Scalar,
    max_iterations: u64,
) -> (m: LinearRegressionModel)
    requires
        col_ok(*feature),
        col_ok(*target),
        learning_rate.wf(),
        vals(*feature).len() >= 1,
        vals(*feature).len() == vals(*target).len(),
    ensures
        m.wf(),
        m@ == descent(vals(*feature), vals(*target), learning_rate@, max_iterations as nat),
{
    let mut slope = Scalar::from_int(0);
    let mut intercept = Scalar::from_int(0);
    let mut k: u64 = 0;
    while k < max_iterations
        invariant
            col_ok(*feature),
            col_ok(*target),
            vals(*feature).len() >= 1,
            vals(*feature).len() == vals(*target).len(),
            learning_rate.wf(),
            slope.wf(),
            intercept.wf(),
            k <= max_iterations,
            (slope@, intercept@) == descent(
                vals(*feature),
                vals(*target),
                learning_rate@,
                k as nat,
            ),
        decreases max_iterations - k,
    {
        let next = descent_step(&slope, &intercept, feature, target, learning_rate);
        slope = next.0;
        intercept = next.1;
        k = k + 1;
    }
    LinearRegressionModel::new(slope, intercept)
}

} // verus!
