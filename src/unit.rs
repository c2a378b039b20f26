//! The linear unit: prediction and online error-correction training.
use vstd::prelude::*;
use vstd::arithmetic::div_mod::lemma_fundamental_div_mod_converse;
use crate::scalar::Scalar;

verus! {

/// The mathematical state of a unit: its bias and its weight vector.
pub struct Params<S> {
    pub bias: S,
    pub weights: Seq<S>,
}

/// Why a call was refused.
#[derive(Debug, Clone, Copy, PartialEq, Eq, Structural)]
pub enum UnitError {
    /// An input vector does not have one entry per weight.
    InvalidInputLength,
    /// The number of targets differs from the number of examples.
    InvalidTargetCount,
}

/// What one run of training observed.
pub struct TrainingReport<S> {
    /// The signed error of every example evaluated, in order.
    pub errors: Vec<S>,
    /// The epoch in which an example met its target exactly, if one did.
    pub converged_epoch: Option<u32>,
}

/// `x[0] * w[0] + ... + x[k-1] * w[k-1]`, summed from zero, left to right.
pub open spec fn dot_upto<S: Scalar>(w: Seq<S>, x: Seq<S>, k: nat) -> S
    decreases k,
{
    if k == 0 {
        S::zero_spec()
    } else {
        dot_upto(w, x, (k - 1) as nat).add_spec(x[k - 1].mul_spec(w[k - 1]))
    }
}

/// The unit's output on `x`: the bias plus the weighted sum of the inputs.
pub open spec fn net_input<S: Scalar>(p: Params<S>, x: Seq<S>) -> S {
    p.bias.add_spec(dot_upto(p.weights, x, x.len()))
}

/// `b` with `c` added to it `k` times.
pub open spec fn add_times<S: Scalar>(b: S, c: S, k: nat) -> S
    decreases k,
{
    if k == 0 {
        b
    } else {
        add_times(b, c, (k - 1) as nat).add_spec(c)
    }
}

/// One correction step for `error` on input `x`: every weight moves by
/// `c * x[i]` with `c` the scaled error, and the bias moves by `c` once per
/// weight.
pub open spec fn corrected<S: Scalar>(p: Params<S>, x: Seq<S>, error: S) -> Params<S> {
    let c = error.correction_spec();
    Params {
        bias: add_times(p.bias, c, p.weights.len()),
        weights: Seq::new(p.weights.len(), |i: int| p.weights[i].add_spec(c.mul_spec(x[i]))),
    }
}

/// The error of the unit in state `p` on input `x` with target `t`.
pub open spec fn error_on<S: Scalar>(p: Params<S>, x: Seq<S>, t: S) -> S {
    t.sub_spec(net_input(p, x))
}

/// The state after `s` training steps from `p0`, none of which met its
/// target exactly; step `s` visits example `s % n`.
pub open spec fn params_after<S: Scalar>(p0: Params<S>, xs: Seq<Seq<S>>, ts: Seq<S>, s: nat) -> Params<S>
    decreases s,
{
    if s == 0 {
        p0
    } else {
        let q = params_after(p0, xs, ts, (s - 1) as nat);
        let k = (s - 1) % (xs.len() as int);
        corrected(q, xs[k], error_on(q, xs[k], ts[k]))
    }
}

/// The error observed at training step `s`.
pub open spec fn error_at<S: Scalar>(p0: Params<S>, xs: Seq<Seq<S>>, ts: Seq<S>, s: nat) -> S {
    let k = (s as int) % (xs.len() as int);
    error_on(params_after(p0, xs, ts, s), xs[k], ts[k])
}

/// No step before `s` met its target exactly.
pub open spec fn no_exact_hit_before<S: Scalar>(p0: Params<S>, xs: Seq<Seq<S>>, ts: Seq<S>, s: nat) -> bool {
    forall|j: nat| j < s ==> !(#[trigger] error_at(p0, xs, ts, j)).is_zero_spec()
}

/// The outcome of training from `p0` for `iterations` epochs: the errors
/// observed, where training stopped, and the final state.
///
/// Training stops at the first step whose error is exactly zero, without
/// correcting on it; otherwise it runs `iterations` full passes.
pub open spec fn trained<S: Scalar>(
    p0: Params<S>,
    xs: Seq<Seq<S>>,
    ts: Seq<S>,
    iterations: nat,
    errors: Seq<S>,
    converged_epoch: Option<u32>,
    p: Params<S>,
) -> bool {
    let n = xs.len();
    let k = errors.len();
    &&& forall|j: int| 0 <= j < k ==> errors[j] == #[trigger] error_at(p0, xs, ts, j as nat)
    &&& match converged_epoch {
        Some(e) => {
            &&& 1 <= k <= iterations * n
            &&& no_exact_hit_before(p0, xs, ts, (k - 1) as nat)
            &&& error_at(p0, xs, ts, (k - 1) as nat).is_zero_spec()
            &&& e == (k - 1) / (n as int)
            &&& p == params_after(p0, xs, ts, (k - 1) as nat)
        },
        None => {
            &&& k == iterations * n
            &&& no_exact_hit_before(p0, xs, ts, k)
            &&& p == params_after(p0, xs, ts, k)
        },
    }
}

/// The examples as sequences of numbers.
pub open spec fn examples_view<S>(examples: Seq<Vec<S>>) -> Seq<Seq<S>> {
    examples.map_values(|v: Vec<S>| v@)
}

/// Every example has `dim` entries.
pub open spec fn all_of_length<S>(examples: Seq<Vec<S>>, dim: nat) -> bool {
    forall|i: int| 0 <= i < examples.len() ==> (#[trigger] examples[i])@.len() == dim
}

/// A linear unit over the numbers `S`: `f(x) = bias + sum of x[i] * w[i]`.
///
/// The number of weights is fixed when the unit is built.
pub struct LinearUnit<S> {
    weights: Vec<S>,
    bias: S,
}

impl<S: Scalar> View for LinearUnit<S> {
    type V = Params<S>;

    closed spec fn view(&self) -> Params<S> {
        Params { bias: self.bias, weights: self.weights@ }
    }
}

impl<S: Scalar> LinearUnit<S> {
    /// A unit with the given weights and bias; its dimension is the number
    /// of weights.
    pub fn new(weights: Vec<S>, bias: S) -> (r: Self)
        ensures
            r@.weights == weights@,
            r@.bias == bias,
    {
        LinearUnit { weights, bias }
    }

    /// The number of inputs the unit takes.
    pub fn dim(&self) -> (r: usize)
        ensures
            r == self@.weights.len(),
    {
        self.weights.len()
    }

    pub fn bias(&self) -> (r: S)
        ensures
            r == self@.bias,
    {
        self.bias
    }

    pub fn weights(&self) -> (r: &Vec<S>)
        ensures
            r@ == self@.weights,
    {
        &self.weights
    }

    fn net(&self, inputs: &Vec<S>) -> (r: S)
        requires
            inputs@.len() == self@.weights.len(),
        ensures
            r == net_input(self@, inputs@),
    {
        let n = inputs.len();
        let mut acc = S::zero();
        let mut i: usize = 0;
        while i < n
            invariant
                n == inputs@.len(),
                n == self@.weights.len(),
                i <= n,
                acc == dot_upto(self@.weights, inputs@, i as nat),
            decreases n - i,
        {
            let term = inputs[i].mul(&self.weights[i]);
            acc = acc.add(&term);
            i = i + 1;
        }
        self.bias.add(&acc)
    }

    /// The unit's output on `inputs`, which must have one entry per weight.
    pub fn predict(&self, inputs: &Vec<S>) -> (r: Result<S, UnitError>)
        ensures
            inputs@.len() == self@.weights.len() ==> r == Ok::<S, UnitError>(net_input(self@, inputs@)),
            inputs@.len() != self@.weights.len() ==> r == Err::<S, UnitError>(UnitError::InvalidInputLength),
    {
        if inputs.len() != self.weights.len() {
            return Err(UnitError::InvalidInputLength);
        }
        Ok(self.net(inputs))
    }

    fn correct(&mut self, inputs: &Vec<S>, error: S)
        requires
            inputs@.len() == old(self)@.weights.len(),
        ensures
            final(self)@ == corrected(old(self)@, inputs@, error),
    {
        let c = error.correction();
        let n = self.weights.len();
        let ghost w0 = self@.weights;
        let ghost b0 = self@.bias;
        let mut i: usize = 0;
        while i < n
            invariant
                n == inputs@.len(),
                n == w0.len(),
                i <= n,
                c == error.correction_spec(),
                self@.weights.len() == n,
                self@.bias == add_times(b0, c, i as nat),
                forall|j: int| 0 <= j < i ==> self@.weights[j] == w0[j].add_spec(c.mul_spec(inputs@[j])),
                forall|j: int| i <= j < n ==> self@.weights[j] == w0[j],
            decreases n - i,
        {
            let w = self.weights[i];
            let step = c.mul(&inputs[i]);
            self.weights.set(i, w.add(&step));
            self.bias = self.bias.add(&c);
            i = i + 1;
        }
        assert(self@.weights =~= corrected(Params { bias: b0, weights: w0 }, inputs@, error).weights);
    }

    /// Whether `examples` and `targets` suit this unit: first one target per
    /// example, then one entry per weight in every example.
    fn check_shapes(&self, examples: &Vec<Vec<S>>, targets: &Vec<S>) -> (r: Result<(), UnitError>)
        ensures
            r == shape_check(self@.weights.len(), examples@, targets@),
    {
        if examples.len() != targets.len() {
            return Err(UnitError::InvalidTargetCount);
        }
        let n = self.weights.len();
        let mut i: usize = 0;
        while i < examples.len()
            invariant
                n == self@.weights.len(),
                examples@.len() == targets@.len(),
                i <= examples@.len(),
                all_of_length(examples@.subrange(0, i as int), n as nat),
            decreases examples@.len() - i,
        {
            if examples[i].len() != n {
                assert(examples@[i as int]@.len() != n);
                return Err(UnitError::InvalidInputLength);
            }
            i = i + 1;
        }
        assert(examples@.subrange(0, i as int) =~= examples@);
        Ok(())
    }

    /// Trains the unit online, starting from its current weights and bias.
    ///
    /// For each of `iterations` epochs every example is visited in order: its
    /// error (target minus output) is recorded and, unless it is exactly zero,
    /// the weights and bias are corrected by it. The first exactly zero error
    /// ends training at once.
    ///
    /// Refused, with nothing changed: a number of targets other than the
    /// number of examples, then an example without one entry per weight.
    pub fn train(&mut self, examples: &Vec<Vec<S>>, targets: &Vec<S>, iterations: u32) -> (r: Result<TrainingReport<S>, UnitError>)
        ensures
            shape_check(old(self)@.weights.len(), examples@, targets@) is Err ==> {
                &&& r == Err::<TrainingReport<S>, UnitError>(shape_check(old(self)@.weights.len(), examples@, targets@)->Err_0)
                &&& final(self)@ == old(self)@
            },
            shape_check(old(self)@.weights.len(), examples@, targets@) is Ok ==> {
                &&& r is Ok
                &&& final(self)@.weights.len() == old(self)@.weights.len()
                &&& trained(old(self)@, examples_view(examples@), targets@, iterations as nat,
                        r->Ok_0.errors@, r->Ok_0.converged_epoch, final(self)@)
            },
    {
        let shapes = self.check_shapes(examples, targets);
        if let Err(e) = shapes {
            return Err(e);
        }
        let n = examples.len();
        let ghost p0 = self@;
        let ghost xs = examples_view(examples@);
        let ghost ts = targets@;
        let ghost dim = self@.weights.len();
        let mut errors: Vec<S> = Vec::new();
        let mut epoch: u32 = 0;
        while epoch < iterations
            invariant
                n == examples@.len(),
                n == targets@.len(),
                n == xs.len(),
                xs == examples_view(examples@),
                ts == targets@,
                all_of_length(examples@, dim),
                dim == old(self)@.weights.len(),
                p0 == old(self)@,
                shape_check(dim, examples@, targets@) is Ok,
                self@.weights.len() == dim,
                epoch <= iterations,
                errors@.len() == epoch as int * n,
                forall|j: int| 0 <= j < errors@.len() ==> errors@[j] == #[trigger] error_at(p0, xs, ts, j as nat),
                no_exact_hit_before(p0, xs, ts, errors@.len()),
                self@ == params_after(p0, xs, ts, errors@.len()),
            decreases iterations - epoch,
        {
            let mut i: usize = 0;
            while i < n
                invariant
                    n == examples@.len(),
                    n == targets@.len(),
                    n == xs.len(),
                    xs == examples_view(examples@),
                    ts == targets@,
                    all_of_length(examples@, dim),
                    dim == old(self)@.weights.len(),
                    p0 == old(self)@,
                    shape_check(dim, examples@, targets@) is Ok,
                dim == old(self)@.weights.len(),
                p0 == old(self)@,
                shape_check(dim, examples@, targets@) is Ok,
                    self@.weights.len() == dim,
                    epoch < iterations,
                    i <= n,
                    errors@.len() == epoch as int * n + i,
                    forall|j: int| 0 <= j < errors@.len() ==> errors@[j] == #[trigger] error_at(p0, xs, ts, j as nat),
                    no_exact_hit_before(p0, xs, ts, errors@.len()),
                    self@ == params_after(p0, xs, ts, errors@.len()),
                decreases n - i,
            {
                let ghost s = errors@.len();
                proof {
                    lemma_fundamental_div_mod_converse(s as int, n as int, epoch as int, i as int);
                    assert(xs[i as int] == examples@[i as int]@);
                }
                let x = &examples[i];
                let out = self.net(x);
                let err = targets[i].sub(&out);
                errors.push(err);
                if err.is_zero() {
                    proof {
                        assert(epoch as int * n + i < iterations as int * n) by (nonlinear_arith)
                            requires epoch < iterations, i < n;
                    }
                    return Ok(TrainingReport { errors, converged_epoch: Some(epoch) });
                }
                self.correct(x, err);
                i = i + 1;
            }
            proof {
                assert((epoch + 1) as int * n == epoch as int * n + n) by (nonlinear_arith);
            }
            epoch = epoch + 1;
        }
        Ok(TrainingReport { errors, converged_epoch: None })
    }

    /// Trains the unit from fresh parameters: the bias and every weight are
    /// first replaced by values from `S::draw`, whatever they were, and then
    /// training runs as in `train`. On a refused call nothing changes.
    pub fn fit(&mut self, examples: &Vec<Vec<S>>, targets: &Vec<S>, iterations: u32) -> (r: Result<TrainingReport<S>, UnitError>)
        ensures
            shape_check(old(self)@.weights.len(), examples@, targets@) is Err ==> {
                &&& r == Err::<TrainingReport<S>, UnitError>(shape_check(old(self)@.weights.len(), examples@, targets@)->Err_0)
                &&& final(self)@ == old(self)@
            },
            shape_check(old(self)@.weights.len(), examples@, targets@) is Ok ==> {
                &&& r is Ok
                &&& final(self)@.weights.len() == old(self)@.weights.len()
                &&& exists|p0: Params<S>| #![trigger p0.weights] {
                    &&& p0.weights.len() == old(self)@.weights.len()
                    &&& trained(p0, examples_view(examples@), targets@, iterations as nat,
                            r->Ok_0.errors@, r->Ok_0.converged_epoch, final(self)@)
                }
            },
    {
        let shapes = self.check_shapes(examples, targets);
        if let Err(e) = shapes {
            return Err(e);
        }
        self.bias = S::draw();
        let n = self.weights.len();
        let ghost dim = self@.weights.len();
        let mut i: usize = 0;
        while i < n
            invariant
                n == dim,
                self@.weights.len() == dim,
                i <= n,
            decreases n - i,
        {
            self.weights.set(i, S::draw());
            i = i + 1;
        }
        self.train(examples, targets, iterations)
    }
}

/// The verdict on a training set for a unit of dimension `dim`.
pub open spec fn shape_check<S>(dim: nat, examples: Seq<Vec<S>>, targets: Seq<S>) -> Result<(), UnitError> {
    if examples.len() != targets.len() {
        Err(UnitError::InvalidTargetCount)
    } else if !all_of_length(examples, dim) {
        Err(UnitError::InvalidInputLength)
    } else {
        Ok(())
    }
}

} // verus!
