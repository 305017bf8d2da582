//! The execution engine's shape layer: at load time each declared dynamic
//! axis of each input tensor is resolved to a `MinOptMax` range copied from
//! the configuration; a dry run validates the optimal shape once; and every
//! real batch is checked against the negotiated ranges before the backend
//! may execute it. The numeric backend itself lives outside the library: a
//! caller validates a batch here and only then hands the tensors over.

use vstd::prelude::*;
use crate::error::{ConfigIssue, Error};
use crate::options::Options;
use crate::shape::MinOptMax;

verus! {

/// The shape of one batch: entry `[i][a]` is the runtime extent of axis `a`
/// of input tensor `i`, as a mathematical sequence.
pub open spec fn dims_view(shapes: Seq<Vec<i64>>) -> Seq<Seq<i64>> {
    shapes.map(|i: int, row: Vec<i64>| row@)
}

/// Whether the configuration's axis map binds every axis of at least one
/// input: non-empty, no empty row, no unbound position.
pub open spec fn axis_map_complete(ixx: Seq<Seq<Option<MinOptMax>>>) -> bool {
    &&& ixx.len() > 0
    &&& forall|i: int| 0 <= i < ixx.len() ==> (#[trigger] ixx[i]).len() > 0
    &&& forall|i: int, a: int|
        0 <= i < ixx.len() && 0 <= a < ixx[i].len() ==> (#[trigger] ixx[i][a]) is Some
}

/// A spot where the axis map fails to bind an axis: either input `i` has no
/// axes at all (reported as axis 0) or position `a` of its row is unbound.
pub open spec fn axis_map_missing_at(ixx: Seq<Seq<Option<MinOptMax>>>, i: int, a: int) -> bool {
    0 <= i < ixx.len() && {
        ||| (ixx[i].len() == 0 && a == 0)
        ||| (0 <= a < ixx[i].len() && ixx[i][a] is None)
    }
}

/// The engine's resolved shape state. Once built, the per-input list of
/// ranges is fixed for the engine's lifetime.
#[derive(Debug, Clone)]
pub struct OrtEngine {
    inputs_minoptmax: Vec<Vec<MinOptMax>>,
}

impl OrtEngine {
    /// The resolved ranges: entry `[i][a]` is the negotiated range of axis
    /// `a` of input tensor `i`.
    pub closed spec fn inputs(&self) -> Seq<Seq<MinOptMax>> {
        self.inputs_minoptmax@.map(|i: int, row: Vec<MinOptMax>| row@)
    }

    /// Validity: every resolved range is a well-formed interval.
    pub open spec fn wf(&self) -> bool {
        forall|i: int, a: int|
            0 <= i < self.inputs().len() && 0 <= a < self.inputs()[i].len()
                ==> (#[trigger] self.inputs()[i][a]).wf()
    }

    /// Row `i` of `shapes` matches the engine's expectation for input `i`:
    /// same rank, every extent inside its negotiated `[min, max]`.
    pub open spec fn row_ok(&self, shapes: Seq<Seq<i64>>, i: int) -> bool {
        &&& shapes[i].len() == self.inputs()[i].len()
        &&& forall|a: int|
            0 <= a < shapes[i].len()
                ==> (#[trigger] self.inputs()[i][a]).spec_contains(shapes[i][a])
    }

    /// A batch conforms when it brings one tensor per declared input and
    /// every row matches.
    pub open spec fn conforms(&self, shapes: Seq<Seq<i64>>) -> bool {
        &&& shapes.len() == self.inputs().len()
        &&& forall|i: int| 0 <= i < shapes.len() ==> self.row_ok(shapes, i)
    }

    /// Loads the engine against a configuration: copies the declared range
    /// of every axis of every input out of the axis map. Fails with
    /// `ConfigurationError` when the map is empty or leaves an axis unbound,
    /// naming the first unbound spot in declaration order.
    pub fn new(options: &Options) -> (r: Result<OrtEngine, Error>)
        requires
            options.wf(),
        ensures
            r is Ok <==> axis_map_complete(options.ixx()),
            r matches Ok(e) ==> {
                &&& e.wf()
                &&& e.inputs().len() == options.ixx().len()
                &&& forall|i: int|
                    0 <= i < e.inputs().len()
                        ==> (#[trigger] e.inputs()[i]).len() == options.ixx()[i].len()
                &&& forall|i: int, a: int|
                    0 <= i < e.inputs().len() && 0 <= a < e.inputs()[i].len()
                        ==> Some(#[trigger] e.inputs()[i][a]) == options.ixx()[i][a]
            },
            options.ixx().len() == 0 ==> r == Result::<OrtEngine, Error>::Err(
                Error::ConfigurationError(ConfigIssue::EmptyAxisMap),
            ),
            options.ixx().len() > 0 && r is Err ==> (r->Err_0 matches Error::ConfigurationError(
                ConfigIssue::MissingAxis { input, axis },
            ) && axis_map_missing_at(options.ixx(), input as int, axis as int) && forall|i2: int,
                a2: int|
                axis_map_missing_at(options.ixx(), i2, a2) && (i2 < input || (i2 == input && a2
                    < axis)) ==> false),
    {
        let ghost ixx = options.ixx();
        if options.model_ixx.len() == 0 {
            return Err(Error::ConfigurationError(ConfigIssue::EmptyAxisMap));
        }
        let mut out: Vec<Vec<MinOptMax>> = Vec::new();
        let mut i: usize = 0;
        while i < options.model_ixx.len()
            invariant
                options.wf(),
                ixx == options.ixx(),
                i <= ixx.len(),
                out@.len() == i,
                forall|j: int| 0 <= j < i ==> (#[trigger] ixx[j]).len() > 0,
                forall|j: int, a: int|
                    0 <= j < i && 0 <= a < ixx[j].len() ==> (#[trigger] ixx[j][a]) is Some,
                forall|j: int| 0 <= j < i ==> (#[trigger] out@[j]@).len() == ixx[j].len(),
                forall|j: int, a: int|
                    0 <= j < i && 0 <= a < ixx[j].len() ==> Some(#[trigger] out@[j]@[a]) == ixx[j][a],
            decreases ixx.len() - i,
        {
            let row = &options.model_ixx[i];
            proof {
                assert(row@ == ixx[i as int]);
            }
            if row.len() == 0 {
                proof {
                    assert(axis_map_missing_at(ixx, i as int, 0));
                    assert(!axis_map_complete(ixx));
                    assert forall|i2: int, a2: int|
                        axis_map_missing_at(ixx, i2, a2) && (i2 < i || (i2 == i && a2
                            < 0)) implies false by {
                        assert(ixx[i2].len() > 0);
                        assert(0 <= a2 < ixx[i2].len() && ixx[i2][a2] is Some);
                    }
                }
                return Err(Error::ConfigurationError(ConfigIssue::MissingAxis {
                    input: i,
                    axis: 0,
                }));
            }
            let mut orow: Vec<MinOptMax> = Vec::new();
            let mut a: usize = 0;
            while a < row.len()
                invariant
                    ixx == options.ixx(),
                    0 <= i < ixx.len(),
                    row@ == ixx[i as int],
                    a <= row@.len(),
                    orow@.len() == a,
                    forall|j: int| 0 <= j < i ==> (#[trigger] ixx[j]).len() > 0,
                    forall|j: int, b: int|
                        0 <= j < i && 0 <= b < ixx[j].len() ==> (#[trigger] ixx[j][b]) is Some,
                    forall|b: int| 0 <= b < a ==> (#[trigger] ixx[i as int][b]) is Some,
                    forall|b: int|
                        0 <= b < a ==> Some(#[trigger] orow@[b]) == ixx[i as int][b],
                decreases row@.len() - a,
            {
                match row[a] {
                    Some(r) => {
                        orow.push(r);
                    },
                    None => {
                        proof {
                            assert(axis_map_missing_at(ixx, i as int, a as int));
                            assert(!axis_map_complete(ixx));
                            assert forall|i2: int, a2: int|
                                axis_map_missing_at(ixx, i2, a2) && (i2 < i || (i2 == i && a2
                                    < a)) implies false by {
                                if i2 < i {
                                    assert(ixx[i2].len() > 0);
                                    assert(0 <= a2 < ixx[i2].len() && ixx[i2][a2] is Some);
                                } else {
                                    assert(ixx[i2].len() > 0);
                                    assert(0 <= a2 < a ==> ixx[i as int][a2] is Some);
                                }
                            }
                        }
                        return Err(Error::ConfigurationError(ConfigIssue::MissingAxis {
                            input: i,
                            axis: a,
                        }));
                    },
                }
                a += 1;
            }
            out.push(orow);
            i += 1;
        }
        let e = OrtEngine { inputs_minoptmax: out };
        proof {
            assert forall|j: int, a: int|
                0 <= j < e.inputs().len() && 0 <= a < e.inputs()[j].len() implies (
            #[trigger] e.inputs()[j][a]).wf() by {
                assert(e.inputs()[j] == out@[j]@);
                assert(Some(e.inputs()[j][a]) == ixx[j][a]);
            }
        }
        Ok(e)
    }

    /// The resolved ranges, per input, per axis, in declaration order.
    pub fn inputs_minoptmax(&self) -> (r: &Vec<Vec<MinOptMax>>)
        ensures
            dims_ranges_view(r@) == self.inputs(),
    {
        &self.inputs_minoptmax
    }

    /// Checks one batch against the negotiated ranges: succeeds exactly when
    /// the batch brings one tensor per declared input and every axis extent
    /// of every tensor lies inside its `[min, max]`. Any failure is a
    /// `ShapeMismatch` naming the offending input and axis: for a wrong
    /// tensor count, the first input one side lacks (axis 0); for a wrong
    /// rank, the first axis one side lacks; for an extent out of range, the
    /// first such axis — always the first offence in declaration order.
    pub fn validate_shapes(&self, shapes: &Vec<Vec<i64>>) -> (r: Result<(), Error>)
        ensures
            r is Ok <==> self.conforms(dims_view(shapes@)),
            shapes@.len() != self.inputs().len() ==> r == Result::<(), Error>::Err(
                Error::ShapeMismatch {
                    input: (if shapes@.len() < self.inputs().len() {
                        shapes@.len() as usize
                    } else {
                        self.inputs().len() as usize
                    }),
                    axis: 0,
                },
            ),
            shapes@.len() == self.inputs().len() && r is Err ==> (r->Err_0
                matches Error::ShapeMismatch { input, axis } && {
                let sv = dims_view(shapes@);
                let i = input as int;
                let a = axis as int;
                &&& 0 <= i < sv.len()
                &&& forall|j: int| 0 <= j < i ==> self.row_ok(sv, j)
                &&& (sv[i].len() != self.inputs()[i].len() ==> a == vstd::math::min(
                    sv[i].len() as int,
                    self.inputs()[i].len() as int,
                ))
                &&& (sv[i].len() == self.inputs()[i].len() ==> {
                    &&& 0 <= a < sv[i].len()
                    &&& !self.inputs()[i][a].spec_contains(sv[i][a])
                    &&& forall|b: int|
                        0 <= b < a ==> (#[trigger] self.inputs()[i][b]).spec_contains(sv[i][b])
                })
            }),
    {
        let ghost sv = dims_view(shapes@);
        if shapes.len() != self.inputs_minoptmax.len() {
            let named: usize = if shapes.len() < self.inputs_minoptmax.len() {
                shapes.len()
            } else {
                self.inputs_minoptmax.len()
            };
            return Err(Error::ShapeMismatch { input: named, axis: 0 });
        }
        let mut i: usize = 0;
        while i < shapes.len()
            invariant
                sv == dims_view(shapes@),
                sv.len() == self.inputs().len(),
                i <= sv.len(),
                forall|j: int| 0 <= j < i ==> self.row_ok(sv, j),
            decreases sv.len() - i,
        {
            let row = &shapes[i];
            let expect = &self.inputs_minoptmax[i];
            proof {
                assert(row@ == sv[i as int]);
                assert(expect@ == self.inputs()[i as int]);
            }
            if row.len() != expect.len() {
                let named: usize = if row.len() < expect.len() {
                    row.len()
                } else {
                    expect.len()
                };
                proof {
                    assert(!self.row_ok(sv, i as int));
                    assert(!self.conforms(sv));
                }
                return Err(Error::ShapeMismatch { input: i, axis: named });
            }
            let mut a: usize = 0;
            while a < row.len()
                invariant
                    sv == dims_view(shapes@),
                    0 <= i < sv.len(),
                    sv.len() == self.inputs().len(),
                    row@ == sv[i as int],
                    expect@ == self.inputs()[i as int],
                    row@.len() == expect@.len(),
                    a <= row@.len(),
                    forall|j: int| 0 <= j < i ==> self.row_ok(sv, j),
                    forall|b: int|
                        0 <= b < a ==> (#[trigger] self.inputs()[i as int][b]).spec_contains(
                            sv[i as int][b],
                        ),
                decreases row@.len() - a,
            {
                if !expect[a].contains(row[a]) {
                    proof {
                        assert(!self.inputs()[i as int][a as int].spec_contains(
                            sv[i as int][a as int],
                        ));
                        assert(!self.row_ok(sv, i as int));
                        assert(!self.conforms(sv));
                    }
                    return Err(Error::ShapeMismatch { input: i, axis: a });
                }
                a += 1;
            }
            i += 1;
        }
        Ok(())
    }

    /// Whether a dry run of this engine succeeds: the synthetic batch built
    /// from every axis's optimal extent conforms to the negotiated ranges.
    pub open spec fn dry_run_verdict(&self) -> bool {
        self.conforms(self.opt_shape())
    }

    /// The synthetic batch shape a dry run uses: every axis at its optimal
    /// extent.
    pub open spec fn opt_shape(&self) -> Seq<Seq<i64>> {
        self.inputs().map(|i: int, row: Seq<MinOptMax>| row.map(|a: int, r: MinOptMax| r.spec_opt()))
    }

    /// Validates the engine once with a synthetic batch of every input's
    /// optimal shape — the validation half of the dry-run protocol; the
    /// caller then runs the same synthetic batch through its backend to
    /// force any lazy execution-plan compilation before real data flows.
    /// On a well-formed engine it always succeeds, and it borrows the
    /// engine immutably, so no call can change any observable state.
    pub fn dry_run(&self) -> (r: Result<(), Error>)
        requires
            self.wf(),
        ensures
            r is Ok,
    {
        let mut shapes: Vec<Vec<i64>> = Vec::new();
        let mut i: usize = 0;
        while i < self.inputs_minoptmax.len()
            invariant
                i <= self.inputs().len(),
                shapes@.len() == i,
                forall|j: int| 0 <= j < i ==> (#[trigger] shapes@[j]@) == self.opt_shape()[j],
            decreases self.inputs().len() - i,
        {
            let row = &self.inputs_minoptmax[i];
            proof {
                assert(row@ == self.inputs()[i as int]);
            }
            let mut srow: Vec<i64> = Vec::new();
            let mut a: usize = 0;
            while a < row.len()
                invariant
                    0 <= i < self.inputs().len(),
                    row@ == self.inputs()[i as int],
                    a <= row@.len(),
                    srow@.len() == a,
                    forall|b: int|
                        0 <= b < a ==> #[trigger] srow@[b] == self.inputs()[i as int][b].spec_opt(),
                decreases row@.len() - a,
            {
                srow.push(row[a].opt());
                a += 1;
            }
            proof {
                assert(srow@ =~= self.opt_shape()[i as int]);
            }
            shapes.push(srow);
            i += 1;
        }
        proof {
            lemma_dry_run_succeeds(self);
            assert(dims_view(shapes@) =~= self.opt_shape());
        }
        match self.validate_shapes(&shapes) {
            Ok(()) => Ok(()),
            Err(_) => Err(Error::ShapeNegotiationError),
        }
    }
}

/// The resolved ranges of an engine as a mathematical sequence of rows.
pub open spec fn dims_ranges_view(rows: Seq<Vec<MinOptMax>>) -> Seq<Seq<MinOptMax>> {
    rows.map(|i: int, row: Vec<MinOptMax>| row@)
}

/// Dry-run idempotence: the dry-run verdict is a pure function of the
/// engine's resolved ranges, and on a well-formed engine it is always
/// success — so running the validation pass any number of times succeeds
/// every time; and since `dry_run` borrows the engine immutably, no call
/// can change any observable state.
pub proof fn lemma_dry_run_succeeds(e: &OrtEngine)
    requires
        e.wf(),
    ensures
        e.dry_run_verdict(),
{
    assert(e.opt_shape().len() == e.inputs().len());
    assert forall|i: int| 0 <= i < e.opt_shape().len() implies e.row_ok(e.opt_shape(), i) by {
        assert(e.opt_shape()[i].len() == e.inputs()[i].len());
        assert forall|a: int| 0 <= a < e.opt_shape()[i].len() implies (
        #[trigger] e.inputs()[i][a]).spec_contains(e.opt_shape()[i][a]) by {
            assert(e.inputs()[i][a].wf());
            assert(e.opt_shape()[i][a] == e.inputs()[i][a].spec_opt());
        }
    }
}

} // verus!
