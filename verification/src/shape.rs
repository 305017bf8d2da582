//! `MinOptMax`: a closed interval triple describing one tensor axis's legal
//! and default runtime extent. The *optimal* value sizes the dry-run tensor
//! and the default batch/height/width; the `[min, max]` bounds are what the
//! backend is told at load time so it can cache execution plans for the whole
//! legal range.

use vstd::prelude::*;
use crate::error::{ConfigIssue, Error};

verus! {

/// One dynamic axis's legal extent range. Invariant: `1 <= min <= opt <= max`.
/// The fields are private so that every value in circulation went through a
/// validating constructor.
#[derive(Debug, Clone, Copy)]
pub struct MinOptMax {
    min: i64,
    opt: i64,
    max: i64,
}

impl MinOptMax {
    /// The lower bound of the legal extent range.
    pub closed spec fn spec_min(&self) -> i64 {
        self.min
    }

    /// The default (dry-run) extent.
    pub closed spec fn spec_opt(&self) -> i64 {
        self.opt
    }

    /// The upper bound of the legal extent range.
    pub closed spec fn spec_max(&self) -> i64 {
        self.max
    }

    /// Validity: the triple is an ordered interval of extents of at least 1.
    pub open spec fn wf(&self) -> bool {
        1 <= self.spec_min() <= self.spec_opt() <= self.spec_max()
    }

    /// Whether `extent` is a legal runtime extent for this axis.
    pub open spec fn spec_contains(&self, extent: i64) -> bool {
        self.spec_min() <= extent <= self.spec_max()
    }

    /// Builds a range from an explicit triple; rejects any triple that is not
    /// an ordered interval of extents of at least 1.
    pub fn new(min: i64, opt: i64, max: i64) -> (r: Result<MinOptMax, Error>)
        ensures
            r is Ok <==> 1 <= min <= opt <= max,
            r is Ok ==> {
                &&& r->Ok_0.spec_min() == min
                &&& r->Ok_0.spec_opt() == opt
                &&& r->Ok_0.spec_max() == max
            },
            r is Err ==> r->Err_0 == Error::ConfigurationError(
                ConfigIssue::InvalidShapeRange { min, opt, max },
            ),
    {
        if 1 <= min && min <= opt && opt <= max {
            Ok(MinOptMax { min, opt, max })
        } else {
            Err(Error::ConfigurationError(ConfigIssue::InvalidShapeRange { min, opt, max }))
        }
    }

    /// Builds a degenerate range from a single scalar (`min = opt = max`),
    /// the common case of a statically known extent. Scalars below 1 are
    /// lifted to 1, the smallest legal extent.
    pub fn from_scalar(v: i64) -> (r: MinOptMax)
        ensures
            r.wf(),
            v >= 1 ==> r.spec_min() == v && r.spec_opt() == v && r.spec_max() == v,
            v < 1 ==> r.spec_min() == 1 && r.spec_opt() == 1 && r.spec_max() == 1,
    {
        let w: i64 = if v < 1 { 1 } else { v };
        MinOptMax { min: w, opt: w, max: w }
    }

    /// The lower bound of the legal extent range.
    pub fn min(&self) -> (r: i64)
        ensures
            r == self.spec_min(),
    {
        self.min
    }

    /// The default (dry-run) extent.
    pub fn opt(&self) -> (r: i64)
        ensures
            r == self.spec_opt(),
    {
        self.opt
    }

    /// The upper bound of the legal extent range.
    pub fn max(&self) -> (r: i64)
        ensures
            r == self.spec_max(),
    {
        self.max
    }

    /// Whether `extent` is a legal runtime extent for this axis.
    pub fn contains(&self, extent: i64) -> (r: bool)
        ensures
            r == self.spec_contains(extent),
    {
        self.min <= extent && extent <= self.max
    }
}

} // verus!
