//! Immutable configuration bundle: model artifact location, one shape range
//! per dynamic axis per input tensor, preprocessing parameters, confidence
//! thresholds and output flags. Assembled once through a chain of pure
//! `with_*` transformations, then shared read-only by the engine, the data
//! loader and the post-processors.
//!
//! Per-channel mean/std and confidence thresholds are carried as fixed-point
//! thousandths (a caller's 0.485 is written 485): the library never computes
//! with them, it only hands them to the preprocessing backend.

use vstd::prelude::*;
use crate::shape::MinOptMax;

verus! {

/// How a decoded image is brought to the model's input height and width.
#[derive(Debug, Clone, Copy, PartialEq, Eq, Structural)]
pub enum ResizeMode {
    /// Stretch to the exact target dimensions, ignoring aspect ratio.
    Stretch,
    /// Scale to fit inside the target box preserving aspect ratio, and pad
    /// the remainder (letterbox) with a fixed fill value.
    FitAdaptive,
    /// Resize to the exact target dimensions.
    FitExact,
}

/// The configuration consumed by the engine, the data loader and the
/// post-processors. `model_ixx` is the ordered axis map: entry `[i][a]` is
/// the declared shape range of axis `a` of input tensor `i`, or `None` where
/// that axis was never bound.
#[derive(Debug, Clone)]
pub struct Options {
    pub onnx_path: String,
    pub model_ixx: Vec<Vec<Option<MinOptMax>>>,
    pub resize_mode: ResizeMode,
    pub resize_filter: String,
    pub image_mean: Vec<u32>,
    pub image_std: Vec<u32>,
    pub normalize: bool,
    pub confs: Vec<u32>,
    pub saveout: Option<String>,
    pub profile: bool,
}

impl Options {
    /// The axis map as a mathematical sequence of rows.
    pub open spec fn ixx(&self) -> Seq<Seq<Option<MinOptMax>>> {
        self.model_ixx@.map(|i: int, row: Vec<Option<MinOptMax>>| row@)
    }

    /// Validity: every bound range in the axis map is a well-formed interval.
    pub open spec fn wf(&self) -> bool {
        forall|i: int, a: int|
            0 <= i < self.ixx().len() && 0 <= a < self.ixx()[i].len()
                ==> (#[trigger] self.ixx()[i][a] matches Some(r) ==> r.wf())
    }

    /// All fields that `with_model_ixx` leaves untouched.
    pub open spec fn same_but_ixx(&self, other: &Options) -> bool {
        &&& self.onnx_path == other.onnx_path
        &&& self.resize_mode == other.resize_mode
        &&& self.resize_filter == other.resize_filter
        &&& self.image_mean == other.image_mean
        &&& self.image_std == other.image_std
        &&& self.normalize == other.normalize
        &&& self.confs == other.confs
        &&& self.saveout == other.saveout
        &&& self.profile == other.profile
    }

    /// Sets the model artifact location.
    pub fn with_model(self, path: &str) -> (res: Options)
        ensures
            res.onnx_path@ == path@,
            res.model_ixx == self.model_ixx,
            res.same_but_ixx(&Options { onnx_path: res.onnx_path, ..self }),
    {
        Options { onnx_path: path.to_owned(), ..self }
    }

    /// Binds the shape range of axis `axis` of input tensor `input`,
    /// growing the axis map as needed (new rows and new positions start
    /// unbound) and overriding any earlier binding of the same axis.
    pub fn with_model_ixx(self, input: usize, axis: usize, r: MinOptMax) -> (res: Options)
        requires
            input < usize::MAX,
            axis < usize::MAX,
        ensures
            res.same_but_ixx(&self),
            res.ixx().len() == (if self.ixx().len() > input {
                self.ixx().len() as int
            } else {
                input + 1
            }),
            forall|j: int|
                0 <= j < res.ixx().len() && j != input ==> res.ixx()[j] == (
                if j < self.ixx().len() {
                    self.ixx()[j]
                } else {
                    Seq::<Option<MinOptMax>>::empty()
                }),
            res.ixx()[input as int].len() == (if input < self.ixx().len()
                && self.ixx()[input as int].len() > axis {
                self.ixx()[input as int].len() as int
            } else {
                axis + 1
            }),
            res.ixx()[input as int][axis as int] == Some(r),
            forall|k: int|
                0 <= k < res.ixx()[input as int].len() && k != axis
                    ==> res.ixx()[input as int][k] == (
                if input < self.ixx().len() && k < self.ixx()[input as int].len() {
                    self.ixx()[input as int][k]
                } else {
                    None::<MinOptMax>
                }),
    {
        let Options {
            onnx_path,
            mut model_ixx,
            resize_mode,
            resize_filter,
            image_mean,
            image_std,
            normalize,
            confs,
            saveout,
            profile,
        } = self;
        let ghost orig: Seq<Seq<Option<MinOptMax>>> = model_ixx@.map(
            |i: int, row: Vec<Option<MinOptMax>>| row@,
        );
        while model_ixx.len() <= input
            invariant
                input < usize::MAX,
                model_ixx@.len() >= orig.len(),
                model_ixx@.len() <= input + 1 || model_ixx@.len() == orig.len(),
                forall|j: int|
                    0 <= j < model_ixx@.len() ==> #[trigger] model_ixx@[j]@ == (
                    if j < orig.len() {
                        orig[j]
                    } else {
                        Seq::<Option<MinOptMax>>::empty()
                    }),
            decreases input + 1 - model_ixx@.len(),
        {
            model_ixx.push(Vec::new());
        }
        let ghost orig_row: Seq<Option<MinOptMax>> = model_ixx@[input as int]@;
        let ghost outer_len: int = model_ixx@.len() as int;
        while model_ixx[input].len() <= axis
            invariant
                model_ixx@.len() == outer_len,
                input < model_ixx@.len(),
                axis < usize::MAX,
                model_ixx@[input as int]@.len() >= orig_row.len(),
                model_ixx@[input as int]@.len() <= axis + 1
                    || model_ixx@[input as int]@.len() == orig_row.len(),
                forall|j: int|
                    0 <= j < model_ixx@.len() && j != input
                        ==> #[trigger] model_ixx@[j]@ == (
                        if j < orig.len() {
                            orig[j]
                        } else {
                            Seq::<Option<MinOptMax>>::empty()
                        }),
                forall|k: int|
                    0 <= k < model_ixx@[input as int]@.len()
                        ==> #[trigger] model_ixx@[input as int]@[k] == (
                        if k < orig_row.len() {
                            orig_row[k]
                        } else {
                            None::<MinOptMax>
                        }),
            decreases axis + 1 - model_ixx@[input as int]@.len(),
        {
            model_ixx[input].push(None);
        }
        model_ixx[input][axis] = Some(r);
        let res = Options {
            onnx_path,
            model_ixx,
            resize_mode,
            resize_filter,
            image_mean,
            image_std,
            normalize,
            confs,
            saveout,
            profile,
        };
        proof {
            assert forall|j: int| 0 <= j < res.ixx().len() && j != input implies res.ixx()[j] == (
                if j < orig.len() {
                    orig[j]
                } else {
                    Seq::<Option<MinOptMax>>::empty()
                }) by {
                assert(res.ixx()[j] == res.model_ixx@[j]@);
            }
            assert(res.ixx()[input as int] == res.model_ixx@[input as int]@);
        }
        res
    }

    /// Sets the resize policy.
    pub fn with_resize_mode(self, mode: ResizeMode) -> (res: Options)
        ensures
            res == (Options { resize_mode: mode, ..self }),
    {
        Options { resize_mode: mode, ..self }
    }

    /// Selects the interpolation filter of the resize backend, by name.
    pub fn with_resize_filter(self, filter: &str) -> (res: Options)
        ensures
            res.resize_filter@ == filter@,
            res == (Options { resize_filter: res.resize_filter, ..self }),
    {
        Options { resize_filter: filter.to_owned(), ..self }
    }

    /// Sets the per-channel normalization means, in thousandths.
    pub fn with_image_mean(self, mean: &[u32]) -> (res: Options)
        ensures
            res.image_mean@ == mean@,
            res == (Options { image_mean: res.image_mean, ..self }),
    {
        Options { image_mean: vstd::slice::slice_to_vec(mean), ..self }
    }

    /// Sets the per-channel normalization standard deviations, in thousandths.
    pub fn with_image_std(self, std_: &[u32]) -> (res: Options)
        ensures
            res.image_std@ == std_@,
            res == (Options { image_std: res.image_std, ..self }),
    {
        Options { image_std: vstd::slice::slice_to_vec(std_), ..self }
    }

    /// Switches channel normalization on or off.
    pub fn with_normalize(self, normalize: bool) -> (res: Options)
        ensures
            res == (Options { normalize, ..self }),
    {
        Options { normalize, ..self }
    }

    /// Sets the per-class confidence thresholds, in thousandths.
    pub fn with_confs(self, confs: &[u32]) -> (res: Options)
        ensures
            res.confs@ == confs@,
            res == (Options { confs: res.confs, ..self }),
    {
        Options { confs: vstd::slice::slice_to_vec(confs), ..self }
    }

    /// Names the directory under which annotated outputs are saved.
    pub fn with_saveout(self, saveout: &str) -> (res: Options)
        ensures
            res.saveout matches Some(s) && s@ == saveout@,
            res == (Options { saveout: res.saveout, ..self }),
    {
        Options { saveout: Some(saveout.to_owned()), ..self }
    }

    /// Switches per-run profiling output on or off.
    pub fn with_profile(self, profile: bool) -> (res: Options)
        ensures
            res == (Options { profile, ..self }),
    {
        Options { profile, ..self }
    }
}

impl Options {
    /// The configuration preset of the GLASS anomaly detection model: one
    /// rank-4 input fixed at `[1, 3, 288, 288]`, adaptive (letterbox)
    /// resize with the CatmullRom filter, and channel normalization with
    /// the usual ImageNet mean and standard deviation (in thousandths).
    /// The model artifact location is left for the caller to set.
    pub fn glass() -> (res: Options)
        ensures
            res.onnx_path@ == Seq::<char>::empty(),
            res.ixx().len() == 1,
            res.ixx()[0].len() == 4,
            res.ixx()[0][0] matches Some(r) && r.spec_min() == 1 && r.spec_opt() == 1
                && r.spec_max() == 1,
            res.ixx()[0][1] matches Some(r) && r.spec_min() == 3 && r.spec_opt() == 3
                && r.spec_max() == 3,
            res.ixx()[0][2] matches Some(r) && r.spec_min() == 288 && r.spec_opt() == 288
                && r.spec_max() == 288,
            res.ixx()[0][3] matches Some(r) && r.spec_min() == 288 && r.spec_opt() == 288
                && r.spec_max() == 288,
            res.resize_mode == ResizeMode::FitAdaptive,
            res.resize_filter@ == "CatmullRom"@,
            res.image_mean@ == seq![485u32, 456u32, 406u32],
            res.image_std@ == seq![229u32, 224u32, 225u32],
            res.normalize == true,
            res.confs@ == Seq::<u32>::empty(),
            res.saveout is None,
            res.profile == false,
            res.wf(),
    {
        let mut mean: Vec<u32> = Vec::new();
        mean.push(485);
        mean.push(456);
        mean.push(406);
        let mut std_: Vec<u32> = Vec::new();
        std_.push(229);
        std_.push(224);
        std_.push(225);
        let res = Options::default()
            .with_model_ixx(0, 0, MinOptMax::from_scalar(1))
            .with_model_ixx(0, 1, MinOptMax::from_scalar(3))
            .with_model_ixx(0, 2, MinOptMax::from_scalar(288))
            .with_model_ixx(0, 3, MinOptMax::from_scalar(288))
            .with_resize_mode(ResizeMode::FitAdaptive)
            .with_resize_filter("CatmullRom")
            .with_image_mean(mean.as_slice())
            .with_image_std(std_.as_slice())
            .with_normalize(true);
        proof {
            assert(mean@ =~= seq![485u32, 456u32, 406u32]);
            assert(std_@ =~= seq![229u32, 224u32, 225u32]);
            assert forall|i: int, a: int|
                0 <= i < res.ixx().len() && 0 <= a < res.ixx()[i].len() implies (
            #[trigger] res.ixx()[i][a] matches Some(r) ==> r.wf()) by {
                assert(i == 0 && 0 <= a < 4);
            }
        }
        res
    }
}

impl Default for Options {
    /// The neutral configuration: no model, an empty axis map, exact resize,
    /// backend-default filter, no normalization, no thresholds, no saving,
    /// no profiling.
    fn default() -> (res: Options)
        ensures
            res.onnx_path@ == Seq::<char>::empty(),
            res.ixx() == Seq::<Seq<Option<MinOptMax>>>::empty(),
            res.resize_mode == ResizeMode::FitExact,
            res.resize_filter@ == Seq::<char>::empty(),
            res.image_mean@ == Seq::<u32>::empty(),
            res.image_std@ == Seq::<u32>::empty(),
            res.normalize == false,
            res.confs@ == Seq::<u32>::empty(),
            res.saveout is None,
            res.profile == false,
            res.wf(),
    {
        let res = Options {
            onnx_path: String::new(),
            model_ixx: Vec::new(),
            resize_mode: ResizeMode::FitExact,
            resize_filter: String::new(),
            image_mean: Vec::new(),
            image_std: Vec::new(),
            normalize: false,
            confs: Vec::new(),
            saveout: None,
            profile: false,
        };
        proof {
            assert(res.ixx() =~= Seq::<Seq<Option<MinOptMax>>>::empty());
        }
        res
    }
}

} // verus!
