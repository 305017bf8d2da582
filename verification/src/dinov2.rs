//! The embedding-extraction and retrieval pipeline's core: variant
//! resolution (which hidden size the model artifact declares), the engine's
//! shape handles for batch/height/width, and the mapping of ranked
//! nearest-neighbour matches back to their source paths. The caller drives
//! the numeric side — decoding, resizing, the forward pass, the vector
//! index — and feeds every outcome back through these functions; scores
//! travel as the raw bit patterns of the caller's 32-bit floating-point
//! values, which the library carries but never computes with.

use vstd::prelude::*;
use vstd::string::StringSliceAdditionalSpecFns;
use crate::engine::{axis_map_complete, dims_ranges_view, OrtEngine};
use crate::error::Error;
use crate::options::Options;
use crate::shape::MinOptMax;

verus! {

/// The distance metric a retrieval session ranks by.
#[derive(Debug, Clone, Copy, PartialEq, Eq, Structural)]
pub enum Metric {
    /// Inner product: higher is better.
    IP,
    /// Squared Euclidean distance: lower is better.
    L2,
    /// Cosine similarity: higher is better.
    Cos,
}

/// The known model variants, by embedding width.
#[derive(Debug, Clone, Copy, PartialEq, Eq, Structural)]
pub enum Model {
    /// The small variant: 384-dimensional embeddings.
    S,
    /// The base variant: 768-dimensional embeddings.
    B,
}

impl Model {
    /// The embedding width this variant produces.
    pub open spec fn spec_hidden_size(&self) -> usize {
        match self {
            Model::S => 384,
            Model::B => 768,
        }
    }

    /// The embedding width this variant produces.
    pub fn hidden_size(&self) -> (r: usize)
        ensures
            r == self.spec_hidden_size(),
    {
        match self {
            Model::S => 384,
            Model::B => 768,
        }
    }
}

/// `needle` occurs in `hay` starting at position `i`.
pub open spec fn is_match_at(hay: Seq<u8>, needle: Seq<u8>, i: int) -> bool {
    &&& 0 <= i
    &&& i + needle.len() <= hay.len()
    &&& hay.subrange(i, i + needle.len()) == needle
}

/// `needle` occurs somewhere in `hay`.
pub open spec fn contains_seq(hay: Seq<u8>, needle: Seq<u8>) -> bool {
    exists|i: int| is_match_at(hay, needle, i)
}

/// Whether `needle` occurs in `hay` starting exactly at `i`.
fn match_at(hay: &[u8], needle: &[u8], i: usize) -> (r: bool)
    requires
        i + needle@.len() <= hay@.len(),
    ensures
        r == is_match_at(hay@, needle@, i as int),
{
    let hl = hay.len();
    let n = needle.len();
    let mut j: usize = 0;
    while j < n
        invariant
            n == needle@.len(),
            hl == hay@.len(),
            i + n <= hl,
            j <= n,
            forall|t: int| 0 <= t < j ==> hay@[i + t] == needle@[t],
        decreases n - j,
    {
        if hay[i + j] != needle[j] {
            proof {
                assert(hay@.subrange(i as int, i + needle@.len())[j as int] == hay@[i + j]);
            }
            return false;
        }
        j += 1;
    }
    proof {
        assert(hay@.subrange(i as int, i + needle@.len()) =~= needle@);
    }
    true
}

/// Whether `needle` occurs anywhere in `hay`.
fn contains_bytes(hay: &[u8], needle: &[u8]) -> (r: bool)
    ensures
        r == contains_seq(hay@, needle@),
{
    if needle.len() > hay.len() {
        proof {
            assert(forall|i: int| !is_match_at(hay@, needle@, i));
        }
        return false;
    }
    if needle.len() == 0 {
        proof {
            assert(hay@.subrange(0, 0) =~= needle@);
            assert(is_match_at(hay@, needle@, 0));
        }
        return true;
    }
    let hl = hay.len();
    let last = hay.len() - needle.len();
    let mut i: usize = 0;
    while i <= last
        invariant
            1 <= needle@.len() <= hay@.len(),
            hl == hay@.len(),
            last == hay@.len() - needle@.len(),
            i <= last + 1,
            forall|t: int| 0 <= t < i ==> !is_match_at(hay@, needle@, t),
        decreases last + 1 - i,
    {
        if match_at(hay, needle, i) {
            return true;
        }
        i += 1;
    }
    proof {
        assert(forall|t: int| t > last ==> !is_match_at(hay@, needle@, t));
    }
    false
}

/// The artifact-name marker of the base variant: the bytes of `b14`.
pub open spec fn marker_b14() -> Seq<u8> {
    seq![98u8, 49u8, 52u8]
}

/// The artifact-name marker of the small variant: the bytes of `s14`.
pub open spec fn marker_s14() -> Seq<u8> {
    seq![115u8, 49u8, 52u8]
}

/// Resolves the model variant from the artifact path: a path naming `b14`
/// is the base variant, else one naming `s14` is the small variant, and any
/// other path is a fatal load error — no sensible default embedding width
/// exists, so no guess is made.
pub fn resolve_variant(path: &str) -> (r: Result<Model, Error>)
    ensures
        contains_seq(path.spec_bytes(), marker_b14()) <==> r == Ok::<Model, Error>(Model::B),
        !contains_seq(path.spec_bytes(), marker_b14()) && contains_seq(
            path.spec_bytes(),
            marker_s14(),
        ) <==> r == Ok::<Model, Error>(Model::S),
        r is Err <==> !contains_seq(path.spec_bytes(), marker_b14()) && !contains_seq(
            path.spec_bytes(),
            marker_s14(),
        ),
        r is Err ==> r->Err_0 == Error::ModelLoadError,
{
    let bytes = path.as_bytes();
    let mut b14: Vec<u8> = Vec::new();
    b14.push(98);
    b14.push(49);
    b14.push(52);
    let mut s14: Vec<u8> = Vec::new();
    s14.push(115);
    s14.push(49);
    s14.push(52);
    proof {
        assert(b14@ =~= marker_b14());
        assert(s14@ =~= marker_s14());
    }
    if contains_bytes(bytes, b14.as_slice()) {
        Ok(Model::B)
    } else if contains_bytes(bytes, s14.as_slice()) {
        Ok(Model::S)
    } else {
        Err(Error::ModelLoadError)
    }
}

/// The embedding extractor: the loaded engine's shape state, its resolved
/// batch/height/width handles (axes 0, 2 and 3 of the first input) and the
/// embedding width of the resolved variant.
#[derive(Debug, Clone)]
pub struct Dinov2 {
    pub engine: OrtEngine,
    pub height: MinOptMax,
    pub width: MinOptMax,
    pub batch: MinOptMax,
    pub hidden_size: usize,
}

impl Dinov2 {
    /// Validity: the engine is well formed, declares one input of rank at
    /// least 4, and the convenience handles are copies of its axes.
    pub open spec fn wf(&self) -> bool {
        &&& self.engine.wf()
        &&& self.engine.inputs().len() >= 1
        &&& self.engine.inputs()[0].len() >= 4
        &&& self.batch == self.engine.inputs()[0][0]
        &&& self.height == self.engine.inputs()[0][2]
        &&& self.width == self.engine.inputs()[0][3]
    }

    /// Loads the extractor: binds the configuration's axis map to the
    /// engine, copies the batch/height/width handles out of the first
    /// input, resolves the variant from the artifact path, and dry-runs
    /// the engine once. Fails with the engine's `ConfigurationError` on a
    /// bad axis map; with `ModelLoadError` when the first input does not
    /// have rank at least 4, or when the artifact path names no known
    /// variant.
    pub fn new(options: &Options) -> (r: Result<Dinov2, Error>)
        requires
            options.wf(),
        ensures
            r is Ok <==> axis_map_complete(options.ixx()) && options.ixx()[0].len() >= 4 && (
            contains_seq(vstd::utf8::encode_utf8(options.onnx_path@), marker_b14()) || contains_seq(
                vstd::utf8::encode_utf8(options.onnx_path@),
                marker_s14(),
            )),
            r matches Ok(d) ==> {
                &&& d.wf()
                &&& Some(d.batch) == options.ixx()[0][0]
                &&& Some(d.height) == options.ixx()[0][2]
                &&& Some(d.width) == options.ixx()[0][3]
                &&& d.hidden_size == (if contains_seq(
                    vstd::utf8::encode_utf8(options.onnx_path@),
                    marker_b14(),
                ) {
                    768int
                } else {
                    384int
                })
            },
            !axis_map_complete(options.ixx()) ==> (r is Err && r->Err_0
                matches Error::ConfigurationError(_)),
            axis_map_complete(options.ixx()) && options.ixx()[0].len() < 4 ==> r == Result::<
                Dinov2,
                Error,
            >::Err(Error::ModelLoadError),
            axis_map_complete(options.ixx()) && options.ixx()[0].len() >= 4 && r is Err ==> r
                == Result::<Dinov2, Error>::Err(Error::ModelLoadError),
    {
        let engine = match OrtEngine::new(options) {
            Ok(e) => e,
            Err(e) => {
                return Err(e);
            },
        };
        let inputs = engine.inputs_minoptmax();
        proof {
            assert(dims_ranges_view(inputs@).len() == inputs@.len());
            assert(inputs@.len() > 0);
            assert(dims_ranges_view(inputs@)[0] == inputs@[0]@);
            assert(inputs@[0]@.len() == options.ixx()[0].len());
        }
        if inputs.len() == 0 || inputs[0].len() < 4 {
            return Err(Error::ModelLoadError);
        }
        let batch = inputs[0][0];
        let height = inputs[0][2];
        let width = inputs[0][3];
        let which = match resolve_variant(options.onnx_path.as_str()) {
            Ok(m) => m,
            Err(e) => {
                return Err(e);
            },
        };
        let hidden_size = which.hidden_size();
        match engine.dry_run() {
            Ok(()) => {},
            Err(e) => {
                return Err(e);
            },
        }
        Ok(Dinov2 { engine, height, width, batch, hidden_size })
    }

    /// Checks one encode step's output shape: it must be a matrix of one
    /// embedding per batch item, each of the declared hidden size. A wrong
    /// rank or item count is a backend fault (`ExecutionError`); a wrong
    /// embedding width is a fatal `DimensionMismatch` naming both widths —
    /// it means the configuration was built for another model variant.
    pub fn check_embedding_shape(&self, items: usize, shape: &Vec<usize>) -> (r: Result<
        (),
        Error,
    >)
        ensures
            r is Ok <==> shape@.len() == 2 && shape@[0] == items && shape@[1]
                == self.hidden_size,
            shape@.len() != 2 || (shape@.len() == 2 && shape@[0] != items) ==> r == Result::<
                (),
                Error,
            >::Err(Error::ExecutionError),
            shape@.len() == 2 && shape@[0] == items && shape@[1] != self.hidden_size ==> r
                == Result::<(), Error>::Err(Error::DimensionMismatch {
                expected: self.hidden_size as u64,
                actual: shape@[1] as u64,
            }),
    {
        if shape.len() != 2 || shape[0] != items {
            return Err(Error::ExecutionError);
        }
        if shape[1] != self.hidden_size {
            return Err(Error::DimensionMismatch {
                expected: self.hidden_size as u64,
                actual: shape[1] as u64,
            });
        }
        Ok(())
    }
}

/// Pairs the vector index's ranked answer back with the gallery: match `t`
/// of the answer keeps its rank, its score (raw bits, uninterpreted here)
/// and the path of the gallery item whose enumeration id the index
/// returned. Fails with `IndexError` when the backend's answer is
/// inconsistent — differing key/score counts, or a key naming no gallery
/// item; nothing is silently dropped or defaulted.
pub fn collect_matches(keys: &Vec<u64>, scores: &Vec<u32>, paths: &Vec<String>) -> (r: Result<
    Vec<(usize, u32, String)>,
    Error,
>)
    ensures
        r is Ok <==> keys@.len() == scores@.len() && (forall|t: int|
            0 <= t < keys@.len() ==> #[trigger] keys@[t] < paths@.len()),
        r matches Ok(v) ==> {
            &&& v@.len() == keys@.len()
            &&& forall|t: int|
                0 <= t < v@.len() ==> {
                    &&& (#[trigger] v@[t]).0 == keys@[t]
                    &&& v@[t].1 == scores@[t]
                    &&& v@[t].2@ == paths@[keys@[t] as int]@
                }
        },
        r is Err ==> r->Err_0 == Error::IndexError,
{
    if keys.len() != scores.len() {
        return Err(Error::IndexError);
    }
    let mut out: Vec<(usize, u32, String)> = Vec::new();
    let mut t: usize = 0;
    while t < keys.len()
        invariant
            keys@.len() == scores@.len(),
            t <= keys@.len(),
            out@.len() == t,
            forall|u: int| 0 <= u < t ==> #[trigger] keys@[u] < paths@.len(),
            forall|u: int|
                0 <= u < t ==> {
                    &&& (#[trigger] out@[u]).0 == keys@[u]
                    &&& out@[u].1 == scores@[u]
                    &&& out@[u].2@ == paths@[keys@[u] as int]@
                },
        decreases keys@.len() - t,
    {
        let k = keys[t];
        if k >= paths.len() as u64 {
            return Err(Error::IndexError);
        }
        let idx = k as usize;
        out.push((idx, scores[t], paths[idx].clone()));
        t += 1;
    }
    Ok(out)
}

} // verus!
