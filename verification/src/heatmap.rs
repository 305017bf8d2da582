//! Anomaly heatmap result type: a single-channel (gray) pixel buffer with
//! its dimensions, plus the shared per-instance metadata record (id, name,
//! confidence) that every post-processed result carries. The buffer is plain
//! bytes, row-major, one byte per pixel; turning it into a displayable image
//! is the caller's business.

use vstd::prelude::*;
use crate::error::Error;

verus! {

/// The shared metadata record attached to heterogeneous result types:
/// a unique instance id, an optional class id, an optional class name and
/// an optional confidence. The confidence is stored as the raw bit pattern
/// of the caller's 32-bit floating-point value: the library only carries
/// it, it never computes with it.
#[derive(Debug, Clone)]
pub struct InstanceMeta {
    uid: usize,
    id: Option<usize>,
    name: Option<String>,
    confidence: Option<u32>,
}

impl Default for InstanceMeta {
    /// An empty record: uid 0, no class id, no name, no confidence.
    fn default() -> (res: InstanceMeta)
        ensures
            res.uid() == 0,
            res.id() is None,
            res.name() is None,
            res.confidence() is None,
    {
        InstanceMeta { uid: 0, id: None, name: None, confidence: None }
    }
}

impl InstanceMeta {
    /// The unique instance id.
    pub closed spec fn uid(&self) -> usize {
        self.uid
    }

    /// The optional class id.
    pub closed spec fn id(&self) -> Option<usize> {
        self.id
    }

    /// The optional class name.
    pub closed spec fn name(&self) -> Option<String> {
        self.name
    }

    /// The optional confidence, as raw bits.
    pub closed spec fn confidence(&self) -> Option<u32> {
        self.confidence
    }

    /// Replaces the unique instance id.
    pub fn with_uid(self, uid: usize) -> (res: InstanceMeta)
        ensures
            res.uid() == uid,
            res.id() == self.id(),
            res.name() == self.name(),
            res.confidence() == self.confidence(),
    {
        InstanceMeta { uid, ..self }
    }

    /// Replaces the class id.
    pub fn with_id(self, id: usize) -> (res: InstanceMeta)
        ensures
            res.uid() == self.uid(),
            res.id() == Some(id),
            res.name() == self.name(),
            res.confidence() == self.confidence(),
    {
        InstanceMeta { id: Some(id), ..self }
    }

    /// Replaces the class name.
    pub fn with_name(self, name: &str) -> (res: InstanceMeta)
        ensures
            res.uid() == self.uid(),
            res.id() == self.id(),
            res.name() matches Some(n) && n@ == name@,
            res.confidence() == self.confidence(),
    {
        InstanceMeta { name: Some(name.to_owned()), ..self }
    }

    /// Replaces the confidence, given as the raw bits of the caller's
    /// 32-bit floating-point value.
    pub fn with_confidence(self, confidence: u32) -> (res: InstanceMeta)
        ensures
            res.uid() == self.uid(),
            res.id() == self.id(),
            res.name() == self.name(),
            res.confidence() == Some(confidence),
    {
        InstanceMeta { confidence: Some(confidence), ..self }
    }
}

/// A gray heatmap: a row-major pixel buffer of one byte per pixel, carrying
/// at least `width * height` bytes, with its instance metadata.
#[derive(Debug, Clone)]
pub struct HeatMap {
    map: Vec<u8>,
    width: u32,
    height: u32,
    meta: InstanceMeta,
}

impl PartialEq for HeatMap {
    /// Heatmaps are equal when their images — dimensions and pixel
    /// buffer — are equal; the metadata takes no part.
    fn eq(&self, other: &HeatMap) -> (r: bool) {
        let same = self.width == other.width && self.height == other.height && self.map
            == other.map;
        proof {
            if same {
                assert(self.map@ =~= other.map@);
            } else if self.map@ == other.map@ {
                assert(forall|i: int| #![auto]
                    0 <= i < self.map@.len() ==> self.map@[i] == other.map@[i]);
            }
        }
        same
    }
}

impl vstd::std_specs::cmp::PartialEqSpecImpl for HeatMap {
    open spec fn obeys_eq_spec() -> bool {
        true
    }

    open spec fn eq_spec(&self, other: &HeatMap) -> bool {
        &&& self.spec_width() == other.spec_width()
        &&& self.spec_height() == other.spec_height()
        &&& self.spec_map() == other.spec_map()
    }
}

impl HeatMap {
    /// The pixel buffer.
    pub closed spec fn spec_map(&self) -> Seq<u8> {
        self.map@
    }

    /// The width in pixels.
    pub closed spec fn spec_width(&self) -> u32 {
        self.width
    }

    /// The height in pixels.
    pub closed spec fn spec_height(&self) -> u32 {
        self.height
    }

    /// The metadata record.
    pub closed spec fn spec_meta(&self) -> InstanceMeta {
        self.meta
    }

    /// Validity: the buffer is big enough for the claimed dimensions.
    pub open spec fn wf(&self) -> bool {
        self.spec_map().len() >= self.spec_width() * self.spec_height()
    }

    /// Builds a heatmap from a raw buffer and its dimensions; fails when
    /// the buffer holds fewer than `width * height` bytes, naming both
    /// sizes. The metadata starts empty.
    pub fn new(u8s: &[u8], width: u32, height: u32) -> (r: Result<HeatMap, Error>)
        ensures
            r is Ok <==> u8s@.len() >= width * height,
            r matches Ok(h) ==> {
                &&& h.wf()
                &&& h.spec_map() == u8s@
                &&& h.spec_width() == width
                &&& h.spec_height() == height
                &&& h.spec_meta().uid() == 0
                &&& h.spec_meta().id() is None
                &&& h.spec_meta().name() is None
                &&& h.spec_meta().confidence() is None
            },
            r is Err ==> (r->Err_0 matches Error::DimensionMismatch { expected, actual }
                && expected == width * height && actual == u8s@.len()),
    {
        proof {
            assert((width as u64) * (height as u64) <= u64::MAX) by (nonlinear_arith)
                requires
                    width <= u32::MAX,
                    height <= u32::MAX,
            ;
        }
        let need = (width as u64) * (height as u64);
        if (u8s.len() as u64) < need {
            return Err(Error::DimensionMismatch { expected: need, actual: u8s.len() as u64 });
        }
        Ok(HeatMap {
            map: vstd::slice::slice_to_vec(u8s),
            width,
            height,
            meta: InstanceMeta { uid: 0, id: None, name: None, confidence: None },
        })
    }

    /// The pixel buffer, copied out.
    pub fn to_vec(&self) -> (r: Vec<u8>)
        ensures
            r@ == self.spec_map(),
    {
        vstd::slice::slice_to_vec(self.map.as_slice())
    }

    /// The height in pixels.
    pub fn height(&self) -> (r: u32)
        ensures
            r == self.spec_height(),
    {
        self.height
    }

    /// The width in pixels.
    pub fn width(&self) -> (r: u32)
        ensures
            r == self.spec_width(),
    {
        self.width
    }

    /// The dimensions, as (width, height).
    pub fn dimensions(&self) -> (r: (u32, u32))
        ensures
            r.0 == self.spec_width(),
            r.1 == self.spec_height(),
    {
        (self.width, self.height)
    }

    /// Replaces the metadata's unique instance id.
    pub fn with_uid(self, uid: usize) -> (res: HeatMap)
        ensures
            res.spec_map() == self.spec_map(),
            res.spec_width() == self.spec_width(),
            res.spec_height() == self.spec_height(),
            res.spec_meta().uid() == uid,
            res.spec_meta().id() == self.spec_meta().id(),
            res.spec_meta().name() == self.spec_meta().name(),
            res.spec_meta().confidence() == self.spec_meta().confidence(),
    {
        let HeatMap { map, width, height, meta } = self;
        HeatMap { map, width, height, meta: meta.with_uid(uid) }
    }

    /// Replaces the metadata's class id.
    pub fn with_id(self, id: usize) -> (res: HeatMap)
        ensures
            res.spec_map() == self.spec_map(),
            res.spec_width() == self.spec_width(),
            res.spec_height() == self.spec_height(),
            res.spec_meta().uid() == self.spec_meta().uid(),
            res.spec_meta().id() == Some(id),
            res.spec_meta().name() == self.spec_meta().name(),
            res.spec_meta().confidence() == self.spec_meta().confidence(),
    {
        let HeatMap { map, width, height, meta } = self;
        HeatMap { map, width, height, meta: meta.with_id(id) }
    }

    /// Replaces the metadata's class name.
    pub fn with_name(self, name: &str) -> (res: HeatMap)
        ensures
            res.spec_map() == self.spec_map(),
            res.spec_width() == self.spec_width(),
            res.spec_height() == self.spec_height(),
            res.spec_meta().uid() == self.spec_meta().uid(),
            res.spec_meta().id() == self.spec_meta().id(),
            res.spec_meta().name() matches Some(n) && n@ == name@,
            res.spec_meta().confidence() == self.spec_meta().confidence(),
    {
        let HeatMap { map, width, height, meta } = self;
        HeatMap { map, width, height, meta: meta.with_name(name) }
    }

    /// Replaces the metadata's confidence, given as the raw bits of the
    /// caller's 32-bit floating-point value.
    pub fn with_confidence(self, confidence: u32) -> (res: HeatMap)
        ensures
            res.spec_map() == self.spec_map(),
            res.spec_width() == self.spec_width(),
            res.spec_height() == self.spec_height(),
            res.spec_meta().uid() == self.spec_meta().uid(),
            res.spec_meta().id() == self.spec_meta().id(),
            res.spec_meta().name() == self.spec_meta().name(),
            res.spec_meta().confidence() == Some(confidence),
    {
        let HeatMap { map, width, height, meta } = self;
        HeatMap { map, width, height, meta: meta.with_confidence(confidence) }
    }

    /// The metadata's unique instance id.
    pub fn uid(&self) -> (r: usize)
        ensures
            r == self.spec_meta().uid(),
    {
        self.meta.uid
    }

    /// The metadata's class name, if any.
    pub fn name(&self) -> (r: Option<&str>)
        ensures
            r is Some <==> self.spec_meta().name() is Some,
            r matches Some(n) ==> self.spec_meta().name() matches Some(m) && n@ == m@,
    {
        match &self.meta.name {
            Some(n) => Some(n.as_str()),
            None => None,
        }
    }

    /// The metadata's confidence, if any, as raw bits.
    pub fn confidence(&self) -> (r: Option<u32>)
        ensures
            r == self.spec_meta().confidence(),
    {
        self.meta.confidence
    }

    /// The metadata's class id, if any.
    pub fn id(&self) -> (r: Option<usize>)
        ensures
            r == self.spec_meta().id(),
    {
        self.meta.id
    }
}

} // verus!
