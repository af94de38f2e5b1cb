//! Buffer bindings per kernel family.
//!
//! Each struct holds what varies from call to call. The runtime buffers that
//! sit at a fixed argument of the kernel are added by `into_bindings`, so no
//! call can leave one out, and a layer that several arguments share is one
//! field, so they cannot drift apart.
use crate::ids::{ArenaSlotIdx, LayerId};
use crate::lowered::{Binding, RuntimeBindingKind, WeightBundleKind, WeightLocator, WeightTensor};
use vstd::prelude::*;

verus! {

/// The bindings of one kernel call.
pub trait BindingSet: Sized {
    /// The bindings in argument order.
    spec fn bindings(self) -> Seq<Binding>;

    /// Writes the bindings out.
    fn into_bindings(self) -> (v: Vec<Binding>)
        ensures
            v@ == self.bindings(),
    ;
}

/// Prefill attention over the paged cache.
#[derive(Clone, Copy, Debug, PartialEq, Eq)]
pub struct AttentionPrefillPagedBindingSet {
    pub output: ArenaSlotIdx,
    pub q: ArenaSlotIdx,
    pub kv_layer: LayerId,
}

impl BindingSet for AttentionPrefillPagedBindingSet {
    open spec fn bindings(self) -> Seq<Binding> {
        seq![
            Binding::arena(self.output.0, 0),
            Binding::arena(self.q.0, 1),
            Binding::runtime(RuntimeBindingKind::CuSeqlensQ, 2),
            Binding::runtime(RuntimeBindingKind::SeqUsedK, 3),
            Binding::runtime(RuntimeBindingKind::BlockTable, 4),
            Binding::runtime(RuntimeBindingKind::KvCacheK { layer: self.kv_layer }, 5),
            Binding::runtime(RuntimeBindingKind::KvCacheV { layer: self.kv_layer }, 6),
        ]
    }

    fn into_bindings(self) -> (v: Vec<Binding>) {
        vec![
            Binding::arena(self.output.get(), 0),
            Binding::arena(self.q.get(), 1),
            Binding::runtime(RuntimeBindingKind::CuSeqlensQ, 2),
            Binding::runtime(RuntimeBindingKind::SeqUsedK, 3),
            Binding::runtime(RuntimeBindingKind::BlockTable, 4),
            Binding::runtime(RuntimeBindingKind::KvCacheK { layer: self.kv_layer }, 5),
            Binding::runtime(RuntimeBindingKind::KvCacheV { layer: self.kv_layer }, 6),
        ]
    }
}

/// Decode attention over the paged cache.
#[derive(Clone, Copy, Debug, PartialEq, Eq)]
pub struct AttentionViaCacheBindingSet {
    pub output: ArenaSlotIdx,
    pub q: ArenaSlotIdx,
    pub kv_layer: LayerId,
}

impl BindingSet for AttentionViaCacheBindingSet {
    open spec fn bindings(self) -> Seq<Binding> {
        seq![
            Binding::arena(self.output.0, 0),
            Binding::arena(self.q.0, 1),
            Binding::runtime(RuntimeBindingKind::SeqUsedK, 2),
            Binding::runtime(RuntimeBindingKind::BlockTable, 3),
            Binding::runtime(RuntimeBindingKind::KvCacheK { layer: self.kv_layer }, 4),
            Binding::runtime(RuntimeBindingKind::KvCacheV { layer: self.kv_layer }, 5),
        ]
    }

    fn into_bindings(self) -> (v: Vec<Binding>) {
        vec![
            Binding::arena(self.output.get(), 0),
            Binding::arena(self.q.get(), 1),
            Binding::runtime(RuntimeBindingKind::SeqUsedK, 2),
            Binding::runtime(RuntimeBindingKind::BlockTable, 3),
            Binding::runtime(RuntimeBindingKind::KvCacheK { layer: self.kv_layer }, 4),
            Binding::runtime(RuntimeBindingKind::KvCacheV { layer: self.kv_layer }, 5),
        ]
    }
}

/// Rotary embedding and KV-cache append. The cosine/sine table and both caches
/// belong to the one `layer`.
#[derive(Clone, Copy, Debug, PartialEq, Eq)]
pub struct RopeAppendBindingSet {
    pub q_out: ArenaSlotIdx,
    pub k_out: ArenaSlotIdx,
    pub v_out: ArenaSlotIdx,
    pub cos_sin_locator: WeightLocator,
    pub layer: LayerId,
}

impl BindingSet for RopeAppendBindingSet {
    open spec fn bindings(self) -> Seq<Binding> {
        seq![
            Binding::arena(self.q_out.0, 0),
            Binding::arena(self.k_out.0, 1),
            Binding::arena(self.v_out.0, 2),
            Binding::weight(
                WeightBundleKind::CosSin,
                WeightTensor::Weight,
                self.layer,
                self.cos_sin_locator,
                3,
            ),
            Binding::runtime(RuntimeBindingKind::Positions, 4),
            Binding::runtime(RuntimeBindingKind::SlotMapping, 5),
            Binding::runtime(RuntimeBindingKind::KvCacheK { layer: self.layer }, 6),
            Binding::runtime(RuntimeBindingKind::KvCacheV { layer: self.layer }, 7),
        ]
    }

    fn into_bindings(self) -> (v: Vec<Binding>) {
        vec![
            Binding::arena(self.q_out.get(), 0),
            Binding::arena(self.k_out.get(), 1),
            Binding::arena(self.v_out.get(), 2),
            Binding::weight(
                WeightBundleKind::CosSin,
                WeightTensor::Weight,
                self.layer,
                self.cos_sin_locator,
                3,
            ),
            Binding::runtime(RuntimeBindingKind::Positions, 4),
            Binding::runtime(RuntimeBindingKind::SlotMapping, 5),
            Binding::runtime(RuntimeBindingKind::KvCacheK { layer: self.layer }, 6),
            Binding::runtime(RuntimeBindingKind::KvCacheV { layer: self.layer }, 7),
        ]
    }
}

/// QKV projection, rotary embedding and KV-cache write.
#[derive(Clone, Copy, Debug, PartialEq, Eq)]
pub struct FusedQkvRopeCacheBindingSet {
    pub q_out: ArenaSlotIdx,
    pub input: ArenaSlotIdx,
    pub qkv_locator: WeightLocator,
    pub cos_sin_locator: WeightLocator,
    pub layer: LayerId,
}

impl BindingSet for FusedQkvRopeCacheBindingSet {
    open spec fn bindings(self) -> Seq<Binding> {
        seq![
            Binding::arena(self.q_out.0, 0),
            Binding::arena(self.input.0, 1),
            Binding::weight(
                WeightBundleKind::LinearLayer,
                WeightTensor::Weight,
                self.layer,
                self.qkv_locator,
                2,
            ),
            Binding::weight(
                WeightBundleKind::CosSin,
                WeightTensor::Weight,
                self.layer,
                self.cos_sin_locator,
                3,
            ),
            Binding::runtime(RuntimeBindingKind::Positions, 4),
            Binding::runtime(RuntimeBindingKind::SlotMapping, 5),
            Binding::runtime(RuntimeBindingKind::KvCacheK { layer: self.layer }, 6),
            Binding::runtime(RuntimeBindingKind::KvCacheV { layer: self.layer }, 7),
        ]
    }

    fn into_bindings(self) -> (v: Vec<Binding>) {
        vec![
            Binding::arena(self.q_out.get(), 0),
            Binding::arena(self.input.get(), 1),
            Binding::weight(
                WeightBundleKind::LinearLayer,
                WeightTensor::Weight,
                self.layer,
                self.qkv_locator,
                2,
            ),
            Binding::weight(
                WeightBundleKind::CosSin,
                WeightTensor::Weight,
                self.layer,
                self.cos_sin_locator,
                3,
            ),
            Binding::runtime(RuntimeBindingKind::Positions, 4),
            Binding::runtime(RuntimeBindingKind::SlotMapping, 5),
            Binding::runtime(RuntimeBindingKind::KvCacheK { layer: self.layer }, 6),
            Binding::runtime(RuntimeBindingKind::KvCacheV { layer: self.layer }, 7),
        ]
    }
}

} // verus!
