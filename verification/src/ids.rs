//! Numeric newtypes of the Metal interpreter.
//!
//! Integers that share a primitive type without being interchangeable get a
//! type each, so that a layer number cannot be handed in where an arena slot
//! or a bucket size is meant. Floating-point constants are carried as the bits
//! of their `f32` representation.
use vstd::prelude::*;
use vstd::std_specs::convert::FromSpecImpl;

verus! {

/// Per-layer index into the model's transformer stack.
#[derive(Copy, Clone, PartialEq, Eq, Hash, Debug, Structural)]
pub struct LayerId(pub u32);

impl From<u32> for LayerId {
    fn from(v: u32) -> (r: Self) {
        Self(v)
    }
}

impl FromSpecImpl<u32> for LayerId {
    open spec fn obeys_from_spec() -> bool {
        true
    }

    open spec fn from_spec(v: u32) -> Self {
        Self(v)
    }
}

impl LayerId {
    /// The wrapped number.
    pub fn get(self) -> (r: u32)
        ensures
            r == self.0,
    {
        self.0
    }
}

/// Colored slot of a worker's tile arena.
#[derive(Copy, Clone, PartialEq, Eq, Hash, Debug, Structural)]
pub struct ArenaSlotIdx(pub u32);

impl From<u32> for ArenaSlotIdx {
    fn from(v: u32) -> (r: Self) {
        Self(v)
    }
}

impl FromSpecImpl<u32> for ArenaSlotIdx {
    open spec fn obeys_from_spec() -> bool {
        true
    }

    open spec fn from_spec(v: u32) -> Self {
        Self(v)
    }
}

impl ArenaSlotIdx {
    /// The wrapped number.
    pub fn get(self) -> (r: u32)
        ensures
            r == self.0,
    {
        self.0
    }
}

/// Physical block index inside the paged KV-cache pool; reached from a
/// `LogicalBlockIdx` through the block table of one sequence.
#[derive(Copy, Clone, PartialEq, Eq, Hash, Debug, Structural)]
pub struct PhysicalBlockIdx(pub u32);

impl From<u32> for PhysicalBlockIdx {
    fn from(v: u32) -> (r: Self) {
        Self(v)
    }
}

impl FromSpecImpl<u32> for PhysicalBlockIdx {
    open spec fn obeys_from_spec() -> bool {
        true
    }

    open spec fn from_spec(v: u32) -> Self {
        Self(v)
    }
}

/// Per-sequence logical block index.
#[derive(Copy, Clone, PartialEq, Eq, Hash, Debug, Structural)]
pub struct LogicalBlockIdx(pub u32);

impl From<u32> for LogicalBlockIdx {
    fn from(v: u32) -> (r: Self) {
        Self(v)
    }
}

impl FromSpecImpl<u32> for LogicalBlockIdx {
    open spec fn obeys_from_spec() -> bool {
        true
    }

    open spec fn from_spec(v: u32) -> Self {
        Self(v)
    }
}

/// Token index inside one paged block.
#[derive(Copy, Clone, PartialEq, Eq, Hash, Debug, Structural)]
pub struct SlotInBlock(pub u16);

impl From<u16> for SlotInBlock {
    fn from(v: u16) -> (r: Self) {
        Self(v)
    }
}

impl FromSpecImpl<u16> for SlotInBlock {
    open spec fn obeys_from_spec() -> bool {
        true
    }

    open spec fn from_spec(v: u16) -> Self {
        Self(v)
    }
}

/// Sequence number inside a forward batch.
#[derive(Copy, Clone, PartialEq, Eq, Hash, Debug, Structural)]
pub struct SeqIdx(pub u32);

impl From<u32> for SeqIdx {
    fn from(v: u32) -> (r: Self) {
        Self(v)
    }
}

impl FromSpecImpl<u32> for SeqIdx {
    open spec fn obeys_from_spec() -> bool {
        true
    }

    open spec fn from_spec(v: u32) -> Self {
        Self(v)
    }
}

/// Query-token index inside a forward call.
#[derive(Copy, Clone, PartialEq, Eq, Hash, Debug, Structural)]
pub struct QTokenIdx(pub u32);

impl From<u32> for QTokenIdx {
    fn from(v: u32) -> (r: Self) {
        Self(v)
    }
}

impl FromSpecImpl<u32> for QTokenIdx {
    open spec fn obeys_from_spec() -> bool {
        true
    }

    open spec fn from_spec(v: u32) -> Self {
        Self(v)
    }
}

/// Static dispatch upper bound of a bucket.
#[derive(Copy, Clone, PartialEq, Eq, Hash, Debug, Structural)]
pub struct BucketM(pub u32);

impl From<u32> for BucketM {
    fn from(v: u32) -> (r: Self) {
        Self(v)
    }
}

impl FromSpecImpl<u32> for BucketM {
    open spec fn obeys_from_spec() -> bool {
        true
    }

    open spec fn from_spec(v: u32) -> Self {
        Self(v)
    }
}

impl BucketM {
    /// The wrapped number.
    pub fn get(self) -> (r: u32)
        ensures
            r == self.0,
    {
        self.0
    }
}

/// Number of tokens of the forward in flight; at most the `BucketM` of the
/// bucket that serves it.
#[derive(Copy, Clone, PartialEq, Eq, Hash, Debug, Structural)]
pub struct NumTokens(pub u32);

impl From<u32> for NumTokens {
    fn from(v: u32) -> (r: Self) {
        Self(v)
    }
}

impl FromSpecImpl<u32> for NumTokens {
    open spec fn obeys_from_spec() -> bool {
        true
    }

    open spec fn from_spec(v: u32) -> Self {
        Self(v)
    }
}

impl NumTokens {
    /// The wrapped number.
    pub fn get(self) -> (r: u32)
        ensures
            r == self.0,
    {
        self.0
    }
}

/// `[[buffer(N)]]` binding index on a kernel function signature.
#[derive(Copy, Clone, PartialEq, Eq, Hash, Debug, Structural)]
pub struct BindingIdx(pub u8);

impl From<u8> for BindingIdx {
    fn from(v: u8) -> (r: Self) {
        Self(v)
    }
}

impl FromSpecImpl<u8> for BindingIdx {
    open spec fn obeys_from_spec() -> bool {
        true
    }

    open spec fn from_spec(v: u8) -> Self {
        Self(v)
    }
}

impl BindingIdx {
    /// The wrapped number.
    pub fn get(self) -> (r: u8)
        ensures
            r == self.0,
    {
        self.0
    }
}

/// Function-constant slot, `[[function_constant(N)]]`.
#[derive(Copy, Clone, PartialEq, Eq, Hash, Debug, Structural)]
pub struct ConstSlot(pub u32);

impl From<u32> for ConstSlot {
    fn from(v: u32) -> (r: Self) {
        Self(v)
    }
}

impl FromSpecImpl<u32> for ConstSlot {
    open spec fn obeys_from_spec() -> bool {
        true
    }

    open spec fn from_spec(v: u32) -> Self {
        Self(v)
    }
}

impl ConstSlot {
    /// The wrapped number.
    pub fn get(self) -> (r: u32)
        ensures
            r == self.0,
    {
        self.0
    }
}

/// Per-head feature width.
#[derive(Copy, Clone, PartialEq, Eq, Hash, Debug, Structural)]
pub struct HeadDim(pub u32);

impl From<u32> for HeadDim {
    fn from(v: u32) -> (r: Self) {
        Self(v)
    }
}

impl FromSpecImpl<u32> for HeadDim {
    open spec fn obeys_from_spec() -> bool {
        true
    }

    open spec fn from_spec(v: u32) -> Self {
        Self(v)
    }
}

impl HeadDim {
    /// The wrapped number.
    pub fn get(self) -> (r: u32)
        ensures
            r == self.0,
    {
        self.0
    }
}

/// Number of query heads.
#[derive(Copy, Clone, PartialEq, Eq, Hash, Debug, Structural)]
pub struct NumQHeads(pub u32);

impl From<u32> for NumQHeads {
    fn from(v: u32) -> (r: Self) {
        Self(v)
    }
}

impl FromSpecImpl<u32> for NumQHeads {
    open spec fn obeys_from_spec() -> bool {
        true
    }

    open spec fn from_spec(v: u32) -> Self {
        Self(v)
    }
}

impl NumQHeads {
    /// The wrapped number.
    pub fn get(self) -> (r: u32)
        ensures
            r == self.0,
    {
        self.0
    }
}

/// Number of key/value heads, before grouped-query fan-out.
#[derive(Copy, Clone, PartialEq, Eq, Hash, Debug, Structural)]
pub struct NumKvHeads(pub u32);

impl From<u32> for NumKvHeads {
    fn from(v: u32) -> (r: Self) {
        Self(v)
    }
}

impl FromSpecImpl<u32> for NumKvHeads {
    open spec fn obeys_from_spec() -> bool {
        true
    }

    open spec fn from_spec(v: u32) -> Self {
        Self(v)
    }
}

impl NumKvHeads {
    /// The wrapped number.
    pub fn get(self) -> (r: u32)
        ensures
            r == self.0,
    {
        self.0
    }
}

/// Number of head positions that RoPE touches.
#[derive(Copy, Clone, PartialEq, Eq, Hash, Debug, Structural)]
pub struct RotDim(pub u32);

impl From<u32> for RotDim {
    fn from(v: u32) -> (r: Self) {
        Self(v)
    }
}

impl FromSpecImpl<u32> for RotDim {
    open spec fn obeys_from_spec() -> bool {
        true
    }

    open spec fn from_spec(v: u32) -> Self {
        Self(v)
    }
}

impl RotDim {
    /// The wrapped number.
    pub fn get(self) -> (r: u32)
        ensures
            r == self.0,
    {
        self.0
    }
}

/// Tokens per paged KV-cache block.
#[derive(Copy, Clone, PartialEq, Eq, Hash, Debug, Structural)]
pub struct BlockSize(pub u32);

impl From<u32> for BlockSize {
    fn from(v: u32) -> (r: Self) {
        Self(v)
    }
}

impl FromSpecImpl<u32> for BlockSize {
    open spec fn obeys_from_spec() -> bool {
        true
    }

    open spec fn from_spec(v: u32) -> Self {
        Self(v)
    }
}

impl BlockSize {
    /// The wrapped number.
    pub fn get(self) -> (r: u32)
        ensures
            r == self.0,
    {
        self.0
    }
}

/// Block-table fan-out per sequence.
#[derive(Copy, Clone, PartialEq, Eq, Hash, Debug, Structural)]
pub struct MaxBlocksPerSeq(pub u32);

impl From<u32> for MaxBlocksPerSeq {
    fn from(v: u32) -> (r: Self) {
        Self(v)
    }
}

impl FromSpecImpl<u32> for MaxBlocksPerSeq {
    open spec fn obeys_from_spec() -> bool {
        true
    }

    open spec fn from_spec(v: u32) -> Self {
        Self(v)
    }
}

impl MaxBlocksPerSeq {
    /// The wrapped number.
    pub fn get(self) -> (r: u32)
        ensures
            r == self.0,
    {
        self.0
    }
}

/// KV-cache blocks per chunk of the chunked KV pool.
#[derive(Copy, Clone, PartialEq, Eq, Hash, Debug, Structural)]
pub struct BlocksPerChunk(pub u32);

impl From<u32> for BlocksPerChunk {
    fn from(v: u32) -> (r: Self) {
        Self(v)
    }
}

impl FromSpecImpl<u32> for BlocksPerChunk {
    open spec fn obeys_from_spec() -> bool {
        true
    }

    open spec fn from_spec(v: u32) -> Self {
        Self(v)
    }
}

impl BlocksPerChunk {
    /// The wrapped number.
    pub fn get(self) -> (r: u32)
        ensures
            r == self.0,
    {
        self.0
    }
}

/// Hidden / query-projection size.
#[derive(Copy, Clone, PartialEq, Eq, Hash, Debug, Structural)]
pub struct QSize(pub u32);

impl From<u32> for QSize {
    fn from(v: u32) -> (r: Self) {
        Self(v)
    }
}

impl FromSpecImpl<u32> for QSize {
    open spec fn obeys_from_spec() -> bool {
        true
    }

    open spec fn from_spec(v: u32) -> Self {
        Self(v)
    }
}

impl QSize {
    /// The wrapped number.
    pub fn get(self) -> (r: u32)
        ensures
            r == self.0,
    {
        self.0
    }
}

/// MLP intermediate size.
#[derive(Copy, Clone, PartialEq, Eq, Hash, Debug, Structural)]
pub struct IntermediateSize(pub u32);

impl From<u32> for IntermediateSize {
    fn from(v: u32) -> (r: Self) {
        Self(v)
    }
}

impl FromSpecImpl<u32> for IntermediateSize {
    open spec fn obeys_from_spec() -> bool {
        true
    }

    open spec fn from_spec(v: u32) -> Self {
        Self(v)
    }
}

impl IntermediateSize {
    /// The wrapped number.
    pub fn get(self) -> (r: u32)
        ensures
            r == self.0,
    {
        self.0
    }
}

/// Generic row width in elements, as elementwise kernels use it.
#[derive(Copy, Clone, PartialEq, Eq, Hash, Debug, Structural)]
pub struct HiddenSize(pub u32);

impl From<u32> for HiddenSize {
    fn from(v: u32) -> (r: Self) {
        Self(v)
    }
}

impl FromSpecImpl<u32> for HiddenSize {
    open spec fn obeys_from_spec() -> bool {
        true
    }

    open spec fn from_spec(v: u32) -> Self {
        Self(v)
    }
}

impl HiddenSize {
    /// The wrapped number.
    pub fn get(self) -> (r: u32)
        ensures
            r == self.0,
    {
        self.0
    }
}

/// Packed input columns of an affine-quantized matmul.
#[derive(Copy, Clone, PartialEq, Eq, Hash, Debug, Structural)]
pub struct KDim(pub u32);

impl From<u32> for KDim {
    fn from(v: u32) -> (r: Self) {
        Self(v)
    }
}

impl FromSpecImpl<u32> for KDim {
    open spec fn obeys_from_spec() -> bool {
        true
    }

    open spec fn from_spec(v: u32) -> Self {
        Self(v)
    }
}

impl KDim {
    /// The wrapped number.
    pub fn get(self) -> (r: u32)
        ensures
            r == self.0,
    {
        self.0
    }
}

/// Output columns of an affine-quantized matmul.
#[derive(Copy, Clone, PartialEq, Eq, Hash, Debug, Structural)]
pub struct NDim(pub u32);

impl From<u32> for NDim {
    fn from(v: u32) -> (r: Self) {
        Self(v)
    }
}

impl FromSpecImpl<u32> for NDim {
    open spec fn obeys_from_spec() -> bool {
        true
    }

    open spec fn from_spec(v: u32) -> Self {
        Self(v)
    }
}

impl NDim {
    /// The wrapped number.
    pub fn get(self) -> (r: u32)
        ensures
            r == self.0,
    {
        self.0
    }
}

/// Number of split-K partitions.
#[derive(Copy, Clone, PartialEq, Eq, Hash, Debug, Structural)]
pub struct SplitK(pub u32);

impl From<u32> for SplitK {
    fn from(v: u32) -> (r: Self) {
        Self(v)
    }
}

impl FromSpecImpl<u32> for SplitK {
    open spec fn obeys_from_spec() -> bool {
        true
    }

    open spec fn from_spec(v: u32) -> Self {
        Self(v)
    }
}

impl SplitK {
    /// The wrapped number.
    pub fn get(self) -> (r: u32)
        ensures
            r == self.0,
    {
        self.0
    }
}

/// Debug mode of the steel attention kernel; `0` in production.
#[derive(Copy, Clone, PartialEq, Eq, Hash, Debug, Structural)]
pub struct AttnDebugMode(pub u32);

impl From<u32> for AttnDebugMode {
    fn from(v: u32) -> (r: Self) {
        Self(v)
    }
}

impl FromSpecImpl<u32> for AttnDebugMode {
    open spec fn obeys_from_spec() -> bool {
        true
    }

    open spec fn from_spec(v: u32) -> Self {
        Self(v)
    }
}

impl AttnDebugMode {
    /// The wrapped number.
    pub fn get(self) -> (r: u32)
        ensures
            r == self.0,
    {
        self.0
    }
}

/// Input columns, for shaders that declare the constant as `int`.
#[derive(Copy, Clone, PartialEq, Eq, Hash, Debug, Structural)]
pub struct KDimI32(pub i32);

impl From<i32> for KDimI32 {
    fn from(v: i32) -> (r: Self) {
        Self(v)
    }
}

impl FromSpecImpl<i32> for KDimI32 {
    open spec fn obeys_from_spec() -> bool {
        true
    }

    open spec fn from_spec(v: i32) -> Self {
        Self(v)
    }
}

impl KDimI32 {
    /// The wrapped number.
    pub fn get(self) -> (r: i32)
        ensures
            r == self.0,
    {
        self.0
    }
}

/// Output columns, for shaders that declare the constant as `int`.
#[derive(Copy, Clone, PartialEq, Eq, Hash, Debug, Structural)]
pub struct NDimI32(pub i32);

impl From<i32> for NDimI32 {
    fn from(v: i32) -> (r: Self) {
        Self(v)
    }
}

impl FromSpecImpl<i32> for NDimI32 {
    open spec fn obeys_from_spec() -> bool {
        true
    }

    open spec fn from_spec(v: i32) -> Self {
        Self(v)
    }
}

impl NDimI32 {
    /// The wrapped number.
    pub fn get(self) -> (r: i32)
        ensures
            r == self.0,
    {
        self.0
    }
}

/// Rows per call, for shaders that declare the constant as `int`.
#[derive(Copy, Clone, PartialEq, Eq, Hash, Debug, Structural)]
pub struct MDimI32(pub i32);

impl From<i32> for MDimI32 {
    fn from(v: i32) -> (r: Self) {
        Self(v)
    }
}

impl FromSpecImpl<i32> for MDimI32 {
    open spec fn obeys_from_spec() -> bool {
        true
    }

    open spec fn from_spec(v: i32) -> Self {
        Self(v)
    }
}

impl MDimI32 {
    /// The wrapped number.
    pub fn get(self) -> (r: i32)
        ensures
            r == self.0,
    {
        self.0
    }
}

/// Split-K partition stride.
#[derive(Copy, Clone, PartialEq, Eq, Hash, Debug, Structural)]
pub struct KPartitionSizeI32(pub i32);

impl From<i32> for KPartitionSizeI32 {
    fn from(v: i32) -> (r: Self) {
        Self(v)
    }
}

impl FromSpecImpl<i32> for KPartitionSizeI32 {
    open spec fn obeys_from_spec() -> bool {
        true
    }

    open spec fn from_spec(v: i32) -> Self {
        Self(v)
    }
}

impl KPartitionSizeI32 {
    /// The wrapped number.
    pub fn get(self) -> (r: i32)
        ensures
            r == self.0,
    {
        self.0
    }
}

/// Pre-softmax scale, as the bits of an `f32`.
#[derive(Copy, Clone, PartialEq, Eq, Hash, Debug, Structural)]
pub struct AttnScale(pub u32);

impl From<u32> for AttnScale {
    fn from(v: u32) -> (r: Self) {
        Self(v)
    }
}

impl FromSpecImpl<u32> for AttnScale {
    open spec fn obeys_from_spec() -> bool {
        true
    }

    open spec fn from_spec(v: u32) -> Self {
        Self(v)
    }
}

impl AttnScale {
    /// The wrapped number.
    pub fn get(self) -> (r: u32)
        ensures
            r == self.0,
    {
        self.0
    }
}

/// RMSNorm epsilon, as the bits of an `f32`.
#[derive(Copy, Clone, PartialEq, Eq, Hash, Debug, Structural)]
pub struct RmsNormEps(pub u32);

impl From<u32> for RmsNormEps {
    fn from(v: u32) -> (r: Self) {
        Self(v)
    }
}

impl FromSpecImpl<u32> for RmsNormEps {
    open spec fn obeys_from_spec() -> bool {
        true
    }

    open spec fn from_spec(v: u32) -> Self {
        Self(v)
    }
}

impl RmsNormEps {
    /// The wrapped number.
    pub fn get(self) -> (r: u32)
        ensures
            r == self.0,
    {
        self.0
    }
}

/// Offset added to RMSNorm gains, as the bits of an `f32`.
#[derive(Copy, Clone, PartialEq, Eq, Hash, Debug, Structural)]
pub struct NormWeightOffset(pub u32);

impl From<u32> for NormWeightOffset {
    fn from(v: u32) -> (r: Self) {
        Self(v)
    }
}

impl FromSpecImpl<u32> for NormWeightOffset {
    open spec fn obeys_from_spec() -> bool {
        true
    }

    open spec fn from_spec(v: u32) -> Self {
        Self(v)
    }
}

impl NormWeightOffset {
    /// The wrapped number.
    pub fn get(self) -> (r: u32)
        ensures
            r == self.0,
    {
        self.0
    }
}

} // verus!
