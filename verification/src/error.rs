//! Errors reported by the library.
use vstd::prelude::*;

verus! {

/// What was wrong with an argument.
#[derive(Debug, Clone, Copy, PartialEq, Eq, Structural)]
pub enum InvalidArgument {
    /// `offset + len` does not fit in a `u64`.
    OffsetOverflow,
    /// A whole-buffer write whose length is not the buffer's size.
    BufferSizeMismatch { len: u64, size: u64 },
    /// A buffer access that ends past the buffer.
    BufferOutOfBounds { offset: u64, len: u64, size: u64 },
    /// A pixel region that does not fit in the target.
    RegionOutOfBounds { x: u32, y: u32, width: u32, height: u32, bound_width: u32, bound_height: u32 },
    /// A pixel update whose pixel count is not `width * height`.
    PixelCountMismatch { expected: u64, got: u64 },
    UnknownBlendMode(u8),
    UnknownBlendFactor(u8),
    UnknownBlendOperation(u8),
    UnknownFilterMode(u8),
    UnknownWrapMode(u8),
    /// An attribute name declared again with another format.
    AttributeRedeclared,
    /// An attribute that particles already hold, declared again.
    AttributeAlreadyPresent,
    /// A default value whose byte size is not the attribute's.
    DefaultSizeMismatch { got: u64, expected: u64 },
    /// A built-in name reused with a format its conventional default does not fit.
    IncompatibleBuiltinName,
    /// A component count outside `1..=4` (or `2..=4` for packing).
    ComponentsOutOfRange(u32),
    /// A component index at or past the component count.
    ComponentIndexOutOfRange { index: u32, components: u32 },
    /// A lookup input that is neither one nor two components wide.
    LookupComponents(u32),
    /// The destination buffer is also bound as a read-only operand.
    DstAliasesOperand,
    /// The neighbour gather writes into its source or the positions.
    GatherOutAliases,
    /// A sort length that is not a power of two.
    NotPowerOfTwo(u32),
    /// Sort keys and payload of different lengths.
    LengthMismatch,
    /// A capacity product that does not fit in a `u32`.
    CapacityOverflow,
    /// More particles emitted at once than the system holds.
    EmitExceedsCapacity { emitted: u32, capacity: u32 },
    /// Emitted attribute bytes that are not `count * byte_size`.
    EmitByteCount { expected: u64, got: u64 },
    /// The particle system has no buffer for an emitted attribute.
    MissingParticleBuffer,
    /// A topology without a built-in generator.
    UnsupportedTopology,
    /// Connected lines need at least two particles.
    TooFewParticles,
    /// A font tag that is not exactly four bytes long.
    FontTagLength(u64),
    /// An element index past the end of the data.
    IndexOutOfBounds { index: u32, available: u64 },
    /// A shader property given a value of a kind its slot does not take.
    PropertyKindMismatch,
    /// A mesh buffer bound to a read-write storage slot.
    MeshBindingReadWrite,
    /// An alpha mode number outside `0..=5`.
    UnknownAlphaMode(i32),
}

/// The library's error.
#[derive(Debug, Clone, Copy, PartialEq, Eq, Structural)]
pub enum ProcessingError {
    SurfaceNotFound,
    InvalidWindowHandle,
    ImageNotFound,
    UnsupportedTextureFormat,
    InvalidArgument(InvalidArgument),
    GraphicsNotFound,
    InvalidEntity,
    GeometryNotFound,
    LayoutNotFound,
    TransformNotFound,
    MaterialNotFound,
    ShaderNotFound,
    BufferNotFound,
    ComputeNotFound,
    ParticlesNotFound,
    /// A shader property that the shader does not declare.
    UnknownShaderProperty,
    /// A material property that the material does not have.
    UnknownMaterialProperty,
    /// A shader without a compute entry point.
    NoComputeEntryPoint,
    /// A pipeline still compiling after this many waits.
    PipelineNotReady(u32),
}

/// The library's result.
pub type Result<T> = core::result::Result<T, ProcessingError>;

} // verus!
