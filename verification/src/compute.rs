//! CPU-side state of compute buffers.
//!
//! A buffer keeps a CPU copy of its bytes next to the GPU one. Kernels that
//! bind it read-write may change the GPU copy, so at the end of each frame
//! such a buffer is marked out of sync; the next CPU access first reads the
//! GPU copy back (`Access::NeedsSync`), then proceeds.
use crate::error::{InvalidArgument, ProcessingError};
use vstd::prelude::*;

verus! {

/// `len` bytes of `bytes`, starting at `offset`.
pub open spec fn bytes_at(bytes: Seq<u8>, offset: int, len: int) -> Seq<u8> {
    bytes.subrange(offset, offset + len)
}

/// `bytes` with `data` written over it starting at `offset`.
pub open spec fn bytes_written(bytes: Seq<u8>, offset: int, data: Seq<u8>) -> Seq<u8> {
    bytes.take(offset) + data + bytes.skip(offset + data.len())
}

/// Why a read of `len` bytes at `offset` from a buffer of `size` bytes is
/// refused, if it is.
pub open spec fn read_error(offset: u64, len: u64, size: u64) -> Option<InvalidArgument> {
    if offset + len > u64::MAX {
        Some(InvalidArgument::OffsetOverflow)
    } else if offset + len > size {
        Some(InvalidArgument::BufferOutOfBounds { offset, len, size })
    } else {
        None
    }
}

/// Why a write of `len` bytes at `offset` into a buffer of `size` bytes is
/// refused, if it is. A whole-buffer write (`exact`) must cover the buffer.
pub open spec fn write_error(offset: u64, len: u64, size: u64, exact: bool) -> Option<
    InvalidArgument,
> {
    if offset + len > u64::MAX {
        Some(InvalidArgument::OffsetOverflow)
    } else if exact && (offset != 0 || offset + len != size) {
        Some(InvalidArgument::BufferSizeMismatch { len, size })
    } else if offset + len > size {
        Some(InvalidArgument::BufferOutOfBounds { offset, len, size })
    } else {
        None
    }
}

/// The outcome of an access that may first need the GPU copy.
#[derive(Debug, PartialEq, Eq)]
pub enum Access<T> {
    /// The access was carried out.
    Ready(T),
    /// The CPU copy is stale: read the GPU copy back with
    /// [`Buffer::sync_from_gpu`], then retry. Nothing was changed.
    NeedsSync,
}

/// What a write of `data` at `offset` does to a buffer of `size` bytes
/// holding `bytes` (in sync or not): the result, and the bytes afterwards.
pub open spec fn write_call(
    bytes: Seq<u8>,
    size: nat,
    synced: bool,
    offset: u64,
    data: Seq<u8>,
    exact: bool,
) -> (Result<Access<()>, ProcessingError>, Seq<u8>) {
    match write_error(offset, data.len() as u64, size as u64, exact) {
        Some(e) => (Err(ProcessingError::InvalidArgument(e)), bytes),
        None => if synced {
            (Ok(Access::Ready(())), bytes_written(bytes, offset as int, data))
        } else {
            (Ok(Access::NeedsSync), bytes)
        },
    }
}

/// What a read of `len` bytes at `offset` from a buffer of `size` bytes
/// holding `bytes` (in sync or not) gives.
pub open spec fn read_call(bytes: Seq<u8>, size: nat, synced: bool, offset: u64, len: u64) -> Result<
    Access<Seq<u8>>,
    ProcessingError,
> {
    match read_error(offset, len, size as u64) {
        Some(e) => Err(ProcessingError::InvalidArgument(e)),
        None => if synced {
            Ok(Access::Ready(bytes_at(bytes, offset as int, len as int)))
        } else {
            Ok(Access::NeedsSync)
        },
    }
}

/// A read's result with the bytes as a sequence.
pub open spec fn read_view(r: Result<Access<Vec<u8>>, ProcessingError>) -> Result<
    Access<Seq<u8>>,
    ProcessingError,
> {
    match r {
        Ok(Access::Ready(v)) => Ok(Access::Ready(v@)),
        Ok(Access::NeedsSync) => Ok(Access::NeedsSync),
        Err(e) => Err(e),
    }
}

/// A compute buffer's CPU copy and synchronisation state.
pub struct Buffer {
    data: Vec<u8>,
    size: u64,
    synced: bool,
    bound_rw: bool,
}

impl Buffer {
    /// The CPU copy of the bytes.
    pub closed spec fn bytes(&self) -> Seq<u8> {
        self.data@
    }

    /// The buffer's size in bytes.
    pub closed spec fn spec_size(&self) -> nat {
        self.size as nat
    }

    /// Whether the CPU copy is known to match the GPU copy.
    pub closed spec fn spec_synced(&self) -> bool {
        self.synced
    }

    /// Whether some kernel has bound the buffer read-write.
    pub closed spec fn spec_bound_rw(&self) -> bool {
        self.bound_rw
    }

    /// The CPU copy is as long as the buffer, and a buffer that no kernel may
    /// write is always in sync.
    pub open spec fn wf(&self) -> bool {
        &&& self.bytes().len() == self.spec_size()
        &&& !self.spec_bound_rw() ==> self.spec_synced()
    }

    pub fn size(&self) -> (r: u64)
        ensures
            r == self.spec_size(),
    {
        self.size
    }

    pub fn is_synced(&self) -> (r: bool)
        ensures
            r == self.spec_synced(),
    {
        self.synced
    }

    pub fn is_bound_rw(&self) -> (r: bool)
        ensures
            r == self.spec_bound_rw(),
    {
        self.bound_rw
    }

    /// Replaces the CPU copy with bytes read back from the GPU.
    pub fn sync_from_gpu(&mut self, bytes: Vec<u8>)
        requires
            old(self).wf(),
            bytes@.len() == old(self).spec_size(),
        ensures
            final(self).wf(),
            final(self).bytes() == bytes@,
            final(self).spec_synced(),
            final(self).spec_size() == old(self).spec_size(),
            final(self).spec_bound_rw() == old(self).spec_bound_rw(),
    {
        self.data = bytes;
        self.synced = true;
    }

    /// Records that a kernel binds the buffer (read-only or read-write).
    pub fn bind(&mut self, read_only: bool)
        requires
            old(self).wf(),
        ensures
            final(self).wf(),
            final(self).bytes() == old(self).bytes(),
            final(self).spec_size() == old(self).spec_size(),
            final(self).spec_synced() == old(self).spec_synced(),
            final(self).spec_bound_rw() == (old(self).spec_bound_rw() || !read_only),
    {
        if !read_only {
            self.bound_rw = true;
        }
    }

    /// End-of-frame step: a buffer bound read-write may have been changed by
    /// the GPU, so its CPU copy stops counting as in sync.
    pub fn invalidate_if_rw(&mut self)
        requires
            old(self).wf(),
        ensures
            final(self).wf(),
            final(self).bytes() == old(self).bytes(),
            final(self).spec_size() == old(self).spec_size(),
            final(self).spec_bound_rw() == old(self).spec_bound_rw(),
            final(self).spec_synced() == (old(self).spec_synced() && !old(self).spec_bound_rw()),
    {
        if self.bound_rw && self.synced {
            self.synced = false;
        }
    }

    /// Copies `data` into the CPU copy at `offset`.
    pub fn write_bytes(&mut self, offset: u64, data: &[u8])
        requires
            old(self).wf(),
            offset + data@.len() <= old(self).spec_size(),
        ensures
            final(self).wf(),
            final(self).bytes() == bytes_written(old(self).bytes(), offset as int, data@),
            final(self).spec_size() == old(self).spec_size(),
            final(self).spec_synced() == old(self).spec_synced(),
            final(self).spec_bound_rw() == old(self).spec_bound_rw(),
    {
        let total = self.data.len();
        assert(offset + data@.len() <= total);
        let start = offset as usize;
        let mut i: usize = 0;
        while i < data.len()
            invariant
                0 <= i <= data@.len(),
                start + data@.len() <= self.data@.len(),
                self.data@.len() == old(self).data@.len(),
                self.data@.len() == total,
                self.size == old(self).size,
                self.synced == old(self).synced,
                self.bound_rw == old(self).bound_rw,
                forall|k: int| 0 <= k < start ==> self.data@[k] == old(self).data@[k],
                forall|k: int|
                    start + data@.len() <= k < self.data@.len() ==> self.data@[k] == old(
                        self,
                    ).data@[k],
                forall|k: int| 0 <= k < i ==> self.data@[start + k] == data@[k],
                forall|k: int| start + i <= k < start + data@.len() ==> self.data@[k] == old(self).data@[k],
            decreases data@.len() - i,
        {
            self.data.set(start + i, data[i]);
            i = i + 1;
        }
        assert(self.data@ =~= bytes_written(old(self).bytes(), offset as int, data@));
    }

    /// Copies `len` bytes of the CPU copy, starting at `offset`.
    pub fn read_bytes(&self, offset: u64, len: u64) -> (r: Vec<u8>)
        requires
            self.wf(),
            offset + len <= self.spec_size(),
        ensures
            r@ == bytes_at(self.bytes(), offset as int, len as int),
    {
        let total = self.data.len();
        assert(offset + len <= total);
        let start = offset as usize;
        let n = len as usize;
        let mut out: Vec<u8> = Vec::new();
        let mut i: usize = 0;
        while i < n
            invariant
                0 <= i <= n,
                n == len,
                start == offset,
                start + n <= self.data@.len(),
                self.data@.len() == total,
                out@ =~= self.data@.subrange(start as int, start + i),
            decreases n - i,
        {
            out.push(self.data[start + i]);
            i = i + 1;
        }
        out
    }

    /// Writes `data` at `offset` after the range checks: `offset + len` must
    /// fit in a `u64`, a whole-buffer write (`exact`) must
    /// start at `0` and cover the buffer, and the range must lie inside it.
    pub fn write_range(&mut self, offset: u64, data: &[u8], exact: bool) -> (r: Result<
        Access<()>,
        ProcessingError,
    >)
        requires
            old(self).wf(),
        ensures
            final(self).wf(),
            final(self).spec_size() == old(self).spec_size(),
            final(self).spec_bound_rw() == old(self).spec_bound_rw(),
            final(self).spec_synced() == old(self).spec_synced(),
            (r, final(self).bytes()) == write_call(
                old(self).bytes(),
                old(self).spec_size(),
                old(self).spec_synced(),
                offset,
                data@,
                exact,
            ),
    {
        let len = data.len() as u64;
        if offset > u64::MAX - len {
            return Err(ProcessingError::InvalidArgument(InvalidArgument::OffsetOverflow));
        }
        let end = offset + len;
        if exact && (offset != 0 || end != self.size) {
            return Err(
                ProcessingError::InvalidArgument(
                    InvalidArgument::BufferSizeMismatch { len, size: self.size },
                ),
            );
        }
        if end > self.size {
            return Err(
                ProcessingError::InvalidArgument(
                    InvalidArgument::BufferOutOfBounds { offset, len, size: self.size },
                ),
            );
        }
        if !self.synced {
            return Ok(Access::NeedsSync);
        }
        self.write_bytes(offset, data);
        Ok(Access::Ready(()))
    }

    /// Reads `len` bytes at `offset` after the range checks: `offset + len`
    /// must fit in a `u64` and lie inside the buffer.
    pub fn read_range(&self, offset: u64, len: u64) -> (r: Result<Access<Vec<u8>>, ProcessingError>)
        requires
            self.wf(),
        ensures
            read_view(r) == read_call(self.bytes(), self.spec_size(), self.spec_synced(), offset, len),
    {
        if offset > u64::MAX - len {
            return Err(ProcessingError::InvalidArgument(InvalidArgument::OffsetOverflow));
        }
        if offset + len > self.size {
            return Err(
                ProcessingError::InvalidArgument(
                    InvalidArgument::BufferOutOfBounds { offset, len, size: self.size },
                ),
            );
        }
        if !self.synced {
            return Ok(Access::NeedsSync);
        }
        let v = self.read_bytes(offset, len);
        Ok(Access::Ready(v))
    }
}

/// A new buffer of `size` zero bytes, in sync and bound by no kernel.
pub fn create_buffer(size: u64) -> (r: Buffer)
    requires
        size <= usize::MAX,
    ensures
        r.wf(),
        r.bytes() == Seq::new(size as nat, |_i: int| 0u8),
        r.spec_synced(),
        !r.spec_bound_rw(),
{
    let n = size as usize;
    let mut data: Vec<u8> = Vec::new();
    let mut i: usize = 0;
    while i < n
        invariant
            0 <= i <= n,
            data@ =~= Seq::new(i as nat, |_i: int| 0u8),
        decreases n - i,
    {
        data.push(0u8);
        i = i + 1;
    }
    Buffer { data, size, synced: true, bound_rw: false }
}

/// A new buffer holding `data`, in sync and bound by no kernel.
pub fn create_buffer_with_data(data: Vec<u8>) -> (r: Buffer)
    ensures
        r.wf(),
        r.bytes() == data@,
        r.spec_synced(),
        !r.spec_bound_rw(),
{
    let size = data.len() as u64;
    Buffer { data, size, synced: true, bound_rw: false }
}

/// The end-of-frame pass over every buffer (see [`Buffer::invalidate_if_rw`]).
pub fn invalidate_rw_buffers(buffers: &mut Vec<Buffer>)
    requires
        forall|i: int| 0 <= i < old(buffers)@.len() ==> (#[trigger] old(buffers)@[i]).wf(),
    ensures
        final(buffers)@.len() == old(buffers)@.len(),
        forall|i: int|
            0 <= i < final(buffers)@.len() ==> {
                let b = #[trigger] final(buffers)@[i];
                let a = old(buffers)@[i];
                &&& b.wf()
                &&& b.bytes() == a.bytes()
                &&& b.spec_size() == a.spec_size()
                &&& b.spec_bound_rw() == a.spec_bound_rw()
                &&& b.spec_synced() == (a.spec_synced() && !a.spec_bound_rw())
            },
{
    let mut i: usize = 0;
    while i < buffers.len()
        invariant
            0 <= i <= buffers@.len(),
            buffers@.len() == old(buffers)@.len(),
            forall|k: int| i <= k < buffers@.len() ==> buffers@[k] == old(buffers)@[k],
            forall|k: int|
                0 <= k < i ==> {
                    let b = #[trigger] buffers@[k];
                    let a = old(buffers)@[k];
                    &&& b.wf()
                    &&& b.bytes() == a.bytes()
                    &&& b.spec_size() == a.spec_size()
                    &&& b.spec_bound_rw() == a.spec_bound_rw()
                    &&& b.spec_synced() == (a.spec_synced() && !a.spec_bound_rw())
                },
            forall|k: int| 0 <= k < old(buffers)@.len() ==> (#[trigger] old(buffers)@[k]).wf(),
        decreases buffers@.len() - i,
    {
        buffers[i].invalidate_if_rw();
        i = i + 1;
    }
}

/// Reading back the bytes just written gives them back.
pub proof fn lemma_read_after_write(bytes: Seq<u8>, offset: int, data: Seq<u8>)
    requires
        0 <= offset,
        offset + data.len() <= bytes.len(),
    ensures
        bytes_at(bytes_written(bytes, offset, data), offset, data.len() as int) == data,
        bytes_written(bytes, offset, data).len() == bytes.len(),
{
    assert(bytes_at(bytes_written(bytes, offset, data), offset, data.len() as int) =~= data);
}

/// A write leaves every byte outside its range as it was.
pub proof fn lemma_write_keeps_other_bytes(bytes: Seq<u8>, offset: int, data: Seq<u8>, k: int)
    requires
        0 <= offset,
        offset + data.len() <= bytes.len(),
        0 <= k < bytes.len(),
        k < offset || offset + data.len() <= k,
    ensures
        bytes_written(bytes, offset, data)[k] == bytes[k],
{
}

/// A whole-buffer write replaces every byte: reading the whole buffer back
/// gives the written bytes.
pub proof fn lemma_whole_write_replaces(bytes: Seq<u8>, data: Seq<u8>)
    requires
        data.len() == bytes.len(),
    ensures
        bytes_written(bytes, 0, data) == data,
{
    assert(bytes_written(bytes, 0, data) =~= data);
}

/// The buffer's size in bytes.
pub fn buffer_size(buffer: &Buffer) -> (r: u64)
    ensures
        r == buffer.spec_size(),
{
    buffer.size()
}

/// Replaces the whole contents: `data` must be exactly as long as the
/// buffer (buffers are not resized).
pub fn buffer_write(buffer: &mut Buffer, data: &[u8]) -> (r: Result<Access<()>, ProcessingError>)
    requires
        old(buffer).wf(),
    ensures
        final(buffer).wf(),
        final(buffer).spec_size() == old(buffer).spec_size(),
        final(buffer).spec_synced() == old(buffer).spec_synced(),
        final(buffer).spec_bound_rw() == old(buffer).spec_bound_rw(),
        (r, final(buffer).bytes()) == write_call(
            old(buffer).bytes(),
            old(buffer).spec_size(),
            old(buffer).spec_synced(),
            0,
            data@,
            true,
        ),
{
    buffer.write_range(0, data, true)
}

/// Writes `data` at byte `offset`, inside the buffer.
pub fn buffer_write_element(buffer: &mut Buffer, offset: u64, data: &[u8]) -> (r: Result<
    Access<()>,
    ProcessingError,
>)
    requires
        old(buffer).wf(),
    ensures
        final(buffer).wf(),
        final(buffer).spec_size() == old(buffer).spec_size(),
        final(buffer).spec_synced() == old(buffer).spec_synced(),
        final(buffer).spec_bound_rw() == old(buffer).spec_bound_rw(),
        (r, final(buffer).bytes()) == write_call(
            old(buffer).bytes(),
            old(buffer).spec_size(),
            old(buffer).spec_synced(),
            offset,
            data@,
            false,
        ),
{
    buffer.write_range(offset, data, false)
}

/// Reads the whole contents.
pub fn buffer_read(buffer: &Buffer) -> (r: Result<Access<Vec<u8>>, ProcessingError>)
    requires
        buffer.wf(),
    ensures
        read_view(r) == read_call(
            buffer.bytes(),
            buffer.spec_size(),
            buffer.spec_synced(),
            0,
            buffer.spec_size() as u64,
        ),
{
    buffer.read_range(0, buffer.size())
}

/// Reads `len` bytes at byte `offset`.
pub fn buffer_read_element(buffer: &Buffer, offset: u64, len: u64) -> (r: Result<
    Access<Vec<u8>>,
    ProcessingError,
>)
    requires
        buffer.wf(),
    ensures
        read_view(r) == read_call(buffer.bytes(), buffer.spec_size(), buffer.spec_synced(), offset, len),
{
    buffer.read_range(offset, len)
}

/// Writing a whole buffer and reading it back. Data of another length is
/// refused and leaves the contents as they were. Data of the buffer's length
/// is written: at once when the buffer is in sync; otherwise the write first
/// asks for a sync, and after the GPU copy `gpu` is read back it succeeds.
/// Either way the whole buffer then reads back as the data, at the same size.
pub proof fn lemma_buffer_write_then_read(
    bytes: Seq<u8>,
    size: nat,
    synced: bool,
    gpu: Seq<u8>,
    data: Seq<u8>,
)
    requires
        bytes.len() == size,
        gpu.len() == size,
        size <= u64::MAX,
        data.len() <= u64::MAX,
    ensures
        data.len() != size ==> write_call(bytes, size, synced, 0, data, true) == (
            Err::<Access<()>, ProcessingError>(
                ProcessingError::InvalidArgument(
                    InvalidArgument::BufferSizeMismatch { len: data.len() as u64, size: size as u64 },
                ),
            ),
            bytes,
        ),
        data.len() == size ==> {
            &&& !synced ==> write_call(bytes, size, synced, 0, data, true) == (
                Ok::<Access<()>, ProcessingError>(Access::NeedsSync),
                bytes,
            )
            &&& write_call(if synced { bytes } else { gpu }, size, true, 0, data, true) == (
                Ok::<Access<()>, ProcessingError>(Access::Ready(())),
                data,
            )
            &&& read_call(data, size, true, 0, size as u64) == Ok::<
                Access<Seq<u8>>,
                ProcessingError,
            >(Access::Ready(data))
        },
{
    if data.len() == size {
        lemma_whole_write_replaces(if synced { bytes } else { gpu }, data);
        assert(bytes_at(data, 0, size as int) =~= data);
    }
}

/// Writing a range and reading it back. A read of `len` bytes at `offset`
/// is refused exactly when the range leaves the buffer (or overflows). A
/// write inside the buffer (of a buffer in sync) succeeds, reading the same
/// range gives the written bytes, and every byte outside it keeps its value.
pub proof fn lemma_buffer_element_round_trip(
    bytes: Seq<u8>,
    size: nat,
    offset: u64,
    data: Seq<u8>,
    len: u64,
    k: int,
)
    requires
        bytes.len() == size,
        size <= u64::MAX,
        data.len() <= u64::MAX,
    ensures
        (read_call(bytes, size, true, offset, len) is Err) <==> offset + len > size,
        offset + data.len() <= size ==> {
            let after = bytes_written(bytes, offset as int, data);
            &&& write_call(bytes, size, true, offset, data, false) == (
                Ok::<Access<()>, ProcessingError>(Access::Ready(())),
                after,
            )
            &&& read_call(after, size, true, offset, data.len() as u64) == Ok::<
                Access<Seq<u8>>,
                ProcessingError,
            >(Access::Ready(data))
            &&& (0 <= k < size && (k < offset || offset + data.len() <= k)) ==> after[k] == bytes[k]
        },
{
    if offset + data.len() <= size {
        lemma_read_after_write(bytes, offset as int, data);
    }
}

/// What a shader parameter slot takes.
#[derive(Debug, Clone, Copy, PartialEq, Eq, Structural)]
pub enum ParamCategory {
    Uniform,
    Storage { read_only: bool },
    Texture,
    StorageTexture,
    Sampler,
}

/// The kind of a value given for a shader property.
#[derive(Debug, Clone, Copy, PartialEq, Eq, Structural)]
pub enum ValueKind {
    /// A compute buffer.
    Buffer,
    /// A geometry's vertex-attribute buffer.
    MeshAttribute,
    /// A geometry's index buffer.
    MeshIndex,
    /// An image.
    Texture,
    /// A scalar, vector or matrix, possibly for a nested struct field.
    Plain,
}

/// How a property value is bound.
#[derive(Debug, Clone, Copy, PartialEq, Eq, Structural)]
pub enum PropertyBinding {
    /// Bind the buffer; a read-write slot marks it as written by kernels.
    Buffer { read_write: bool },
    /// Record the attribute buffer, bound read-only at dispatch.
    MeshAttribute,
    /// Record the index buffer, bound read-only at dispatch.
    MeshIndex,
    /// Bind the image (its sampler, for a sampler slot).
    Texture,
    /// Write the value into the (possibly nested) field.
    Field,
}

/// How a value of `kind` binds to a slot of `category` (`None` when the
/// shader declares no such parameter). Plain values go to fields by path and
/// do not look the slot up.
pub open spec fn binding_of(kind: ValueKind, category: Option<ParamCategory>) -> Result<
    PropertyBinding,
    ProcessingError,
> {
    match kind {
        ValueKind::Plain => Ok(PropertyBinding::Field),
        _ => match category {
            None => Err(ProcessingError::UnknownShaderProperty),
            Some(c) => match kind {
                ValueKind::Buffer => match c {
                    ParamCategory::Storage { read_only } => Ok(
                        PropertyBinding::Buffer { read_write: !read_only },
                    ),
                    _ => Err(ProcessingError::InvalidArgument(InvalidArgument::PropertyKindMismatch)),
                },
                ValueKind::MeshAttribute => match c {
                    ParamCategory::Storage { read_only } => if read_only {
                        Ok(PropertyBinding::MeshAttribute)
                    } else {
                        Err(ProcessingError::InvalidArgument(InvalidArgument::MeshBindingReadWrite))
                    },
                    _ => Err(ProcessingError::InvalidArgument(InvalidArgument::PropertyKindMismatch)),
                },
                ValueKind::MeshIndex => match c {
                    ParamCategory::Storage { read_only } => if read_only {
                        Ok(PropertyBinding::MeshIndex)
                    } else {
                        Err(ProcessingError::InvalidArgument(InvalidArgument::MeshBindingReadWrite))
                    },
                    _ => Err(ProcessingError::InvalidArgument(InvalidArgument::PropertyKindMismatch)),
                },
                _ => match c {
                    ParamCategory::Texture | ParamCategory::StorageTexture | ParamCategory::Sampler => Ok(
                        PropertyBinding::Texture,
                    ),
                    _ => Err(ProcessingError::InvalidArgument(InvalidArgument::PropertyKindMismatch)),
                },
            },
        },
    }
}

/// How each kind of value meets each kind of slot. A plain value always goes
/// to a field, slot or not. Any other value needs the shader to declare the
/// slot. An image binds to every texture-like slot (a texture, a storage
/// texture, or a sampler, which takes the image's sampler) and to nothing
/// else. A compute buffer binds to any storage slot, read-write exactly when
/// the slot is. A mesh attribute or index buffer binds to a read-only storage
/// slot only: a read-write one is refused as such. Every other pairing is a
/// kind mismatch.
pub proof fn lemma_binding_rules(kind: ValueKind, category: Option<ParamCategory>)
    ensures
        kind == ValueKind::Plain ==> binding_of(kind, category) == Ok::<PropertyBinding, ProcessingError>(
            PropertyBinding::Field,
        ),
        kind != ValueKind::Plain && category is None ==> binding_of(kind, category) == Err::<
            PropertyBinding,
            ProcessingError,
        >(ProcessingError::UnknownShaderProperty),
        kind == ValueKind::Texture && category is Some ==> binding_of(kind, category) == (if category
            == Some(ParamCategory::Texture) || category == Some(ParamCategory::StorageTexture) || category
            == Some(ParamCategory::Sampler) {
            Ok::<PropertyBinding, ProcessingError>(PropertyBinding::Texture)
        } else {
            Err::<PropertyBinding, ProcessingError>(
                ProcessingError::InvalidArgument(InvalidArgument::PropertyKindMismatch),
            )
        }),
        kind == ValueKind::Buffer && category is Some ==> binding_of(kind, category) == (match category {
            Some(ParamCategory::Storage { read_only }) => Ok::<PropertyBinding, ProcessingError>(
                PropertyBinding::Buffer { read_write: !read_only },
            ),
            _ => Err::<PropertyBinding, ProcessingError>(
                ProcessingError::InvalidArgument(InvalidArgument::PropertyKindMismatch),
            ),
        }),
        (kind == ValueKind::MeshAttribute || kind == ValueKind::MeshIndex) && category is Some ==> binding_of(
            kind,
            category,
        ) == (match category {
            Some(ParamCategory::Storage { read_only: true }) => Ok::<PropertyBinding, ProcessingError>(
                if kind == ValueKind::MeshAttribute {
                    PropertyBinding::MeshAttribute
                } else {
                    PropertyBinding::MeshIndex
                },
            ),
            Some(ParamCategory::Storage { read_only: false }) => Err::<PropertyBinding, ProcessingError>(
                ProcessingError::InvalidArgument(InvalidArgument::MeshBindingReadWrite),
            ),
            _ => Err::<PropertyBinding, ProcessingError>(
                ProcessingError::InvalidArgument(InvalidArgument::PropertyKindMismatch),
            ),
        }),
{
}

/// Decides how a property value binds to the shader's slot of that name.
pub fn property_binding(kind: ValueKind, category: Option<ParamCategory>) -> (r: Result<
    PropertyBinding,
    ProcessingError,
>)
    ensures
        r == binding_of(kind, category),
{
    if let ValueKind::Plain = kind {
        return Ok(PropertyBinding::Field);
    }
    let c = match category {
        None => return Err(ProcessingError::UnknownShaderProperty),
        Some(c) => c,
    };
    let mismatch = ProcessingError::InvalidArgument(InvalidArgument::PropertyKindMismatch);
    let rw = ProcessingError::InvalidArgument(InvalidArgument::MeshBindingReadWrite);
    match kind {
        ValueKind::Buffer => match c {
            ParamCategory::Storage { read_only } => Ok(PropertyBinding::Buffer { read_write: !read_only }),
            _ => Err(mismatch),
        },
        ValueKind::MeshAttribute => match c {
            ParamCategory::Storage { read_only } => if read_only {
                Ok(PropertyBinding::MeshAttribute)
            } else {
                Err(rw)
            },
            _ => Err(mismatch),
        },
        ValueKind::MeshIndex => match c {
            ParamCategory::Storage { read_only } => if read_only {
                Ok(PropertyBinding::MeshIndex)
            } else {
                Err(rw)
            },
            _ => Err(mismatch),
        },
        _ => match c {
            ParamCategory::Texture | ParamCategory::StorageTexture | ParamCategory::Sampler => Ok(
                PropertyBinding::Texture,
            ),
            _ => Err(mismatch),
        },
    }
}

/// Strictly increasing.
pub open spec fn strictly_increasing(s: Seq<u32>) -> bool {
    forall|i: int, j: int| 0 <= i < j < s.len() ==> s[i] < s[j]
}

/// The number of layout slots a pipeline over bind `groups` needs: one past
/// the highest group, none without groups.
pub open spec fn slot_count(groups: Seq<u32>) -> int {
    if groups.len() == 0 {
        0
    } else {
        groups.last() + 1
    }
}

/// The pipeline layout over the bind groups the shader uses (ascending): slot
/// `g` refers to the entry of `groups` that is `g`, and groups the shader
/// does not use get an empty layout (`None`).
pub fn layout_slots(groups: &Vec<u32>) -> (r: Vec<Option<usize>>)
    requires
        strictly_increasing(groups@),
        groups@.len() > 0 ==> groups@.last() < u32::MAX,
        slot_count(groups@) <= usize::MAX,
    ensures
        r@.len() == slot_count(groups@),
        forall|g: int|
            0 <= g < r@.len() ==> match #[trigger] r@[g] {
                Some(i) => i < groups@.len() && groups@[i as int] == g,
                None => !groups@.contains(g as u32),
            },
{
    let n: usize = if groups.len() == 0 {
        0
    } else {
        (groups[groups.len() - 1] + 1) as usize
    };
    let mut r: Vec<Option<usize>> = Vec::new();
    let mut k: usize = 0;
    let mut g: usize = 0;
    while g < n
        invariant
            n == slot_count(groups@),
            strictly_increasing(groups@),
            g <= n,
            r@.len() == g,
            k <= groups@.len(),
            forall|i: int| 0 <= i < k ==> groups@[i] < g,
            forall|i: int| k <= i < groups@.len() ==> groups@[i] >= g,
            forall|h: int|
                0 <= h < g ==> match #[trigger] r@[h] {
                    Some(i) => i < groups@.len() && groups@[i as int] == h,
                    None => !groups@.contains(h as u32),
                },
        decreases n - g,
    {
        if k < groups.len() && groups[k] as usize == g {
            r.push(Some(k));
            k = k + 1;
        } else {
            proof {
                assert forall|i: int| 0 <= i < groups@.len() implies groups@[i] != g by {
                    if k < groups@.len() && i > k {
                        assert(groups@[k as int] < groups@[i]);
                    }
                }
            }
            r.push(None);
        }
        g = g + 1;
    }
    r
}

/// The first entry point, among the shader's entry-point stages, that is a
/// compute one.
pub open spec fn is_first_compute(stages: Seq<bool>, i: int) -> bool {
    &&& 0 <= i < stages.len()
    &&& stages[i]
    &&& forall|j: int| 0 <= j < i ==> !stages[j]
}

/// The index of the first compute entry point among the entry points
/// (`true` where an entry point is a compute one); a shader without one is
/// an error.
pub fn compute_entry_point(is_compute: &Vec<bool>) -> (r: Result<usize, ProcessingError>)
    ensures
        match r {
            Ok(i) => is_first_compute(is_compute@, i as int),
            Err(e) => e == ProcessingError::NoComputeEntryPoint && forall|j: int|
                0 <= j < is_compute@.len() ==> !is_compute@[j],
        },
{
    let mut i: usize = 0;
    while i < is_compute.len()
        invariant
            i <= is_compute@.len(),
            forall|j: int| 0 <= j < i ==> !is_compute@[j],
        decreases is_compute@.len() - i,
    {
        if is_compute[i] {
            return Ok(i);
        }
        i = i + 1;
    }
    Err(ProcessingError::NoComputeEntryPoint)
}

/// How many times pipeline creation lets the app update while the pipeline
/// compiles.
pub const MAX_PIPELINE_WAIT: u32 = 64;

/// What to do after an update during pipeline creation.
#[derive(Debug, Clone, Copy, PartialEq, Eq, Structural)]
pub enum PipelineWait {
    /// The pipeline is ready: create the compute entity.
    Ready,
    /// Update the app once more, then ask again.
    Again,
    /// Stop with this error.
    Fail(ProcessingError),
}

/// After update number `attempt` (from 1), with the pipeline `done` or not:
/// ready when done, else again until `MAX_PIPELINE_WAIT` updates were spent.
pub fn pipeline_wait_step(attempt: u32, done: bool) -> (r: PipelineWait)
    requires
        1 <= attempt <= MAX_PIPELINE_WAIT,
    ensures
        done ==> r == PipelineWait::Ready,
        !done && attempt < MAX_PIPELINE_WAIT ==> r == PipelineWait::Again,
        !done && attempt == MAX_PIPELINE_WAIT ==> r == PipelineWait::Fail(
            ProcessingError::PipelineNotReady(MAX_PIPELINE_WAIT),
        ),
{
    if done {
        PipelineWait::Ready
    } else if attempt < MAX_PIPELINE_WAIT {
        PipelineWait::Again
    } else {
        PipelineWait::Fail(ProcessingError::PipelineNotReady(MAX_PIPELINE_WAIT))
    }
}

/// What one recorded mesh binding contributes to the bind group being built.
#[derive(Debug, Clone, Copy, PartialEq, Eq, Structural)]
pub enum MeshBindingStep {
    /// The shader has no parameter of that name: dispatch fails.
    Unknown,
    /// The parameter is in another bind group.
    Skip,
    /// Bind the mesh buffer at this binding index.
    Bind(u32),
}

/// The step for a mesh binding whose parameter is `param` (its group and
/// binding index, if the shader declares it) while building `group`.
pub fn mesh_binding_step(param: Option<(u32, u32)>, group: u32) -> (r: MeshBindingStep)
    ensures
        r == match param {
            None => MeshBindingStep::Unknown,
            Some(p) => if p.0 == group {
                MeshBindingStep::Bind(p.1)
            } else {
                MeshBindingStep::Skip
            },
        },
{
    match param {
        None => MeshBindingStep::Unknown,
        Some((g, b)) => if g == group {
            MeshBindingStep::Bind(b)
        } else {
            MeshBindingStep::Skip
        },
    }
}

/// `bindings` with binding `index` given `resource`: the first entry of that
/// index takes it in place, or a new entry goes last.
pub open spec fn with_binding<R>(bindings: Seq<(u32, R)>, index: u32, resource: R) -> Seq<(u32, R)> {
    match first_binding(bindings, index, 0) {
        Some(i) => bindings.update(i, (index, resource)),
        None => bindings.push((index, resource)),
    }
}

/// The first position at or after `i` whose binding index is `index`.
pub open spec fn first_binding<R>(bindings: Seq<(u32, R)>, index: u32, i: int) -> Option<int>
    decreases bindings.len() - i,
{
    if i < 0 || i >= bindings.len() {
        None
    } else if bindings[i].0 == index {
        Some(i)
    } else {
        first_binding(bindings, index, i + 1)
    }
}

proof fn lemma_first_binding_is<R>(bindings: Seq<(u32, R)>, index: u32, i: int, k: int)
    requires
        0 <= i <= k < bindings.len(),
        bindings[k].0 == index,
        forall|j: int| i <= j < k ==> bindings[j].0 != index,
    ensures
        first_binding(bindings, index, i) == Some(k),
    decreases k - i,
{
    if i < k {
        lemma_first_binding_is(bindings, index, i + 1, k);
    }
}

proof fn lemma_first_binding_none<R>(bindings: Seq<(u32, R)>, index: u32, i: int)
    requires
        0 <= i <= bindings.len(),
        forall|j: int| i <= j < bindings.len() ==> bindings[j].0 != index,
    ensures
        first_binding(bindings, index, i) is None,
    decreases bindings.len() - i,
{
    if i < bindings.len() {
        lemma_first_binding_none(bindings, index, i + 1);
    }
}

/// Gives binding `index` the resource: replaces the resource of the first
/// entry with that index, or appends one.
pub fn set_binding<R>(bindings: &mut Vec<(u32, R)>, index: u32, resource: R)
    ensures
        final(bindings)@ == with_binding(old(bindings)@, index, resource),
{
    let mut i: usize = 0;
    while i < bindings.len()
        invariant
            i <= bindings@.len(),
            bindings@ == old(bindings)@,
            forall|j: int| 0 <= j < i ==> bindings@[j].0 != index,
        decreases bindings@.len() - i,
    {
        if bindings[i].0 == index {
            proof {
                lemma_first_binding_is(bindings@, index, 0, i as int);
            }
            bindings.set(i, (index, resource));
            return;
        }
        i = i + 1;
    }
    proof {
        lemma_first_binding_none(bindings@, index, 0);
    }
    bindings.push((index, resource));
}

/// Setting an optional shader property: a shader that does not declare the
/// property is fine, any other error stands.
pub fn tolerate_unknown_property(r: Result<(), ProcessingError>) -> (out: Result<(), ProcessingError>)
    ensures
        out == (match r {
            Err(ProcessingError::UnknownShaderProperty) => Ok(()),
            _ => r,
        }),
{
    match r {
        Err(ProcessingError::UnknownShaderProperty) => Ok(()),
        _ => r,
    }
}

} // verus!
