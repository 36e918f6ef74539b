//! Buffers and slices as extents of device memory: element counts, byte ranges, and the
//! host side of a read-back.
use crate::binding::{BoundArgs, ShaderArgs, ShaderBinding};
use crate::error::ShaderArgsError;
use vstd::prelude::*;

verus! {

/// One end of a range of element indices.
#[derive(Copy, Clone, PartialEq, Eq, Debug, Structural)]
pub enum RangeBound {
    Included(u64),
    Excluded(u64),
    Unbounded,
}

/// A value that can be sent to a device: plain, copyable and shareable across threads.
pub trait DeviceValue: 'static + Clone + Copy + Send + Sync {

}

impl<T: 'static + Clone + Copy + Send + Sync> DeviceValue for T {

}

/// A device buffer of fixed length and element size. `H` is the backend's handle to the
/// device memory, owned by the buffer.
pub struct Buffer<H> {
    handle: H,
    extent: Extent,
}

/// How many elements a buffer holds, and their size in bytes.
struct Extent {
    elem_size: u64,
    len: u64,
}

impl Extent {
    /// Elements are never empty, and the whole buffer is addressable in bytes.
    #[verifier::type_invariant]
    closed spec fn inv(self) -> bool {
        self.elem_size > 0 && self.len * self.elem_size <= u64::MAX
    }
}

/// A borrowed view of part of a buffer: the buffer's handle and a range of its bytes.
pub struct BufferSlice<'a, H> {
    handle: &'a H,
    elem_size: u64,
    offset: u64,
    size: u64,
}

impl<'a, H> Clone for BufferSlice<'a, H> {
    fn clone(&self) -> (r: BufferSlice<'a, H>)
        ensures
            r == *self,
    {
        BufferSlice {
            handle: self.handle,
            elem_size: self.elem_size,
            offset: self.offset,
            size: self.size,
        }
    }
}

impl<'a, H> Copy for BufferSlice<'a, H> {

}

impl<H> Buffer<H> {
    /// The size of one element, in bytes.
    pub closed spec fn spec_elem_size(&self) -> nat {
        self.extent.elem_size as nat
    }

    /// The number of elements.
    pub closed spec fn spec_len(&self) -> nat {
        self.extent.len as nat
    }

    /// The device handle.
    pub closed spec fn spec_handle(&self) -> H {
        self.handle
    }

    /// The buffer that `handle` holds after it was created from `n` elements of
    /// `elem_size` bytes; `None` where its byte size would not fit in 64 bits.
    pub fn from_data(handle: H, n: usize, elem_size: u64) -> (r: Option<Buffer<H>>)
        requires
            elem_size > 0,
        ensures
            n as int * elem_size <= u64::MAX ==> r is Some && r->Some_0.spec_len() == n && r->Some_0.spec_elem_size() == elem_size && r->Some_0.spec_handle()
                == handle,
            n as int * elem_size > u64::MAX ==> r is None,
    {
        match (n as u64).checked_mul(elem_size) {
            Some(_) => Some(Buffer { handle, extent: Extent { elem_size, len: n as u64 } }),
            None => None,
        }
    }

    /// The buffer that `handle` holds, of `byte_size` bytes, seen as elements of
    /// `elem_size` bytes: as many whole elements as fit.
    pub fn from_byte_size(handle: H, byte_size: u64, elem_size: u64) -> (r: Buffer<H>)
        requires
            elem_size > 0,
        ensures
            r.spec_len() == byte_size / elem_size,
            r.spec_elem_size() == elem_size,
            r.spec_handle() == handle,
    {
        let len = byte_size / elem_size;
        assert(len * elem_size <= byte_size) by (nonlinear_arith)
            requires
                elem_size > 0,
                len == byte_size / elem_size,
        ;
        Buffer { handle, extent: Extent { elem_size, len } }
    }

    /// The device handle.
    pub fn handle(&self) -> (r: &H)
        ensures
            *r == self.spec_handle(),
    {
        &self.handle
    }

    /// The device handle, for an operation that writes the device memory.
    pub fn handle_mut(&mut self) -> (r: &mut H)
        ensures
            *r == old(self).spec_handle(),
            final(self).spec_handle() == *final(r),
            final(self).spec_len() == old(self).spec_len(),
            final(self).spec_elem_size() == old(self).spec_elem_size(),
    {
        &mut self.handle
    }

    /// Gives the device handle back, releasing the buffer.
    pub fn into_handle(self) -> (r: H)
        ensures
            r == self.spec_handle(),
    {
        self.handle
    }

    /// The number of elements.
    pub fn len(&self) -> (r: u64)
        ensures
            r == self.spec_len(),
    {
        self.extent.len
    }

    /// Whether the buffer has no element.
    pub fn is_empty(&self) -> (r: bool)
        ensures
            r == (self.spec_len() == 0),
    {
        self.extent.len == 0
    }

    /// The size of one element, in bytes.
    pub fn elem_size(&self) -> (r: u64)
        ensures
            r == self.spec_elem_size(),
    {
        self.extent.elem_size
    }

    /// The size of the whole buffer, in bytes.
    pub fn byte_size(&self) -> (r: u64)
        ensures
            r == self.spec_len() * self.spec_elem_size(),
    {
        proof {
            use_type_invariant(&self.extent);
        }
        self.extent.len * self.extent.elem_size
    }

    /// The element range `[start, end)` that a pair of bounds selects in this buffer;
    /// `None` where it is not `start <= end <= len`.
    pub fn resolve(&self, start: RangeBound, end: RangeBound) -> (r: Option<(u64, u64)>)
        ensures
            r == spec_resolve(start, end, self.spec_len()),
    {
        let s = match start {
            RangeBound::Included(i) => i,
            RangeBound::Excluded(i) => {
                if i == u64::MAX {
                    return None;
                }
                i + 1
            },
            RangeBound::Unbounded => 0,
        };
        let e = match end {
            RangeBound::Included(i) => {
                if i == u64::MAX {
                    return None;
                }
                i + 1
            },
            RangeBound::Excluded(i) => i,
            RangeBound::Unbounded => self.extent.len,
        };
        if s <= e && e <= self.extent.len {
            Some((s, e))
        } else {
            None
        }
    }

    /// The view of the elements `[start, end)`.
    pub fn slice(&self, start: u64, end: u64) -> (r: BufferSlice<'_, H>)
        requires
            start <= end <= self.spec_len(),
        ensures
            *r.spec_handle() == self.spec_handle(),
            r.spec_elem_size() == self.spec_elem_size(),
            r.spec_offset() == start * self.spec_elem_size(),
            r.spec_size() == (end - start) * self.spec_elem_size(),
            r.spec_offset() + r.spec_size() <= self.spec_len() * self.spec_elem_size(),
            r.spec_len() == end - start,
    {
        proof {
            use_type_invariant(&self.extent);
            lemma_slice_fits(start as int, end as int, self.extent.len as int, self.extent.elem_size as int);
            lemma_buffer_len_and_slice(self.extent.len as int, self.extent.elem_size as int, start as int, end as int);
        }
        BufferSlice {
            handle: &self.handle,
            elem_size: self.extent.elem_size,
            offset: start * self.extent.elem_size,
            size: (end - start) * self.extent.elem_size,
        }
    }

    /// The view of the whole buffer.
    pub fn as_slice(&self) -> (r: BufferSlice<'_, H>)
        ensures
            *r.spec_handle() == self.spec_handle(),
            r.spec_offset() == 0,
            r.spec_size() == self.spec_len() * self.spec_elem_size(),
            r.spec_len() == self.spec_len(),
            r == whole_view(self),
    {
        proof {
            use_type_invariant(&self.extent);
        }
        self.slice(0, self.extent.len)
    }
}

impl<'a, H> BufferSlice<'a, H> {
    /// The handle of the buffer viewed.
    pub closed spec fn spec_handle(&self) -> &'a H {
        self.handle
    }

    /// The size of one element, in bytes.
    pub closed spec fn spec_elem_size(&self) -> nat {
        self.elem_size as nat
    }

    /// Where the view starts in the buffer, in bytes.
    pub closed spec fn spec_offset(&self) -> nat {
        self.offset as nat
    }

    /// The size of the view, in bytes.
    pub closed spec fn spec_size(&self) -> nat {
        self.size as nat
    }

    /// The number of elements in the view.
    pub closed spec fn spec_len(&self) -> nat {
        if self.elem_size == 0 {
            0
        } else {
            (self.size / self.elem_size) as nat
        }
    }

    /// The handle of the buffer viewed.
    pub fn handle(&self) -> (r: &'a H)
        ensures
            r == self.spec_handle(),
    {
        self.handle
    }

    /// Where the view starts in the buffer, in bytes.
    pub fn offset(&self) -> (r: u64)
        ensures
            r == self.spec_offset(),
    {
        self.offset
    }

    /// The size of the view, in bytes.
    pub fn size(&self) -> (r: u64)
        ensures
            r == self.spec_size(),
    {
        self.size
    }

    /// The number of elements in the view.
    pub fn len(&self) -> (r: u64)
        ensures
            r == self.spec_len(),
    {
        if self.elem_size == 0 {
            0
        } else {
            self.size / self.elem_size
        }
    }
}

/// A view binds itself, whatever name the layout gives it.
impl<'a, H> ShaderArgs<BufferSlice<'a, H>> for BufferSlice<'a, H> {
    open spec fn provides(&self, name: Seq<char>) -> bool {
        true
    }

    open spec fn resource(&self, name: Seq<char>) -> BufferSlice<'a, H> {
        *self
    }

    fn write_arg(
        &self,
        binding: ShaderBinding,
        name: &str,
        dispatch: &mut BoundArgs<BufferSlice<'a, H>>,
    ) -> (r: Result<(), ShaderArgsError>) {
        dispatch.push(binding, *self);
        Ok(())
    }
}

/// A buffer binds a view of all its elements, whatever name the layout gives it.
impl<'a, H> ShaderArgs<BufferSlice<'a, H>> for &'a Buffer<H> {
    open spec fn provides(&self, name: Seq<char>) -> bool {
        true
    }

    open spec fn resource(&self, name: Seq<char>) -> BufferSlice<'a, H> {
        whole_view(*self)
    }

    fn write_arg(
        &self,
        binding: ShaderBinding,
        name: &str,
        dispatch: &mut BoundArgs<BufferSlice<'a, H>>,
    ) -> (r: Result<(), ShaderArgsError>) {
        let buffer: &'a Buffer<H> = *self;
        dispatch.push(binding, buffer.as_slice());
        Ok(())
    }
}

/// The view of all the elements of `buffer`.
pub closed spec fn whole_view<'a, H>(buffer: &'a Buffer<H>) -> BufferSlice<'a, H> {
    BufferSlice {
        handle: &buffer.handle,
        elem_size: buffer.extent.elem_size,
        offset: 0,
        size: (buffer.extent.len * buffer.extent.elem_size) as u64,
    }
}

/// The element range that a pair of bounds selects among `len` elements.
pub open spec fn spec_resolve(start: RangeBound, end: RangeBound, len: nat) -> Option<(u64, u64)> {
    let s: int = match start {
        RangeBound::Included(i) => i as int,
        RangeBound::Excluded(i) => i + 1,
        RangeBound::Unbounded => 0,
    };
    let e: int = match end {
        RangeBound::Included(i) => i + 1,
        RangeBound::Excluded(i) => i as int,
        RangeBound::Unbounded => len as int,
    };
    if 0 <= s <= e <= len && s <= u64::MAX && e <= u64::MAX {
        Some((s as u64, e as u64))
    } else {
        None
    }
}

proof fn lemma_slice_fits(start: int, end: int, len: int, size: int)
    requires
        0 <= start <= end <= len,
        size > 0,
    ensures
        0 <= start * size <= end * size <= len * size,
        (end - start) * size == end * size - start * size,
{
    assert(0 <= start * size <= end * size <= len * size) by (nonlinear_arith)
        requires
            0 <= start <= end <= len,
            size > 0,
    ;
    assert((end - start) * size == end * size - start * size) by (nonlinear_arith);
}

/// A buffer created from `n` elements holds `n` elements, and the slice `[i, j)` of it,
/// for `0 <= i <= j <= n`, spans `j - i` elements.
pub proof fn lemma_buffer_len_and_slice(n: int, elem_size: int, i: int, j: int)
    requires
        elem_size > 0,
        0 <= i <= j <= n,
    ensures
        (n * elem_size) / elem_size == n,
        ((j - i) * elem_size) / elem_size == j - i,
{
    assert((n * elem_size) / elem_size == n) by (nonlinear_arith)
        requires
            elem_size > 0,
    ;
    assert(((j - i) * elem_size) / elem_size == j - i) by (nonlinear_arith)
        requires
            elem_size > 0,
            i <= j,
    ;
}

/// The number of 4-byte words that hold `bytes` bytes: the size of a staging buffer that
/// receives a copy of them.
pub fn staging_words(bytes: u64) -> (r: u64)
    ensures
        r as int * 4 >= bytes,
        r as int * 4 < bytes + 4,
{
    bytes / 4 + if bytes % 4 == 0 { 0 } else { 1 }
}

/// Copies what a read-back returned into the front of `out`; the rest of `out` stays as
/// it was.
pub fn copy_prefix<T: DeviceValue>(out: &mut [T], data: &[T])
    requires
        data@.len() <= old(out)@.len(),
    ensures
        final(out)@.len() == old(out)@.len(),
        final(out)@.subrange(0, data@.len() as int) == data@,
        final(out)@.subrange(data@.len() as int, old(out)@.len() as int) == old(out)@.subrange(
            data@.len() as int,
            old(out)@.len() as int,
        ),
{
    let mut i: usize = 0;
    while i < data.len()
        invariant
            data@.len() <= old(out)@.len(),
            out@.len() == old(out)@.len(),
            i <= data@.len(),
            forall|k: int| 0 <= k < i ==> out@[k] == data@[k],
            forall|k: int| data@.len() <= k < out@.len() ==> out@[k] == old(out)@[k],
        decreases data@.len() - i,
    {
        out[i] = data[i];
        i = i + 1;
    }
    assert(out@.subrange(0, data@.len() as int) =~= data@);
    assert(out@.subrange(data@.len() as int, old(out)@.len() as int) =~= old(out)@.subrange(
        data@.len() as int,
        old(out)@.len() as int,
    ));
}

/// The usage bits that a buffer is created with: where the backend forces copy-source
/// usage and the buffer is not mapped for reading, `copy_src` is added.
pub fn effective_usage(usage: u32, map_read: u32, copy_src: u32, force_copy_src: bool) -> (r: u32)
    ensures
        r == if force_copy_src && usage & map_read != map_read {
            usage | copy_src
        } else {
            usage
        },
{
    if force_copy_src && usage & map_read != map_read {
        usage | copy_src
    } else {
        usage
    }
}

} // verus!
