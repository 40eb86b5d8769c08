//! Buffer objects: usage hints and the size of an upload.

use vstd::prelude::*;
use vstd::layout::size_of;

verus! {

/// How the graphics API should expect a buffer to be written and read:
/// how often ({stream, static, dynamic}) and by whom ({draw, read, copy}).
#[derive(Debug, Clone, Copy, PartialEq, Eq, Structural)]
pub enum BufferUsage {
    StreamDraw,
    StreamRead,
    StreamCopy,
    StaticDraw,
    StaticRead,
    StaticCopy,
    DynamicDraw,
    DynamicRead,
    DynamicCopy,
}

/// The usage constants of the `gl` crate, `gl::STREAM_DRAW` to
/// `gl::DYNAMIC_COPY`, in the order of the variants of [`BufferUsage`].
/// The contract gives each constant the value that the OpenGL registry
/// assigns to it; nothing verifies that the bindings agree.
#[verifier::external_body]
fn gl_usage_constants() -> (table: [u32; 9])
    ensures
        table@ == seq![
            0x88E0u32,
            0x88E1u32,
            0x88E2u32,
            0x88E4u32,
            0x88E5u32,
            0x88E6u32,
            0x88E8u32,
            0x88E9u32,
            0x88EAu32,
        ],
{
    [
        gl::STREAM_DRAW,
        gl::STREAM_READ,
        gl::STREAM_COPY,
        gl::STATIC_DRAW,
        gl::STATIC_READ,
        gl::STATIC_COPY,
        gl::DYNAMIC_DRAW,
        gl::DYNAMIC_READ,
        gl::DYNAMIC_COPY,
    ]
}

impl BufferUsage {
    /// The enumerant that stands for this hint in the graphics API.
    pub open spec fn gl_enum(self) -> u32 {
        match self {
            BufferUsage::StreamDraw => 0x88E0,
            BufferUsage::StreamRead => 0x88E1,
            BufferUsage::StreamCopy => 0x88E2,
            BufferUsage::StaticDraw => 0x88E4,
            BufferUsage::StaticRead => 0x88E5,
            BufferUsage::StaticCopy => 0x88E6,
            BufferUsage::DynamicDraw => 0x88E8,
            BufferUsage::DynamicRead => 0x88E9,
            BufferUsage::DynamicCopy => 0x88EA,
        }
    }

    /// The enumerant that stands for this hint in the graphics API.
    pub fn as_gl_enum(self) -> (e: u32)
        ensures
            e == self.gl_enum(),
    {
        let table: [u32; 9] = gl_usage_constants();
        match self {
            BufferUsage::StreamDraw => table[0],
            BufferUsage::StreamRead => table[1],
            BufferUsage::StreamCopy => table[2],
            BufferUsage::StaticDraw => table[3],
            BufferUsage::StaticRead => table[4],
            BufferUsage::StaticCopy => table[5],
            BufferUsage::DynamicDraw => table[6],
            BufferUsage::DynamicRead => table[7],
            BufferUsage::DynamicCopy => table[8],
        }
    }
}

/// The arguments with which the store of a buffer is created and filled.
#[derive(Debug, Clone, Copy, PartialEq, Eq, Structural)]
pub struct BufferData {
    /// The buffer object that receives the data.
    pub buffer: u32,
    /// Size of the store in bytes.
    pub size: isize,
    /// The usage enumerant handed to the graphics API.
    pub usage: u32,
}

/// Size in bytes of `count` elements of type `T`.
pub open spec fn byte_size<T>(count: nat) -> nat {
    count * size_of::<T>()
}

/// Describes the upload of `data` into `buffer`: the store holds exactly
/// the bytes of `data`, whatever the usage hint.
pub fn named_buffer_data<T>(buffer: u32, data: &[T], usage: BufferUsage) -> (upload: BufferData)
    requires
        byte_size::<T>(data@.len()) <= isize::MAX,
    ensures
        upload.buffer == buffer,
        upload.size == byte_size::<T>(data@.len()),
        upload.usage == usage.gl_enum(),
{
    let size: usize = data.len() * std::mem::size_of::<T>();
    BufferData { buffer, size: size as isize, usage: usage.as_gl_enum() }
}

/// Like [`named_buffer_data`], for any slice: `None` where the byte size of
/// `data` does not fit the signed size type of the graphics API.
pub fn checked_buffer_data<T>(buffer: u32, data: &[T], usage: BufferUsage) -> (upload: Option<
    BufferData,
>)
    ensures
        upload is Some <==> byte_size::<T>(data@.len()) <= isize::MAX,
        upload matches Some(u) ==> {
            &&& u.buffer == buffer
            &&& u.size == byte_size::<T>(data@.len())
            &&& u.usage == usage.gl_enum()
        },
{
    let element: usize = std::mem::size_of::<T>();
    match data.len().checked_mul(element) {
        Some(size) => {
            if size <= isize::MAX as usize {
                Some(named_buffer_data(buffer, data, usage))
            } else {
                None
            }
        },
        None => None,
    }
}

} // verus!
