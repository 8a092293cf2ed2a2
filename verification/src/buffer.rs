//! Buffers and the enumerations that describe them.

use vstd::prelude::*;
use crate::codes;
use crate::ctx::ManagedContext;
use crate::device::DeviceCall;
use crate::error::{BindError, BufferError};
use crate::handle::NativeHandle;

verus! {

/// The two binding points a buffer can be made for.
#[derive(Clone, Copy, Debug, PartialEq, Eq, Structural)]
pub enum BufferType {
    /// Vertex data.
    ArrayBuffer,
    /// Index data.
    ElementArrayBuffer,
}

impl BufferType {
    /// The device's number for this binding point.
    pub open spec fn code(self) -> u32 {
        match self {
            BufferType::ArrayBuffer => codes::ARRAY_BUFFER,
            BufferType::ElementArrayBuffer => codes::ELEMENT_ARRAY_BUFFER,
        }
    }

    pub fn to_gl(&self) -> (r: u32)
        ensures
            r == self.code(),
    {
        match self {
            BufferType::ArrayBuffer => codes::ARRAY_BUFFER,
            BufferType::ElementArrayBuffer => codes::ELEMENT_ARRAY_BUFFER,
        }
    }
}

/// How the contents of a buffer are expected to change. The device takes
/// this as advice and nothing more.
#[derive(Clone, Copy, Debug, PartialEq, Eq, Structural)]
pub enum BufferUsage {
    /// Written once, drawn many times.
    Immutable,
    /// Rewritten now and then.
    Dynamic,
    /// Rewritten about as often as it is drawn.
    Stream,
}

impl BufferUsage {
    /// The device's number for this hint.
    pub open spec fn code(self) -> u32 {
        match self {
            BufferUsage::Immutable => codes::STATIC_DRAW,
            BufferUsage::Dynamic => codes::DYNAMIC_DRAW,
            BufferUsage::Stream => codes::STREAM_DRAW,
        }
    }

    pub fn to_gl(&self) -> (r: u32)
        ensures
            r == self.code(),
    {
        match self {
            BufferUsage::Immutable => codes::STATIC_DRAW,
            BufferUsage::Dynamic => codes::DYNAMIC_DRAW,
            BufferUsage::Stream => codes::STREAM_DRAW,
        }
    }
}

/// The type of one component of a vertex attribute, of one index, or of one
/// channel of a pixel.
#[derive(Clone, Copy, Debug, PartialEq, Eq, Structural)]
pub enum DataType {
    SignedByte,
    UnsignedByte,
    SignedShort,
    UnsignedShort,
    SignedInt,
    UnsignedInt,
    HalfFloat,
    Float,
    Double,
    Fixed,
}

impl DataType {
    /// The device's number for this type.
    pub open spec fn code(self) -> u32 {
        match self {
            DataType::SignedByte => codes::BYTE,
            DataType::UnsignedByte => codes::UNSIGNED_BYTE,
            DataType::SignedShort => codes::SHORT,
            DataType::UnsignedShort => codes::UNSIGNED_SHORT,
            DataType::SignedInt => codes::INT,
            DataType::UnsignedInt => codes::UNSIGNED_INT,
            DataType::HalfFloat => codes::HALF_FLOAT,
            DataType::Float => codes::FLOAT,
            DataType::Double => codes::DOUBLE,
            DataType::Fixed => codes::FIXED,
        }
    }

    /// The width of one value of this type, in bytes.
    pub open spec fn width(self) -> nat {
        match self {
            DataType::SignedByte | DataType::UnsignedByte => 1,
            DataType::SignedShort | DataType::UnsignedShort | DataType::HalfFloat => 2,
            DataType::SignedInt | DataType::UnsignedInt | DataType::Float | DataType::Fixed => 4,
            DataType::Double => 8,
        }
    }

    /// Whether indices of this type can be drawn from: the device reads
    /// indices as unsigned bytes, shorts or ints only.
    pub open spec fn indexes(self) -> bool {
        self == DataType::UnsignedByte || self == DataType::UnsignedShort || self
            == DataType::UnsignedInt
    }

    pub fn to_gl(&self) -> (r: u32)
        ensures
            r == self.code(),
    {
        match self {
            DataType::SignedByte => codes::BYTE,
            DataType::UnsignedByte => codes::UNSIGNED_BYTE,
            DataType::SignedShort => codes::SHORT,
            DataType::UnsignedShort => codes::UNSIGNED_SHORT,
            DataType::SignedInt => codes::INT,
            DataType::UnsignedInt => codes::UNSIGNED_INT,
            DataType::HalfFloat => codes::HALF_FLOAT,
            DataType::Float => codes::FLOAT,
            DataType::Double => codes::DOUBLE,
            DataType::Fixed => codes::FIXED,
        }
    }

    pub fn sizeof(&self) -> (r: usize)
        ensures
            r == self.width(),
    {
        match *self {
            DataType::SignedByte => 1,
            DataType::UnsignedByte => 1,
            DataType::SignedShort => 2,
            DataType::UnsignedShort => 2,
            DataType::SignedInt => 4,
            DataType::UnsignedInt => 4,
            DataType::HalfFloat => 2,
            DataType::Float => 4,
            DataType::Double => 8,
            DataType::Fixed => 4,
        }
    }

    /// Whether indices of this type can be drawn from.
    pub fn is_index_type(&self) -> (r: bool)
        ensures
            r == self.indexes(),
    {
        match self {
            DataType::UnsignedByte | DataType::UnsignedShort | DataType::UnsignedInt => true,
            _ => false,
        }
    }
}

/// No two binding points, usage hints or data types share a number.
pub proof fn buffer_codes_distinct(
    a: BufferType,
    b: BufferType,
    u: BufferUsage,
    v: BufferUsage,
    s: DataType,
    t: DataType,
)
    ensures
        a.code() == b.code() <==> a == b,
        u.code() == v.code() <==> u == v,
        s.code() == t.code() <==> s == t,
{
}

/// Something that can be bound to a buffer binding point.
///
/// The contracts of the library speak of `buffer_name` and `made_for`. A
/// type that takes this trait in verified code says what they are and proves
/// that the two methods return them; for a type that takes it elsewhere they
/// stand for whatever the two methods return, which must then always be the
/// same.
pub trait BindableBuffer {
    /// The device's name for the buffer.
    open spec fn buffer_name(&self) -> NativeHandle {
        arbitrary()
    }

    /// The binding point the buffer was made for, where that is known. A
    /// buffer made for one binding point is never bound to the other.
    open spec fn made_for(&self) -> Option<BufferType> {
        arbitrary()
    }

    fn native_buffer(&self) -> (r: NativeHandle)
        ensures
            r == self.buffer_name(),
    ;

    fn binding_point(&self) -> (r: Option<BufferType>)
        ensures
            r == self.made_for(),
    ;
}

/// What binding `buffer` to the binding point `asked` comes to: the call
/// that binds it, or a refusal when the buffer was made for the other
/// binding point.
pub open spec fn binding<B: BindableBuffer>(buffer: &B, asked: BufferType) -> Result<
    DeviceCall<'static>,
    BindError,
> {
    match buffer.made_for() {
        Some(made_for) if made_for != asked => Err(
            BindError::WrongBindingPoint { asked, made_for },
        ),
        _ => Ok(DeviceCall::BindBuffer { target: asked.code(), buffer: Some(buffer.buffer_name()) }),
    }
}

/// The call that binds `buffer` to the binding point `asked`, unless the
/// buffer was made for the other one.
pub fn bind<B: BindableBuffer>(buffer: &B, asked: BufferType) -> (r: Result<
    DeviceCall<'static>,
    BindError,
>)
    ensures
        r == binding(buffer, asked),
{
    match buffer.binding_point() {
        Some(made_for) => {
            if made_for != asked {
                return Err(BindError::WrongBindingPoint { asked, made_for });
            }
        },
        None => {},
    }
    Ok(DeviceCall::BindBuffer { target: asked.to_gl(), buffer: Some(buffer.native_buffer()) })
}

/// The calls that replace the store of `buffer`, bound to `ty`, by `data`.
pub open spec fn store_calls<'a>(
    ty: BufferType,
    buffer: NativeHandle,
    usage: BufferUsage,
    data: &'a [u8],
) -> Seq<DeviceCall<'a>> {
    seq![
        DeviceCall::BindBuffer { target: ty.code(), buffer: Some(buffer) },
        DeviceCall::BufferData { target: ty.code(), data, usage: usage.code() },
    ]
}

/// The calls that overwrite part of the store of `buffer`, bound to `ty`.
pub open spec fn write_calls<'a>(
    ty: BufferType,
    buffer: NativeHandle,
    offset: i32,
    data: &'a [u8],
) -> Seq<DeviceCall<'a>> {
    seq![
        DeviceCall::BindBuffer { target: ty.code(), buffer: Some(buffer) },
        DeviceCall::BufferSubData { target: ty.code(), offset, data },
    ]
}

/// Whether `len` bytes written at `offset` stay inside a store of
/// `capacity` bytes.
pub open spec fn within_store(offset: i32, len: nat, capacity: nat) -> bool {
    0 <= offset && offset + len <= capacity
}

/// The mathematical content of a [`BufferHandle`].
pub struct BufferView {
    /// The size of the store in bytes.
    pub capacity: nat,
    pub buffer: NativeHandle,
    pub ty: BufferType,
}

/// A buffer on the device. It owns the device's buffer object: destroying
/// it deletes the object.
#[derive(Debug)]
pub struct BufferHandle {
    capacity: usize,
    buffer: NativeHandle,
    ty: BufferType,
}

impl View for BufferHandle {
    type V = BufferView;

    closed spec fn view(&self) -> BufferView {
        BufferView { capacity: self.capacity as nat, buffer: self.buffer, ty: self.ty }
    }
}

impl BindableBuffer for BufferHandle {
    open spec fn buffer_name(&self) -> NativeHandle {
        self@.buffer
    }

    open spec fn made_for(&self) -> Option<BufferType> {
        Some(self@.ty)
    }

    fn native_buffer(&self) -> (r: NativeHandle) {
        self.buffer
    }

    fn binding_point(&self) -> (r: Option<BufferType>) {
        Some(self.ty)
    }
}

impl<'a, B: BindableBuffer> BindableBuffer for &'a B {
    open spec fn buffer_name(&self) -> NativeHandle {
        (**self).buffer_name()
    }

    open spec fn made_for(&self) -> Option<BufferType> {
        (**self).made_for()
    }

    fn native_buffer(&self) -> (r: NativeHandle) {
        (**self).native_buffer()
    }

    fn binding_point(&self) -> (r: Option<BufferType>) {
        (**self).binding_point()
    }
}

impl BindableBuffer for NativeHandle {
    open spec fn buffer_name(&self) -> NativeHandle {
        *self
    }

    open spec fn made_for(&self) -> Option<BufferType> {
        None
    }

    fn native_buffer(&self) -> (r: NativeHandle) {
        *self
    }

    fn binding_point(&self) -> (r: Option<BufferType>) {
        None
    }
}

impl BufferHandle {
    /// Takes charge of a buffer object the device has just created and fills
    /// it with `data`.
    fn create<'a>(
        ctx: &mut ManagedContext,
        created: Result<NativeHandle, String>,
        ty: BufferType,
        usage: BufferUsage,
        data: &'a [u8],
    ) -> (r: Result<(BufferHandle, Vec<DeviceCall<'a>>), String>)
        ensures
            (match created {
                Ok(buffer) => {
                    &&& r matches Ok((handle, calls))
                    &&& handle@ == (BufferView { capacity: data@.len(), buffer, ty })
                    &&& calls@ == store_calls(ty, buffer, usage, data)
                    &&& final(ctx)@ == old(ctx)@.witnessed_all(calls@)
                },
                Err(message) => r == Err::<(BufferHandle, Vec<DeviceCall<'a>>), String>(message)
                    && final(ctx)@ == old(ctx)@,
            }),
    {
        match created {
            Ok(buffer) => {
                let handle = BufferHandle { capacity: data.len(), buffer, ty };
                let calls = handle.store(ctx, usage, data);
                Ok((handle, calls))
            },
            Err(message) => Err(message),
        }
    }

    /// Replaces the store by `data`.
    fn store<'a>(&self, ctx: &mut ManagedContext, usage: BufferUsage, data: &'a [u8]) -> (calls:
        Vec<DeviceCall<'a>>)
        ensures
            calls@ == store_calls(self@.ty, self@.buffer, usage, data),
            final(ctx)@ == old(ctx)@.witnessed_all(calls@),
    {
        let target = self.ty.to_gl();
        let mut calls: Vec<DeviceCall<'a>> = Vec::new();
        calls.push(DeviceCall::BindBuffer { target, buffer: Some(self.buffer) });
        calls.push(DeviceCall::BufferData { target, data, usage: usage.to_gl() });
        ctx.witness(&calls);
        calls
    }

    /// A vertex buffer holding `data`.
    ///
    /// `created` is what the device answered when asked for a new buffer
    /// object. If it could not make one, its message is handed on and nothing
    /// else happens. Otherwise the object is bound to the array-buffer
    /// binding point (where it stays) and filled.
    pub fn array_buffer<'a>(
        ctx: &mut ManagedContext,
        created: Result<NativeHandle, String>,
        usage: BufferUsage,
        data: &'a [u8],
    ) -> (r: Result<(BufferHandle, Vec<DeviceCall<'a>>), String>)
        ensures
            (match created {
                Ok(buffer) => {
                    &&& r matches Ok((handle, calls))
                    &&& handle@ == (BufferView {
                        capacity: data@.len(),
                        buffer,
                        ty: BufferType::ArrayBuffer,
                    })
                    &&& calls@ == store_calls(BufferType::ArrayBuffer, buffer, usage, data)
                    &&& final(ctx)@ == old(ctx)@.witnessed_all(calls@)
                },
                Err(message) => r == Err::<(BufferHandle, Vec<DeviceCall<'a>>), String>(message)
                    && final(ctx)@ == old(ctx)@,
            }),
    {
        BufferHandle::create(ctx, created, BufferType::ArrayBuffer, usage, data)
    }

    /// An index buffer holding `data`; as [`BufferHandle::array_buffer`], on
    /// the index-buffer binding point.
    pub fn index_buffer<'a>(
        ctx: &mut ManagedContext,
        created: Result<NativeHandle, String>,
        usage: BufferUsage,
        data: &'a [u8],
    ) -> (r: Result<(BufferHandle, Vec<DeviceCall<'a>>), String>)
        ensures
            (match created {
                Ok(buffer) => {
                    &&& r matches Ok((handle, calls))
                    &&& handle@ == (BufferView {
                        capacity: data@.len(),
                        buffer,
                        ty: BufferType::ElementArrayBuffer,
                    })
                    &&& calls@ == store_calls(BufferType::ElementArrayBuffer, buffer, usage, data)
                    &&& final(ctx)@ == old(ctx)@.witnessed_all(calls@)
                },
                Err(message) => r == Err::<(BufferHandle, Vec<DeviceCall<'a>>), String>(message)
                    && final(ctx)@ == old(ctx)@,
            }),
    {
        BufferHandle::create(ctx, created, BufferType::ElementArrayBuffer, usage, data)
    }

    /// The size of the store in bytes.
    pub fn capacity(&self) -> (r: usize)
        ensures
            r == self@.capacity,
    {
        self.capacity
    }

    /// The binding point the buffer was made for.
    pub fn ty(&self) -> (r: BufferType)
        ensures
            r == self@.ty,
    {
        self.ty
    }

    /// Replaces the whole store by `data`; the capacity becomes the length
    /// of `data`.
    pub fn realloc<'a>(&mut self, ctx: &mut ManagedContext, usage: BufferUsage, data: &'a [u8]) -> (calls:
        Vec<DeviceCall<'a>>)
        ensures
            final(self)@ == (BufferView { capacity: data@.len(), ..old(self)@ }),
            calls@ == store_calls(old(self)@.ty, old(self)@.buffer, usage, data),
            final(ctx)@ == old(ctx)@.witnessed_all(calls@),
    {
        let calls = self.store(ctx, usage, data);
        self.capacity = data.len();
        calls
    }

    /// Overwrites the bytes from `offset` on by `data`, if they all lie in
    /// the store; the store is never grown. A write that would leave the
    /// store is refused whole.
    pub fn update<'a>(&self, ctx: &mut ManagedContext, offset: i32, data: &'a [u8]) -> (r: Result<
        Vec<DeviceCall<'a>>,
        BufferError,
    >)
        ensures
            (within_store(offset, data@.len(), self@.capacity) ==> {
                &&& r matches Ok(calls)
                &&& calls@ == write_calls(self@.ty, self@.buffer, offset, data)
                &&& final(ctx)@ == old(ctx)@.witnessed_all(calls@)
            }),
            (!within_store(offset, data@.len(), self@.capacity) ==> {
                &&& r == Err::<Vec<DeviceCall<'a>>, BufferError>(
                    BufferError::OutOfBounds {
                        offset,
                        len: data@.len() as usize,
                        capacity: self@.capacity as usize,
                    },
                )
                &&& final(ctx)@ == old(ctx)@
            }),
    {
        if offset < 0 || data.len() > self.capacity || offset as usize > self.capacity
            - data.len() {
            return Err(
                BufferError::OutOfBounds { offset, len: data.len(), capacity: self.capacity },
            );
        }
        let target = self.ty.to_gl();
        let mut calls: Vec<DeviceCall<'a>> = Vec::new();
        calls.push(DeviceCall::BindBuffer { target, buffer: Some(self.buffer) });
        calls.push(DeviceCall::BufferSubData { target, offset, data });
        ctx.witness(&calls);
        Ok(calls)
    }

    /// Gives the buffer up: the device is told to delete it. The device
    /// drops a deleted buffer from the binding points that hold it, so the
    /// context should witness the call.
    pub fn destroy(self) -> (calls: Vec<DeviceCall<'static>>)
        ensures
            (calls@ == seq![DeviceCall::DeleteBuffer { buffer: self@.buffer }]),
    {
        let mut calls: Vec<DeviceCall<'static>> = Vec::new();
        calls.push(DeviceCall::DeleteBuffer { buffer: self.buffer });
        calls
    }
}

/// A write that ends exactly at the end of the store is inside it; one byte
/// more is outside.
pub proof fn store_bound_is_exact(offset: i32, len: nat, capacity: nat)
    requires
        0 <= offset,
    ensures
        offset + len == capacity ==> within_store(offset, len, capacity),
        offset + len > capacity ==> !within_store(offset, len, capacity),
{
}

} // verus!
