//! Vertex array objects.

use vstd::prelude::*;
use crate::buffer::DataType;
use crate::ctx::ManagedContext;
use crate::device::{single, DeviceCall};
use crate::handle::NativeHandle;

verus! {

/// Something that names a vertex array on the device.
///
/// The contracts of the library speak of `vertex_array_name`. A type that
/// takes this trait in verified code says what that is and proves that
/// `native_vertex_array` returns it; for a type that takes it elsewhere it
/// stands for whatever `native_vertex_array` returns, which must then always
/// be the same.
pub trait VertexArraySource {
    /// The name of the vertex array.
    open spec fn vertex_array_name(&self) -> NativeHandle {
        arbitrary()
    }

    fn native_vertex_array(&self) -> (r: NativeHandle)
        ensures
            r == self.vertex_array_name(),
    ;
}

/// A vertex array. It owns the device's vertex array object: destroying it
/// deletes the object.
#[derive(Debug)]
pub struct VertexArrayObject {
    vao: NativeHandle,
}

impl VertexArraySource for VertexArrayObject {
    open spec fn vertex_array_name(&self) -> NativeHandle {
        self.native()
    }

    fn native_vertex_array(&self) -> (r: NativeHandle) {
        self.vao
    }
}

impl VertexArraySource for NativeHandle {
    open spec fn vertex_array_name(&self) -> NativeHandle {
        *self
    }

    fn native_vertex_array(&self) -> (r: NativeHandle) {
        *self
    }
}

/// The calls that do `inner` on `vao`, between binding it and unbinding it
/// again.
pub open spec fn on_vertex_array(vao: NativeHandle, inner: DeviceCall<'static>) -> Seq<
    DeviceCall<'static>,
> {
    seq![
        DeviceCall::BindVertexArray { vertex_array: Some(vao) },
        inner,
        DeviceCall::BindVertexArray { vertex_array: None },
    ]
}

impl VertexArrayObject {
    /// The device's name for the vertex array.
    pub closed spec fn native(&self) -> NativeHandle {
        self.vao
    }

    /// Takes charge of a vertex array object.
    ///
    /// `created` is what the device answered when asked for a new vertex
    /// array object. If it could not make one, its message is handed on.
    pub fn new(created: Result<NativeHandle, String>) -> (r: Result<VertexArrayObject, String>)
        ensures
            (match created {
                Ok(vao) => r matches Ok(object) && object.native() == vao,
                Err(message) => r == Err::<VertexArrayObject, String>(message),
            }),
    {
        match created {
            Ok(vao) => Ok(VertexArrayObject { vao }),
            Err(message) => Err(message),
        }
    }

    /// Binds the vertex array, issues `inner`, unbinds.
    fn on(&self, ctx: &mut ManagedContext, inner: DeviceCall<'static>) -> (calls: Vec<
        DeviceCall<'static>,
    >)
        ensures
            calls@ == on_vertex_array(self.native(), inner),
            final(ctx)@ == old(ctx)@.witnessed_all(calls@),
    {
        let mut calls = single(DeviceCall::BindVertexArray { vertex_array: Some(self.vao) });
        calls.push(inner);
        calls.push(DeviceCall::BindVertexArray { vertex_array: None });
        ctx.witness(&calls);
        calls
    }

    /// Describes attribute `index`: `size` components of `data_type` per
    /// vertex, read from the buffer bound for vertex data.
    pub fn attrib_pointer(
        &self,
        ctx: &mut ManagedContext,
        index: u32,
        size: i32,
        data_type: DataType,
        normalized: bool,
        stride: i32,
        offset: i32,
    ) -> (calls: Vec<DeviceCall<'static>>)
        ensures
            calls@ == on_vertex_array(
                self.native(),
                DeviceCall::VertexAttribPointer {
                    index,
                    size,
                    data_type: data_type.code(),
                    normalized,
                    stride,
                    offset,
                },
            ),
            final(ctx)@ == old(ctx)@.witnessed_all(calls@),
    {
        self.on(
            ctx,
            DeviceCall::VertexAttribPointer {
                index,
                size,
                data_type: data_type.to_gl(),
                normalized,
                stride,
                offset,
            },
        )
    }

    /// Enables attribute `index`.
    pub fn enable_attrib(&self, ctx: &mut ManagedContext, index: u32) -> (calls: Vec<
        DeviceCall<'static>,
    >)
        ensures
            calls@ == on_vertex_array(
                self.native(),
                DeviceCall::EnableVertexAttribArray { index },
            ),
            final(ctx)@ == old(ctx)@.witnessed_all(calls@),
    {
        self.on(ctx, DeviceCall::EnableVertexAttribArray { index })
    }

    /// Gives the vertex array up: the device is told to delete it. If it
    /// was the one bound, none is bound afterwards, so the context should
    /// witness the call.
    pub fn destroy(self) -> (calls: Vec<DeviceCall<'static>>)
        ensures
            (calls@ == seq![DeviceCall::DeleteVertexArray { vertex_array: self.native() }]),
    {
        single(DeviceCall::DeleteVertexArray { vertex_array: self.vao })
    }
}

} // verus!
