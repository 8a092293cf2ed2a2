//! A texture that has an image.

use vstd::prelude::*;
use crate::buffer::DataType;
use crate::codes;
use crate::ctx::ManagedContext;
use crate::device::{single, DeviceCall};
use crate::error::TextureError;
use crate::handle::NativeHandle;
use crate::texture::{
    bracket, bracketed, BindableTexture, InternalTextureFormat, TextureFormat, TextureHandle,
};

verus! {

/// The mathematical content of a [`Texture2D`].
pub struct Texture2DView {
    pub texture: NativeHandle,
    /// How the device stores the image.
    pub internal_format: InternalTextureFormat,
    /// How the texels of the image were handed over.
    pub format: TextureFormat,
    pub width: i32,
    pub height: i32,
    pub ty: DataType,
}

impl Texture2DView {
    /// Whether the rectangle of `width` by `height` texels at
    /// (`x_offset`, `y_offset`) lies in the image.
    pub open spec fn holds_rect(self, x_offset: i32, y_offset: i32, width: i32, height: i32)
        -> bool {
        &&& 0 <= x_offset
        &&& 0 <= y_offset
        &&& 0 <= width
        &&& 0 <= height
        &&& x_offset + width <= self.width
        &&& y_offset + height <= self.height
    }
}

/// The calls that give `texture` a new image.
pub open spec fn image_calls<'a>(
    texture: NativeHandle,
    data: Option<&'a [u8]>,
    internal_format: InternalTextureFormat,
    format: TextureFormat,
    width: i32,
    height: i32,
    ty: DataType,
) -> Seq<DeviceCall<'a>> {
    bracketed(
        texture,
        seq![
            DeviceCall::TexImage2D {
                target: codes::TEXTURE_2D,
                level: 0,
                internal_format: internal_format.code() as i32,
                width,
                height,
                border: 0,
                format: format.code(),
                ty: ty.code(),
                pixels: data,
            },
        ],
    )
}

/// The calls that overwrite a rectangle of the image of `texture`.
pub open spec fn subimage_calls<'a>(
    texture: NativeHandle,
    x_offset: i32,
    y_offset: i32,
    width: i32,
    height: i32,
    format: TextureFormat,
    ty: DataType,
    data: &'a [u8],
) -> Seq<DeviceCall<'a>> {
    bracketed(
        texture,
        seq![
            DeviceCall::TexSubImage2D {
                target: codes::TEXTURE_2D,
                level: 0,
                x_offset,
                y_offset,
                width,
                height,
                format: format.code(),
                ty: ty.code(),
                pixels: data,
            },
        ],
    )
}

/// The calls that build the mipmap levels of `texture` anew.
pub open spec fn mipmap_calls(texture: NativeHandle) -> Seq<DeviceCall<'static>> {
    bracketed(texture, seq![DeviceCall::GenerateMipmap { target: codes::TEXTURE_2D }])
}

/// A two-dimensional texture with an image on the device. Mipmap levels are
/// built only when asked for: after the image has changed they are stale
/// until [`Texture2D::generate_mipmaps`] is called.
#[derive(Debug)]
pub struct Texture2D {
    handle: TextureHandle,
    internal_format: InternalTextureFormat,
    format: TextureFormat,
    width: i32,
    height: i32,
    ty: DataType,
}

impl View for Texture2D {
    type V = Texture2DView;

    closed spec fn view(&self) -> Texture2DView {
        Texture2DView {
            texture: self.handle.native(),
            internal_format: self.internal_format,
            format: self.format,
            width: self.width,
            height: self.height,
            ty: self.ty,
        }
    }
}

impl BindableTexture for Texture2D {
    open spec fn texture_name(&self) -> NativeHandle {
        self@.texture
    }

    open spec fn target_hint(&self) -> u32 {
        codes::TEXTURE_2D
    }

    fn native_texture(&self) -> (r: NativeHandle) {
        self.handle.handle()
    }

    fn texture_target_hint(&self) -> (r: u32) {
        codes::TEXTURE_2D
    }
}

impl Texture2D {
    /// Records the image that `handle` is about to get.
    pub(crate) fn adopt(
        handle: TextureHandle,
        internal_format: InternalTextureFormat,
        format: TextureFormat,
        width: i32,
        height: i32,
        ty: DataType,
    ) -> (r: Texture2D)
        ensures
            r@ == (Texture2DView {
                texture: handle.native(),
                internal_format,
                format,
                width,
                height,
                ty,
            }),
    {
        Texture2D { handle, internal_format, format, width, height, ty }
    }

    /// The width of the image in texels.
    pub fn width(&self) -> (r: i32)
        ensures
            r == self@.width,
    {
        self.width
    }

    /// The height of the image in texels.
    pub fn height(&self) -> (r: i32)
        ensures
            r == self@.height,
    {
        self.height
    }

    /// Builds the mipmap levels from the image as it stands.
    pub fn generate_mipmaps(&self, ctx: &mut ManagedContext) -> (calls: Vec<DeviceCall<'static>>)
        ensures
            calls@ == mipmap_calls(self@.texture),
            final(ctx)@ == old(ctx)@.witnessed_all(calls@),
    {
        let calls = bracket(
            self.handle.handle(),
            single(DeviceCall::GenerateMipmap { target: codes::TEXTURE_2D }),
        );
        ctx.witness(&calls);
        calls
    }

    /// Overwrites the rectangle of `width` by `height` texels at
    /// (`x_offset`, `y_offset`) with `data`, if the rectangle lies in the
    /// image. A rectangle that reaches outside is refused whole.
    pub fn write_subimage<'a>(
        &self,
        ctx: &mut ManagedContext,
        x_offset: i32,
        y_offset: i32,
        width: i32,
        height: i32,
        format: TextureFormat,
        ty: DataType,
        data: &'a [u8],
    ) -> (r: Result<Vec<DeviceCall<'a>>, TextureError>)
        ensures
            (self@.holds_rect(x_offset, y_offset, width, height) ==> {
                &&& r matches Ok(calls)
                &&& calls@ == subimage_calls(
                    self@.texture,
                    x_offset,
                    y_offset,
                    width,
                    height,
                    format,
                    ty,
                    data,
                )
                &&& final(ctx)@ == old(ctx)@.witnessed_all(calls@)
            }),
            (!self@.holds_rect(x_offset, y_offset, width, height) ==> {
                &&& r == Err::<Vec<DeviceCall<'a>>, TextureError>(
                    TextureError::OutOfBounds {
                        x_offset,
                        y_offset,
                        width,
                        height,
                        image_width: self@.width,
                        image_height: self@.height,
                    },
                )
                &&& final(ctx)@ == old(ctx)@
            }),
    {
        if x_offset < 0 || y_offset < 0 || width < 0 || height < 0 || x_offset as i64
            + width as i64 > self.width as i64 || y_offset as i64 + height as i64
            > self.height as i64 {
            return Err(
                TextureError::OutOfBounds {
                    x_offset,
                    y_offset,
                    width,
                    height,
                    image_width: self.width,
                    image_height: self.height,
                },
            );
        }
        let calls = bracket(
            self.handle.handle(),
            single(
                DeviceCall::TexSubImage2D {
                    target: codes::TEXTURE_2D,
                    level: 0,
                    x_offset,
                    y_offset,
                    width,
                    height,
                    format: format.to_gl(),
                    ty: ty.to_gl(),
                    pixels: data,
                },
            ),
        );
        ctx.witness(&calls);
        Ok(calls)
    }

    /// Replaces the image by one of `width` by `height` texels, filled from
    /// `data` if there is any. Formats and dimensions are those given from
    /// now on.
    pub fn reallocate_2d_data<'a>(
        &mut self,
        ctx: &mut ManagedContext,
        data: Option<&'a [u8]>,
        internal_format: InternalTextureFormat,
        format: TextureFormat,
        width: i32,
        height: i32,
        ty: DataType,
    ) -> (calls: Vec<DeviceCall<'a>>)
        ensures
            final(self)@ == (Texture2DView {
                texture: old(self)@.texture,
                internal_format,
                format,
                width,
                height,
                ty,
            }),
            calls@ == image_calls(
                old(self)@.texture,
                data,
                internal_format,
                format,
                width,
                height,
                ty,
            ),
            final(ctx)@ == old(ctx)@.witnessed_all(calls@),
    {
        let calls = bracket(
            self.handle.handle(),
            single(
                DeviceCall::TexImage2D {
                    target: codes::TEXTURE_2D,
                    level: 0,
                    internal_format: internal_format.to_gl() as i32,
                    width,
                    height,
                    border: 0,
                    format: format.to_gl(),
                    ty: ty.to_gl(),
                    pixels: data,
                },
            ),
        );
        ctx.witness(&calls);
        self.internal_format = internal_format;
        self.format = format;
        self.width = width;
        self.height = height;
        self.ty = ty;
        calls
    }

    /// Gives the texture up: the device is told to delete it. The device
    /// drops a deleted texture from the units that hold it, so the context
    /// should witness the call.
    pub fn destroy(self) -> (calls: Vec<DeviceCall<'static>>)
        ensures
            (calls@ == seq![DeviceCall::DeleteTexture { texture: self@.texture }]),
    {
        self.handle.destroy()
    }
}

} // verus!
