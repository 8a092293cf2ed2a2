//! Textures: the formats and sampler settings, and a texture that has no
//! image yet.

use vstd::prelude::*;
use crate::codes;
use crate::ctx::ManagedContext;
use crate::device::DeviceCall;
use crate::handle::NativeHandle;
use crate::buffer::DataType;
use crate::texture::tex_2d::{image_calls, Texture2D, Texture2DView};

pub mod tex_2d;

verus! {

/// How the device stores the texels of an image. Which of these a device
/// offers depends on the device.
#[derive(Clone, Copy, Debug, PartialEq, Eq, Structural)]
pub enum InternalTextureFormat {
    /// One channel, alpha.
    Alpha,
    /// One channel, luminance.
    Luminance,
    /// Luminance and alpha.
    LuminanceAlpha,
    /// Three bits of red, three of green, two of blue.
    R3G3B2,
    /// Red, green and blue.
    Rgb,
    /// Four bits per channel.
    Rgb4,
    /// Five bits per channel.
    Rgb5,
    /// Eight bits per channel.
    Rgb8,
    /// Ten bits per channel.
    Rgb10,
    /// Twelve bits per channel.
    Rgb12,
    /// Sixteen bits per channel.
    Rgb16,
    /// Red, green, blue and alpha.
    Rgba,
    /// Two bits per channel.
    Rgba2,
    /// Four bits per channel.
    Rgba4,
    /// Five bits per colour channel, one of alpha.
    Rgb5A1,
    /// Eight bits per channel.
    Rgba8,
    /// Ten bits per colour channel, two of alpha.
    Rgb10A2,
    /// Twelve bits per channel.
    Rgba12,
    /// Sixteen bits per channel.
    Rgba16,
}

impl InternalTextureFormat {
    /// The device's number for this value.
    pub open spec fn code(self) -> u32 {
        match self {
            InternalTextureFormat::Alpha => codes::ALPHA,
            InternalTextureFormat::Luminance => codes::LUMINANCE,
            InternalTextureFormat::LuminanceAlpha => codes::LUMINANCE_ALPHA,
            InternalTextureFormat::R3G3B2 => codes::R3_G3_B2,
            InternalTextureFormat::Rgb => codes::RGB,
            InternalTextureFormat::Rgb4 => codes::RGB4,
            InternalTextureFormat::Rgb5 => codes::RGB5,
            InternalTextureFormat::Rgb8 => codes::RGB8,
            InternalTextureFormat::Rgb10 => codes::RGB10,
            InternalTextureFormat::Rgb12 => codes::RGB12,
            InternalTextureFormat::Rgb16 => codes::RGB16,
            InternalTextureFormat::Rgba => codes::RGBA,
            InternalTextureFormat::Rgba2 => codes::RGBA2,
            InternalTextureFormat::Rgba4 => codes::RGBA4,
            InternalTextureFormat::Rgb5A1 => codes::RGB5_A1,
            InternalTextureFormat::Rgba8 => codes::RGBA8,
            InternalTextureFormat::Rgb10A2 => codes::RGB10_A2,
            InternalTextureFormat::Rgba12 => codes::RGBA12,
            InternalTextureFormat::Rgba16 => codes::RGBA16,
        }
    }

    pub fn to_gl(&self) -> (r: u32)
        ensures
            r == self.code(),
    {
        match self {
            InternalTextureFormat::Alpha => codes::ALPHA,
            InternalTextureFormat::Luminance => codes::LUMINANCE,
            InternalTextureFormat::LuminanceAlpha => codes::LUMINANCE_ALPHA,
            InternalTextureFormat::R3G3B2 => codes::R3_G3_B2,
            InternalTextureFormat::Rgb => codes::RGB,
            InternalTextureFormat::Rgb4 => codes::RGB4,
            InternalTextureFormat::Rgb5 => codes::RGB5,
            InternalTextureFormat::Rgb8 => codes::RGB8,
            InternalTextureFormat::Rgb10 => codes::RGB10,
            InternalTextureFormat::Rgb12 => codes::RGB12,
            InternalTextureFormat::Rgb16 => codes::RGB16,
            InternalTextureFormat::Rgba => codes::RGBA,
            InternalTextureFormat::Rgba2 => codes::RGBA2,
            InternalTextureFormat::Rgba4 => codes::RGBA4,
            InternalTextureFormat::Rgb5A1 => codes::RGB5_A1,
            InternalTextureFormat::Rgba8 => codes::RGBA8,
            InternalTextureFormat::Rgb10A2 => codes::RGB10_A2,
            InternalTextureFormat::Rgba12 => codes::RGBA12,
            InternalTextureFormat::Rgba16 => codes::RGBA16,
        }
    }
}

/// How the texels handed to the device are laid out.
#[derive(Clone, Copy, Debug, PartialEq, Eq, Structural)]
pub enum TextureFormat {
    Red,
    Green,
    Blue,
    Alpha,
    Rgb,
    Rgba,
    Luminance,
    LuminanceAlpha,
}

impl TextureFormat {
    /// The device's number for this value.
    pub open spec fn code(self) -> u32 {
        match self {
            TextureFormat::Red => codes::RED,
            TextureFormat::Green => codes::GREEN,
            TextureFormat::Blue => codes::BLUE,
            TextureFormat::Alpha => codes::ALPHA,
            TextureFormat::Rgb => codes::RGB,
            TextureFormat::Rgba => codes::RGBA,
            TextureFormat::Luminance => codes::LUMINANCE,
            TextureFormat::LuminanceAlpha => codes::LUMINANCE_ALPHA,
        }
    }

    pub fn to_gl(&self) -> (r: u32)
        ensures
            r == self.code(),
    {
        match self {
            TextureFormat::Red => codes::RED,
            TextureFormat::Green => codes::GREEN,
            TextureFormat::Blue => codes::BLUE,
            TextureFormat::Alpha => codes::ALPHA,
            TextureFormat::Rgb => codes::RGB,
            TextureFormat::Rgba => codes::RGBA,
            TextureFormat::Luminance => codes::LUMINANCE,
            TextureFormat::LuminanceAlpha => codes::LUMINANCE_ALPHA,
        }
    }
}

/// What a sampler reads outside the image, along one axis.
#[derive(Clone, Copy, Debug, PartialEq, Eq, Structural)]
pub enum TextureWrap {
    /// The image repeats, every other copy mirrored.
    MirroredRepeat,
    /// Outside the image lies the border colour.
    ClampToBorder,
}

impl TextureWrap {
    /// The device's number for this value.
    pub open spec fn code(self) -> u32 {
        match self {
            TextureWrap::MirroredRepeat => codes::MIRRORED_REPEAT,
            TextureWrap::ClampToBorder => codes::CLAMP_TO_BORDER,
        }
    }

    pub fn to_gl(&self) -> (r: u32)
        ensures
            r == self.code(),
    {
        match self {
            TextureWrap::MirroredRepeat => codes::MIRRORED_REPEAT,
            TextureWrap::ClampToBorder => codes::CLAMP_TO_BORDER,
        }
    }
}

/// How a sampler reads between texels.
#[derive(Clone, Copy, Debug, PartialEq, Eq, Structural)]
pub enum TextureFilteringMode {
    /// The nearest texel.
    Nearest,
    /// The weighted mean of the texels around.
    Linear,
    /// The nearest texel of the nearest mipmap level.
    NearestMipmapNearest,
}

impl TextureFilteringMode {
    /// The device's number for this value.
    pub open spec fn code(self) -> u32 {
        match self {
            TextureFilteringMode::Nearest => codes::NEAREST,
            TextureFilteringMode::Linear => codes::LINEAR,
            TextureFilteringMode::NearestMipmapNearest => codes::NEAREST_MIPMAP_NEAREST,
        }
    }

    pub fn to_gl(&self) -> (r: u32)
        ensures
            r == self.code(),
    {
        match self {
            TextureFilteringMode::Nearest => codes::NEAREST,
            TextureFilteringMode::Linear => codes::LINEAR,
            TextureFilteringMode::NearestMipmapNearest => codes::NEAREST_MIPMAP_NEAREST,
        }
    }
}

/// No two values of a texture enumeration share a number.
pub proof fn texture_codes_distinct(
    a: InternalTextureFormat,
    b: InternalTextureFormat,
    f: TextureFormat,
    g: TextureFormat,
    w: TextureWrap,
    x: TextureWrap,
    m: TextureFilteringMode,
    n: TextureFilteringMode,
)
    ensures
        a.code() == b.code() <==> a == b,
        f.code() == g.code() <==> f == g,
        w.code() == x.code() <==> w == x,
        m.code() == n.code() <==> m == n,
{
}

/// Something that can be bound to a texture unit.
///
/// The contracts of the library speak of `texture_name` and `target_hint`.
/// A type that takes this trait in verified code says what they are and
/// proves that the two methods return them; for a type that takes it
/// elsewhere they stand for whatever the two methods return, which must then
/// always be the same.
pub trait BindableTexture {
    /// The device's name for the texture.
    open spec fn texture_name(&self) -> NativeHandle {
        arbitrary()
    }

    /// The target the texture is bound to.
    open spec fn target_hint(&self) -> u32 {
        arbitrary()
    }

    fn native_texture(&self) -> (r: NativeHandle)
        ensures
            r == self.texture_name(),
    ;

    fn texture_target_hint(&self) -> (r: u32)
        ensures
            r == self.target_hint(),
    ;
}

/// A texture made elsewhere, together with the target it belongs to.
#[derive(Clone, Copy, Debug, PartialEq, Eq)]
pub struct BindableNativeTexture {
    texture: NativeHandle,
    target: u32,
}

impl BindableNativeTexture {
    pub fn new(texture: NativeHandle, target: u32) -> (r: Self)
        ensures
            r.texture_name() == texture,
            r.target_hint() == target,
    {
        BindableNativeTexture { texture, target }
    }
}

impl BindableTexture for BindableNativeTexture {
    closed spec fn texture_name(&self) -> NativeHandle {
        self.texture
    }

    closed spec fn target_hint(&self) -> u32 {
        self.target
    }

    fn native_texture(&self) -> (r: NativeHandle) {
        self.texture
    }

    fn texture_target_hint(&self) -> (r: u32) {
        self.target
    }
}

/// The calls that do `inner` to `texture`: the texture is bound to the
/// two-dimensional target of the active unit, `inner` is issued, and the
/// target is left empty.
pub open spec fn bracketed<'a>(texture: NativeHandle, inner: Seq<DeviceCall<'a>>) -> Seq<
    DeviceCall<'a>,
> {
    seq![DeviceCall::BindTexture { target: codes::TEXTURE_2D, texture: Some(texture) }] + inner
        + seq![DeviceCall::BindTexture { target: codes::TEXTURE_2D, texture: None }]
}

/// The calls that set the wrapping and filtering of a new texture.
pub open spec fn sampler_calls(
    texture: NativeHandle,
    wrapping_mode_s: TextureWrap,
    wrapping_mode_t: TextureWrap,
    min_filter: TextureFilteringMode,
    mag_filter: TextureFilteringMode,
) -> Seq<DeviceCall<'static>> {
    bracketed(
        texture,
        seq![
            DeviceCall::TexParameterI32 {
                target: codes::TEXTURE_2D,
                parameter: codes::TEXTURE_WRAP_S,
                value: wrapping_mode_s.code() as i32,
            },
            DeviceCall::TexParameterI32 {
                target: codes::TEXTURE_2D,
                parameter: codes::TEXTURE_WRAP_T,
                value: wrapping_mode_t.code() as i32,
            },
            DeviceCall::TexParameterI32 {
                target: codes::TEXTURE_2D,
                parameter: codes::TEXTURE_MAG_FILTER,
                value: mag_filter.code() as i32,
            },
            DeviceCall::TexParameterI32 {
                target: codes::TEXTURE_2D,
                parameter: codes::TEXTURE_MIN_FILTER,
                value: min_filter.code() as i32,
            },
        ],
    )
}

/// The calls that set the border colour of a texture.
pub open spec fn border_calls(texture: NativeHandle, color: [u32; 4]) -> Seq<DeviceCall<'static>> {
    bracketed(
        texture,
        seq![
            DeviceCall::TexParameterF32 {
                target: codes::TEXTURE_2D,
                parameter: codes::TEXTURE_BORDER_COLOR,
                values: color,
            },
        ],
    )
}

/// Binds `texture`, issues `inner`, unbinds.
pub(crate) fn bracket<'a>(texture: NativeHandle, inner: Vec<DeviceCall<'a>>) -> (calls: Vec<
    DeviceCall<'a>,
>)
    ensures
        calls@ == bracketed(texture, inner@),
{
    let mut calls: Vec<DeviceCall<'a>> = Vec::new();
    calls.push(DeviceCall::BindTexture { target: codes::TEXTURE_2D, texture: Some(texture) });
    crate::device::extend_calls(&mut calls, inner);
    calls.push(DeviceCall::BindTexture { target: codes::TEXTURE_2D, texture: None });
    calls
}

/// A texture that has its sampler settings but no image yet. It owns the
/// device's texture object: destroying it deletes the object.
#[derive(Debug)]
pub struct TextureHandle {
    texture: NativeHandle,
}

impl TextureHandle {
    /// The device's name for the texture.
    pub closed spec fn native(&self) -> NativeHandle {
        self.texture
    }

    /// The device's name for the texture.
    pub fn handle(&self) -> (r: NativeHandle)
        ensures
            r == self.native(),
    {
        self.texture
    }

    /// A texture with the given wrapping along both axes and the given
    /// filters.
    ///
    /// `created` is what the device answered when asked for a new texture
    /// object. If it could not make one, its message is handed on and nothing
    /// else happens.
    pub fn new(
        ctx: &mut ManagedContext,
        created: Result<NativeHandle, String>,
        wrapping_mode_s: TextureWrap,
        wrapping_mode_t: TextureWrap,
        min_filter: TextureFilteringMode,
        mag_filter: TextureFilteringMode,
    ) -> (r: Result<(TextureHandle, Vec<DeviceCall<'static>>), String>)
        ensures
            (match created {
                Ok(texture) => {
                    &&& r matches Ok((handle, calls))
                    &&& handle.native() == texture
                    &&& calls@ == sampler_calls(
                        texture,
                        wrapping_mode_s,
                        wrapping_mode_t,
                        min_filter,
                        mag_filter,
                    )
                    &&& final(ctx)@ == old(ctx)@.witnessed_all(calls@)
                },
                Err(message) => r == Err::<(TextureHandle, Vec<DeviceCall<'static>>), String>(
                    message,
                ) && final(ctx)@ == old(ctx)@,
            }),
    {
        let texture = match created {
            Ok(texture) => texture,
            Err(message) => {
                return Err(message);
            },
        };
        let mut inner: Vec<DeviceCall<'static>> = Vec::new();
        inner.push(
            DeviceCall::TexParameterI32 {
                target: codes::TEXTURE_2D,
                parameter: codes::TEXTURE_WRAP_S,
                value: wrapping_mode_s.to_gl() as i32,
            },
        );
        inner.push(
            DeviceCall::TexParameterI32 {
                target: codes::TEXTURE_2D,
                parameter: codes::TEXTURE_WRAP_T,
                value: wrapping_mode_t.to_gl() as i32,
            },
        );
        inner.push(
            DeviceCall::TexParameterI32 {
                target: codes::TEXTURE_2D,
                parameter: codes::TEXTURE_MAG_FILTER,
                value: mag_filter.to_gl() as i32,
            },
        );
        inner.push(
            DeviceCall::TexParameterI32 {
                target: codes::TEXTURE_2D,
                parameter: codes::TEXTURE_MIN_FILTER,
                value: min_filter.to_gl() as i32,
            },
        );
        let calls = bracket(texture, inner);
        ctx.witness(&calls);
        Ok((TextureHandle { texture }, calls))
    }

    /// Sets the colour that lies outside the image: red, green, blue and
    /// alpha, each as the bit pattern of a 32-bit float.
    pub fn set_border_color(&self, ctx: &mut ManagedContext, color: [u32; 4]) -> (calls: Vec<
        DeviceCall<'static>,
    >)
        ensures
            calls@ == border_calls(self.native(), color),
            final(ctx)@ == old(ctx)@.witnessed_all(calls@),
    {
        let calls = bracket(
            self.texture,
            crate::device::single(
                DeviceCall::TexParameterF32 {
                    target: codes::TEXTURE_2D,
                    parameter: codes::TEXTURE_BORDER_COLOR,
                    values: color,
                },
            ),
        );
        ctx.witness(&calls);
        calls
    }

    /// Gives the texture an image of `width` by `height` texels, filled
    /// from `data` if there is any, and turns it into a [`Texture2D`].
    pub fn allocate_2d_data<'a>(
        self,
        ctx: &mut ManagedContext,
        data: Option<&'a [u8]>,
        internal_format: InternalTextureFormat,
        format: TextureFormat,
        width: i32,
        height: i32,
        ty: DataType,
    ) -> (r: (Texture2D, Vec<DeviceCall<'a>>))
        ensures
            r.0@ == (Texture2DView {
                texture: self.native(),
                internal_format,
                format,
                width,
                height,
                ty,
            }),
            r.1@ == image_calls(self.native(), data, internal_format, format, width, height, ty),
            final(ctx)@ == old(ctx)@.witnessed_all(r.1@),
    {
        let mut texture = Texture2D::adopt(self, internal_format, format, width, height, ty);
        let calls = texture.reallocate_2d_data(
            ctx,
            data,
            internal_format,
            format,
            width,
            height,
            ty,
        );
        (texture, calls)
    }

    /// Gives the texture up: the device is told to delete it. The device
    /// drops a deleted texture from the units that hold it, so the context
    /// should witness the call.
    pub fn destroy(self) -> (calls: Vec<DeviceCall<'static>>)
        ensures
            (calls@ == seq![DeviceCall::DeleteTexture { texture: self.native() }]),
    {
        crate::device::single(DeviceCall::DeleteTexture { texture: self.texture })
    }
}

} // verus!
