//! Textures: sampler settings, images, bounded writes.

use rapax::codes;
use rapax::{
    BindableNativeTexture, BindableTexture, DataType, DeviceCall, InternalTextureFormat,
    ManagedContext, NativeHandle, Texture2D, TextureError, TextureFilteringMode, TextureFormat,
    TextureHandle, TextureWrap,
};

fn handle(id: u32) -> NativeHandle {
    NativeHandle::new(id).unwrap()
}

fn context() -> ManagedContext {
    ManagedContext::new(Ok(handle(1))).unwrap()
}

fn bind(id: u32) -> DeviceCall<'static> {
    DeviceCall::BindTexture { target: glow::TEXTURE_2D, texture: Some(handle(id)) }
}

fn unbind() -> DeviceCall<'static> {
    DeviceCall::BindTexture { target: glow::TEXTURE_2D, texture: None }
}

fn texture(ctx: &mut ManagedContext, id: u32) -> TextureHandle {
    TextureHandle::new(
        ctx,
        Ok(handle(id)),
        TextureWrap::ClampToBorder,
        TextureWrap::ClampToBorder,
        TextureFilteringMode::Nearest,
        TextureFilteringMode::Nearest,
    )
    .unwrap()
    .0
}

fn rgba_4x4(ctx: &mut ManagedContext, id: u32) -> Texture2D {
    let pixels = [0u8; 64];
    texture(ctx, id)
        .allocate_2d_data(
            ctx,
            Some(&pixels),
            InternalTextureFormat::Rgba,
            TextureFormat::Rgba,
            4,
            4,
            DataType::UnsignedByte,
        )
        .0
}

#[test]
fn a_new_texture_gets_its_sampler_settings() {
    let mut ctx = context();
    let (texture, calls) = TextureHandle::new(
        &mut ctx,
        Ok(handle(5)),
        TextureWrap::MirroredRepeat,
        TextureWrap::ClampToBorder,
        TextureFilteringMode::NearestMipmapNearest,
        TextureFilteringMode::Linear,
    )
    .unwrap();
    assert_eq!(texture.handle(), handle(5));
    assert_eq!(
        calls,
        vec![
            bind(5),
            DeviceCall::TexParameterI32 {
                target: glow::TEXTURE_2D,
                parameter: glow::TEXTURE_WRAP_S,
                value: glow::MIRRORED_REPEAT as i32
            },
            DeviceCall::TexParameterI32 {
                target: glow::TEXTURE_2D,
                parameter: glow::TEXTURE_WRAP_T,
                value: glow::CLAMP_TO_BORDER as i32
            },
            DeviceCall::TexParameterI32 {
                target: glow::TEXTURE_2D,
                parameter: glow::TEXTURE_MAG_FILTER,
                value: glow::LINEAR as i32
            },
            DeviceCall::TexParameterI32 {
                target: glow::TEXTURE_2D,
                parameter: glow::TEXTURE_MIN_FILTER,
                value: glow::NEAREST_MIPMAP_NEAREST as i32
            },
            unbind(),
        ]
    );
}

#[test]
fn failed_texture_creation_is_handed_on() {
    let mut ctx = context();
    let refused = TextureHandle::new(
        &mut ctx,
        Err(String::from("out of texture names")),
        TextureWrap::ClampToBorder,
        TextureWrap::ClampToBorder,
        TextureFilteringMode::Linear,
        TextureFilteringMode::Linear,
    );
    assert_eq!(refused.err(), Some(String::from("out of texture names")));
}

#[test]
fn border_colour_is_set_between_bind_and_unbind() {
    let mut ctx = context();
    let texture = texture(&mut ctx, 5);
    let red = [1.0f32.to_bits(), 0, 0, 1.0f32.to_bits()];
    assert_eq!(
        texture.set_border_color(&mut ctx, red),
        vec![
            bind(5),
            DeviceCall::TexParameterF32 {
                target: glow::TEXTURE_2D,
                parameter: glow::TEXTURE_BORDER_COLOR,
                values: red
            },
            unbind(),
        ]
    );
}

#[test]
fn allocation_uploads_the_image() {
    let mut ctx = context();
    let pixels = [9u8; 64];
    let (texture, calls) = texture(&mut ctx, 5).allocate_2d_data(
        &mut ctx,
        Some(&pixels),
        InternalTextureFormat::Rgba,
        TextureFormat::Rgba,
        4,
        4,
        DataType::UnsignedByte,
    );
    assert_eq!(
        calls,
        vec![
            bind(5),
            DeviceCall::TexImage2D {
                target: glow::TEXTURE_2D,
                level: 0,
                internal_format: glow::RGBA as i32,
                width: 4,
                height: 4,
                border: 0,
                format: glow::RGBA,
                ty: glow::UNSIGNED_BYTE,
                pixels: Some(&pixels)
            },
            unbind(),
        ]
    );
    assert_eq!(texture.width(), 4);
    assert_eq!(texture.height(), 4);
    assert_eq!(texture.native_texture(), handle(5));
    assert_eq!(texture.texture_target_hint(), glow::TEXTURE_2D);
}

#[test]
fn allocation_without_pixels_reserves_the_image() {
    let mut ctx = context();
    let (texture, calls) = texture(&mut ctx, 5).allocate_2d_data(
        &mut ctx,
        None,
        InternalTextureFormat::Rgb8,
        TextureFormat::Rgb,
        640,
        480,
        DataType::UnsignedByte,
    );
    assert_eq!(
        calls[1],
        DeviceCall::TexImage2D {
            target: glow::TEXTURE_2D,
            level: 0,
            internal_format: glow::RGB8 as i32,
            width: 640,
            height: 480,
            border: 0,
            format: glow::RGB,
            ty: glow::UNSIGNED_BYTE,
            pixels: None
        }
    );
    assert_eq!((texture.width(), texture.height()), (640, 480));
}

#[test]
fn subimage_inside_the_image_is_written() {
    let mut ctx = context();
    let texture = rgba_4x4(&mut ctx, 5);
    let patch = [255u8; 16];
    assert_eq!(
        texture.write_subimage(
            &mut ctx,
            1,
            1,
            2,
            2,
            TextureFormat::Rgba,
            DataType::UnsignedByte,
            &patch
        ),
        Ok(vec![
            bind(5),
            DeviceCall::TexSubImage2D {
                target: glow::TEXTURE_2D,
                level: 0,
                x_offset: 1,
                y_offset: 1,
                width: 2,
                height: 2,
                format: glow::RGBA,
                ty: glow::UNSIGNED_BYTE,
                pixels: &patch
            },
            unbind(),
        ])
    );
}

#[test]
fn subimage_reaching_outside_is_rejected() {
    let mut ctx = context();
    let texture = rgba_4x4(&mut ctx, 5);
    let patch = [255u8; 64];
    assert_eq!(
        texture.write_subimage(
            &mut ctx,
            3,
            3,
            4,
            4,
            TextureFormat::Rgba,
            DataType::UnsignedByte,
            &patch
        ),
        Err(TextureError::OutOfBounds {
            x_offset: 3,
            y_offset: 3,
            width: 4,
            height: 4,
            image_width: 4,
            image_height: 4
        })
    );
}

#[test]
fn subimage_bounds_are_exact() {
    let mut ctx = context();
    let texture = rgba_4x4(&mut ctx, 5);
    let patch = [0u8; 64];
    let mut write = |x: i32, y: i32, w: i32, h: i32| {
        texture
            .write_subimage(&mut ctx, x, y, w, h, TextureFormat::Rgba, DataType::UnsignedByte, &patch)
            .is_ok()
    };
    assert!(write(0, 0, 4, 4));
    assert!(write(3, 3, 1, 1));
    assert!(write(4, 4, 0, 0));
    assert!(write(0, 3, 4, 1));
    assert!(!write(0, 0, 5, 4));
    assert!(!write(0, 0, 4, 5));
    assert!(!write(1, 0, 4, 4));
    assert!(!write(0, 1, 4, 4));
    assert!(!write(-1, 0, 2, 2));
    assert!(!write(0, -1, 2, 2));
    assert!(!write(0, 0, -1, 2));
    assert!(!write(0, 0, 2, -1));
    assert!(!write(5, 0, 0, 0));
    assert!(!write(i32::MAX, 0, i32::MAX, 1));
    assert!(!write(0, i32::MAX, 1, i32::MAX));
}

#[test]
fn rejected_subimage_tells_the_device_nothing() {
    let mut ctx = context();
    let texture = rgba_4x4(&mut ctx, 5);
    let unit = BindableNativeTexture::new(handle(8), codes::TEXTURE_2D);
    assert_eq!(ctx.bind_texture(2, &unit).map(|calls| calls.len()), Ok(2));
    let patch = [0u8; 4];
    assert!(texture
        .write_subimage(&mut ctx, 4, 0, 1, 1, TextureFormat::Rgba, DataType::UnsignedByte, &patch)
        .is_err());
    // Unit 2 is still known to hold texture 8.
    assert_eq!(ctx.bind_texture(2, &unit), Ok(vec![]));
    assert!(texture
        .write_subimage(&mut ctx, 3, 0, 1, 1, TextureFormat::Rgba, DataType::UnsignedByte, &patch)
        .is_ok());
    // A write went through some unit: none is trusted any more.
    assert_eq!(ctx.bind_texture(2, &unit).map(|calls| calls.len()), Ok(2));
}

#[test]
fn reallocation_redefines_the_image() {
    let mut ctx = context();
    let mut texture = rgba_4x4(&mut ctx, 5);
    let pixels = [1u8; 8 * 2 * 3];
    assert_eq!(
        texture.reallocate_2d_data(
            &mut ctx,
            Some(&pixels),
            InternalTextureFormat::Rgb,
            TextureFormat::Rgb,
            8,
            2,
            DataType::UnsignedByte
        ),
        vec![
            bind(5),
            DeviceCall::TexImage2D {
                target: glow::TEXTURE_2D,
                level: 0,
                internal_format: glow::RGB as i32,
                width: 8,
                height: 2,
                border: 0,
                format: glow::RGB,
                ty: glow::UNSIGNED_BYTE,
                pixels: Some(&pixels)
            },
            unbind(),
        ]
    );
    assert_eq!((texture.width(), texture.height()), (8, 2));
    let patch = [0u8; 3];
    let mut write = |x: i32, y: i32| {
        texture
            .write_subimage(&mut ctx, x, y, 1, 1, TextureFormat::Rgb, DataType::UnsignedByte, &patch)
            .is_ok()
    };
    assert!(write(7, 1));
    assert!(!write(8, 1));
    assert!(!write(7, 2));
    assert!(!write(3, 3));
}

#[test]
fn mipmaps_are_built_only_on_request() {
    let mut ctx = context();
    let mut texture = rgba_4x4(&mut ctx, 5);
    let patch = [0u8; 4];
    let mut issued = Vec::new();
    issued.extend(
        texture
            .write_subimage(&mut ctx, 0, 0, 1, 1, TextureFormat::Rgba, DataType::UnsignedByte, &patch)
            .unwrap(),
    );
    issued.extend(texture.reallocate_2d_data(
        &mut ctx,
        None,
        InternalTextureFormat::Rgba,
        TextureFormat::Rgba,
        2,
        2,
        DataType::UnsignedByte,
    ));
    assert!(!issued.iter().any(|call| matches!(call, DeviceCall::GenerateMipmap { .. })));
    assert_eq!(
        texture.generate_mipmaps(&mut ctx),
        vec![bind(5), DeviceCall::GenerateMipmap { target: glow::TEXTURE_2D }, unbind()]
    );
}

#[test]
fn destroying_a_texture_deletes_it_in_either_phase() {
    let mut ctx = context();
    assert_eq!(
        texture(&mut ctx, 5).destroy(),
        vec![DeviceCall::DeleteTexture { texture: handle(5) }]
    );
    assert_eq!(
        rgba_4x4(&mut ctx, 6).destroy(),
        vec![DeviceCall::DeleteTexture { texture: handle(6) }]
    );
}

#[test]
fn textures_bind_to_units() {
    let mut ctx = context();
    let texture = rgba_4x4(&mut ctx, 5);
    let cube = BindableNativeTexture::new(handle(6), glow::TEXTURE_CUBE_MAP);
    assert_eq!(cube.native_texture(), handle(6));
    assert_eq!(cube.texture_target_hint(), glow::TEXTURE_CUBE_MAP);
    assert_eq!(
        ctx.bind_texture(1, &texture),
        Ok(vec![DeviceCall::ActiveTexture { unit: glow::TEXTURE1 }, bind(5)])
    );
    assert_eq!(
        ctx.bind_texture(1, &cube),
        Ok(vec![
            DeviceCall::ActiveTexture { unit: glow::TEXTURE1 },
            DeviceCall::BindTexture { target: glow::TEXTURE_CUBE_MAP, texture: Some(handle(6)) },
        ])
    );
}

/// A texture the calling program keeps track of itself.
struct Foreign(u32);

impl BindableTexture for Foreign {
    fn native_texture(&self) -> NativeHandle {
        handle(self.0)
    }

    fn texture_target_hint(&self) -> u32 {
        glow::TEXTURE_2D_ARRAY
    }
}

#[test]
fn a_type_of_the_calling_program_can_be_a_texture() {
    let mut ctx = context();
    assert_eq!(
        ctx.bind_texture(4, &Foreign(50)),
        Ok(vec![
            DeviceCall::ActiveTexture { unit: glow::TEXTURE4 },
            DeviceCall::BindTexture { target: glow::TEXTURE_2D_ARRAY, texture: Some(handle(50)) },
        ])
    );
}
