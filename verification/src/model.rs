//! A model of the device, and what the library's bookkeeping is worth
//! against it.
//!
//! The model holds the part of the device the state shadow mirrors, and the
//! vertex attributes that are enabled, with their divisors. Nothing here runs; the model exists to state
//! what the shadow promises: a field the shadow claims to know is what the
//! device holds, whatever sequence of library operations led there.

use vstd::prelude::*;
use crate::codes;
use crate::device::DeviceCall;
use crate::handle::NativeHandle;
use crate::state::{
    toggle, unit_code, BlendFunc, Cached, ColorBits, ColorMask, Rect, Slot, StateChange, StateView,
    TextureBinding,
};

verus! {

/// The state of the device, as far as the library reasons about it.
pub struct DeviceState {
    /// The buffer bound as the source of vertex data.
    pub array_buffer: Option<NativeHandle>,
    /// The vertex array that is bound.
    pub vertex_array: Option<NativeHandle>,
    /// The buffer bound as the source of indices, for each vertex array: the
    /// binding belongs to the vertex array, not to the device as a whole.
    pub index_buffer_of: spec_fn(Option<NativeHandle>) -> Option<NativeHandle>,
    /// The attribute indices that are enabled, for each vertex array.
    pub enabled_of: spec_fn(Option<NativeHandle>) -> Set<u32>,
    /// The divisor of each attribute index, for each vertex array.
    pub divisor_of: spec_fn(Option<NativeHandle>, u32) -> u32,
    /// The texture unit that is active, by its device number.
    pub active_unit: u32,
    /// The texture bound to each target of each unit, by the unit's device
    /// number.
    pub texture_of: spec_fn(u32, u32) -> Option<NativeHandle>,
    pub blend: bool,
    pub blend_func: BlendFunc,
    pub clear_color: ColorBits,
    pub depth_test: bool,
    pub depth_write: bool,
    pub color_write: ColorMask,
    pub program: Option<NativeHandle>,
    pub viewport: Rect,
}

impl DeviceState {
    /// The buffer indices are read from: that of the bound vertex array.
    pub open spec fn index_buffer(self) -> Option<NativeHandle> {
        (self.index_buffer_of)(self.vertex_array)
    }

    /// The attribute indices enabled on the bound vertex array.
    pub open spec fn enabled(self) -> Set<u32> {
        (self.enabled_of)(self.vertex_array)
    }

    /// The divisor of attribute `index` on the bound vertex array.
    pub open spec fn divisor(self, index: u32) -> u32 {
        (self.divisor_of)(self.vertex_array, index)
    }

    /// The device once the enabled attributes of the bound vertex array are
    /// `enabled`.
    pub open spec fn with_enabled(self, enabled: Set<u32>) -> DeviceState {
        let bound = self.vertex_array;
        DeviceState {
            enabled_of: |vertex_array: Option<NativeHandle>|
                if vertex_array == bound {
                    enabled
                } else {
                    (self.enabled_of)(vertex_array)
                },
            ..self
        }
    }

    /// The device after one call.
    ///
    /// Deleting an object that is bound unbinds it: a deleted buffer leaves
    /// the array-buffer binding and the index-buffer binding of the bound
    /// vertex array, a deleted texture leaves every unit, and a deleted
    /// vertex array, if it was the one bound, leaves none bound. A deleted
    /// program stays active until another takes its place.
    pub open spec fn step(self, call: DeviceCall) -> DeviceState {
        match call {
            DeviceCall::BindBuffer { target, buffer } => {
                if target == codes::ARRAY_BUFFER {
                    DeviceState { array_buffer: buffer, ..self }
                } else if target == codes::ELEMENT_ARRAY_BUFFER {
                    let bound = self.vertex_array;
                    DeviceState {
                        index_buffer_of: |vertex_array: Option<NativeHandle>|
                            if vertex_array == bound {
                                buffer
                            } else {
                                (self.index_buffer_of)(vertex_array)
                            },
                        ..self
                    }
                } else {
                    self
                }
            },
            DeviceCall::BindVertexArray { vertex_array } => DeviceState { vertex_array, ..self },
            DeviceCall::DeleteVertexArray { vertex_array } => {
                if self.vertex_array == Some(vertex_array) {
                    DeviceState { vertex_array: None, ..self }
                } else {
                    self
                }
            },
            DeviceCall::DeleteBuffer { buffer } => {
                let bound = self.vertex_array;
                DeviceState {
                    array_buffer: if self.array_buffer == Some(buffer) {
                        None
                    } else {
                        self.array_buffer
                    },
                    index_buffer_of: |vertex_array: Option<NativeHandle>|
                        if vertex_array == bound && (self.index_buffer_of)(vertex_array) == Some(
                            buffer,
                        ) {
                            None
                        } else {
                            (self.index_buffer_of)(vertex_array)
                        },
                    ..self
                }
            },
            DeviceCall::DeleteTexture { texture } => DeviceState {
                texture_of: |unit: u32, of: u32|
                    if (self.texture_of)(unit, of) == Some(texture) {
                        None
                    } else {
                        (self.texture_of)(unit, of)
                    },
                ..self
            },
            DeviceCall::EnableVertexAttribArray { index } => self.with_enabled(
                self.enabled().insert(index),
            ),
            DeviceCall::DisableVertexAttribArray { index } => self.with_enabled(
                self.enabled().remove(index),
            ),
            DeviceCall::VertexAttribDivisor { index, divisor } => {
                let bound = self.vertex_array;
                DeviceState {
                    divisor_of: |vertex_array: Option<NativeHandle>, of: u32|
                        if vertex_array == bound && of == index {
                            divisor
                        } else {
                            (self.divisor_of)(vertex_array, of)
                        },
                    ..self
                }
            },
            DeviceCall::ActiveTexture { unit } => DeviceState { active_unit: unit, ..self },
            DeviceCall::BindTexture { target, texture } => {
                let active = self.active_unit;
                DeviceState {
                    texture_of: |unit: u32, of: u32|
                        if unit == active && of == target {
                            texture
                        } else {
                            (self.texture_of)(unit, of)
                        },
                    ..self
                }
            },
            DeviceCall::Enable { capability } => {
                if capability == codes::BLEND {
                    DeviceState { blend: true, ..self }
                } else if capability == codes::DEPTH_TEST {
                    DeviceState { depth_test: true, ..self }
                } else {
                    self
                }
            },
            DeviceCall::Disable { capability } => {
                if capability == codes::BLEND {
                    DeviceState { blend: false, ..self }
                } else if capability == codes::DEPTH_TEST {
                    DeviceState { depth_test: false, ..self }
                } else {
                    self
                }
            },
            DeviceCall::BlendFunc { src, dst } => DeviceState {
                blend_func: BlendFunc { src, dst },
                ..self
            },
            DeviceCall::ClearColor { red, green, blue, alpha } => DeviceState {
                clear_color: ColorBits { red, green, blue, alpha },
                ..self
            },
            DeviceCall::DepthMask { enabled } => DeviceState { depth_write: enabled, ..self },
            DeviceCall::ColorMask { red, green, blue, alpha } => DeviceState {
                color_write: ColorMask { red, green, blue, alpha },
                ..self
            },
            DeviceCall::UseProgram { program } => DeviceState { program, ..self },
            DeviceCall::Viewport { x, y, width, height } => DeviceState {
                viewport: Rect { x, y, width, height },
                ..self
            },
            _ => self,
        }
    }

    /// The device after `calls`, first to last.
    pub open spec fn run(self, calls: Seq<DeviceCall>) -> DeviceState
        decreases calls.len(),
    {
        if calls.len() == 0 {
            self
        } else {
            self.run(calls.drop_last()).step(calls.last())
        }
    }

    /// Whether the device holds `binding` on texture unit `unit`, counted
    /// from zero.
    pub open spec fn has_texture(self, unit: int, binding: TextureBinding) -> bool {
        (self.texture_of)(unit_code(unit as u32), binding.target) == binding.texture
    }
}

/// Whether the device holds what the slot claims to know.
pub open spec fn backed<T>(slot: Slot<T>, held: T) -> bool {
    slot.flushed matches Cached::Known(value) ==> value == held
}

/// Whether the shadow is sound: every field it claims to know is what the
/// device holds.
pub open spec fn coherent(shadow: StateView, device: DeviceState) -> bool {
    &&& backed(shadow.array_buffer, device.array_buffer)
    &&& backed(shadow.index_buffer, device.index_buffer())
    &&& forall|unit: int|
        0 <= unit < shadow.textures.len() ==> (#[trigger] shadow.textures[unit].flushed matches Cached::Known(
            binding,
        ) ==> device.has_texture(unit, binding))
    &&& backed(shadow.blend, device.blend)
    &&& backed(shadow.blend_func, device.blend_func)
    &&& backed(shadow.clear_color, device.clear_color)
    &&& backed(shadow.depth_test, device.depth_test)
    &&& backed(shadow.depth_write, device.depth_write)
    &&& backed(shadow.color_write, device.color_write)
    &&& backed(shadow.program, device.program)
    &&& backed(shadow.viewport, device.viewport)
}

/// Whether the device holds what was asked for, in every mirrored field.
pub open spec fn realised(shadow: StateView, device: DeviceState) -> bool {
    &&& device.array_buffer == shadow.array_buffer.current
    &&& device.index_buffer() == shadow.index_buffer.current
    &&& forall|unit: int|
        0 <= unit < shadow.textures.len() ==> device.has_texture(
            unit,
            (#[trigger] shadow.textures[unit]).current,
        )
    &&& device.blend == shadow.blend.current
    &&& device.blend_func == shadow.blend_func.current
    &&& device.clear_color == shadow.clear_color.current
    &&& device.depth_test == shadow.depth_test.current
    &&& device.depth_write == shadow.depth_write.current
    &&& device.color_write == shadow.color_write.current
    &&& device.program == shadow.program.current
    &&& device.viewport == shadow.viewport.current
}

/// Running two sequences one after the other is running their
/// concatenation.
pub proof fn run_in_parts(device: DeviceState, first: Seq<DeviceCall>, second: Seq<DeviceCall>)
    ensures
        device.run(first + second) == device.run(first).run(second),
    decreases second.len(),
{
    if second.len() > 0 {
        run_in_parts(device, first, second.drop_last());
        assert((first + second).drop_last() =~= first + second.drop_last());
        assert((first + second).last() == second.last());
    }
}

/// Running a single call is taking one step.
pub proof fn run_one(device: DeviceState, call: DeviceCall)
    ensures
        device.run(seq![call]) == device.step(call),
{
    assert(seq![call].drop_last() =~= Seq::<DeviceCall>::empty());
    assert(device.run(Seq::<DeviceCall>::empty()) == device);
}

/// Running two calls is taking two steps.
pub proof fn run_two(device: DeviceState, first: DeviceCall, second: DeviceCall)
    ensures
        device.run(seq![first, second]) == device.step(first).step(second),
{
    assert(seq![first, second].drop_last() =~= seq![first]);
    run_one(device, first);
}

/// The shadow stays sound when it witnesses a call the device takes.
pub proof fn witnessing_keeps_coherence(shadow: StateView, device: DeviceState, call: DeviceCall)
    requires
        coherent(shadow, device),
    ensures
        coherent(shadow.witnessed(call), device.step(call)),
{
}

/// The shadow stays sound when it witnesses every call of a sequence the
/// device takes. This is what every operation of the library other than a
/// mutator does with the calls it returns.
pub proof fn witnessing_all_keeps_coherence(
    shadow: StateView,
    device: DeviceState,
    calls: Seq<DeviceCall>,
)
    requires
        coherent(shadow, device),
    ensures
        coherent(shadow.witnessed_all(calls), device.run(calls)),
    decreases calls.len(),
{
    if calls.len() > 0 {
        witnessing_all_keeps_coherence(shadow, device, calls.drop_last());
        witnessing_keeps_coherence(
            shadow.witnessed_all(calls.drop_last()),
            device.run(calls.drop_last()),
            calls.last(),
        );
    }
}

/// No two texture units share a device number.
pub proof fn unit_codes_distinct(a: int, b: int)
    requires
        0 <= a < codes::TEXTURE_UNITS,
        0 <= b < codes::TEXTURE_UNITS,
    ensures
        unit_code(a as u32) == unit_code(b as u32) <==> a == b,
{
}

/// Whether two shadows claim to know the same of the device.
pub open spec fn same_claims(a: StateView, b: StateView) -> bool {
    &&& a.array_buffer.flushed == b.array_buffer.flushed
    &&& a.index_buffer.flushed == b.index_buffer.flushed
    &&& a.textures.len() == b.textures.len()
    &&& forall|unit: int|
        0 <= unit < a.textures.len() ==> (#[trigger] a.textures[unit]).flushed
            == b.textures[unit].flushed
    &&& a.blend.flushed == b.blend.flushed
    &&& a.blend_func.flushed == b.blend_func.flushed
    &&& a.clear_color.flushed == b.clear_color.flushed
    &&& a.depth_test.flushed == b.depth_test.flushed
    &&& a.depth_write.flushed == b.depth_write.flushed
    &&& a.color_write.flushed == b.color_write.flushed
    &&& a.program.flushed == b.program.flushed
    &&& a.viewport.flushed == b.viewport.flushed
}

/// Soundness is a matter of what the shadow claims to know, not of what was
/// asked for.
pub proof fn coherence_reads_claims_only(a: StateView, b: StateView, device: DeviceState)
    requires
        coherent(a, device),
        same_claims(a, b),
    ensures
        coherent(b, device),
{
    assert forall|unit: int| 0 <= unit < b.textures.len() implies (
    #[trigger] b.textures[unit].flushed matches Cached::Known(binding) ==> device.has_texture(
        unit,
        binding,
    )) by {
        assert(a.textures[unit].flushed == b.textures[unit].flushed);
    }
}

/// A texture change keeps the shadow sound.
proof fn texture_change_keeps_coherence(
    shadow: StateView,
    device: DeviceState,
    unit: u32,
    binding: TextureBinding,
)
    requires
        shadow.wf(),
        unit < codes::TEXTURE_UNITS,
        coherent(shadow, device),
    ensures
        coherent(
            shadow.after(StateChange::Texture { unit, binding }),
            device.run(shadow.emitted(StateChange::Texture { unit, binding })),
        ),
{
    let change = StateChange::Texture { unit, binding };
    let after = shadow.after(change);
    if shadow.holds(change) {
        assert(same_claims(shadow, after));
        coherence_reads_claims_only(shadow, after, device);
    } else {
        let select = DeviceCall::ActiveTexture { unit: unit_code(unit) };
        let bind = DeviceCall::BindTexture { target: binding.target, texture: binding.texture };
        run_two(device, select, bind);
        assert(shadow.emitted(change) =~= seq![select, bind]);
    }
}

/// A change that takes one call keeps the shadow sound, if witnessing that
/// call leaves the shadow claiming what the change leaves it claiming.
proof fn single_call_change_keeps_coherence(
    shadow: StateView,
    device: DeviceState,
    change: StateChange,
    call: DeviceCall<'static>,
)
    requires
        coherent(shadow, device),
        change.calls() == seq![call],
        same_claims(shadow.witnessed(call), shadow.after(change)),
        shadow.holds(change) ==> same_claims(shadow, shadow.after(change)),
    ensures
        coherent(shadow.after(change), device.run(shadow.emitted(change))),
{
    let after = shadow.after(change);
    if shadow.holds(change) {
        coherence_reads_claims_only(shadow, after, device);
    } else {
        run_one(device, call);
        witnessing_keeps_coherence(shadow, device, call);
        coherence_reads_claims_only(shadow.witnessed(call), after, device.step(call));
    }
}

/// The shadow stays sound when a change goes through a mutator and the
/// device takes the calls the mutator fired. A call that was left out was
/// rightly left out.
pub proof fn change_keeps_coherence(shadow: StateView, device: DeviceState, change: StateChange)
    requires
        shadow.wf(),
        change.valid(),
        coherent(shadow, device),
    ensures
        coherent(shadow.after(change), device.run(shadow.emitted(change))),
        shadow.after(change).wf(),
{
    match change {
        StateChange::Texture { unit, binding } => {
            texture_change_keeps_coherence(shadow, device, unit, binding);
        },
        StateChange::ArrayBuffer(buffer) => {
            let call = DeviceCall::BindBuffer { target: codes::ARRAY_BUFFER, buffer };
            single_call_change_keeps_coherence(shadow, device, change, call);
        },
        StateChange::IndexBuffer(buffer) => {
            let call = DeviceCall::BindBuffer { target: codes::ELEMENT_ARRAY_BUFFER, buffer };
            single_call_change_keeps_coherence(shadow, device, change, call);
        },
        StateChange::Blend(on) => {
            single_call_change_keeps_coherence(shadow, device, change, toggle(codes::BLEND, on));
        },
        StateChange::BlendFunc(f) => {
            let call = DeviceCall::BlendFunc { src: f.src, dst: f.dst };
            single_call_change_keeps_coherence(shadow, device, change, call);
        },
        StateChange::ClearColor(c) => {
            let call = DeviceCall::ClearColor {
                red: c.red,
                green: c.green,
                blue: c.blue,
                alpha: c.alpha,
            };
            single_call_change_keeps_coherence(shadow, device, change, call);
        },
        StateChange::DepthTest(on) => {
            single_call_change_keeps_coherence(
                shadow,
                device,
                change,
                toggle(codes::DEPTH_TEST, on),
            );
        },
        StateChange::DepthWrite(on) => {
            let call = DeviceCall::DepthMask { enabled: on };
            single_call_change_keeps_coherence(shadow, device, change, call);
        },
        StateChange::ColorWrite(m) => {
            let call = DeviceCall::ColorMask {
                red: m.red,
                green: m.green,
                blue: m.blue,
                alpha: m.alpha,
            };
            single_call_change_keeps_coherence(shadow, device, change, call);
        },
        StateChange::Program(program) => {
            let call = DeviceCall::UseProgram { program };
            single_call_change_keeps_coherence(shadow, device, change, call);
        },
        StateChange::Viewport(r) => {
            let call = DeviceCall::Viewport { x: r.x, y: r.y, width: r.width, height: r.height };
            single_call_change_keeps_coherence(shadow, device, change, call);
        },
    }
}

impl StateView {
    /// The shadow once the buffer bindings have been flushed.
    pub open spec fn buffers_flushed(self) -> StateView {
        StateView {
            array_buffer: Slot::settled(self.array_buffer.current),
            index_buffer: Slot::settled(self.index_buffer.current),
            ..self
        }
    }

    /// The shadow once the texture units below `units` have been flushed.
    pub open spec fn textures_flushed(self, units: int) -> StateView {
        StateView {
            textures: Seq::new(
                self.textures.len(),
                |i: int|
                    if i < units {
                        Slot::settled(self.textures[i].current)
                    } else {
                        self.textures[i]
                    },
            ),
            ..self
        }
    }
}

/// Flushing the buffer bindings keeps the shadow sound.
proof fn buffer_flush_keeps_coherence(shadow: StateView, device: DeviceState)
    requires
        shadow.wf(),
        coherent(shadow, device),
    ensures
        coherent(shadow.buffers_flushed(), device.run(shadow.buffer_flush_calls())),
{
    let first = StateChange::ArrayBuffer(shadow.array_buffer.current);
    let second = StateChange::IndexBuffer(shadow.index_buffer.current);
    change_keeps_coherence(shadow, device, first);
    let between = shadow.after(first);
    change_keeps_coherence(between, device.run(shadow.emitted(first)), second);
    run_in_parts(device, shadow.emitted(first), between.emitted(second));
    assert(between.emitted(second) == shadow.emitted(second));
}

/// Flushing the texture units below `units` keeps the shadow sound.
proof fn texture_flush_keeps_coherence(shadow: StateView, device: DeviceState, units: u32)
    requires
        shadow.wf(),
        units <= codes::TEXTURE_UNITS,
        coherent(shadow, device),
    ensures
        coherent(shadow.textures_flushed(units as int), device.run(shadow.texture_flush_calls(units))),
    decreases units,
{
    if units == 0 {
        assert(shadow.textures_flushed(0).textures =~= shadow.textures);
        assert(device.run(shadow.texture_flush_calls(0)) == device);
    } else {
        let unit = (units - 1) as u32;
        texture_flush_keeps_coherence(shadow, device, unit);
        let before = shadow.textures_flushed(unit as int);
        let change = shadow.texture_restated(unit);
        let so_far = device.run(shadow.texture_flush_calls(unit));
        change_keeps_coherence(before, so_far, change);
        assert(before.after(change).textures =~= shadow.textures_flushed(units as int).textures);
        run_in_parts(device, shadow.texture_flush_calls(unit), shadow.emitted(change));
    }
}

/// One step of flushing the fields behind the texture units.
proof fn fixed_flush_step(
    shadow: StateView,
    device: DeviceState,
    so_far: Seq<DeviceCall<'static>>,
    before: StateView,
    change: StateChange,
)
    requires
        before.wf(),
        change.valid(),
        coherent(before, device.run(so_far)),
        before.emitted(change) == shadow.emitted(change),
    ensures
        coherent(before.after(change), device.run(so_far + shadow.emitted(change))),
        before.after(change).wf(),
{
    change_keeps_coherence(before, device.run(so_far), change);
    run_in_parts(device, so_far, shadow.emitted(change));
}

/// Flushing the fields behind the texture units keeps the shadow sound.
proof fn fixed_flush_keeps_coherence(shadow: StateView, device: DeviceState)
    requires
        shadow.wf(),
        coherent(shadow, device),
    ensures
        coherent(
            StateView {
                array_buffer: shadow.array_buffer,
                index_buffer: shadow.index_buffer,
                textures: shadow.textures,
                ..shadow.flushed()
            },
            device.run(shadow.fixed_flush_calls()),
        ),
{
    let c1 = StateChange::Blend(shadow.blend.current);
    let c2 = StateChange::BlendFunc(shadow.blend_func.current);
    let c3 = StateChange::ClearColor(shadow.clear_color.current);
    let c4 = StateChange::DepthTest(shadow.depth_test.current);
    let c5 = StateChange::DepthWrite(shadow.depth_write.current);
    let c6 = StateChange::ColorWrite(shadow.color_write.current);
    let c7 = StateChange::Program(shadow.program.current);
    let c8 = StateChange::Viewport(shadow.viewport.current);
    let none = Seq::<DeviceCall<'static>>::empty();
    fixed_flush_step(shadow, device, none, shadow, c1);
    let s1 = shadow.after(c1);
    let e1 = none + shadow.emitted(c1);
    fixed_flush_step(shadow, device, e1, s1, c2);
    let s2 = s1.after(c2);
    let e2 = e1 + shadow.emitted(c2);
    fixed_flush_step(shadow, device, e2, s2, c3);
    let s3 = s2.after(c3);
    let e3 = e2 + shadow.emitted(c3);
    fixed_flush_step(shadow, device, e3, s3, c4);
    let s4 = s3.after(c4);
    let e4 = e3 + shadow.emitted(c4);
    fixed_flush_step(shadow, device, e4, s4, c5);
    let s5 = s4.after(c5);
    let e5 = e4 + shadow.emitted(c5);
    fixed_flush_step(shadow, device, e5, s5, c6);
    let s6 = s5.after(c6);
    let e6 = e5 + shadow.emitted(c6);
    fixed_flush_step(shadow, device, e6, s6, c7);
    let s7 = s6.after(c7);
    let e7 = e6 + shadow.emitted(c7);
    fixed_flush_step(shadow, device, e7, s7, c8);
    let e8 = e7 + shadow.emitted(c8);
    assert(e8 =~= shadow.fixed_flush_calls());
}

/// A flush keeps the shadow sound.
proof fn flush_keeps_coherence(shadow: StateView, device: DeviceState)
    requires
        shadow.wf(),
        coherent(shadow, device),
    ensures
        coherent(shadow.flushed(), device.run(shadow.flush_calls())),
{
    let buffers = shadow.buffer_flush_calls();
    let textures = shadow.texture_flush_calls(codes::TEXTURE_UNITS);
    let fixed = shadow.fixed_flush_calls();
    buffer_flush_keeps_coherence(shadow, device);
    let s1 = shadow.buffers_flushed();
    let d1 = device.run(buffers);
    texture_flush_keeps_coherence(s1, d1, codes::TEXTURE_UNITS);
    crate::state::texture_flush_reads_textures_only(shadow, s1, codes::TEXTURE_UNITS);
    let s2 = s1.textures_flushed(codes::TEXTURE_UNITS as int);
    let d2 = d1.run(textures);
    fixed_flush_keeps_coherence(s2, d2);
    assert(s2.fixed_flush_calls() == fixed);
    run_in_parts(device, buffers, textures);
    run_in_parts(device, buffers + textures, fixed);
    let s3 = StateView {
        array_buffer: s2.array_buffer,
        index_buffer: s2.index_buffer,
        textures: s2.textures,
        ..s2.flushed()
    };
    assert(s2.textures =~= shadow.flushed().textures);
    assert(s3 == shadow.flushed());
}

/// Where a shadow that claims to know all that was asked for is sound, the
/// device holds all that was asked for.
proof fn sound_and_settled_is_realised(shadow: StateView, device: DeviceState)
    requires
        coherent(shadow.flushed(), device),
    ensures
        realised(shadow, device),
{
    assert forall|unit: int| 0 <= unit < shadow.textures.len() implies device.has_texture(
        unit,
        (#[trigger] shadow.textures[unit]).current,
    ) by {
        assert(shadow.flushed().textures[unit].flushed == Cached::Known(
            shadow.textures[unit].current,
        ));
    }
}

/// After a flush the device holds, in every mirrored field, what was asked
/// for, and the shadow, which now claims to know all of it, is sound.
pub proof fn flush_realises_what_was_asked(shadow: StateView, device: DeviceState)
    requires
        shadow.wf(),
        coherent(shadow, device),
    ensures
        coherent(shadow.flushed(), device.run(shadow.flush_calls())),
        realised(shadow, device.run(shadow.flush_calls())),
{
    flush_keeps_coherence(shadow, device);
    sound_and_settled_is_realised(shadow, device.run(shadow.flush_calls()));
}

/// Whatever buffer something else has bound as the source of vertex data,
/// the shadow is sound again once the binding has been put in doubt.
pub proof fn doubt_absorbs_foreign_array_buffer(
    shadow: StateView,
    device: DeviceState,
    foreign: Option<NativeHandle>,
)
    requires
        coherent(shadow, device),
    ensures
        coherent(shadow.doubt_array_buffer(), DeviceState { array_buffer: foreign, ..device }),
{
}

/// Whatever vertex array something else has bound, and whatever index
/// buffers it has bound to vertex arrays, the shadow is sound again once
/// the index-buffer binding has been put in doubt.
pub proof fn doubt_absorbs_foreign_index_buffer(
    shadow: StateView,
    device: DeviceState,
    foreign: DeviceState,
)
    requires
        coherent(shadow, device),
        foreign == (DeviceState {
            vertex_array: foreign.vertex_array,
            index_buffer_of: foreign.index_buffer_of,
            ..device
        }),
    ensures
        coherent(shadow.doubt_index_buffer(), foreign),
{
}

/// Whichever unit something else has made active, and whatever it has bound
/// to texture unit `unit`, the shadow is sound again once the binding of
/// that unit has been put in doubt.
pub proof fn doubt_absorbs_foreign_texture(
    shadow: StateView,
    device: DeviceState,
    foreign: DeviceState,
    unit: u32,
)
    requires
        shadow.wf(),
        unit < codes::TEXTURE_UNITS,
        coherent(shadow, device),
        foreign == (DeviceState {
            active_unit: foreign.active_unit,
            texture_of: foreign.texture_of,
            ..device
        }),
        forall|other: u32, target: u32|
            other != unit_code(unit) ==> #[trigger] (foreign.texture_of)(other, target) == (
            device.texture_of)(other, target),
    ensures
        coherent(shadow.doubt_texture_unit(unit), foreign),
{
}

/// On a device nobody has looked at, the shadow claims nothing and so is
/// sound whatever the device holds.
pub proof fn initial_shadow_is_coherent(device: DeviceState)
    ensures
        coherent(crate::state::initial_state(), device),
        crate::state::initial_state().wf(),
{
}

/// Asking for other values without telling the device keeps the shadow
/// sound: what it claims to know is as before. Going back to a saved state
/// is this, followed by a flush.
pub proof fn asking_keeps_coherence(
    shadow: StateView,
    device: DeviceState,
    values: crate::state::ValuesView,
)
    requires
        coherent(shadow, device),
    ensures
        coherent(shadow.asking(values), device),
        shadow.wf() ==> shadow.asking(values).wf(),
{
    coherence_reads_claims_only(shadow, shadow.asking(values), device);
}

} // verus!
