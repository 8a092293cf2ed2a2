//! The state shadow: what the library wants the device to hold, and what it
//! knows the device to hold.
//!
//! Every mirrored field is a [`Slot`]: the value last asked for (`current`)
//! beside the value the device is known to have (`flushed`). A mutator fires
//! a device call only when the two disagree. Whatever else the library makes
//! the device do is *witnessed*: the `flushed` side follows the calls, the
//! `current` side does not, and [`ContextState::flush`] brings the device
//! back to what was asked for.

use vstd::prelude::*;
use crate::codes;
use crate::device::DeviceCall;
use crate::handle::NativeHandle;

verus! {

/// What is known of one device field.
#[derive(Clone, Copy, Debug, PartialEq, Eq)]
pub enum Cached<T> {
    /// The device holds this value.
    Known(T),
    /// Something outside the library's sight may have changed the field.
    Invalidated,
}

/// One mirrored field.
#[derive(Clone, Copy, Debug, PartialEq, Eq)]
pub struct Slot<T> {
    /// The value last asked for through a mutator.
    pub current: T,
    /// The value the device is known to hold, if any.
    pub flushed: Cached<T>,
}

/// The source and destination factors of the blend equation, as device codes.
#[derive(Clone, Copy, Debug, PartialEq, Eq, Structural)]
pub struct BlendFunc {
    pub src: u32,
    pub dst: u32,
}

/// A colour, each channel an IEEE-754 bit pattern.
#[derive(Clone, Copy, Debug, PartialEq, Eq, Structural)]
pub struct ColorBits {
    pub red: u32,
    pub green: u32,
    pub blue: u32,
    pub alpha: u32,
}

/// Which colour channels a draw may write.
#[derive(Clone, Copy, Debug, PartialEq, Eq, Structural)]
pub struct ColorMask {
    pub red: bool,
    pub green: bool,
    pub blue: bool,
    pub alpha: bool,
}

/// A rectangle in window coordinates.
#[derive(Clone, Copy, Debug, PartialEq, Eq, Structural)]
pub struct Rect {
    pub x: i32,
    pub y: i32,
    pub width: i32,
    pub height: i32,
}

/// What is bound to one target of one texture unit.
#[derive(Clone, Copy, Debug, PartialEq, Eq)]
pub struct TextureBinding {
    pub target: u32,
    pub texture: Option<NativeHandle>,
}

/// A value that can sit in a [`Slot`]: one that can be compared at run time.
pub trait CacheValue: Copy {
    fn same(&self, other: &Self) -> (r: bool)
        ensures
            r == (*self == *other),
    ;
}

impl CacheValue for bool {
    fn same(&self, other: &Self) -> (r: bool) {
        *self == *other
    }
}

impl CacheValue for Option<NativeHandle> {
    fn same(&self, other: &Self) -> (r: bool) {
        match (*self, *other) {
            (None, None) => true,
            (Some(a), Some(b)) => a == b,
            _ => false,
        }
    }
}

impl CacheValue for BlendFunc {
    fn same(&self, other: &Self) -> (r: bool) {
        self.src == other.src && self.dst == other.dst
    }
}

impl CacheValue for ColorBits {
    fn same(&self, other: &Self) -> (r: bool) {
        self.red == other.red && self.green == other.green && self.blue == other.blue
            && self.alpha == other.alpha
    }
}

impl CacheValue for ColorMask {
    fn same(&self, other: &Self) -> (r: bool) {
        self.red == other.red && self.green == other.green && self.blue == other.blue
            && self.alpha == other.alpha
    }
}

impl CacheValue for Rect {
    fn same(&self, other: &Self) -> (r: bool) {
        self.x == other.x && self.y == other.y && self.width == other.width && self.height
            == other.height
    }
}

impl CacheValue for TextureBinding {
    fn same(&self, other: &Self) -> (r: bool) {
        self.target == other.target && self.texture.same(&other.texture)
    }
}

impl<T> Slot<T> {
    /// A slot whose device value is unknown.
    pub open spec fn unknown(value: T) -> Slot<T> {
        Slot { current: value, flushed: Cached::Invalidated }
    }

    /// A slot whose device value is `value`, as asked for.
    pub open spec fn settled(value: T) -> Slot<T> {
        Slot { current: value, flushed: Cached::Known(value) }
    }

    /// Whether the device is known to hold `value`.
    pub open spec fn holds(self, value: T) -> bool {
        self.flushed == Cached::Known(value)
    }

    /// The slot once the device is known to hold `value`.
    pub open spec fn seen(self, value: T) -> Slot<T> {
        Slot { current: self.current, flushed: Cached::Known(value) }
    }

    /// The slot once the device value is in doubt.
    pub open spec fn doubted(self) -> Slot<T> {
        Slot { current: self.current, flushed: Cached::Invalidated }
    }

    /// The slot once the device, if it held `gone`, holds `left` instead.
    pub open spec fn without(self, gone: T, left: T) -> Slot<T> {
        if self.holds(gone) {
            self.seen(left)
        } else {
            self
        }
    }
}

impl Slot<TextureBinding> {
    /// The slot of a texture unit once `texture` has been deleted: a
    /// target that held it is empty.
    pub open spec fn without_texture(self, texture: NativeHandle) -> Slot<TextureBinding> {
        match self.flushed {
            Cached::Known(binding) if binding.texture == Some(texture) => self.seen(
                TextureBinding { target: binding.target, texture: None },
            ),
            _ => self,
        }
    }
}

impl<T: CacheValue> Cached<T> {
    /// Whether the device is known to hold `value`.
    pub fn is_known(&self, value: &T) -> (r: bool)
        ensures
            r == (*self == Cached::Known(*value)),
    {
        match self {
            Cached::Known(held) => held.same(value),
            Cached::Invalidated => false,
        }
    }
}

impl<T: CacheValue> Slot<T> {
    /// Asks for `value`. Returns whether the device has to be told.
    pub fn assign(&mut self, value: T) -> (fired: bool)
        ensures
            *final(self) == Slot::settled(value),
            fired == !old(self).holds(value),
    {
        let hit = self.flushed.is_known(&value);
        self.current = value;
        self.flushed = Cached::Known(value);
        !hit
    }
}

/// One request to a mutator: a mirrored field together with the value asked
/// for.
#[derive(Clone, Copy, Debug, PartialEq, Eq)]
pub enum StateChange {
    ArrayBuffer(Option<NativeHandle>),
    IndexBuffer(Option<NativeHandle>),
    /// `unit` counts from zero.
    Texture { unit: u32, binding: TextureBinding },
    Blend(bool),
    BlendFunc(BlendFunc),
    ClearColor(ColorBits),
    DepthTest(bool),
    DepthWrite(bool),
    ColorWrite(ColorMask),
    Program(Option<NativeHandle>),
    Viewport(Rect),
}

/// The call that switches a capability on or off.
pub open spec fn toggle(capability: u32, on: bool) -> DeviceCall<'static> {
    if on {
        DeviceCall::Enable { capability }
    } else {
        DeviceCall::Disable { capability }
    }
}

/// The device's number for texture unit `unit`, counted from zero.
pub open spec fn unit_code(unit: u32) -> u32 {
    (codes::TEXTURE0 + unit) as u32
}

impl StateChange {
    /// A change is valid when it names a texture unit that exists.
    pub open spec fn valid(self) -> bool {
        self matches StateChange::Texture { unit, .. } ==> unit < codes::TEXTURE_UNITS
    }

    /// The device calls that carry the change out, whatever the device held
    /// before.
    pub open spec fn calls(self) -> Seq<DeviceCall<'static>> {
        match self {
            StateChange::ArrayBuffer(buffer) => seq![
                DeviceCall::BindBuffer { target: codes::ARRAY_BUFFER, buffer },
            ],
            StateChange::IndexBuffer(buffer) => seq![
                DeviceCall::BindBuffer { target: codes::ELEMENT_ARRAY_BUFFER, buffer },
            ],
            StateChange::Texture { unit, binding } => seq![
                DeviceCall::ActiveTexture { unit: unit_code(unit) },
                DeviceCall::BindTexture { target: binding.target, texture: binding.texture },
            ],
            StateChange::Blend(on) => seq![toggle(codes::BLEND, on)],
            StateChange::BlendFunc(f) => seq![DeviceCall::BlendFunc { src: f.src, dst: f.dst }],
            StateChange::ClearColor(c) => seq![
                DeviceCall::ClearColor { red: c.red, green: c.green, blue: c.blue, alpha: c.alpha },
            ],
            StateChange::DepthTest(on) => seq![toggle(codes::DEPTH_TEST, on)],
            StateChange::DepthWrite(on) => seq![DeviceCall::DepthMask { enabled: on }],
            StateChange::ColorWrite(m) => seq![
                DeviceCall::ColorMask { red: m.red, green: m.green, blue: m.blue, alpha: m.alpha },
            ],
            StateChange::Program(program) => seq![DeviceCall::UseProgram { program }],
            StateChange::Viewport(r) => seq![
                DeviceCall::Viewport { x: r.x, y: r.y, width: r.width, height: r.height },
            ],
        }
    }
}

/// The mathematical content of a [`ContextState`].
pub struct StateView {
    pub array_buffer: Slot<Option<NativeHandle>>,
    pub index_buffer: Slot<Option<NativeHandle>>,
    /// One slot per texture unit, unit zero first.
    pub textures: Seq<Slot<TextureBinding>>,
    pub blend: Slot<bool>,
    pub blend_func: Slot<BlendFunc>,
    pub clear_color: Slot<ColorBits>,
    pub depth_test: Slot<bool>,
    pub depth_write: Slot<bool>,
    pub color_write: Slot<ColorMask>,
    pub program: Slot<Option<NativeHandle>>,
    pub viewport: Slot<Rect>,
}

impl StateView {
    /// Every texture unit has its slot.
    pub open spec fn wf(self) -> bool {
        self.textures.len() == codes::TEXTURE_UNITS
    }

    /// Whether the device is known to hold already what `change` asks for.
    pub open spec fn holds(self, change: StateChange) -> bool {
        match change {
            StateChange::ArrayBuffer(v) => self.array_buffer.holds(v),
            StateChange::IndexBuffer(v) => self.index_buffer.holds(v),
            StateChange::Texture { unit, binding } => self.textures[unit as int].holds(binding),
            StateChange::Blend(v) => self.blend.holds(v),
            StateChange::BlendFunc(v) => self.blend_func.holds(v),
            StateChange::ClearColor(v) => self.clear_color.holds(v),
            StateChange::DepthTest(v) => self.depth_test.holds(v),
            StateChange::DepthWrite(v) => self.depth_write.holds(v),
            StateChange::ColorWrite(v) => self.color_write.holds(v),
            StateChange::Program(v) => self.program.holds(v),
            StateChange::Viewport(v) => self.viewport.holds(v),
        }
    }

    /// The calls a mutator fires for `change`: none when the device is known
    /// to hold the value, the calls of the change otherwise.
    pub open spec fn emitted(self, change: StateChange) -> Seq<DeviceCall<'static>> {
        if self.holds(change) {
            Seq::empty()
        } else {
            change.calls()
        }
    }

    /// The shadow once `change` has gone through a mutator: the field holds
    /// the value on both sides, every other field is as before.
    pub open spec fn after(self, change: StateChange) -> StateView {
        match change {
            StateChange::ArrayBuffer(v) => StateView { array_buffer: Slot::settled(v), ..self },
            StateChange::IndexBuffer(v) => StateView { index_buffer: Slot::settled(v), ..self },
            StateChange::Texture { unit, binding } => StateView {
                textures: self.textures.update(unit as int, Slot::settled(binding)),
                ..self
            },
            StateChange::Blend(v) => StateView { blend: Slot::settled(v), ..self },
            StateChange::BlendFunc(v) => StateView { blend_func: Slot::settled(v), ..self },
            StateChange::ClearColor(v) => StateView { clear_color: Slot::settled(v), ..self },
            StateChange::DepthTest(v) => StateView { depth_test: Slot::settled(v), ..self },
            StateChange::DepthWrite(v) => StateView { depth_write: Slot::settled(v), ..self },
            StateChange::ColorWrite(v) => StateView { color_write: Slot::settled(v), ..self },
            StateChange::Program(v) => StateView { program: Slot::settled(v), ..self },
            StateChange::Viewport(v) => StateView { viewport: Slot::settled(v), ..self },
        }
    }
}

/// The state shadow of one context.
#[derive(Clone, Copy, Debug, PartialEq, Eq)]
pub struct ContextState {
    array_buffer: Slot<Option<NativeHandle>>,
    index_buffer: Slot<Option<NativeHandle>>,
    textures: [Slot<TextureBinding>; 16],
    blend: Slot<bool>,
    blend_func: Slot<BlendFunc>,
    clear_color: Slot<ColorBits>,
    depth_test: Slot<bool>,
    depth_write: Slot<bool>,
    color_write: Slot<ColorMask>,
    program: Slot<Option<NativeHandle>>,
    viewport: Slot<Rect>,
}

impl View for ContextState {
    type V = StateView;

    closed spec fn view(&self) -> StateView {
        StateView {
            array_buffer: self.array_buffer,
            index_buffer: self.index_buffer,
            textures: self.textures@,
            blend: self.blend,
            blend_func: self.blend_func,
            clear_color: self.clear_color,
            depth_test: self.depth_test,
            depth_write: self.depth_write,
            color_write: self.color_write,
            program: self.program,
            viewport: self.viewport,
        }
    }
}

/// The shadow of a device nobody has looked at yet. Nothing is known of what
/// the device holds, so whatever is asked for first is sent. What counts as
/// asked for until then are the defaults the device documents (nothing
/// bound, blending and depth test off, blend function one and zero, every
/// channel and the depth written, clear colour all zero) and an empty
/// viewport: a flush before the first [`StateChange::Viewport`] empties the
/// viewport.
pub open spec fn initial_state() -> StateView {
    StateView {
        array_buffer: Slot::unknown(None),
        index_buffer: Slot::unknown(None),
        textures: Seq::new(
            codes::TEXTURE_UNITS as nat,
            |i: int| Slot::unknown(TextureBinding { target: codes::TEXTURE_2D, texture: None }),
        ),
        blend: Slot::unknown(false),
        blend_func: Slot::unknown(BlendFunc { src: codes::BLEND_ONE, dst: codes::BLEND_ZERO }),
        clear_color: Slot::unknown(ColorBits { red: 0, green: 0, blue: 0, alpha: 0 }),
        depth_test: Slot::unknown(false),
        depth_write: Slot::unknown(true),
        color_write: Slot::unknown(ColorMask { red: true, green: true, blue: true, alpha: true }),
        program: Slot::unknown(None),
        viewport: Slot::unknown(Rect { x: 0, y: 0, width: 0, height: 0 }),
    }
}

/// The calls of a change, built.
pub(crate) fn change_calls(change: StateChange) -> (calls: Vec<DeviceCall<'static>>)
    requires
        change.valid(),
    ensures
        calls@ == change.calls(),
{
    let mut calls: Vec<DeviceCall<'static>> = Vec::new();
    match change {
        StateChange::ArrayBuffer(buffer) => {
            calls.push(DeviceCall::BindBuffer { target: codes::ARRAY_BUFFER, buffer });
        },
        StateChange::IndexBuffer(buffer) => {
            calls.push(DeviceCall::BindBuffer { target: codes::ELEMENT_ARRAY_BUFFER, buffer });
        },
        StateChange::Texture { unit, binding } => {
            calls.push(DeviceCall::ActiveTexture { unit: codes::TEXTURE0 + unit });
            calls.push(
                DeviceCall::BindTexture { target: binding.target, texture: binding.texture },
            );
        },
        StateChange::Blend(on) => {
            calls.push(toggle_call(codes::BLEND, on));
        },
        StateChange::BlendFunc(f) => {
            calls.push(DeviceCall::BlendFunc { src: f.src, dst: f.dst });
        },
        StateChange::ClearColor(c) => {
            calls.push(
                DeviceCall::ClearColor { red: c.red, green: c.green, blue: c.blue, alpha: c.alpha },
            );
        },
        StateChange::DepthTest(on) => {
            calls.push(toggle_call(codes::DEPTH_TEST, on));
        },
        StateChange::DepthWrite(on) => {
            calls.push(DeviceCall::DepthMask { enabled: on });
        },
        StateChange::ColorWrite(m) => {
            calls.push(
                DeviceCall::ColorMask { red: m.red, green: m.green, blue: m.blue, alpha: m.alpha },
            );
        },
        StateChange::Program(program) => {
            calls.push(DeviceCall::UseProgram { program });
        },
        StateChange::Viewport(r) => {
            calls.push(DeviceCall::Viewport { x: r.x, y: r.y, width: r.width, height: r.height });
        },
    }
    calls
}

/// The call that switches `capability` on or off.
pub fn toggle_call(capability: u32, on: bool) -> (call: DeviceCall<'static>)
    ensures
        call == toggle(capability, on),
{
    if on {
        DeviceCall::Enable { capability }
    } else {
        DeviceCall::Disable { capability }
    }
}

impl ContextState {
    /// The shadow of a device nobody has looked at yet.
    pub fn new() -> (state: ContextState)
        ensures
            state@ == initial_state(),
    {
        let nothing: Option<NativeHandle> = None;
        let unit = Slot {
            current: TextureBinding { target: codes::TEXTURE_2D, texture: None },
            flushed: Cached::Invalidated,
        };
        let state = ContextState {
            array_buffer: Slot { current: nothing, flushed: Cached::Invalidated },
            index_buffer: Slot { current: nothing, flushed: Cached::Invalidated },
            textures: [unit;16],
            blend: Slot { current: false, flushed: Cached::Invalidated },
            blend_func: Slot {
                current: BlendFunc { src: codes::BLEND_ONE, dst: codes::BLEND_ZERO },
                flushed: Cached::Invalidated,
            },
            clear_color: Slot {
                current: ColorBits { red: 0, green: 0, blue: 0, alpha: 0 },
                flushed: Cached::Invalidated,
            },
            depth_test: Slot { current: false, flushed: Cached::Invalidated },
            depth_write: Slot { current: true, flushed: Cached::Invalidated },
            color_write: Slot {
                current: ColorMask { red: true, green: true, blue: true, alpha: true },
                flushed: Cached::Invalidated,
            },
            program: Slot { current: nothing, flushed: Cached::Invalidated },
            viewport: Slot {
                current: Rect { x: 0, y: 0, width: 0, height: 0 },
                flushed: Cached::Invalidated,
            },
        };
        assert(state@.textures =~= initial_state().textures);
        state
    }

    /// Carries `change` through the shadow and returns the calls it takes:
    /// none if the device is known to hold the value already.
    pub(crate) fn apply(&mut self, change: StateChange) -> (calls: Vec<DeviceCall<'static>>)
        requires
            change.valid(),
        ensures
            final(self)@ == old(self)@.after(change),
            calls@ == old(self)@.emitted(change),
            final(self)@.wf(),
    {
        let fired = match change {
            StateChange::ArrayBuffer(v) => self.array_buffer.assign(v),
            StateChange::IndexBuffer(v) => self.index_buffer.assign(v),
            StateChange::Texture { unit, binding } => {
                let mut slot = self.textures[unit as usize];
                let fired = slot.assign(binding);
                self.textures[unit as usize] = slot;
                fired
            },
            StateChange::Blend(v) => self.blend.assign(v),
            StateChange::BlendFunc(v) => self.blend_func.assign(v),
            StateChange::ClearColor(v) => self.clear_color.assign(v),
            StateChange::DepthTest(v) => self.depth_test.assign(v),
            StateChange::DepthWrite(v) => self.depth_write.assign(v),
            StateChange::ColorWrite(v) => self.color_write.assign(v),
            StateChange::Program(v) => self.program.assign(v),
            StateChange::Viewport(v) => self.viewport.assign(v),
        };
        if fired {
            change_calls(change)
        } else {
            Vec::new()
        }
    }
}

/// Everything the mutators were last asked for, field by field, without
/// what is known of the device.
#[derive(Clone, Copy, Debug, PartialEq, Eq)]
pub struct StateValues {
    array_buffer: Option<NativeHandle>,
    index_buffer: Option<NativeHandle>,
    textures: [TextureBinding; 16],
    blend: bool,
    blend_func: BlendFunc,
    clear_color: ColorBits,
    depth_test: bool,
    depth_write: bool,
    color_write: ColorMask,
    program: Option<NativeHandle>,
    viewport: Rect,
}

/// The mathematical content of a [`StateValues`].
pub struct ValuesView {
    pub array_buffer: Option<NativeHandle>,
    pub index_buffer: Option<NativeHandle>,
    /// One binding per texture unit, unit zero first.
    pub textures: Seq<TextureBinding>,
    pub blend: bool,
    pub blend_func: BlendFunc,
    pub clear_color: ColorBits,
    pub depth_test: bool,
    pub depth_write: bool,
    pub color_write: ColorMask,
    pub program: Option<NativeHandle>,
    pub viewport: Rect,
}

impl View for StateValues {
    type V = ValuesView;

    closed spec fn view(&self) -> ValuesView {
        ValuesView {
            array_buffer: self.array_buffer,
            index_buffer: self.index_buffer,
            textures: self.textures@,
            blend: self.blend,
            blend_func: self.blend_func,
            clear_color: self.clear_color,
            depth_test: self.depth_test,
            depth_write: self.depth_write,
            color_write: self.color_write,
            program: self.program,
            viewport: self.viewport,
        }
    }
}

impl ValuesView {
    /// Every texture unit has its binding.
    pub open spec fn wf(self) -> bool {
        self.textures.len() == codes::TEXTURE_UNITS
    }
}

impl ContextState {
    /// A shadow has a slot for every texture unit.
    pub proof fn always_wf(self)
        ensures
            self@.wf(),
    {
    }
}

impl StateValues {
    /// Values taken from a shadow are values for every unit.
    pub proof fn always_wf(self)
        ensures
            self@.wf(),
    {
    }
}

impl StateView {
    /// What the mutators were last asked for.
    pub open spec fn asked(self) -> ValuesView {
        ValuesView {
            array_buffer: self.array_buffer.current,
            index_buffer: self.index_buffer.current,
            textures: Seq::new(self.textures.len(), |i: int| self.textures[i].current),
            blend: self.blend.current,
            blend_func: self.blend_func.current,
            clear_color: self.clear_color.current,
            depth_test: self.depth_test.current,
            depth_write: self.depth_write.current,
            color_write: self.color_write.current,
            program: self.program.current,
            viewport: self.viewport.current,
        }
    }

    /// The shadow when `values` are asked for and nothing has been told to
    /// the device yet: what is known of the device is as before.
    pub open spec fn asking(self, values: ValuesView) -> StateView {
        StateView {
            array_buffer: Slot { current: values.array_buffer, ..self.array_buffer },
            index_buffer: Slot { current: values.index_buffer, ..self.index_buffer },
            textures: Seq::new(
                self.textures.len(),
                |i: int| Slot { current: values.textures[i], ..self.textures[i] },
            ),
            blend: Slot { current: values.blend, ..self.blend },
            blend_func: Slot { current: values.blend_func, ..self.blend_func },
            clear_color: Slot { current: values.clear_color, ..self.clear_color },
            depth_test: Slot { current: values.depth_test, ..self.depth_test },
            depth_write: Slot { current: values.depth_write, ..self.depth_write },
            color_write: Slot { current: values.color_write, ..self.color_write },
            program: Slot { current: values.program, ..self.program },
            viewport: Slot { current: values.viewport, ..self.viewport },
        }
    }
}

impl ContextState {
    /// What the mutators were last asked for.
    pub fn asked(&self) -> (values: StateValues)
        ensures
            values@ == self@.asked(),
    {
        let mut textures = [self.textures[0].current;16];
        let mut unit: usize = 1;
        while unit < 16
            invariant
                1 <= unit <= 16,
                forall|i: int| 0 <= i < unit ==> textures@[i] == self.textures@[i].current,
            decreases 16 - unit,
        {
            textures[unit] = self.textures[unit].current;
            unit += 1;
        }
        let values = StateValues {
            array_buffer: self.array_buffer.current,
            index_buffer: self.index_buffer.current,
            textures,
            blend: self.blend.current,
            blend_func: self.blend_func.current,
            clear_color: self.clear_color.current,
            depth_test: self.depth_test.current,
            depth_write: self.depth_write.current,
            color_write: self.color_write.current,
            program: self.program.current,
            viewport: self.viewport.current,
        };
        assert(values@.textures =~= self@.asked().textures);
        values
    }

    /// Asks for `values` without telling the device.
    pub(crate) fn ask(&mut self, values: &StateValues)
        ensures
            final(self)@ == old(self)@.asking(values@),
    {
        self.array_buffer.current = values.array_buffer;
        self.index_buffer.current = values.index_buffer;
        self.blend.current = values.blend;
        self.blend_func.current = values.blend_func;
        self.clear_color.current = values.clear_color;
        self.depth_test.current = values.depth_test;
        self.depth_write.current = values.depth_write;
        self.color_write.current = values.color_write;
        self.program.current = values.program;
        self.viewport.current = values.viewport;
        let mut unit: usize = 0;
        while unit < 16
            invariant
                unit <= 16,
                forall|i: int|
                    0 <= i < unit ==> self.textures@[i] == (Slot {
                        current: values.textures@[i],
                        ..old(self).textures@[i]
                    }),
                forall|i: int| unit <= i < 16 ==> self.textures@[i] == old(self).textures@[i],
                self.array_buffer == (Slot {
                    current: values.array_buffer,
                    ..old(self).array_buffer
                }),
                self.index_buffer == (Slot {
                    current: values.index_buffer,
                    ..old(self).index_buffer
                }),
                self.blend == (Slot { current: values.blend, ..old(self).blend }),
                self.blend_func == (Slot { current: values.blend_func, ..old(self).blend_func }),
                self.clear_color == (Slot { current: values.clear_color, ..old(self).clear_color }),
                self.depth_test == (Slot { current: values.depth_test, ..old(self).depth_test }),
                self.depth_write == (Slot { current: values.depth_write, ..old(self).depth_write }),
                self.color_write == (Slot { current: values.color_write, ..old(self).color_write }),
                self.program == (Slot { current: values.program, ..old(self).program }),
                self.viewport == (Slot { current: values.viewport, ..old(self).viewport }),
            decreases 16 - unit,
        {
            let mut slot = self.textures[unit];
            slot.current = values.textures[unit];
            self.textures[unit] = slot;
            unit += 1;
        }
        assert(self@.textures =~= old(self)@.asking(values@).textures);
    }
}

/// Whether `part` stands somewhere in `whole`, unbroken and in order.
pub open spec fn occurs_in<'a>(part: Seq<DeviceCall<'a>>, whole: Seq<DeviceCall<'a>>) -> bool {
    exists|at: int|
        0 <= at && at + part.len() <= whole.len() && #[trigger] whole.subrange(
            at,
            at + part.len(),
        ) == part
}

impl StateView {
    /// The shadow once the array-buffer binding of the device is in doubt.
    pub open spec fn doubt_array_buffer(self) -> StateView {
        StateView { array_buffer: self.array_buffer.doubted(), ..self }
    }

    /// The shadow once the index-buffer binding of the device is in doubt.
    pub open spec fn doubt_index_buffer(self) -> StateView {
        StateView { index_buffer: self.index_buffer.doubted(), ..self }
    }

    /// The shadow once the binding of texture unit `unit` is in doubt.
    pub open spec fn doubt_texture_unit(self, unit: u32) -> StateView {
        StateView {
            textures: self.textures.update(unit as int, self.textures[unit as int].doubted()),
            ..self
        }
    }

    /// The shadow once the bindings of all texture units are in doubt.
    pub open spec fn doubt_textures(self) -> StateView {
        StateView {
            textures: Seq::new(self.textures.len(), |i: int| self.textures[i].doubted()),
            ..self
        }
    }

    /// The shadow once the device has taken `call` from anyone but a mutator.
    ///
    /// The known side follows the call; what was asked for stays. A texture
    /// bind lands on whichever unit is active, which the shadow does not
    /// follow, so it puts every unit in doubt. The index-buffer binding
    /// belongs to the vertex array that is bound, so binding a vertex array,
    /// or deleting one, which may be the one that is bound, puts the index
    /// buffer in doubt. Deleting a buffer or a texture empties the bindings
    /// that held it.
    pub open spec fn witnessed(self, call: DeviceCall) -> StateView {
        match call {
            DeviceCall::BindBuffer { target, buffer } => {
                if target == codes::ARRAY_BUFFER {
                    StateView { array_buffer: self.array_buffer.seen(buffer), ..self }
                } else if target == codes::ELEMENT_ARRAY_BUFFER {
                    StateView { index_buffer: self.index_buffer.seen(buffer), ..self }
                } else {
                    self
                }
            },
            DeviceCall::BindTexture { .. } => self.doubt_textures(),
            DeviceCall::BindVertexArray { .. } => self.doubt_index_buffer(),
            DeviceCall::DeleteVertexArray { .. } => self.doubt_index_buffer(),
            DeviceCall::DeleteBuffer { buffer } => StateView {
                array_buffer: self.array_buffer.without(Some(buffer), None),
                index_buffer: self.index_buffer.without(Some(buffer), None),
                ..self
            },
            DeviceCall::DeleteTexture { texture } => StateView {
                textures: Seq::new(
                    self.textures.len(),
                    |i: int| self.textures[i].without_texture(texture),
                ),
                ..self
            },
            DeviceCall::Enable { capability } => {
                if capability == codes::BLEND {
                    StateView { blend: self.blend.seen(true), ..self }
                } else if capability == codes::DEPTH_TEST {
                    StateView { depth_test: self.depth_test.seen(true), ..self }
                } else {
                    self
                }
            },
            DeviceCall::Disable { capability } => {
                if capability == codes::BLEND {
                    StateView { blend: self.blend.seen(false), ..self }
                } else if capability == codes::DEPTH_TEST {
                    StateView { depth_test: self.depth_test.seen(false), ..self }
                } else {
                    self
                }
            },
            DeviceCall::BlendFunc { src, dst } => StateView {
                blend_func: self.blend_func.seen(BlendFunc { src, dst }),
                ..self
            },
            DeviceCall::ClearColor { red, green, blue, alpha } => StateView {
                clear_color: self.clear_color.seen(ColorBits { red, green, blue, alpha }),
                ..self
            },
            DeviceCall::DepthMask { enabled } => StateView {
                depth_write: self.depth_write.seen(enabled),
                ..self
            },
            DeviceCall::ColorMask { red, green, blue, alpha } => StateView {
                color_write: self.color_write.seen(ColorMask { red, green, blue, alpha }),
                ..self
            },
            DeviceCall::UseProgram { program } => StateView {
                program: self.program.seen(program),
                ..self
            },
            DeviceCall::Viewport { x, y, width, height } => StateView {
                viewport: self.viewport.seen(Rect { x, y, width, height }),
                ..self
            },
            _ => self,
        }
    }

    /// The shadow once the device has taken `calls`, first to last.
    pub open spec fn witnessed_all(self, calls: Seq<DeviceCall>) -> StateView
        decreases calls.len(),
    {
        if calls.len() == 0 {
            self
        } else {
            self.witnessed_all(calls.drop_last()).witnessed(calls.last())
        }
    }

    /// The change that asks again for what texture unit `unit` was last
    /// asked to hold.
    pub open spec fn texture_restated(self, unit: u32) -> StateChange {
        StateChange::Texture { unit, binding: self.textures[unit as int].current }
    }

    /// The calls a flush fires for the texture units below `units`.
    pub open spec fn texture_flush_calls(self, units: u32) -> Seq<DeviceCall<'static>>
        decreases units,
    {
        if units == 0 {
            Seq::empty()
        } else {
            let unit = (units - 1) as u32;
            self.texture_flush_calls(unit) + self.emitted(self.texture_restated(unit))
        }
    }

    /// The calls a flush fires for the two buffer bindings.
    pub open spec fn buffer_flush_calls(self) -> Seq<DeviceCall<'static>> {
        self.emitted(StateChange::ArrayBuffer(self.array_buffer.current)) + self.emitted(
            StateChange::IndexBuffer(self.index_buffer.current),
        )
    }

    /// The calls a flush fires for the fields behind the texture units.
    pub open spec fn fixed_flush_calls(self) -> Seq<DeviceCall<'static>> {
        self.emitted(StateChange::Blend(self.blend.current)) + self.emitted(
            StateChange::BlendFunc(self.blend_func.current),
        ) + self.emitted(StateChange::ClearColor(self.clear_color.current)) + self.emitted(
            StateChange::DepthTest(self.depth_test.current),
        ) + self.emitted(StateChange::DepthWrite(self.depth_write.current)) + self.emitted(
            StateChange::ColorWrite(self.color_write.current),
        ) + self.emitted(StateChange::Program(self.program.current)) + self.emitted(
            StateChange::Viewport(self.viewport.current),
        )
    }

    /// The calls a flush fires: for each field in turn whose device value is
    /// not known to be the value asked for, the calls that make it so. The
    /// buffer bindings come first, then the texture units from unit zero up,
    /// then blending, blend function, clear colour, depth test, depth write,
    /// colour write, program and viewport.
    pub open spec fn flush_calls(self) -> Seq<DeviceCall<'static>> {
        self.buffer_flush_calls() + self.texture_flush_calls(codes::TEXTURE_UNITS)
            + self.fixed_flush_calls()
    }

    /// The shadow after a flush: every field known to hold what was asked
    /// for.
    pub open spec fn flushed(self) -> StateView {
        StateView {
            array_buffer: Slot::settled(self.array_buffer.current),
            index_buffer: Slot::settled(self.index_buffer.current),
            textures: Seq::new(
                self.textures.len(),
                |i: int| Slot::settled(self.textures[i].current),
            ),
            blend: Slot::settled(self.blend.current),
            blend_func: Slot::settled(self.blend_func.current),
            clear_color: Slot::settled(self.clear_color.current),
            depth_test: Slot::settled(self.depth_test.current),
            depth_write: Slot::settled(self.depth_write.current),
            color_write: Slot::settled(self.color_write.current),
            program: Slot::settled(self.program.current),
            viewport: Slot::settled(self.viewport.current),
        }
    }
}

impl ContextState {
    /// Puts the array-buffer binding in doubt.
    pub fn invalidate_array_buffer(&mut self)
        ensures
            final(self)@ == old(self)@.doubt_array_buffer(),
    {
        self.array_buffer.flushed = Cached::Invalidated;
    }

    /// Puts the index-buffer binding in doubt.
    pub fn invalidate_index_buffer(&mut self)
        ensures
            final(self)@ == old(self)@.doubt_index_buffer(),
    {
        self.index_buffer.flushed = Cached::Invalidated;
    }

    /// Puts the binding of texture unit `unit` in doubt.
    pub(crate) fn invalidate_texture_unit(&mut self, unit: u32)
        requires
            unit < codes::TEXTURE_UNITS,
        ensures
            final(self)@ == old(self)@.doubt_texture_unit(unit),
    {
        let mut slot = self.textures[unit as usize];
        slot.flushed = Cached::Invalidated;
        self.textures[unit as usize] = slot;
    }

    /// Puts the bindings of all texture units in doubt.
    pub fn invalidate_textures(&mut self)
        ensures
            final(self)@ == old(self)@.doubt_textures(),
    {
        let mut unit: usize = 0;
        while unit < 16
            invariant
                unit <= 16,
                self.textures@.len() == 16,
                forall|i: int| 0 <= i < unit ==> self.textures@[i] == old(self).textures@[i].doubted(),
                forall|i: int| unit <= i < 16 ==> self.textures@[i] == old(self).textures@[i],
                self.array_buffer == old(self).array_buffer,
                self.index_buffer == old(self).index_buffer,
                self.blend == old(self).blend,
                self.blend_func == old(self).blend_func,
                self.clear_color == old(self).clear_color,
                self.depth_test == old(self).depth_test,
                self.depth_write == old(self).depth_write,
                self.color_write == old(self).color_write,
                self.program == old(self).program,
                self.viewport == old(self).viewport,
            decreases 16 - unit,
        {
            let mut slot = self.textures[unit];
            slot.flushed = Cached::Invalidated;
            self.textures[unit] = slot;
            unit += 1;
        }
        assert(self@.textures =~= old(self)@.doubt_textures().textures);
    }

    /// Empties, in what is known of the texture units, every target that
    /// held `texture`.
    fn forget_texture(&mut self, texture: NativeHandle)
        ensures
            final(self)@ == (StateView {
                textures: Seq::new(
                    old(self)@.textures.len(),
                    |i: int| old(self)@.textures[i].without_texture(texture),
                ),
                ..old(self)@
            }),
    {
        let mut unit: usize = 0;
        while unit < 16
            invariant
                unit <= 16,
                self.textures@.len() == 16,
                forall|i: int|
                    0 <= i < unit ==> self.textures@[i] == old(self).textures@[i].without_texture(
                        texture,
                    ),
                forall|i: int| unit <= i < 16 ==> self.textures@[i] == old(self).textures@[i],
                self.array_buffer == old(self).array_buffer,
                self.index_buffer == old(self).index_buffer,
                self.blend == old(self).blend,
                self.blend_func == old(self).blend_func,
                self.clear_color == old(self).clear_color,
                self.depth_test == old(self).depth_test,
                self.depth_write == old(self).depth_write,
                self.color_write == old(self).color_write,
                self.program == old(self).program,
                self.viewport == old(self).viewport,
            decreases 16 - unit,
        {
            let mut slot = self.textures[unit];
            match slot.flushed {
                Cached::Known(binding) => {
                    if binding.texture.same(&Some(texture)) {
                        slot.flushed = Cached::Known(
                            TextureBinding { target: binding.target, texture: None },
                        );
                    }
                },
                Cached::Invalidated => {},
            }
            self.textures[unit] = slot;
            unit += 1;
        }
        assert(self@.textures =~= Seq::new(
            old(self)@.textures.len(),
            |i: int| old(self)@.textures[i].without_texture(texture),
        ));
    }

    /// Follows one call that the device takes from anyone but a mutator.
    pub fn witness(&mut self, call: &DeviceCall)
        ensures
            final(self)@ == old(self)@.witnessed(*call),
    {
        match *call {
            DeviceCall::BindBuffer { target, buffer } => {
                if target == codes::ARRAY_BUFFER {
                    self.array_buffer.flushed = Cached::Known(buffer);
                } else if target == codes::ELEMENT_ARRAY_BUFFER {
                    self.index_buffer.flushed = Cached::Known(buffer);
                }
            },
            DeviceCall::BindTexture { .. } => {
                self.invalidate_textures();
            },
            DeviceCall::BindVertexArray { .. } => {
                self.invalidate_index_buffer();
            },
            DeviceCall::DeleteVertexArray { .. } => {
                self.invalidate_index_buffer();
            },
            DeviceCall::DeleteBuffer { buffer } => {
                if self.array_buffer.flushed.is_known(&Some(buffer)) {
                    self.array_buffer.flushed = Cached::Known(None);
                }
                if self.index_buffer.flushed.is_known(&Some(buffer)) {
                    self.index_buffer.flushed = Cached::Known(None);
                }
            },
            DeviceCall::DeleteTexture { texture } => {
                self.forget_texture(texture);
            },
            DeviceCall::Enable { capability } => {
                if capability == codes::BLEND {
                    self.blend.flushed = Cached::Known(true);
                } else if capability == codes::DEPTH_TEST {
                    self.depth_test.flushed = Cached::Known(true);
                }
            },
            DeviceCall::Disable { capability } => {
                if capability == codes::BLEND {
                    self.blend.flushed = Cached::Known(false);
                } else if capability == codes::DEPTH_TEST {
                    self.depth_test.flushed = Cached::Known(false);
                }
            },
            DeviceCall::BlendFunc { src, dst } => {
                self.blend_func.flushed = Cached::Known(BlendFunc { src, dst });
            },
            DeviceCall::ClearColor { red, green, blue, alpha } => {
                self.clear_color.flushed = Cached::Known(ColorBits { red, green, blue, alpha });
            },
            DeviceCall::DepthMask { enabled } => {
                self.depth_write.flushed = Cached::Known(enabled);
            },
            DeviceCall::ColorMask { red, green, blue, alpha } => {
                self.color_write.flushed = Cached::Known(ColorMask { red, green, blue, alpha });
            },
            DeviceCall::UseProgram { program } => {
                self.program.flushed = Cached::Known(program);
            },
            DeviceCall::Viewport { x, y, width, height } => {
                self.viewport.flushed = Cached::Known(Rect { x, y, width, height });
            },
            _ => {},
        }
    }

    /// Follows `calls`, first to last.
    pub fn witness_all(&mut self, calls: &Vec<DeviceCall>)
        ensures
            final(self)@ == old(self)@.witnessed_all(calls@),
    {
        let mut i: usize = 0;
        while i < calls.len()
            invariant
                i <= calls.len(),
                self@ == old(self)@.witnessed_all(calls@.subrange(0, i as int)),
            decreases calls.len() - i,
        {
            assert(calls@.subrange(0, i + 1).drop_last() == calls@.subrange(0, i as int));
            self.witness(&calls[i]);
            i += 1;
        }
        assert(calls@.subrange(0, calls@.len() as int) == calls@);
    }

    /// Flushes the two buffer bindings.
    fn flush_buffers(&mut self) -> (calls: Vec<DeviceCall<'static>>)
        ensures
            calls@ == old(self)@.buffer_flush_calls(),
            final(self)@ == (StateView {
                array_buffer: Slot::settled(old(self)@.array_buffer.current),
                index_buffer: Slot::settled(old(self)@.index_buffer.current),
                ..old(self)@
            }),
    {
        let mut calls = self.apply(StateChange::ArrayBuffer(self.array_buffer.current));
        let more = self.apply(StateChange::IndexBuffer(self.index_buffer.current));
        crate::device::extend_calls(&mut calls, more);
        calls
    }

    /// Flushes the texture units, unit zero first.
    fn flush_textures(&mut self) -> (calls: Vec<DeviceCall<'static>>)
        ensures
            calls@ == old(self)@.texture_flush_calls(codes::TEXTURE_UNITS),
            final(self)@ == (StateView {
                textures: old(self)@.flushed().textures,
                ..old(self)@
            }),
    {
        let ghost before = self@;
        let mut calls: Vec<DeviceCall<'static>> = Vec::new();
        let mut unit: u32 = 0;
        while unit < 16
            invariant
                unit <= 16,
                before.wf(),
                calls@ == before.texture_flush_calls(unit),
                self@.textures.len() == 16,
                forall|i: int|
                    0 <= i < unit ==> self@.textures[i] == Slot::settled(
                        before.textures[i].current,
                    ),
                forall|i: int| unit <= i < 16 ==> self@.textures[i] == before.textures[i],
                self@ == (StateView { textures: self@.textures, ..before }),
            decreases 16 - unit,
        {
            let binding = self.textures[unit as usize].current;
            let more = self.apply(StateChange::Texture { unit, binding });
            crate::device::extend_calls(&mut calls, more);
            unit += 1;
        }
        assert(self@.textures =~= before.flushed().textures);
        calls
    }

    /// Flushes the fields behind the texture units.
    fn flush_fixed(&mut self) -> (calls: Vec<DeviceCall<'static>>)
        ensures
            calls@ == old(self)@.fixed_flush_calls(),
            final(self)@ == (StateView {
                array_buffer: old(self)@.array_buffer,
                index_buffer: old(self)@.index_buffer,
                textures: old(self)@.textures,
                ..old(self)@.flushed()
            }),
    {
        let mut calls = self.apply(StateChange::Blend(self.blend.current));
        let more = self.apply(StateChange::BlendFunc(self.blend_func.current));
        crate::device::extend_calls(&mut calls, more);
        let more = self.apply(StateChange::ClearColor(self.clear_color.current));
        crate::device::extend_calls(&mut calls, more);
        let more = self.apply(StateChange::DepthTest(self.depth_test.current));
        crate::device::extend_calls(&mut calls, more);
        let more = self.apply(StateChange::DepthWrite(self.depth_write.current));
        crate::device::extend_calls(&mut calls, more);
        let more = self.apply(StateChange::ColorWrite(self.color_write.current));
        crate::device::extend_calls(&mut calls, more);
        let more = self.apply(StateChange::Program(self.program.current));
        crate::device::extend_calls(&mut calls, more);
        let more = self.apply(StateChange::Viewport(self.viewport.current));
        crate::device::extend_calls(&mut calls, more);
        calls
    }

    /// Brings the device to what was asked for: fires, field by field, the
    /// calls for every field not known to hold its value.
    pub fn flush(&mut self) -> (calls: Vec<DeviceCall<'static>>)
        ensures
            calls@ == old(self)@.flush_calls(),
            final(self)@ == old(self)@.flushed(),
    {
        let mut calls = self.flush_buffers();
        proof {
            texture_flush_reads_textures_only(old(self)@, self@, codes::TEXTURE_UNITS);
        }
        let more = self.flush_textures();
        crate::device::extend_calls(&mut calls, more);
        let more = self.flush_fixed();
        crate::device::extend_calls(&mut calls, more);
        calls
    }
}

impl StateView {
    /// The shadow after the same change has gone through a mutator `times`
    /// times in a row.
    pub open spec fn after_repeated(self, change: StateChange, times: nat) -> StateView
        decreases times,
    {
        if times == 0 {
            self
        } else {
            self.after_repeated(change, (times - 1) as nat).after(change)
        }
    }

    /// All the calls fired when the same change goes through a mutator
    /// `times` times in a row.
    pub open spec fn emitted_repeated(self, change: StateChange, times: nat) -> Seq<
        DeviceCall<'static>,
    >
        decreases times,
    {
        if times == 0 {
            Seq::empty()
        } else {
            self.emitted_repeated(change, (times - 1) as nat) + self.after_repeated(
                change,
                (times - 1) as nat,
            ).emitted(change)
        }
    }
}

/// Asking twice for the same value costs the device nothing the second
/// time: once a change has gone through, going through again fires nothing
/// and leaves the shadow as it is.
pub proof fn repeated_change_fires_nothing(state: StateView, change: StateChange)
    requires
        state.wf(),
        change.valid(),
    ensures
        state.after(change).emitted(change) == Seq::<DeviceCall<'static>>::empty(),
        state.after(change).after(change) == state.after(change),
{
    let once = state.after(change);
    assert(once.after(change).textures =~= once.textures);
}

/// However often the same value is asked for in a row, the device is told
/// at most once: all the calls fired are those of the first request, which
/// are none if the device was known to hold the value and the calls of the
/// change otherwise.
pub proof fn repetition_fires_at_most_once(state: StateView, change: StateChange, times: nat)
    requires
        state.wf(),
        change.valid(),
        times > 0,
    ensures
        state.emitted_repeated(change, times) == state.emitted(change),
        state.after_repeated(change, times) == state.after(change),
    decreases times,
{
    if times == 1 {
        assert(state.emitted_repeated(change, 0) == Seq::<DeviceCall<'static>>::empty());
    } else {
        repetition_fires_at_most_once(state, change, (times - 1) as nat);
        repeated_change_fires_nothing(state, change);
    }
}

/// The flush calls for the texture units depend on the texture slots alone.
pub proof fn texture_flush_reads_textures_only(a: StateView, b: StateView, units: u32)
    requires
        a.textures == b.textures,
    ensures
        a.texture_flush_calls(units) == b.texture_flush_calls(units),
    decreases units,
{
    if units > 0 {
        texture_flush_reads_textures_only(a, b, (units - 1) as u32);
    }
}

/// What stands in a part of a sequence stands in the whole.
proof fn occurs_in_middle<'a>(
    part: Seq<DeviceCall<'a>>,
    before: Seq<DeviceCall<'a>>,
    inner: Seq<DeviceCall<'a>>,
    behind: Seq<DeviceCall<'a>>,
)
    requires
        occurs_in(part, inner),
    ensures
        occurs_in(part, before + inner + behind),
{
    let at = choose|at: int|
        0 <= at && at + part.len() <= inner.len() && #[trigger] inner.subrange(
            at,
            at + part.len(),
        ) == part;
    let whole = before + inner + behind;
    let shifted = before.len() + at;
    assert(whole.subrange(shifted, shifted + part.len()) =~= part);
}

/// A sequence stands in itself.
proof fn occurs_in_itself<'a>(part: Seq<DeviceCall<'a>>)
    ensures
        occurs_in(part, part),
{
    let at: int = 0;
    assert(part.subrange(at, at + part.len()) =~= part);
}

/// The flush calls for the units below `units` hold the calls of every one
/// of those units.
proof fn texture_flush_holds_unit(state: StateView, units: u32, unit: u32)
    requires
        unit < units,
    ensures
        occurs_in(state.emitted(state.texture_restated(unit)), state.texture_flush_calls(units)),
    decreases units,
{
    let part = state.emitted(state.texture_restated(unit));
    let last = (units - 1) as u32;
    let lower = state.texture_flush_calls(last);
    let top = state.emitted(state.texture_restated(last));
    let none = Seq::<DeviceCall<'static>>::empty();
    if unit == last {
        occurs_in_itself(part);
        occurs_in_middle(part, lower, top, none);
    } else {
        texture_flush_holds_unit(state, last, unit);
        occurs_in_middle(part, none, lower, top);
    }
}

/// After the array-buffer binding has been put in doubt, the next flush
/// binds the buffer last asked for again, even though that is the buffer the
/// shadow held before.
pub proof fn flush_rebinds_doubted_array_buffer(state: StateView)
    requires
        state.wf(),
    ensures
        occurs_in(
            StateChange::ArrayBuffer(state.array_buffer.current).calls(),
            state.doubt_array_buffer().flush_calls(),
        ),
        state.doubt_array_buffer().flushed().array_buffer == Slot::settled(
            state.array_buffer.current,
        ),
{
    let doubted = state.doubt_array_buffer();
    let part = StateChange::ArrayBuffer(state.array_buffer.current).calls();
    let whole = doubted.flush_calls();
    let at: int = 0;
    assert(doubted.buffer_flush_calls().subrange(at, at + part.len()) =~= part);
    occurs_in_middle(
        part,
        Seq::empty(),
        doubted.buffer_flush_calls(),
        doubted.texture_flush_calls(codes::TEXTURE_UNITS) + doubted.fixed_flush_calls(),
    );
    assert(Seq::<DeviceCall<'static>>::empty() + doubted.buffer_flush_calls() + (
    doubted.texture_flush_calls(codes::TEXTURE_UNITS) + doubted.fixed_flush_calls()) =~= whole);
}

/// After the index-buffer binding has been put in doubt, the next flush
/// binds the buffer last asked for again.
pub proof fn flush_rebinds_doubted_index_buffer(state: StateView)
    requires
        state.wf(),
    ensures
        occurs_in(
            StateChange::IndexBuffer(state.index_buffer.current).calls(),
            state.doubt_index_buffer().flush_calls(),
        ),
        state.doubt_index_buffer().flushed().index_buffer == Slot::settled(
            state.index_buffer.current,
        ),
{
    let doubted = state.doubt_index_buffer();
    let part = StateChange::IndexBuffer(state.index_buffer.current).calls();
    let whole = doubted.flush_calls();
    let at = doubted.emitted(StateChange::ArrayBuffer(doubted.array_buffer.current)).len() as int;
    assert(doubted.buffer_flush_calls().subrange(at, at + part.len()) =~= part);
    occurs_in_middle(
        part,
        Seq::empty(),
        doubted.buffer_flush_calls(),
        doubted.texture_flush_calls(codes::TEXTURE_UNITS) + doubted.fixed_flush_calls(),
    );
    assert(Seq::<DeviceCall<'static>>::empty() + doubted.buffer_flush_calls() + (
    doubted.texture_flush_calls(codes::TEXTURE_UNITS) + doubted.fixed_flush_calls()) =~= whole);
}

/// After the binding of a texture unit has been put in doubt, the next flush
/// selects that unit and binds to it again what was last asked for.
pub proof fn flush_rebinds_doubted_texture_unit(state: StateView, unit: u32)
    requires
        state.wf(),
        unit < codes::TEXTURE_UNITS,
    ensures
        occurs_in(
            state.texture_restated(unit).calls(),
            state.doubt_texture_unit(unit).flush_calls(),
        ),
        state.doubt_texture_unit(unit).flushed().textures[unit as int] == Slot::settled(
            state.textures[unit as int].current,
        ),
{
    let doubted = state.doubt_texture_unit(unit);
    let part = state.texture_restated(unit).calls();
    texture_flush_holds_unit(doubted, codes::TEXTURE_UNITS, unit);
    occurs_in_middle(
        part,
        doubted.buffer_flush_calls(),
        doubted.texture_flush_calls(codes::TEXTURE_UNITS),
        doubted.fixed_flush_calls(),
    );
}

/// A flush right after a flush fires nothing.
pub proof fn second_flush_fires_nothing(state: StateView)
    requires
        state.wf(),
    ensures
        state.flushed().flush_calls() == Seq::<DeviceCall<'static>>::empty(),
        state.flushed().flushed() == state.flushed(),
{
    let settled = state.flushed();
    texture_flush_is_empty_when_settled(settled, codes::TEXTURE_UNITS);
    assert(settled.flushed().textures =~= settled.textures);
}

/// Texture units that hold what was asked for take no calls to flush.
pub proof fn texture_flush_is_empty_when_settled(state: StateView, units: u32)
    requires
        units <= state.textures.len(),
        forall|i: int| 0 <= i < units ==> state.textures[i].holds(state.textures[i].current),
    ensures
        state.texture_flush_calls(units) == Seq::<DeviceCall<'static>>::empty(),
    decreases units,
{
    if units > 0 {
        texture_flush_is_empty_when_settled(state, (units - 1) as u32);
    }
}

} // verus!
