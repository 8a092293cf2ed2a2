//! What a pipeline scope does to the vertex attributes of the device.
//!
//! A scope opens by binding the shared vertex array, enables attributes of
//! the pipeline while it is open, and disables every attribute of the
//! pipeline when it closes. The theorems here say that this is enough: no
//! attribute a pipeline enabled is still enabled when the next pipeline
//! draws.

use vstd::prelude::*;
use crate::buffer::BufferType;
use crate::buffer::DataType;
use crate::ctx::{arrays_outcome, attribute_calls, elements_outcome, uniform_outcome, DrawMode};
use crate::device::{calls_of, DeviceCall, UniformLookup, UniformValue};
use crate::handle::NativeHandle;
use crate::model::{run_in_parts, run_two, DeviceState};
use crate::pipeline::{disable_below, PipelineView};

verus! {

/// Whether `call` may be issued inside a scope of a pipeline with
/// `attributes` attributes: it binds and deletes no vertex array, and it
/// enables no attribute index that is not the pipeline's.
pub open spec fn allowed_in_scope(call: DeviceCall, attributes: nat) -> bool {
    match call {
        DeviceCall::BindVertexArray { .. } => false,
        DeviceCall::DeleteVertexArray { .. } => false,
        DeviceCall::EnableVertexAttribArray { index } => index < attributes,
        _ => true,
    }
}

/// Whether every call of `calls` may be issued inside a scope of a pipeline
/// with `attributes` attributes.
pub open spec fn stays_in_scope(calls: Seq<DeviceCall>, attributes: nat) -> bool {
    forall|k: int| 0 <= k < calls.len() ==> allowed_in_scope(#[trigger] calls[k], attributes)
}

/// Whether `call` leaves the vertex array binding and the enabled
/// attributes alone.
pub open spec fn leaves_attributes(call: DeviceCall) -> bool {
    match call {
        DeviceCall::BindVertexArray { .. } => false,
        DeviceCall::DeleteVertexArray { .. } => false,
        DeviceCall::EnableVertexAttribArray { .. } => false,
        DeviceCall::DisableVertexAttribArray { .. } => false,
        _ => true,
    }
}

/// Calls that leave the attributes alone leave them alone.
pub proof fn run_leaves_attributes(device: DeviceState, calls: Seq<DeviceCall>)
    requires
        forall|k: int| 0 <= k < calls.len() ==> leaves_attributes(#[trigger] calls[k]),
    ensures
        device.run(calls).vertex_array == device.vertex_array,
        device.run(calls).enabled_of == device.enabled_of,
    decreases calls.len(),
{
    if calls.len() > 0 {
        run_leaves_attributes(device, calls.drop_last());
    }
}

/// Inside a scope the shared vertex array stays bound, and whatever is
/// enabled on it was enabled before or is an attribute of the pipeline.
pub proof fn run_in_scope(device: DeviceState, calls: Seq<DeviceCall>, attributes: nat)
    requires
        stays_in_scope(calls, attributes),
    ensures
        device.run(calls).vertex_array == device.vertex_array,
        forall|i: u32|
            device.run(calls).enabled().contains(i) ==> device.enabled().contains(i) || i
                < attributes,
    decreases calls.len(),
{
    if calls.len() > 0 {
        run_in_scope(device, calls.drop_last(), attributes);
    }
}

/// Disabling the attributes below `count` leaves enabled exactly what was
/// enabled at or above `count`.
pub proof fn run_disables_below(device: DeviceState, count: nat)
    requires
        count <= u32::MAX,
    ensures
        device.run(disable_below(count)).vertex_array == device.vertex_array,
        forall|i: u32|
            device.run(disable_below(count)).enabled().contains(i) <==> (device.enabled().contains(
                i,
            ) && i >= count),
    decreases count,
{
    if count > 0 {
        let below = (count - 1) as nat;
        run_disables_below(device, below);
        assert(disable_below(count).drop_last() =~= disable_below(below));
    }
}

/// Calls that stay in a scope, followed by calls that stay in it, stay in
/// it.
pub proof fn stays_in_scope_together(
    first: Seq<DeviceCall>,
    second: Seq<DeviceCall>,
    attributes: nat,
)
    requires
        stays_in_scope(first, attributes),
        stays_in_scope(second, attributes),
    ensures
        stays_in_scope(first + second, attributes),
{
}

/// Setting a uniform, setting the scissor rectangle and drawing stay in any
/// scope, whatever comes of them.
pub proof fn uniforms_and_draws_stay_in_scope(
    attributes: nat,
    program: NativeHandle,
    lookup: UniformLookup,
    value: UniformValue,
    mode: DrawMode,
    first: i32,
    count: i32,
    elements: u32,
    ty: DataType,
    offset: i32,
    instances: Option<u32>,
    scissor: (i32, i32, i32, i32),
)
    ensures
        stays_in_scope(calls_of(uniform_outcome(program, lookup, value)), attributes),
        stays_in_scope(calls_of(arrays_outcome(mode, first, count, instances)), attributes),
        stays_in_scope(calls_of(elements_outcome(mode, elements, ty, offset, instances)), attributes),
        stays_in_scope(
            seq![
                DeviceCall::Scissor {
                    x: scissor.0,
                    y: scissor.1,
                    width: scissor.2,
                    height: scissor.3,
                },
            ],
            attributes,
        ),
{
}

impl PipelineView {
    /// Opening a scope binds the shared vertex array and touches no
    /// attribute.
    pub proof fn enter_binds_vertex_array(self, device: DeviceState, vertex_array: NativeHandle)
        ensures
            device.run(self.enter_calls(vertex_array)).vertex_array == Some(vertex_array),
            device.run(self.enter_calls(vertex_array)).enabled_of == device.enabled_of,
    {
        let blend = self.blend_calls();
        let fixed = self.fixed_calls(vertex_array);
        let stencil = self.stencil_calls();
        let head = fixed.subrange(0, 4);
        let bind = seq![fixed[4]];
        let tail = fixed.subrange(5, 6);
        assert(fixed =~= head + bind + tail);
        run_in_parts(device, blend, fixed);
        run_in_parts(device, blend + fixed, stencil);
        let d1 = device.run(blend);
        run_leaves_attributes(device, blend);
        run_in_parts(d1, head, bind);
        run_in_parts(d1, head + bind, tail);
        run_leaves_attributes(d1, head);
        let d2 = d1.run(head);
        crate::model::run_one(d2, fixed[4]);
        let d3 = d2.run(bind);
        run_leaves_attributes(d3, tail);
        let d4 = d3.run(tail);
        run_leaves_attributes(d4, stencil);
    }

    /// The calls that bind vertex data stay in the scope: they enable none
    /// but the pipeline's own attributes, and bind no vertex array.
    pub proof fn vertex_calls_stay_in_scope(self, upto: int, names: Seq<NativeHandle>)
        requires
            self.wf(),
            upto <= self.vertex_attributes.len(),
        ensures
            stays_in_scope(self.vertex_calls(upto, names), self.vertex_attributes.len()),
        decreases upto,
    {
        if upto > 0 {
            self.vertex_calls_stay_in_scope(upto - 1, names);
        }
    }

    /// Once the attributes below `upto` have been bound, each of them is
    /// enabled on the bound vertex array and steps as its descriptor says:
    /// once a vertex if its divisor is zero, once in so many instances
    /// otherwise. Whatever divisor an index had before is gone.
    pub proof fn vertex_calls_set_divisors(
        self,
        device: DeviceState,
        upto: int,
        names: Seq<NativeHandle>,
    )
        requires
            self.wf(),
            upto <= self.vertex_attributes.len(),
        ensures
            device.run(self.vertex_calls(upto, names)).vertex_array == device.vertex_array,
            forall|i: int|
                0 <= i < upto ==> {
                    &&& device.run(self.vertex_calls(upto, names)).enabled().contains(i as u32)
                    &&& device.run(self.vertex_calls(upto, names)).divisor(i as u32) == (
                    #[trigger] self.vertex_attributes[i]).divisor
                },
        decreases upto,
    {
        if upto > 0 {
            self.vertex_calls_set_divisors(device, upto - 1, names);
            let attribute = self.vertex_attributes[upto - 1];
            let front = self.vertex_calls(upto - 1, names);
            let last = attribute_calls(attribute, upto - 1, names[attribute.buffer_index as int]);
            let before = device.run(front);
            run_in_parts(device, front, last);
            run_in_parts(before, seq![last[0], last[1]], seq![last[2], last[3]]);
            assert(last =~= seq![last[0], last[1]] + seq![last[2], last[3]]);
            run_two(before, last[0], last[1]);
            run_two(before.step(last[0]).step(last[1]), last[2], last[3]);
            let after = device.run(self.vertex_calls(upto, names));
            assert(after == before.step(last[0]).step(last[1]).step(last[2]).step(last[3]));
            assert forall|i: int| 0 <= i < upto implies {
                &&& after.enabled().contains(i as u32)
                &&& after.divisor(i as u32) == (#[trigger] self.vertex_attributes[i]).divisor
            } by {
                if i < upto - 1 {
                    assert(before.enabled().contains(i as u32));
                    assert(before.divisor(i as u32) == self.vertex_attributes[i].divisor);
                }
            }
        }
    }

    /// After vertex and index data have been bound, every attribute of the
    /// pipeline is enabled on the bound vertex array and has the divisor of
    /// its descriptor.
    pub proof fn bindings_set_every_divisor(
        self,
        device: DeviceState,
        names: Seq<NativeHandle>,
        types: Seq<Option<BufferType>>,
        index: Option<(NativeHandle, Option<BufferType>)>,
    )
        requires
            self.wf(),
            self.bindings_outcome(names, types, index) is Ok,
        ensures
            forall|i: int|
                0 <= i < self.vertex_attributes.len() ==> {
                    let after = device.run(calls_of(self.bindings_outcome(names, types, index)));
                    &&& after.enabled().contains(i as u32)
                    &&& after.divisor(i as u32) == (#[trigger] self.vertex_attributes[i]).divisor
                },
    {
        let count = self.vertex_attributes.len() as int;
        let front = self.vertex_calls(count, names);
        self.vertex_calls_set_divisors(device, count, names);
        match index {
            Some((name, _)) => {
                let bind = DeviceCall::BindBuffer {
                    target: crate::codes::ELEMENT_ARRAY_BUFFER,
                    buffer: Some(name),
                };
                run_in_parts(device, front, seq![bind]);
                crate::model::run_one(device.run(front), bind);
            },
            None => {},
        }
    }

    /// Whatever comes of binding vertex and index data, the calls stay in
    /// the scope.
    pub proof fn bindings_stay_in_scope(
        self,
        names: Seq<NativeHandle>,
        types: Seq<Option<BufferType>>,
        index: Option<(NativeHandle, Option<BufferType>)>,
    )
        requires
            self.wf(),
        ensures
            stays_in_scope(
                calls_of(self.bindings_outcome(names, types, index)),
                self.vertex_attributes.len(),
            ),
    {
        self.vertex_calls_stay_in_scope(self.vertex_attributes.len() as int, names);
    }

    /// When a scope has closed, none of the pipeline's attributes is
    /// enabled on the shared vertex array, and nothing is enabled there that
    /// was not enabled before the scope opened: whatever happened in the
    /// scope, as long as it stayed in the scope.
    pub proof fn scope_leaves_attributes_disabled(
        self,
        device: DeviceState,
        vertex_array: NativeHandle,
        body: Seq<DeviceCall>,
    )
        requires
            self.wf(),
            stays_in_scope(body, self.vertex_attributes.len()),
        ensures
            ({
                let after = device.run(self.enter_calls(vertex_array) + body + self.exit_calls());
                &&& after.vertex_array == Some(vertex_array)
                &&& forall|i: u32|
                    after.enabled().contains(i) ==> i >= self.vertex_attributes.len() && (
                    device.enabled_of)(Some(vertex_array)).contains(i)
            }),
    {
        let enter = self.enter_calls(vertex_array);
        let exit = self.exit_calls();
        self.enter_binds_vertex_array(device, vertex_array);
        let d1 = device.run(enter);
        run_in_scope(d1, body, self.vertex_attributes.len());
        let d2 = d1.run(body);
        run_disables_below(d2, self.vertex_attributes.len());
        let d3 = d2.run(exit);
        run_in_parts(device, enter, body);
        run_in_parts(device, enter + body, exit);
        assert forall|i: u32| d3.enabled().contains(i) implies i >= self.vertex_attributes.len()
            && (device.enabled_of)(Some(vertex_array)).contains(i) by {
            assert(d2.enabled().contains(i));
        }
    }

    /// A pipeline applied after another sees only its own attributes
    /// enabled, however many the one before had: if nothing was enabled on
    /// the shared vertex array to begin with, then while the second scope is
    /// open every enabled attribute is one of the second pipeline's.
    pub proof fn next_scope_sees_only_its_own_attributes(
        self,
        next: PipelineView,
        device: DeviceState,
        vertex_array: NativeHandle,
        body: Seq<DeviceCall>,
        next_body: Seq<DeviceCall>,
    )
        requires
            self.wf(),
            next.wf(),
            stays_in_scope(body, self.vertex_attributes.len()),
            stays_in_scope(next_body, next.vertex_attributes.len()),
            (device.enabled_of)(Some(vertex_array)) == Set::<u32>::empty(),
        ensures
            ({
                let during = device.run(
                    self.enter_calls(vertex_array) + body + self.exit_calls() + next.enter_calls(
                        vertex_array,
                    ) + next_body,
                );
                forall|i: u32| during.enabled().contains(i) ==> i < next.vertex_attributes.len()
            }),
    {
        let first = self.enter_calls(vertex_array) + body + self.exit_calls();
        self.scope_leaves_attributes_disabled(device, vertex_array, body);
        let d1 = device.run(first);
        next.enter_binds_vertex_array(d1, vertex_array);
        let d2 = d1.run(next.enter_calls(vertex_array));
        run_in_scope(d2, next_body, next.vertex_attributes.len());
        let d3 = d2.run(next_body);
        run_in_parts(device, first, next.enter_calls(vertex_array));
        run_in_parts(device, first + next.enter_calls(vertex_array), next_body);
        assert(d2.enabled() == d1.enabled());
        assert forall|i: u32| d3.enabled().contains(i) implies i
            < next.vertex_attributes.len() by {
            assert(d2.enabled().contains(i) || i < next.vertex_attributes.len());
        }
    }
}

} // verus!
