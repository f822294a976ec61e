//! The modeled device: the capability tiers resolved at context
//! initialization, the tracked binding state used to skip redundant calls,
//! and the log of driver commands the core decides to issue. An embedder
//! replays the log against the real driver.

use vstd::prelude::*;

verus! {

/// The capability tier providing binding-object (vertex array) support.
/// Exactly one is resolved when the context is initialized; a device with
/// none cannot construct binding sets.
#[derive(Clone, Copy, PartialEq, Eq, Structural, Debug)]
pub enum BindingTier {
    /// Core support, or the equivalent ARB extension.
    Core,
    /// The OES extension.
    Oes,
    /// The APPLE extension.
    Apple,
}

/// The capability tier providing buffer-binding support.
#[derive(Clone, Copy, PartialEq, Eq, Structural, Debug)]
pub enum BufferTier {
    /// Core support.
    Core,
    /// The ARB extension.
    Arb,
}

/// One driver call the core decided to issue. Identifiers are the model's
/// own handles; an embedder maps them to driver handles while replaying.
#[derive(Clone, Copy, PartialEq, Eq, Structural, Debug)]
pub enum DeviceCommand {
    /// Allocate a new binding object under the given handle.
    GenVertexArray { vao: u32 },
    /// Make the given binding object current; zero unbinds.
    BindVertexArray { vao: u32 },
    /// Release the given binding object.
    DeleteVertexArray { vao: u32 },
    /// Bind the index buffer into the current binding object's state.
    BindElementArrayBuffer { buffer: u32 },
    /// Make the given buffer the active vertex data source.
    BindArrayBuffer { buffer: u32 },
    /// Integer-form attribute pointer call.
    VertexAttribIPointer { location: u32, components: u32, data_type: u32, stride: usize, offset: usize },
    /// Double-precision-form attribute pointer call.
    VertexAttribLPointer { location: u32, components: u32, data_type: u32, stride: usize, offset: usize },
    /// Ordinary (floating-point) attribute pointer call.
    VertexAttribPointer { location: u32, components: u32, data_type: u32, stride: usize, offset: usize },
    /// Set the instance step rate of an attribute slot.
    VertexAttribDivisor { location: u32, divisor: u32 },
    /// Enable an attribute slot.
    EnableVertexAttribArray { location: u32 },
}

/// The device state the core reads and drives. `vertex_array` and
/// `array_buffer` mirror what the driver currently has bound (zero meaning
/// none), `next_id` hands out fresh binding-object handles, and `commands`
/// records every call issued so far.
pub struct Device {
    pub tier: Option<BindingTier>,
    pub buffer_tier: Option<BufferTier>,
    pub vertex_array: u32,
    pub array_buffer: u32,
    pub next_id: u32,
    pub commands: Vec<DeviceCommand>,
}

impl Device {
    /// Handles start at one, so that zero always means "nothing bound".
    pub open spec fn wf(self) -> bool {
        self.next_id >= 1
    }

    /// A fresh handle can still be allocated.
    pub open spec fn can_allocate(self) -> bool {
        self.next_id < u32::MAX
    }

    /// A device with the given resolved capability tiers, nothing bound and
    /// an empty command log.
    pub fn new(tier: Option<BindingTier>, buffer_tier: Option<BufferTier>) -> (r: Device)
        ensures
            r.wf(),
            r.can_allocate(),
            r.tier == tier,
            r.buffer_tier == buffer_tier,
            r.vertex_array == 0,
            r.array_buffer == 0,
            r.next_id == 1,
            r.commands@ == Seq::<DeviceCommand>::empty(),
    {
        Device { tier, buffer_tier, vertex_array: 0, array_buffer: 0, next_id: 1, commands: Vec::new() }
    }
}

/// The calls a binding-object activation appends: one bind when the object
/// is not already current, none otherwise.
pub open spec fn spec_bind_vao_commands(vertex_array: u32, vao_id: u32) -> Seq<DeviceCommand> {
    if vertex_array == vao_id {
        Seq::empty()
    } else {
        seq![DeviceCommand::BindVertexArray { vao: vao_id }]
    }
}

/// Makes the given binding object the current one (zero unbinds), issuing a
/// driver call only when the device does not already have it bound. Fails
/// when a call is needed but no binding-object tier is available.
pub fn bind_vao(device: &mut Device, vao_id: u32) -> (r: Result<(), crate::BindingError>)
    ensures
        old(device).vertex_array == vao_id ==> r is Ok && *final(device) == *old(device),
        old(device).vertex_array != vao_id && old(device).tier is Some ==> {
            &&& r is Ok
            &&& final(device).commands@ == old(device).commands@ + spec_bind_vao_commands(old(device).vertex_array, vao_id)
            &&& final(device).vertex_array == vao_id
            &&& final(device).tier == old(device).tier
            &&& final(device).buffer_tier == old(device).buffer_tier
            &&& final(device).array_buffer == old(device).array_buffer
            &&& final(device).next_id == old(device).next_id
        },
        old(device).vertex_array != vao_id && old(device).tier is None ==> {
            &&& r == Err::<(), crate::BindingError>(crate::BindingError::NoVertexArrayCapability)
            &&& *final(device) == *old(device)
        },
{
    if device.vertex_array != vao_id {
        if device.tier.is_none() {
            return Err(crate::BindingError::NoVertexArrayCapability);
        }
        device.commands.push(DeviceCommand::BindVertexArray { vao: vao_id });
        device.vertex_array = vao_id;
    }
    Ok(())
}

} // verus!
