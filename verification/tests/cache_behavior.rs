use vao_cache::cache::VertexAttributesSystem;
use vao_cache::device::{BindingTier, BufferTier, Device, DeviceCommand};
use vao_cache::resource::{AttributeEntry, Program, ProgramAttribute, VertexBufferInfo};
use vao_cache::types::AttributeType;
use vao_cache::BindingError;

fn cb_device() -> Device {
    Device::new(Some(BindingTier::Core), Some(BufferTier::Core))
}

fn cb_entry(name: &str, offset: usize, ty: AttributeType) -> AttributeEntry {
    AttributeEntry { name: name.to_string(), offset, ty }
}

fn cb_program(id: u64) -> Program {
    Program {
        id,
        attributes: vec![
            ProgramAttribute { name: "position".to_string(), ty: AttributeType::F32F32F32, size: 1, location: 0 },
            ProgramAttribute { name: "uv".to_string(), ty: AttributeType::F32F32, size: 1, location: 1 },
        ],
    }
}

fn cb_position_buffer(id: u32) -> VertexBufferInfo {
    VertexBufferInfo {
        id,
        bindings: vec![cb_entry("position", 0, AttributeType::F32F32F32)],
        elements_size: 12,
    }
}

fn cb_uv_buffer(id: u32) -> VertexBufferInfo {
    VertexBufferInfo {
        id,
        bindings: vec![cb_entry("uv", 0, AttributeType::F32F32)],
        elements_size: 8,
    }
}

fn cb_gen_count(device: &Device) -> usize {
    device.commands.iter().filter(|c| matches!(c, DeviceCommand::GenVertexArray { .. })).count()
}

#[test]
fn same_request_reuses_resource() {
    let mut device = cb_device();
    let mut system = VertexAttributesSystem::new();
    let program = cb_program(7);
    let pos = cb_position_buffer(1);
    let uv = cb_uv_buffer(2);

    let mut binder = system.start(&program, 10);
    binder.add(&pos, 0, None).unwrap();
    binder.add(&uv, 0, None).unwrap();
    let first = binder.bind(&mut system, &mut device).unwrap();
    assert_eq!(cb_gen_count(&device), 1);

    let mut again = system.start(&program, 10);
    again.add(&pos, 0, None).unwrap();
    again.add(&uv, 0, None).unwrap();
    let second = again.bind(&mut system, &mut device).unwrap();

    assert_eq!(first, second);
    assert_eq!(cb_gen_count(&device), 1);
    assert_eq!(system.vaos.len(), 1);
}

#[test]
fn source_order_does_not_change_the_entry() {
    let mut device = cb_device();
    let mut system = VertexAttributesSystem::new();
    let program = cb_program(7);
    let pos = cb_position_buffer(1);
    let uv = cb_uv_buffer(2);

    let mut forward = system.start(&program, 10);
    forward.add(&pos, 0, None).unwrap();
    forward.add(&uv, 0, None).unwrap();
    let first = forward.bind(&mut system, &mut device).unwrap();

    let mut reversed = system.start(&program, 10);
    reversed.add(&uv, 0, None).unwrap();
    reversed.add(&pos, 0, None).unwrap();
    let second = reversed.bind(&mut system, &mut device).unwrap();

    assert_eq!(first, second);
    assert_eq!(cb_gen_count(&device), 1);
}

#[test]
fn purge_buffer_removes_only_matching_entries() {
    let mut device = cb_device();
    let mut system = VertexAttributesSystem::new();
    let program = cb_program(7);
    let pos = cb_position_buffer(1);
    let uv = cb_uv_buffer(2);

    // Entry keyed on {1, 2, 10}.
    let mut both = system.start(&program, 10);
    both.add(&pos, 0, None).unwrap();
    both.add(&uv, 0, None).unwrap();
    let combined = both.bind(&mut system, &mut device).unwrap();

    // A second program so a second entry exists that does not use buffer 2.
    let solo_program = Program {
        id: 8,
        attributes: vec![ProgramAttribute {
            name: "position".to_string(),
            ty: AttributeType::F32F32F32,
            size: 1,
            location: 0,
        }],
    };
    let mut solo = system.start(&solo_program, 10);
    solo.add(&pos, 0, None).unwrap();
    solo.bind(&mut system, &mut device).unwrap();
    assert_eq!(system.vaos.len(), 2);

    system.purge_buffer(&mut device, 2).unwrap();
    assert_eq!(system.vaos.len(), 1);
    for (key, _) in &system.vaos {
        assert!(!key.buffers.contains(&2));
    }
    assert!(device.commands.contains(&DeviceCommand::DeleteVertexArray { vao: combined }));

    // A new request using buffer 2 must construct a fresh resource.
    let before = cb_gen_count(&device);
    let mut rebuilt = system.start(&program, 10);
    rebuilt.add(&pos, 0, None).unwrap();
    rebuilt.add(&uv, 0, None).unwrap();
    let fresh = rebuilt.bind(&mut system, &mut device).unwrap();
    assert_ne!(fresh, combined);
    assert_eq!(cb_gen_count(&device), before + 1);
}

#[test]
fn purge_program_removes_its_entries() {
    let mut device = cb_device();
    let mut system = VertexAttributesSystem::new();
    let program = cb_program(7);
    let pos = cb_position_buffer(1);
    let uv = cb_uv_buffer(2);

    let mut binder = system.start(&program, 10);
    binder.add(&pos, 0, None).unwrap();
    binder.add(&uv, 0, None).unwrap();
    binder.bind(&mut system, &mut device).unwrap();
    assert_eq!(system.vaos.len(), 1);

    system.purge_program(&mut device, 7).unwrap();
    assert_eq!(system.vaos.len(), 0);
}

#[test]
fn purge_all_and_cleanup_empty_the_cache() {
    let mut device = cb_device();
    let mut system = VertexAttributesSystem::new();
    let program = cb_program(7);
    let pos = cb_position_buffer(1);

    let mut binder = system.start(&program, 10);
    binder.add(&pos, 0, None).unwrap();
    binder.add(&cb_uv_buffer(2), 0, None).unwrap();
    let id = binder.bind(&mut system, &mut device).unwrap();

    system.purge_all(&mut device).unwrap();
    assert_eq!(system.vaos.len(), 0);
    assert!(device.commands.contains(&DeviceCommand::DeleteVertexArray { vao: id }));

    // The cache stays usable, and cleanup on an empty cache is a no-op.
    let before = device.commands.len();
    system.cleanup(&mut device).unwrap();
    assert_eq!(device.commands.len(), before);
}

#[test]
fn cached_bind_issues_no_redundant_calls() {
    let mut device = cb_device();
    let mut system = VertexAttributesSystem::new();
    let program = cb_program(7);
    let pos = cb_position_buffer(1);
    let uv = cb_uv_buffer(2);

    let mut first = system.start(&program, 10);
    first.add(&pos, 0, None).unwrap();
    first.add(&uv, 0, None).unwrap();
    let id1 = first.bind(&mut system, &mut device).unwrap();

    // Still active: a repeated finalize issues no call at all.
    let before = device.commands.len();
    let mut repeat = system.start(&program, 10);
    repeat.add(&pos, 0, None).unwrap();
    repeat.add(&uv, 0, None).unwrap();
    assert_eq!(repeat.bind(&mut system, &mut device).unwrap(), id1);
    assert_eq!(device.commands.len(), before);

    // After another binding set became active, only the activation call is
    // reissued: no attribute-binding call.
    let solo_program = Program {
        id: 9,
        attributes: vec![ProgramAttribute {
            name: "position".to_string(),
            ty: AttributeType::F32F32F32,
            size: 1,
            location: 0,
        }],
    };
    let mut other = system.start(&solo_program, 10);
    other.add(&pos, 0, None).unwrap();
    other.bind(&mut system, &mut device).unwrap();

    let before_back = device.commands.len();
    let mut back = system.start(&program, 10);
    back.add(&pos, 0, None).unwrap();
    back.add(&uv, 0, None).unwrap();
    assert_eq!(back.bind(&mut system, &mut device).unwrap(), id1);
    assert_eq!(device.commands.len(), before_back + 1);
    assert_eq!(device.commands[before_back], DeviceCommand::BindVertexArray { vao: id1 });
}

#[test]
fn nonzero_first_element_fails_without_mutating_request() {
    let mut system = VertexAttributesSystem::new();
    let program = cb_program(7);
    let pos = cb_position_buffer(1);

    let mut binder = system.start(&program, 10);
    let err = binder.add(&pos, 3, None).unwrap_err();
    assert_eq!(err, BindingError::UnsupportedFirstElement { first: 3 });
    assert_eq!(binder.vertex_buffers.len(), 0);

    // The request is still usable afterwards.
    binder.add(&pos, 0, None).unwrap();
    assert_eq!(binder.vertex_buffers.len(), 1);
}

#[test]
fn missing_vertex_array_tier_is_an_environment_error() {
    let mut device = Device::new(None, Some(BufferTier::Core));
    let mut system = VertexAttributesSystem::new();
    let program = cb_program(7);

    let mut binder = system.start(&program, 10);
    binder.add(&cb_position_buffer(1), 0, None).unwrap();
    binder.add(&cb_uv_buffer(2), 0, None).unwrap();
    let err = binder.bind(&mut system, &mut device).unwrap_err();
    assert_eq!(err, BindingError::NoVertexArrayCapability);
    assert!(device.commands.is_empty());
    assert_eq!(system.vaos.len(), 0);
}

#[test]
fn missing_buffer_tier_is_an_environment_error() {
    let mut device = Device::new(Some(BindingTier::Core), None);
    let mut system = VertexAttributesSystem::new();
    let program = cb_program(7);

    let mut binder = system.start(&program, 10);
    binder.add(&cb_position_buffer(1), 0, None).unwrap();
    binder.add(&cb_uv_buffer(2), 0, None).unwrap();
    let err = binder.bind(&mut system, &mut device).unwrap_err();
    assert_eq!(err, BindingError::NoBufferCapability);
    assert!(device.commands.is_empty());
}

#[test]
fn instance_step_rate_is_bound_per_source() {
    let mut device = cb_device();
    let mut system = VertexAttributesSystem::new();
    let program = cb_program(7);
    let pos = cb_position_buffer(1);
    let uv = cb_uv_buffer(2);

    let mut binder = system.start(&program, 10);
    binder.add(&pos, 0, None).unwrap();
    binder.add(&uv, 0, Some(4)).unwrap();
    binder.bind(&mut system, &mut device).unwrap();

    assert!(device.commands.contains(&DeviceCommand::VertexAttribDivisor { location: 1, divisor: 4 }));
    assert!(!device.commands.iter().any(|c| matches!(c, DeviceCommand::VertexAttribDivisor { location: 0, .. })));
}
