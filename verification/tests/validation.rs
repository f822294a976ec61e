use vao_cache::device::{BindingTier, BufferTier, Device, DeviceCommand};
use vao_cache::resource::{AttributeEntry, Program, ProgramAttribute, VertexArrayObject, VertexSource};
use vao_cache::types::AttributeType;
use vao_cache::BindingError;

fn va_device() -> Device {
    Device::new(Some(BindingTier::Core), Some(BufferTier::Core))
}

fn va_source(buffer: u32, name: &str, ty: AttributeType, stride: usize) -> VertexSource {
    VertexSource {
        buffer,
        bindings: vec![AttributeEntry { name: name.to_string(), offset: 0, ty }],
        stride,
        divisor: None,
    }
}

fn va_program_wanting(name: &str, ty: AttributeType) -> Program {
    Program {
        id: 1,
        attributes: vec![ProgramAttribute { name: name.to_string(), ty, size: 1, location: 0 }],
    }
}

#[test]
fn missing_attribute_is_rejected_by_name() {
    let mut device = va_device();
    let program = va_program_wanting("normal", AttributeType::F32F32F32);
    let sources = vec![va_source(1, "position", AttributeType::F32F32F32, 12)];

    let err = VertexArrayObject::new(&mut device, &sources, 10, &program).unwrap_err();
    match err {
        BindingError::MissingAttribute { name } => assert_eq!(name, "normal"),
        other => panic!("expected a missing-attribute error, got {:?}", other),
    }
    assert!(device.commands.is_empty());
}

#[test]
fn component_count_mismatch_is_rejected_with_both_counts() {
    let mut device = va_device();
    let program = va_program_wanting("position", AttributeType::F32F32F32);
    let sources = vec![va_source(1, "position", AttributeType::F32F32, 8)];

    let err = VertexArrayObject::new(&mut device, &sources, 10, &program).unwrap_err();
    match err {
        BindingError::TypeMismatch { name, expected, actual, expected_components, actual_components } => {
            assert_eq!(name, "position");
            assert_eq!(expected, AttributeType::F32F32F32);
            assert_eq!(actual, AttributeType::F32F32);
            assert_eq!(expected_components, 3);
            assert_eq!(actual_components, 2);
        },
        other => panic!("expected a type-mismatch error, got {:?}", other),
    }
    assert!(device.commands.is_empty());
}

#[test]
fn program_array_attribute_is_rejected() {
    let mut device = va_device();
    let program = Program {
        id: 1,
        attributes: vec![ProgramAttribute {
            name: "weights".to_string(),
            ty: AttributeType::F32F32F32F32,
            size: 2,
            location: 0,
        }],
    };
    let sources = vec![va_source(1, "weights", AttributeType::F32F32F32F32, 16)];

    let err = VertexArrayObject::new(&mut device, &sources, 10, &program).unwrap_err();
    assert!(matches!(err, BindingError::TypeMismatch { .. }));
}

#[test]
fn layout_entry_unknown_to_the_program_is_ignored() {
    let mut device = va_device();
    let program = va_program_wanting("position", AttributeType::F32F32F32);
    let sources = vec![
        va_source(1, "position", AttributeType::F32F32F32, 12),
        va_source(2, "debug_color", AttributeType::U8U8U8U8, 4),
    ];

    let vao = VertexArrayObject::new(&mut device, &sources, 10, &program).unwrap();
    assert!(vao.is_alive());
    // Only the known attribute was bound and enabled.
    let enables = device.commands.iter().filter(|c| matches!(c, DeviceCommand::EnableVertexAttribArray { .. })).count();
    assert_eq!(enables, 1);
}

#[test]
fn unlocated_attribute_gets_no_binding_call() {
    let mut device = va_device();
    let program = Program {
        id: 1,
        attributes: vec![ProgramAttribute {
            name: "position".to_string(),
            ty: AttributeType::F32F32F32,
            size: 1,
            location: -1,
        }],
    };
    let sources = vec![va_source(1, "position", AttributeType::F32F32F32, 12)];

    let vao = VertexArrayObject::new(&mut device, &sources, 10, &program).unwrap();
    assert!(vao.is_alive());
    assert!(!device.commands.iter().any(|c| matches!(c, DeviceCommand::EnableVertexAttribArray { .. })));
    assert!(!device.commands.iter().any(|c| matches!(c, DeviceCommand::VertexAttribPointer { .. })));
}

#[test]
fn destroying_twice_is_reported_not_ignored() {
    let mut device = va_device();
    let program = va_program_wanting("position", AttributeType::F32F32F32);
    let sources = vec![va_source(1, "position", AttributeType::F32F32F32, 12)];

    let mut vao = VertexArrayObject::new(&mut device, &sources, 10, &program).unwrap();
    assert!(vao.is_alive());
    vao.destroy(&mut device).unwrap();
    assert!(!vao.is_alive());
    let again = vao.destroy(&mut device).unwrap_err();
    assert_eq!(again, BindingError::AlreadyDestroyed);
    // Exactly one release call was issued.
    let deletes = device.commands.iter().filter(|c| matches!(c, DeviceCommand::DeleteVertexArray { .. })).count();
    assert_eq!(deletes, 1);
}

#[test]
fn destroying_the_active_object_unbinds_it_first() {
    let mut device = va_device();
    let program = va_program_wanting("position", AttributeType::F32F32F32);
    let sources = vec![va_source(1, "position", AttributeType::F32F32F32, 12)];

    let mut vao = VertexArrayObject::new(&mut device, &sources, 10, &program).unwrap();
    let id = vao.get_id();
    assert_eq!(device.vertex_array, id);
    vao.destroy(&mut device).unwrap();
    assert_eq!(device.vertex_array, 0);
    let tail: Vec<_> = device.commands.iter().rev().take(2).collect();
    assert_eq!(*tail[0], DeviceCommand::DeleteVertexArray { vao: id });
    assert_eq!(*tail[1], DeviceCommand::BindVertexArray { vao: 0 });
}

#[test]
fn construction_issues_exactly_the_expected_calls_in_order() {
    let mut device = va_device();
    let program = va_program_wanting("position", AttributeType::F32F32F32);
    let sources = vec![va_source(1, "position", AttributeType::F32F32F32, 12)];

    let vao = VertexArrayObject::new(&mut device, &sources, 10, &program).unwrap();
    let id = vao.get_id();
    assert_eq!(
        device.commands,
        vec![
            DeviceCommand::GenVertexArray { vao: id },
            DeviceCommand::BindVertexArray { vao: id },
            DeviceCommand::BindElementArrayBuffer { buffer: 10 },
            DeviceCommand::BindArrayBuffer { buffer: 1 },
            DeviceCommand::VertexAttribPointer {
                location: 0,
                components: 3,
                data_type: vao_cache::types::GL_FLOAT,
                stride: 12,
                offset: 0,
            },
            DeviceCommand::EnableVertexAttribArray { location: 0 },
        ],
    );
}

#[test]
fn construction_binds_index_buffer_and_skips_bound_source() {
    let mut device = va_device();
    device.array_buffer = 1;
    let program = va_program_wanting("position", AttributeType::F32F32F32);
    let sources = vec![va_source(1, "position", AttributeType::F32F32F32, 12)];

    let vao = VertexArrayObject::new(&mut device, &sources, 10, &program).unwrap();
    assert!(device.commands.contains(&DeviceCommand::BindElementArrayBuffer { buffer: 10 }));
    // Buffer 1 was already the active data source: no rebind.
    assert!(!device.commands.iter().any(|c| matches!(c, DeviceCommand::BindArrayBuffer { .. })));
    assert_eq!(device.vertex_array, vao.get_id());
}
