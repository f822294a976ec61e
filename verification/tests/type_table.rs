use vao_cache::device::{BindingTier, BufferTier, Device, DeviceCommand};
use vao_cache::resource::{AttributeEntry, Program, ProgramAttribute, VertexArrayObject, VertexSource};
use vao_cache::types::{
    get_num_components, vertex_binding_type_to_gl, AttributeType, GL_BYTE, GL_DOUBLE,
    GL_DOUBLE_MAT2X3, GL_FLOAT, GL_FLOAT_MAT3, GL_INT, GL_UNSIGNED_SHORT,
};

#[test]
fn scalar_and_vector_formats_map_exactly() {
    assert_eq!(vertex_binding_type_to_gl(AttributeType::I8), (GL_BYTE, 1));
    assert_eq!(vertex_binding_type_to_gl(AttributeType::U16U16), (GL_UNSIGNED_SHORT, 2));
    assert_eq!(vertex_binding_type_to_gl(AttributeType::I32I32I32), (GL_INT, 3));
    assert_eq!(vertex_binding_type_to_gl(AttributeType::F32F32F32), (GL_FLOAT, 3));
    assert_eq!(vertex_binding_type_to_gl(AttributeType::F64F64F64F64), (GL_DOUBLE, 4));
}

#[test]
fn matrix_formats_map_to_one_matrix_component() {
    assert_eq!(vertex_binding_type_to_gl(AttributeType::F32x3x3), (GL_FLOAT_MAT3, 1));
    assert_eq!(vertex_binding_type_to_gl(AttributeType::F64x2x3), (GL_DOUBLE_MAT2X3, 1));
}

#[test]
fn component_counts_cover_vectors_and_matrices() {
    assert_eq!(get_num_components(AttributeType::F32), 1);
    assert_eq!(get_num_components(AttributeType::I32I32), 2);
    assert_eq!(get_num_components(AttributeType::U8U8U8U8), 4);
    assert_eq!(get_num_components(AttributeType::F32x2x2), 4);
    assert_eq!(get_num_components(AttributeType::F32x2x3), 6);
    assert_eq!(get_num_components(AttributeType::F64x4x4), 16);
}

fn tt_bind_single(ty: AttributeType, program_ty: AttributeType) -> Vec<DeviceCommand> {
    let mut device = Device::new(Some(BindingTier::Core), Some(BufferTier::Core));
    let program = Program {
        id: 1,
        attributes: vec![ProgramAttribute { name: "a".to_string(), ty: program_ty, size: 1, location: 2 }],
    };
    let sources = vec![VertexSource {
        buffer: 1,
        bindings: vec![AttributeEntry { name: "a".to_string(), offset: 4, ty }],
        stride: 20,
        divisor: None,
    }];
    VertexArrayObject::new(&mut device, &sources, 10, &program).unwrap();
    device.commands
}

#[test]
fn integer_attributes_use_the_integer_pointer_form() {
    let commands = tt_bind_single(AttributeType::I32I32, AttributeType::I32I32);
    assert!(commands.contains(&DeviceCommand::VertexAttribIPointer {
        location: 2,
        components: 2,
        data_type: GL_INT,
        stride: 20,
        offset: 4,
    }));
}

#[test]
fn double_attributes_use_the_wide_pointer_form() {
    let commands = tt_bind_single(AttributeType::F64F64, AttributeType::F64F64);
    assert!(commands.contains(&DeviceCommand::VertexAttribLPointer {
        location: 2,
        components: 2,
        data_type: GL_DOUBLE,
        stride: 20,
        offset: 4,
    }));
}

#[test]
fn float_attributes_use_the_ordinary_pointer_form() {
    let commands = tt_bind_single(AttributeType::F32F32F32, AttributeType::F32F32F32);
    assert!(commands.contains(&DeviceCommand::VertexAttribPointer {
        location: 2,
        components: 3,
        data_type: GL_FLOAT,
        stride: 20,
        offset: 4,
    }));
    assert!(commands.contains(&DeviceCommand::EnableVertexAttribArray { location: 2 }));
}
