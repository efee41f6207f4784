use portability_gfx::error::ConvError;
use portability_gfx::pso::{
    map_blend_op, map_color_components, map_compare_op, map_cull_face, map_descriptor_type,
    map_front_face, map_logic_op, map_pipeline_stage_flags, map_polygon_mode,
    map_primitive_topology, map_stage_flags, map_stencil_op, ColorMask, Comparison, CullFace,
    DescriptorType,
    FrontFace, PipelineStages, PolygonMode, Primitive, ShaderStages,
};
use portability_gfx::vk;

fn no_stages() -> ShaderStages {
    ShaderStages {
        vertex: false,
        hull: false,
        domain: false,
        geometry: false,
        fragment: false,
        compute: false,
        graphics: false,
        all: false,
    }
}

#[test]
fn descriptor_type_table() {
    assert_eq!(map_descriptor_type(0), Ok(DescriptorType::Sampler));
    assert_eq!(map_descriptor_type(2), Ok(DescriptorType::SampledImage));
    assert_eq!(map_descriptor_type(3), Ok(DescriptorType::StorageImage));
    assert_eq!(map_descriptor_type(4), Ok(DescriptorType::UniformTexelBuffer));
    assert_eq!(map_descriptor_type(5), Ok(DescriptorType::StorageTexelBuffer));
    assert_eq!(map_descriptor_type(6), Ok(DescriptorType::UniformBuffer));
    assert_eq!(map_descriptor_type(7), Ok(DescriptorType::StorageBuffer));
    assert_eq!(map_descriptor_type(10), Ok(DescriptorType::InputAttachment));
}

#[test]
fn descriptor_type_combined_and_dynamic_not_yet_supported() {
    assert_eq!(map_descriptor_type(1), Err(ConvError::NotYetSupported));
    assert_eq!(map_descriptor_type(8), Err(ConvError::NotYetSupported));
    assert_eq!(map_descriptor_type(9), Err(ConvError::NotYetSupported));
}

#[test]
fn descriptor_type_unknown_code_is_invalid() {
    assert_eq!(map_descriptor_type(11), Err(ConvError::InvalidInput));
}

#[test]
fn stage_flags_single_graphics_stage_sets_group_flags() {
    let result = map_stage_flags(vk::VK_SHADER_STAGE_VERTEX_BIT);
    assert_eq!(
        result,
        Ok(ShaderStages {
            vertex: true,
            graphics: true,
            all: true,
            ..no_stages()
        })
    );
}

#[test]
fn stage_flags_compute_is_no_graphics_stage() {
    let result = map_stage_flags(vk::VK_SHADER_STAGE_COMPUTE_BIT);
    assert_eq!(
        result,
        Ok(ShaderStages {
            compute: true,
            all: true,
            ..no_stages()
        })
    );
}

#[test]
fn stage_flags_tessellation_pair() {
    let mask =
        vk::VK_SHADER_STAGE_TESSELLATION_CONTROL_BIT | vk::VK_SHADER_STAGE_TESSELLATION_EVALUATION_BIT;
    let result = map_stage_flags(mask);
    assert_eq!(
        result,
        Ok(ShaderStages {
            hull: true,
            domain: true,
            graphics: true,
            all: true,
            ..no_stages()
        })
    );
}

#[test]
fn stage_flags_empty_mask_sets_nothing() {
    assert_eq!(map_stage_flags(0), Ok(no_stages()));
}

#[test]
fn stage_flags_unknown_bit_is_invalid() {
    assert_eq!(map_stage_flags(0x8000_0000), Err(ConvError::InvalidInput));
}

#[test]
fn pipeline_stage_flags_identity_on_accounted_bits() {
    assert_eq!(
        map_pipeline_stage_flags(0x4001),
        Ok(PipelineStages { bits: 0x4001 })
    );
    assert_eq!(map_pipeline_stage_flags(0), Ok(PipelineStages { bits: 0 }));
}

#[test]
fn pipeline_stage_flags_group_masks_not_yet_supported() {
    assert_eq!(
        map_pipeline_stage_flags(vk::VK_PIPELINE_STAGE_ALL_GRAPHICS_BIT),
        Err(ConvError::NotYetSupported)
    );
    assert_eq!(
        map_pipeline_stage_flags(vk::VK_PIPELINE_STAGE_ALL_COMMANDS_BIT),
        Err(ConvError::NotYetSupported)
    );
}

#[test]
fn polygon_mode_table() {
    assert_eq!(map_polygon_mode(0), Ok(PolygonMode::Fill));
    assert_eq!(map_polygon_mode(1), Ok(PolygonMode::Line));
    assert_eq!(map_polygon_mode(2), Ok(PolygonMode::Point));
    assert_eq!(map_polygon_mode(3), Err(ConvError::InvalidInput));
}

#[test]
fn cull_face_table() {
    assert_eq!(map_cull_face(vk::VK_CULL_MODE_NONE), Ok(None));
    assert_eq!(
        map_cull_face(vk::VK_CULL_MODE_FRONT_BIT),
        Ok(Some(CullFace::Front))
    );
    assert_eq!(
        map_cull_face(vk::VK_CULL_MODE_BACK_BIT),
        Ok(Some(CullFace::Back))
    );
}

#[test]
fn cull_face_both_faces_not_yet_supported() {
    assert_eq!(
        map_cull_face(vk::VK_CULL_MODE_FRONT_AND_BACK),
        Err(ConvError::NotYetSupported)
    );
}

#[test]
fn cull_face_unknown_value_is_invalid() {
    assert_eq!(map_cull_face(4), Err(ConvError::InvalidInput));
}

#[test]
fn front_face_table() {
    assert_eq!(map_front_face(0), Ok(FrontFace::CounterClockwise));
    assert_eq!(map_front_face(1), Ok(FrontFace::Clockwise));
    assert_eq!(map_front_face(2), Err(ConvError::InvalidInput));
}

#[test]
fn primitive_topology_table() {
    assert_eq!(map_primitive_topology(0, 0), Ok(Primitive::PointList));
    assert_eq!(map_primitive_topology(1, 0), Ok(Primitive::LineList));
    assert_eq!(map_primitive_topology(2, 0), Ok(Primitive::LineStrip));
    assert_eq!(map_primitive_topology(3, 0), Ok(Primitive::TriangleList));
    assert_eq!(map_primitive_topology(4, 0), Ok(Primitive::TriangleStrip));
    assert_eq!(
        map_primitive_topology(6, 0),
        Ok(Primitive::LineListAdjacency)
    );
    assert_eq!(
        map_primitive_topology(7, 0),
        Ok(Primitive::LineStripAdjacency)
    );
    assert_eq!(
        map_primitive_topology(8, 0),
        Ok(Primitive::TriangleListAdjacency)
    );
    assert_eq!(
        map_primitive_topology(9, 0),
        Ok(Primitive::TriangleStripAdjacency)
    );
}

#[test]
fn primitive_topology_patch_list_carries_patch_size() {
    assert_eq!(map_primitive_topology(10, 16), Ok(Primitive::PatchList(16)));
}

#[test]
fn primitive_topology_triangle_fan_not_yet_supported() {
    assert_eq!(
        map_primitive_topology(vk::VK_PRIMITIVE_TOPOLOGY_TRIANGLE_FAN, 0),
        Err(ConvError::NotYetSupported)
    );
}

#[test]
fn primitive_topology_unknown_code_is_invalid() {
    assert_eq!(map_primitive_topology(11, 0), Err(ConvError::InvalidInput));
}

#[test]
fn compare_op_table() {
    assert_eq!(map_compare_op(0), Ok(Comparison::Never));
    assert_eq!(map_compare_op(1), Ok(Comparison::Less));
    assert_eq!(map_compare_op(2), Ok(Comparison::Equal));
    assert_eq!(map_compare_op(3), Ok(Comparison::LessEqual));
    assert_eq!(map_compare_op(4), Ok(Comparison::Greater));
    assert_eq!(map_compare_op(5), Ok(Comparison::NotEqual));
    assert_eq!(map_compare_op(6), Ok(Comparison::GreaterEqual));
    assert_eq!(map_compare_op(7), Ok(Comparison::Always));
    assert_eq!(map_compare_op(8), Err(ConvError::InvalidInput));
}

#[test]
fn color_components_exact_channels() {
    assert_eq!(
        map_color_components(vk::VK_COLOR_COMPONENT_R_BIT | vk::VK_COLOR_COMPONENT_B_BIT),
        Ok(ColorMask {
            red: true,
            green: false,
            blue: true,
            alpha: false,
        })
    );
    assert_eq!(
        map_color_components(0xF),
        Ok(ColorMask {
            red: true,
            green: true,
            blue: true,
            alpha: true,
        })
    );
}

#[test]
fn color_components_unknown_bit_is_invalid() {
    assert_eq!(map_color_components(0x10), Err(ConvError::InvalidInput));
}

#[test]
fn logic_stencil_blend_ops_are_capability_gaps() {
    assert_eq!(map_logic_op(0), Err(ConvError::NotYetSupported));
    assert_eq!(map_stencil_op(5), Err(ConvError::NotYetSupported));
    assert_eq!(map_blend_op(0, 1, 2), Err(ConvError::NotYetSupported));
}
