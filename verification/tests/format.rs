use portability_gfx::error::ConvError;
use portability_gfx::format::{
    buffer_features_from_hal, format_from_hal, format_properties_from_hal,
    image_features_from_hal, map_format, map_swizzle, map_swizzle_component, BufferFeatures,
    Component, Format, ImageFeatures, Properties, Swizzle, NUM_FORMATS,
};
use portability_gfx::vk;

fn no_image_features() -> ImageFeatures {
    ImageFeatures {
        sampled: false,
        storage: false,
        storage_atomic: false,
        color_attachment: false,
        color_attachment_blend: false,
        depth_stencil_attachment: false,
        blit_src: false,
        blit_dst: false,
        sampled_linear: false,
    }
}

fn no_buffer_features() -> BufferFeatures {
    BufferFeatures {
        uniform_texel: false,
        storage_texel: false,
        storage_texel_atomic: false,
        vertex: false,
    }
}

#[test]
fn format_round_trip_lowest_code() {
    assert_eq!(map_format(1), Ok(Some(Format { code: 1 })));
    assert_eq!(format_from_hal(Format { code: 1 }), 1);
}

#[test]
fn format_round_trip_mid_code() {
    let code = 100;
    let mapped = map_format(code).unwrap().unwrap();
    assert_eq!(format_from_hal(mapped), code);
}

#[test]
fn format_round_trip_highest_code() {
    let code = NUM_FORMATS - 1;
    let mapped = map_format(code).unwrap().unwrap();
    assert_eq!(format_from_hal(mapped), code);
}

#[test]
fn format_undefined_maps_to_none() {
    assert_eq!(map_format(vk::VK_FORMAT_UNDEFINED), Ok(None));
}

#[test]
fn format_beyond_known_count_is_invalid() {
    assert_eq!(map_format(NUM_FORMATS), Err(ConvError::InvalidInput));
    assert_eq!(map_format(1000), Err(ConvError::InvalidInput));
}

#[test]
fn image_features_empty_set_gives_zero_mask() {
    assert_eq!(image_features_from_hal(no_image_features()), 0);
}

#[test]
fn image_features_exact_bits() {
    let features = ImageFeatures {
        sampled: true,
        color_attachment: true,
        ..no_image_features()
    };
    assert_eq!(
        image_features_from_hal(features),
        vk::VK_FORMAT_FEATURE_SAMPLED_IMAGE_BIT | vk::VK_FORMAT_FEATURE_COLOR_ATTACHMENT_BIT
    );
}

#[test]
fn image_features_full_set() {
    let features = ImageFeatures {
        sampled: true,
        storage: true,
        storage_atomic: true,
        color_attachment: true,
        color_attachment_blend: true,
        depth_stencil_attachment: true,
        blit_src: true,
        blit_dst: true,
        sampled_linear: true,
    };
    assert_eq!(image_features_from_hal(features), 0x1F87);
}

#[test]
fn buffer_features_exact_bits() {
    assert_eq!(buffer_features_from_hal(no_buffer_features()), 0);
    let features = BufferFeatures {
        uniform_texel: true,
        vertex: true,
        ..no_buffer_features()
    };
    assert_eq!(
        buffer_features_from_hal(features),
        vk::VK_FORMAT_FEATURE_UNIFORM_TEXEL_BUFFER_BIT | vk::VK_FORMAT_FEATURE_VERTEX_BUFFER_BIT
    );
}

#[test]
fn format_properties_translate_field_by_field() {
    let properties = Properties {
        linear_tiling: ImageFeatures {
            sampled: true,
            ..no_image_features()
        },
        optimal_tiling: ImageFeatures {
            blit_src: true,
            blit_dst: true,
            ..no_image_features()
        },
        buffer_features: BufferFeatures {
            storage_texel: true,
            ..no_buffer_features()
        },
    };
    let external = format_properties_from_hal(properties);
    assert_eq!(
        external.linear_tiling_features,
        vk::VK_FORMAT_FEATURE_SAMPLED_IMAGE_BIT
    );
    assert_eq!(
        external.optimal_tiling_features,
        vk::VK_FORMAT_FEATURE_BLIT_SRC_BIT | vk::VK_FORMAT_FEATURE_BLIT_DST_BIT
    );
    assert_eq!(
        external.buffer_features,
        vk::VK_FORMAT_FEATURE_STORAGE_TEXEL_BUFFER_BIT
    );
}

#[test]
fn swizzle_component_identity_resolves_to_own_channel() {
    assert_eq!(
        map_swizzle_component(vk::VK_COMPONENT_SWIZZLE_IDENTITY, Component::G),
        Ok(Component::G)
    );
}

#[test]
fn swizzle_component_constants_and_channels() {
    assert_eq!(
        map_swizzle_component(vk::VK_COMPONENT_SWIZZLE_ZERO, Component::R),
        Ok(Component::Zero)
    );
    assert_eq!(
        map_swizzle_component(vk::VK_COMPONENT_SWIZZLE_ONE, Component::R),
        Ok(Component::One)
    );
    assert_eq!(
        map_swizzle_component(vk::VK_COMPONENT_SWIZZLE_A, Component::R),
        Ok(Component::A)
    );
}

#[test]
fn swizzle_component_unknown_code_is_invalid() {
    assert_eq!(
        map_swizzle_component(7, Component::R),
        Err(ConvError::InvalidInput)
    );
}

#[test]
fn swizzle_identity_mapping_resolves_per_channel() {
    let components = vk::VkComponentMapping {
        r: vk::VK_COMPONENT_SWIZZLE_IDENTITY,
        g: vk::VK_COMPONENT_SWIZZLE_IDENTITY,
        b: vk::VK_COMPONENT_SWIZZLE_IDENTITY,
        a: vk::VK_COMPONENT_SWIZZLE_IDENTITY,
    };
    assert_eq!(
        map_swizzle(components),
        Ok(Swizzle(Component::R, Component::G, Component::B, Component::A))
    );
}

#[test]
fn swizzle_cross_channel_mapping() {
    let components = vk::VkComponentMapping {
        r: vk::VK_COMPONENT_SWIZZLE_B,
        g: vk::VK_COMPONENT_SWIZZLE_ZERO,
        b: vk::VK_COMPONENT_SWIZZLE_R,
        a: vk::VK_COMPONENT_SWIZZLE_ONE,
    };
    assert_eq!(
        map_swizzle(components),
        Ok(Swizzle(Component::B, Component::Zero, Component::R, Component::One))
    );
}

#[test]
fn swizzle_unknown_code_fails_whole_mapping() {
    let components = vk::VkComponentMapping {
        r: vk::VK_COMPONENT_SWIZZLE_IDENTITY,
        g: 9,
        b: vk::VK_COMPONENT_SWIZZLE_IDENTITY,
        a: vk::VK_COMPONENT_SWIZZLE_IDENTITY,
    };
    assert_eq!(map_swizzle(components), Err(ConvError::InvalidInput));
}
