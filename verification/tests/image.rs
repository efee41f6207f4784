use portability_gfx::error::ConvError;
use portability_gfx::image::{
    extent2d_from_hal, map_aa_mode, map_aspect, map_image_acces, map_image_kind,
    map_image_layout, map_image_usage, map_subresource_range, AaMode, Access, Aspects, Extent2d,
    ImageLayout, ImageUsage, Kind,
};
use portability_gfx::vk;

fn extent(width: u32, height: u32, depth: u32) -> vk::VkExtent3D {
    vk::VkExtent3D {
        width,
        height,
        depth,
    }
}

fn no_access() -> Access {
    Access {
        input_attachment_read: false,
        shader_read: false,
        shader_write: false,
        color_attachment_read: false,
        color_attachment_write: false,
        depth_stencil_attachment_read: false,
        depth_stencil_attachment_write: false,
        transfer_read: false,
        transfer_write: false,
        host_read: false,
        host_write: false,
        memory_read: false,
        memory_write: false,
    }
}

fn no_usage() -> ImageUsage {
    ImageUsage {
        transfer_src: false,
        transfer_dst: false,
        sampled: false,
        storage: false,
        color_attachment: false,
        depth_stencil_attachment: false,
    }
}

#[test]
fn extent2d_copies_both_fields() {
    let external = extent2d_from_hal(Extent2d {
        width: 800,
        height: 600,
    });
    assert_eq!(
        external,
        vk::VkExtent2D {
            width: 800,
            height: 600
        }
    );
}

#[test]
fn image_layout_table() {
    assert_eq!(map_image_layout(0), Ok(ImageLayout::Undefined));
    assert_eq!(map_image_layout(1), Ok(ImageLayout::General));
    assert_eq!(map_image_layout(2), Ok(ImageLayout::ColorAttachmentOptimal));
    assert_eq!(
        map_image_layout(3),
        Ok(ImageLayout::DepthStencilAttachmentOptimal)
    );
    assert_eq!(
        map_image_layout(4),
        Ok(ImageLayout::DepthStencilReadOnlyOptimal)
    );
    assert_eq!(map_image_layout(5), Ok(ImageLayout::ShaderReadOnlyOptimal));
    assert_eq!(map_image_layout(6), Ok(ImageLayout::TransferSrcOptimal));
    assert_eq!(map_image_layout(7), Ok(ImageLayout::TransferDstOptimal));
    assert_eq!(map_image_layout(8), Ok(ImageLayout::Preinitialized));
    assert_eq!(
        map_image_layout(vk::VK_IMAGE_LAYOUT_PRESENT_SRC_KHR),
        Ok(ImageLayout::Present)
    );
}

#[test]
fn image_layout_unknown_code_is_invalid() {
    assert_eq!(map_image_layout(9), Err(ConvError::InvalidInput));
    assert_eq!(map_image_layout(1000001003), Err(ConvError::InvalidInput));
}

#[test]
fn aspect_color_alone() {
    assert_eq!(
        map_aspect(vk::VK_IMAGE_ASPECT_COLOR_BIT),
        Ok(Aspects {
            color: true,
            depth_stencil: false
        })
    );
}

#[test]
fn aspect_depth_and_stencil_fold_together() {
    let expected = Ok(Aspects {
        color: false,
        depth_stencil: true,
    });
    assert_eq!(map_aspect(vk::VK_IMAGE_ASPECT_DEPTH_BIT), expected);
    assert_eq!(map_aspect(vk::VK_IMAGE_ASPECT_STENCIL_BIT), expected);
    assert_eq!(
        map_aspect(vk::VK_IMAGE_ASPECT_DEPTH_BIT | vk::VK_IMAGE_ASPECT_STENCIL_BIT),
        expected
    );
}

#[test]
fn aspect_metadata_is_not_yet_supported() {
    assert_eq!(
        map_aspect(vk::VK_IMAGE_ASPECT_METADATA_BIT),
        Err(ConvError::NotYetSupported)
    );
}

#[test]
fn aspect_unknown_bit_is_invalid() {
    assert_eq!(map_aspect(0x10), Err(ConvError::InvalidInput));
}

#[test]
fn subresource_range_is_half_open() {
    let range = map_subresource_range(vk::VkImageSubresourceRange {
        aspect_mask: vk::VK_IMAGE_ASPECT_COLOR_BIT,
        base_mip_level: 2,
        level_count: 3,
        base_array_layer: 1,
        layer_count: 4,
    })
    .unwrap();
    assert_eq!(range.levels.start, 2);
    assert_eq!(range.levels.end, 5);
    assert_eq!(range.layers.start, 1);
    assert_eq!(range.layers.end, 5);
    assert!(range.aspects.color);
}

#[test]
fn subresource_range_empty_count_selects_nothing() {
    let range = map_subresource_range(vk::VkImageSubresourceRange {
        aspect_mask: vk::VK_IMAGE_ASPECT_COLOR_BIT,
        base_mip_level: 7,
        level_count: 0,
        base_array_layer: 0,
        layer_count: 0,
    })
    .unwrap();
    assert_eq!(range.levels.start, 7);
    assert_eq!(range.levels.end, 7);
    assert_eq!(range.layers.start, 0);
    assert_eq!(range.layers.end, 0);
}

#[test]
fn subresource_range_propagates_aspect_failure() {
    let result = map_subresource_range(vk::VkImageSubresourceRange {
        aspect_mask: vk::VK_IMAGE_ASPECT_METADATA_BIT,
        base_mip_level: 0,
        level_count: 1,
        base_array_layer: 0,
        layer_count: 1,
    });
    assert_eq!(result, Err(ConvError::NotYetSupported));
}

#[test]
fn aa_mode_single_and_multi() {
    assert_eq!(map_aa_mode(1), AaMode::Single);
    assert_eq!(map_aa_mode(4), AaMode::Multi(4));
}

#[test]
fn kind_cube_from_six_layers() {
    let result = map_image_kind(
        vk::VK_IMAGE_TYPE_2D,
        vk::VK_IMAGE_CREATE_CUBE_COMPATIBLE_BIT,
        extent(64, 64, 1),
        6,
        1,
    );
    assert_eq!(result, Ok(Kind::Cube(64)));
}

#[test]
fn kind_cube_array_from_twelve_layers() {
    let result = map_image_kind(
        vk::VK_IMAGE_TYPE_2D,
        vk::VK_IMAGE_CREATE_CUBE_COMPATIBLE_BIT,
        extent(64, 64, 1),
        12,
        1,
    );
    assert_eq!(result, Ok(Kind::CubeArray(64, 2)));
}

#[test]
fn kind_plain_2d_single_sample() {
    let result = map_image_kind(vk::VK_IMAGE_TYPE_2D, 0, extent(640, 480, 1), 1, 1);
    assert_eq!(result, Ok(Kind::D2(640, 480, AaMode::Single)));
}

#[test]
fn kind_invalid_cube_layer_count() {
    let result = map_image_kind(
        vk::VK_IMAGE_TYPE_2D,
        vk::VK_IMAGE_CREATE_CUBE_COMPATIBLE_BIT,
        extent(64, 64, 1),
        4,
        1,
    );
    assert_eq!(result, Err(ConvError::InvalidInput));
}

#[test]
fn kind_zero_layers_is_invalid() {
    let result = map_image_kind(vk::VK_IMAGE_TYPE_2D, 0, extent(64, 64, 1), 0, 1);
    assert_eq!(result, Err(ConvError::InvalidInput));
}

#[test]
fn kind_1d_plain_and_arrayed() {
    assert_eq!(
        map_image_kind(vk::VK_IMAGE_TYPE_1D, 0, extent(128, 1, 1), 1, 1),
        Ok(Kind::D1(128))
    );
    assert_eq!(
        map_image_kind(vk::VK_IMAGE_TYPE_1D, 0, extent(128, 1, 1), 3, 1),
        Ok(Kind::D1Array(128, 3))
    );
}

#[test]
fn kind_2d_array_multisampled() {
    let result = map_image_kind(vk::VK_IMAGE_TYPE_2D, 0, extent(32, 16, 1), 5, 4);
    assert_eq!(result, Ok(Kind::D2Array(32, 16, 5, AaMode::Multi(4))));
}

#[test]
fn kind_3d_ignores_array_layers() {
    let result = map_image_kind(vk::VK_IMAGE_TYPE_3D, 0, extent(8, 8, 8), 1, 1);
    assert_eq!(result, Ok(Kind::D3(8, 8, 8)));
}

#[test]
fn kind_unknown_type_code_is_invalid() {
    let result = map_image_kind(3, 0, extent(8, 8, 1), 1, 1);
    assert_eq!(result, Err(ConvError::InvalidInput));
}

#[test]
fn image_usage_each_mapped_bit() {
    assert_eq!(
        map_image_usage(vk::VK_IMAGE_USAGE_TRANSFER_SRC_BIT),
        Ok(ImageUsage {
            transfer_src: true,
            ..no_usage()
        })
    );
    assert_eq!(
        map_image_usage(vk::VK_IMAGE_USAGE_DEPTH_STENCIL_ATTACHMENT_BIT),
        Ok(ImageUsage {
            depth_stencil_attachment: true,
            ..no_usage()
        })
    );
}

#[test]
fn image_usage_combination_is_exact() {
    let usage = vk::VK_IMAGE_USAGE_SAMPLED_BIT | vk::VK_IMAGE_USAGE_COLOR_ATTACHMENT_BIT;
    assert_eq!(
        map_image_usage(usage),
        Ok(ImageUsage {
            sampled: true,
            color_attachment: true,
            ..no_usage()
        })
    );
}

#[test]
fn image_usage_transient_and_input_attachment_not_yet_supported() {
    assert_eq!(
        map_image_usage(vk::VK_IMAGE_USAGE_TRANSIENT_ATTACHMENT_BIT),
        Err(ConvError::NotYetSupported)
    );
    assert_eq!(
        map_image_usage(vk::VK_IMAGE_USAGE_INPUT_ATTACHMENT_BIT),
        Err(ConvError::NotYetSupported)
    );
}

#[test]
fn image_usage_unknown_bit_is_invalid() {
    assert_eq!(map_image_usage(0x100), Err(ConvError::InvalidInput));
}

#[test]
fn access_color_attachment_read_write_exact() {
    let mask = vk::VK_ACCESS_COLOR_ATTACHMENT_READ_BIT | vk::VK_ACCESS_COLOR_ATTACHMENT_WRITE_BIT;
    assert_eq!(
        map_image_acces(mask),
        Ok(Access {
            color_attachment_read: true,
            color_attachment_write: true,
            ..no_access()
        })
    );
}

#[test]
fn access_every_mapped_bit_translates() {
    let mask = 0x1_FFF0;
    let all = Access {
        input_attachment_read: true,
        shader_read: true,
        shader_write: true,
        color_attachment_read: true,
        color_attachment_write: true,
        depth_stencil_attachment_read: true,
        depth_stencil_attachment_write: true,
        transfer_read: true,
        transfer_write: true,
        host_read: true,
        host_write: true,
        memory_read: true,
        memory_write: true,
    };
    assert_eq!(map_image_acces(mask), Ok(all));
}

#[test]
fn access_buffer_only_bits_not_yet_supported() {
    assert_eq!(
        map_image_acces(vk::VK_ACCESS_INDEX_READ_BIT),
        Err(ConvError::NotYetSupported)
    );
    assert_eq!(
        map_image_acces(vk::VK_ACCESS_UNIFORM_READ_BIT | vk::VK_ACCESS_SHADER_READ_BIT),
        Err(ConvError::NotYetSupported)
    );
}

#[test]
fn access_unknown_bit_is_invalid() {
    assert_eq!(map_image_acces(0x2_0000), Err(ConvError::InvalidInput));
}
