use resa::vulkan::pipeline::{
    decode_shaders, describe_pipeline, PipelineError, StencilState, VertexInputAttribute,
    VertexInputBinding, VkGraphicsPipeline, COLOR_COMPONENTS_RGBA, COMPARE_OP_ALWAYS,
    COMPARE_OP_LESS_OR_EQUAL, DYNAMIC_STATE_SCISSOR, DYNAMIC_STATE_VIEWPORT,
    FORMAT_R32G32B32_SFLOAT, FORMAT_R32G32_SFLOAT, FRONT_FACE_COUNTER_CLOCKWISE,
    POLYGON_MODE_FILL, SHADER_ENTRY_POINT, SPIRV_MAGIC, STENCIL_OP_KEEP, TOPOLOGY_TRIANGLE_LIST,
    VERTEX_POSITION_OFFSET, VERTEX_STRIDE, VERTEX_UV_OFFSET,
};
use resa::vulkan::physical_device::{
    DeviceClass, DeviceFeatures, PhysicalDeviceCandidate, QueueFamily,
};
use resa::log_flags::LogFlags;
use resa::sys_log::Log;
use resa::vulkan::instance::VkInstance;
use resa::vulkan::renderer::VkRenderer;
use resa::vulkan::swapchain::{Extent2D, SurfaceCapabilities, SurfaceFormat, UNDEFINED_EXTENT};

const LITTLE: [u8; 12] = [0x03, 0x02, 0x23, 0x07, 0x01, 0x00, 0x01, 0x00, 0x78, 0x56, 0x34, 0x12];
const BIG: [u8; 12] = [0x07, 0x23, 0x02, 0x03, 0x00, 0x01, 0x00, 0x01, 0x12, 0x34, 0x56, 0x78];
const WORDS: [u32; 3] = [0x0723_0203, 0x0001_0001, 0x1234_5678];

#[test]
fn shader_words_are_read_lowest_byte_first() {
    let code = decode_shaders(&LITTLE, &LITTLE[..4]).unwrap();
    assert_eq!(code.vertex, WORDS.to_vec());
    assert_eq!(code.fragment, vec![SPIRV_MAGIC]);
}

#[test]
fn both_shaders_are_entered_at_main() {
    let code = decode_shaders(&LITTLE, &BIG).unwrap();
    assert_eq!(code.entry_point, "main");
    assert_eq!(SHADER_ENTRY_POINT, "main");
}

#[test]
fn shader_words_are_read_highest_byte_first_where_the_magic_number_says_so() {
    let code = decode_shaders(&BIG, &LITTLE).unwrap();
    assert_eq!(code.vertex, WORDS.to_vec());
    assert_eq!(code.fragment, WORDS.to_vec());
}

#[test]
fn shader_of_broken_length_is_refused() {
    assert_eq!(decode_shaders(&LITTLE[..11], &LITTLE).err(), Some(PipelineError::InvalidVertexShader));
    assert_eq!(decode_shaders(&LITTLE[..5], &LITTLE).err(), Some(PipelineError::InvalidVertexShader));
    assert_eq!(decode_shaders(&[], &LITTLE).err(), Some(PipelineError::InvalidVertexShader));
}

#[test]
fn shader_without_magic_number_is_refused() {
    let wrong = [0x03, 0x02, 0x23, 0x08, 0, 0, 0, 0];
    assert_eq!(decode_shaders(&LITTLE, &wrong).err(), Some(PipelineError::InvalidFragmentShader));
    assert_eq!(decode_shaders(&LITTLE, &[]).err(), Some(PipelineError::InvalidFragmentShader));
    assert_eq!(decode_shaders(&wrong, &wrong).err(), Some(PipelineError::InvalidVertexShader));
}

#[test]
fn vertices_are_laid_out_in_one_binding() {
    let description = describe_pipeline(Extent2D { width: 800, height: 600 }, 20, 0, 12);
    assert_eq!(
        description.vertex_binding,
        VertexInputBinding { binding: 0, stride: 20, per_vertex: true }
    );
    assert_eq!(
        description.position_attribute,
        VertexInputAttribute { location: 0, binding: 0, format: FORMAT_R32G32B32_SFLOAT, offset: 0 }
    );
    assert_eq!(
        description.uv_attribute,
        VertexInputAttribute { location: 1, binding: 0, format: FORMAT_R32G32_SFLOAT, offset: 12 }
    );
    assert_eq!(FORMAT_R32G32B32_SFLOAT, 106);
    assert_eq!(FORMAT_R32G32_SFLOAT, 103);
}

#[test]
fn pipeline_state_is_fixed() {
    let size = Extent2D { width: 1024, height: 768 };
    let description = describe_pipeline(size, 32, 0, 24);
    let keep = StencilState {
        fail_op: STENCIL_OP_KEEP,
        pass_op: STENCIL_OP_KEEP,
        depth_fail_op: STENCIL_OP_KEEP,
        compare_op: COMPARE_OP_ALWAYS,
    };
    assert_eq!(description.vertex_binding.stride, 32);
    assert_eq!(description.uv_attribute.offset, 24);
    assert_eq!(description.surface_size, size);
    assert_eq!(description.topology, TOPOLOGY_TRIANGLE_LIST);
    assert_eq!(description.front_face, FRONT_FACE_COUNTER_CLOCKWISE);
    assert_eq!(description.polygon_mode, POLYGON_MODE_FILL);
    assert_eq!(description.rasterization_samples, 1);
    assert!(description.depth_test_enable);
    assert!(description.depth_write_enable);
    assert_eq!(description.depth_compare_op, COMPARE_OP_LESS_OR_EQUAL);
    assert_eq!(description.front_stencil, keep);
    assert_eq!(description.back_stencil, keep);
    assert!(!description.blend_enable);
    assert_eq!(description.color_write_mask, COLOR_COMPONENTS_RGBA);
    assert_eq!(description.first_dynamic_state, DYNAMIC_STATE_VIEWPORT);
    assert_eq!(description.second_dynamic_state, DYNAMIC_STATE_SCISSOR);
}

#[test]
fn vertex_of_single_precision_takes_twenty_bytes() {
    assert_eq!(VERTEX_POSITION_OFFSET, 0);
    assert_eq!(VERTEX_UV_OFFSET as usize, 3 * std::mem::size_of::<f32>());
    assert_eq!(VERTEX_STRIDE as usize, 5 * std::mem::size_of::<f32>());
}

#[test]
fn pipeline_keeps_its_handles() {
    let pipeline = VkGraphicsPipeline::new(vec![11, 12], 1, 2, 3).unwrap();
    assert_eq!(*pipeline.get_primary(), 11);
    assert_eq!(pipeline.get_layout(), 1);
    assert_eq!(pipeline.get_shader_modules(), (2, 3));
}

#[test]
fn pipeline_needs_a_handle() {
    assert_eq!(VkGraphicsPipeline::new(vec![], 1, 2, 3), None);
}

#[test]
fn renderer_describes_the_pipeline_for_a_new_size() {
    let candidates = vec![PhysicalDeviceCandidate {
        physical_device: 1,
        name: "gpu".to_string(),
        device_type: DeviceClass::DiscreteGpu,
        extensions: vec![],
        features: DeviceFeatures { geometry_shader: false, shader_clip_distance: true },
        queue_families: vec![QueueFamily { graphics: true, compute: true, present: true }],
    }];
    let caps = SurfaceCapabilities {
        min_image_count: 1,
        max_image_count: 0,
        current_extent: Extent2D { width: UNDEFINED_EXTENT, height: 0 },
        min_image_extent: Extent2D { width: 1, height: 1 },
        max_image_extent: Extent2D { width: 4096, height: 4096 },
        supported_transforms: 1,
        current_transform: 1,
        supported_usage_flags: 0x10,
    };
    let renderer = VkRenderer::new(
        VkInstance::new(&candidates, None).unwrap(),
        &caps,
        &vec![SurfaceFormat { format: 44, color_space: 0 }],
        &vec![],
        Extent2D { width: 640, height: 480 },
        &Log { output_path: "./Log.md".to_string(), flags: LogFlags::all() },
    )
    .0
    .unwrap();
    assert_eq!(
        renderer.recreate_pipelines(1280, 720),
        describe_pipeline(Extent2D { width: 1280, height: 720 }, 20, 0, 12)
    );
}
