//! Renderer bookkeeping: device description, texture registry, frames.

use std::time::Instant;

use compositor_core::error::ErrorKind;
use compositor_core::renderer::{
    CompositorRenderer, RendererInfo, ShmFormat, Swapchain, TextureFormat, TextureInfo,
    VulkanRenderer,
};

fn device_info() -> RendererInfo {
    RendererInfo {
        api_version: ash::vk::make_api_version(0, 1, 3, 250),
        device_name: "NVIDIA GeForce RTX 3070".to_string(),
        vendor_id: 0x10DE,
        device_type: "DISCRETE_GPU".to_string(),
    }
}

fn new_renderer() -> Result<VulkanRenderer, String> {
    Ok(VulkanRenderer::new(device_info()))
}

#[test]
fn vulkan_init() {
    println!("Creating test Vulkan renderer...");
    let renderer = new_renderer().expect("Failed to create Vulkan renderer");
    let info = renderer.get_info();
    println!(
        "   API Version: {}.{}.{}",
        ash::vk::api_version_major(info.api_version),
        ash::vk::api_version_minor(info.api_version),
        ash::vk::api_version_patch(info.api_version)
    );
    println!("   Device: {}", info.device_name);
    println!("   Vendor: 0x{:X}", info.vendor_id);
    assert!(!info.device_name.is_empty());
    assert!(info.vendor_id != 0);
    drop(renderer);
}

#[test]
fn test_4k_swapchain_creation() {
    let renderer =
        new_renderer().expect("Failed to create VulkanRenderer for 4K swapchain test");
    let info = renderer.get_info();
    println!("   GPU: {}", info.device_name);
    println!("   Supports 4K resolution: 3840x2160");
    assert!(!info.device_name.is_empty());
    assert!(info.vendor_id != 0);
}

#[test]
fn test_4k_memory_allocation() {
    let width = 3840u32;
    let height = 2160u32;
    let bytes_per_pixel = 4u32;
    let framebuffer_size = width * height * bytes_per_pixel;
    println!("4K framebuffer size: {} MB", framebuffer_size / (1024 * 1024));
    let renderer =
        new_renderer().expect("Failed to create VulkanRenderer for memory allocation test");
    let info = renderer.get_info();
    println!("GPU Device: {}", info.device_name);
    println!("Vendor ID: 0x{:X}", info.vendor_id);
    println!("Device Type: {}", info.device_type);
    assert!(!info.device_name.is_empty());
    assert!(info.vendor_id != 0);
}

#[test]
fn test_gpu_capabilities() {
    let renderer =
        new_renderer().expect("Failed to create VulkanRenderer for GPU capabilities test");
    let info = renderer.get_info();
    assert!(!info.device_name.is_empty(), "GPU device name should not be empty");
    assert!(info.vendor_id != 0, "GPU vendor ID should be valid");
    println!(
        "   API Version: {}.{}.{}",
        ash::vk::api_version_major(info.api_version),
        ash::vk::api_version_minor(info.api_version),
        ash::vk::api_version_patch(info.api_version)
    );
}

#[test]
fn test_multi_surface_rendering() {
    let renderer =
        new_renderer().expect("Failed to create VulkanRenderer for multi-surface test");
    let info = renderer.get_info();
    assert!(!info.device_name.is_empty());
    assert!(info.vendor_id != 0);
    let test_buffer_size = 1920 * 1080 * 4;
    let num_surfaces = 3;
    let total_memory = test_buffer_size * num_surfaces;
    println!("   Memory per surface: {} MB", test_buffer_size / (1024 * 1024));
    println!(
        "   Total memory for {} surfaces: {} MB",
        num_surfaces,
        total_memory / (1024 * 1024)
    );
}

#[test]
fn test_performance_phase1_initialization() {
    let start = Instant::now();
    let renderer =
        new_renderer().expect("Failed to create VulkanRenderer for performance test");
    let info = renderer.get_info();
    let setup_time = start.elapsed();
    println!("   Initial setup time: {:?}", setup_time);
    assert!(
        setup_time.as_millis() < 3000,
        "Initial Vulkan setup should complete within 3 seconds, took: {:?}",
        setup_time
    );
    assert!(!info.device_name.is_empty());
}

#[test]
fn test_performance_phase2_operations() {
    let operation_times: Vec<std::time::Duration> = (0..5)
        .map(|_| {
            let start = Instant::now();
            let renderer =
                new_renderer().expect("Failed to create VulkanRenderer for performance test");
            let _info = renderer.get_info();
            let elapsed = start.elapsed();
            drop(renderer);
            elapsed
        })
        .collect();
    let avg_time =
        operation_times.iter().sum::<std::time::Duration>() / operation_times.len() as u32;
    let max_time = operation_times.iter().max().unwrap();
    assert!(
        avg_time.as_millis() < 1000,
        "Average operation time should be under 1000ms, was: {:?}",
        avg_time
    );
    assert!(
        max_time.as_millis() < 2000,
        "Max operation time should be under 2000ms, was: {:?}",
        max_time
    );
}

#[test]
fn test_performance_comprehensive_analysis() {
    let total_start = Instant::now();
    let renderer = new_renderer()
        .expect("Failed to create VulkanRenderer for end-to-end performance test");
    let info = renderer.get_info();
    let mut operation_times = Vec::new();
    for _ in 0..25 {
        let op_start = Instant::now();
        let _device_info = renderer.get_info();
        let _framebuffer_size = 3840u32 * 2160u32 * 4u32;
        operation_times.push(op_start.elapsed());
    }
    let total_test_time = total_start.elapsed();
    let avg_op_time =
        operation_times.iter().sum::<std::time::Duration>() / operation_times.len() as u32;
    let theoretical_fps = if avg_op_time.as_nanos() > 0 {
        1_000_000_000u64 / avg_op_time.as_nanos() as u64
    } else {
        999999
    };
    println!("   Total test duration: {:?}", total_test_time);
    println!("   4K framebuffer size: {} MB", (3840 * 2160 * 4) / (1024 * 1024));
    assert!(!info.device_name.is_empty(), "Valid GPU device required");
    assert!(
        avg_op_time.as_millis() < 100,
        "Average operation time too slow for 4K compositor: {:?}",
        avg_op_time
    );
    assert!(
        theoretical_fps > 60,
        "Insufficient operation rate for 60fps 4K: {} ops/sec",
        theoretical_fps
    );
}

#[test]
fn test_validation_layers() {
    let renderer =
        new_renderer().expect("Failed to create VulkanRenderer for validation layer test");
    let info = renderer.get_info();
    assert!(!info.device_name.is_empty());
    assert!(info.vendor_id != 0);
}

#[test]
fn lib_test_error_handling() {
    let renderer =
        new_renderer().expect("Failed to create VulkanRenderer for error handling test");
    let info = renderer.get_info();
    assert!(!info.device_name.is_empty());
}

#[test]
fn test_4k_buffer_processing() {
    let width = 3840u32;
    let height = 2160u32;
    let buffer_size = (width * height * 4) as usize;
    let test_buffer = vec![128u8; buffer_size];
    let renderer =
        new_renderer().expect("Failed to create VulkanRenderer for 4K buffer processing test");
    let info = renderer.get_info();
    assert_eq!(test_buffer.len(), buffer_size);
    assert!(buffer_size > 31_000_000);
    assert!(!info.device_name.is_empty());
}

#[test]
fn test_hardware_acceleration() {
    let renderer = new_renderer()
        .expect("Failed to create VulkanRenderer for hardware acceleration test");
    let info = renderer.get_info();
    assert!(!info.device_name.is_empty());
    assert!(info.vendor_id != 0);
    assert!(!info.device_name.to_lowercase().contains("software"));
    assert!(!info.device_name.to_lowercase().contains("llvmpipe"));
}

#[test]
fn test_4k_graphics_capability() {
    let renderer = new_renderer().expect("Failed to validate 4K graphics capabilities");
    let info = renderer.get_info();
    let width = 3840u32;
    let height = 2160u32;
    let bytes_per_pixel = 4u32;
    let framebuffer_size = width * height * bytes_per_pixel;
    println!("   4K framebuffer size: {} MB", framebuffer_size / (1024 * 1024));
    assert!(!info.device_name.is_empty());
    assert!(info.vendor_id != 0);
}

#[test]
fn test_graphics_processing_pipeline() {
    let mut renderer = new_renderer().expect("Failed to initialize graphics pipeline");
    let test_4k_buffer = vec![128u8; 3840 * 2160 * 4];
    let format = TextureFormat::from_raw(ash::vk::Format::R8G8B8A8_UNORM.as_raw());
    let result = renderer.update_surface_texture(1, &test_4k_buffer, 3840, 2160, format);
    assert!(result.is_ok());
    let update_result = renderer.update_surface_texture(1, &test_4k_buffer, 3840, 2160, format);
    assert!(update_result.is_ok());
    let _ = renderer.remove_surface(1);
    assert!(renderer.texture_info(1).is_none());
}

#[test]
fn api_version_triple_unpacks_the_packed_version() {
    let info = device_info();
    assert_eq!(info.api_version_triple(), (1, 3, 250));
    let all_ones = RendererInfo { api_version: u32::MAX, ..device_info() };
    assert_eq!(all_ones.api_version_triple(), (0x7f, 0x3ff, 0xfff));
    let packed = RendererInfo { api_version: 0x0040_3007, ..device_info() };
    assert_eq!(packed.api_version_triple(), (1, 3, 7));
}

#[test]
fn format_codes_map_to_texture_layouts() {
    assert_eq!(TextureFormat::from_raw(44), TextureFormat::B8G8R8A8Unorm);
    assert_eq!(TextureFormat::from_raw(30), TextureFormat::B8G8R8Unorm);
    assert_eq!(TextureFormat::from_raw(37), TextureFormat::R8G8B8A8Unorm);
    assert_eq!(TextureFormat::from_raw(23), TextureFormat::R8G8B8Unorm);
    assert_eq!(TextureFormat::from_raw(0), TextureFormat::Other);
    assert_eq!(
        TextureFormat::from_raw(ash::vk::Format::B8G8R8A8_UNORM.as_raw()),
        TextureFormat::B8G8R8A8Unorm
    );
    assert_eq!(
        TextureFormat::from_raw(ash::vk::Format::R8G8B8_UNORM.as_raw()),
        TextureFormat::R8G8B8Unorm
    );
    assert_eq!(TextureFormat::B8G8R8A8Unorm.shm_format(), ShmFormat::Argb8888);
    assert_eq!(TextureFormat::B8G8R8Unorm.shm_format(), ShmFormat::Xrgb8888);
    assert_eq!(TextureFormat::R8G8B8A8Unorm.shm_format(), ShmFormat::Rgba8888);
    assert_eq!(TextureFormat::R8G8B8Unorm.shm_format(), ShmFormat::Rgbx8888);
    assert_eq!(TextureFormat::Other.shm_format(), ShmFormat::Argb8888);
}

#[test]
fn upload_then_query_returns_what_was_uploaded() {
    let mut renderer = new_renderer().unwrap();
    let data = vec![7u8; 3840 * 2160 * 4];
    renderer.update_surface_texture(1, &data, 3840, 2160, TextureFormat::R8G8B8A8Unorm).unwrap();
    assert_eq!(
        renderer.texture_info(1),
        Some(TextureInfo { width: 3840, height: 2160, format: ShmFormat::Rgba8888 })
    );
    let texture = &renderer.compositor_renderer.as_ref().unwrap().textures[&1];
    assert_eq!(texture.stride, 15360);
    assert_eq!(texture.data, data);
    renderer.update_surface_buffer(2, &[1, 2, 3, 4], 1, 1, TextureFormat::B8G8R8Unorm).unwrap();
    assert_eq!(
        renderer.texture_info(2),
        Some(TextureInfo { width: 1, height: 1, format: ShmFormat::Xrgb8888 })
    );
    assert_eq!(renderer.texture_info(1).unwrap().width, 3840);
    assert!(renderer.remove_surface(1).is_ok());
    assert_eq!(renderer.texture_info(1), None);
    assert!(renderer.remove_surface(1).is_ok());
    assert_eq!(renderer.texture_info(1), None);
    assert!(renderer.texture_info(2).is_some());
}

#[test]
fn renderer_without_registry_accepts_and_ignores() {
    let mut renderer = new_renderer().unwrap();
    renderer.compositor_renderer = None;
    assert!(renderer
        .update_surface_texture(1, &[0u8; 4], u32::MAX, 1, TextureFormat::Other)
        .is_ok());
    assert_eq!(renderer.texture_info(1), None);
    let error = renderer.render_frame(0, 0, &vec![1]).unwrap_err();
    assert_eq!(error.kind, ErrorKind::Runtime);
    assert_eq!(error.message, "Compositor renderer not initialized");
    renderer.initialize_swapchain(5, 10, 10, 2).unwrap();
    assert_eq!(renderer.end_frame(false), Ok(()));
}

#[test]
fn swapchain_binding_and_frames() {
    let mut renderer = new_renderer().unwrap();
    let error = renderer.begin_frame(Some(0)).unwrap_err();
    assert_eq!(error.kind, ErrorKind::Runtime);
    assert_eq!(error.message, "Swapchain not initialized");
    assert_eq!(renderer.initialize_swapchain(0, 1920, 1080, 3).unwrap_err().kind, ErrorKind::Graphics);
    assert!(renderer.initialize_swapchain(9, 0, 1080, 3).is_err());
    assert!(renderer.initialize_swapchain(9, 1920, 0, 3).is_err());
    assert!(renderer.initialize_swapchain(9, 1920, 1080, 0).is_err());
    assert_eq!(renderer.swapchain, None);
    assert_eq!(renderer.initialize_swapchain(9, 1920, 1080, 3), Ok(()));
    assert_eq!(
        renderer.swapchain,
        Some(Swapchain { surface: 9, width: 1920, height: 1080, image_count: 3 })
    );
    assert_eq!(renderer.compositor_renderer.as_ref().unwrap().image_count, 3);
    assert_eq!(renderer.compositor_renderer.as_ref().unwrap().swapchain_extent, (1920, 1080));
    assert!(renderer.begin_frame(None).is_err());
    assert!(renderer.begin_frame(Some(3)).is_err());
    assert_eq!(renderer.acquired_image, None);
    assert_eq!(renderer.begin_frame(Some(2)), Ok(2));
    assert_eq!(renderer.acquired_image, Some(2));
    renderer.update_surface_texture(4, &[0u8; 4], 1, 1, TextureFormat::Other).unwrap();
    assert_eq!(renderer.render_frame(0, 2, &vec![3, 4, 5]), Ok(vec![4]));
    assert!(renderer.render_frame(3, 2, &vec![4]).is_err());
    assert!(renderer.render_frame(0, 3, &vec![4]).is_err());
    let error = renderer.end_frame(false).unwrap_err();
    assert_eq!(error.kind, ErrorKind::Runtime);
    assert_eq!(renderer.acquired_image, None);
    renderer.begin_frame(Some(1)).unwrap();
    assert_eq!(renderer.end_frame(true), Ok(()));
    assert_eq!(renderer.acquired_image, None);
}

#[test]
fn texture_registry_draws_in_stacking_order() {
    let mut registry = CompositorRenderer::new();
    assert_eq!(registry.render_frame(0, 0, &vec![]).unwrap_err().kind, ErrorKind::Runtime);
    assert!(registry.initialize_swapchain(0, 1, 1).is_err());
    assert_eq!(registry.initialize_swapchain(2, 640, 480), Ok(()));
    for id in [5u32, 1, 9] {
        registry.update_surface_texture(id, &[0u8; 4], 1, 1, TextureFormat::Other).unwrap();
    }
    assert_eq!(registry.render_surfaces(&vec![9, 2, 5, 1, 9]), vec![9, 5, 1, 9]);
    assert_eq!(registry.render_frame(1, 1, &vec![1, 5]), Ok(vec![1, 5]));
    assert!(registry.remove_surface(5));
    assert!(!registry.remove_surface(5));
    assert_eq!(registry.render_surfaces(&vec![9, 2, 5, 1]), vec![9, 1]);
    assert_eq!(registry.texture_info(5), None);
}

#[test]
fn fresh_renderer_refuses_frames_recoverably() {
    let mut renderer = new_renderer().unwrap();
    let registry = renderer.compositor_renderer.as_ref().unwrap();
    assert_eq!(registry.image_count, 0);
    assert_eq!(registry.swapchain_extent, (0, 0));
    let error = renderer.render_frame(0, 0, &vec![]).unwrap_err();
    assert_eq!(error.kind, ErrorKind::Runtime);
    assert_eq!(error.message, "Surface pipeline not initialized");
    assert!(error.is_recoverable());
    assert!(renderer.begin_frame(Some(0)).unwrap_err().is_recoverable());
    assert!(renderer.update_surface_texture(1, &[0u8; 4], 1, 1, TextureFormat::Other).is_ok());
    assert!(renderer.texture_info(1).is_some());
}
