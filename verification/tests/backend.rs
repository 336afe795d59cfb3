//! Backend selection, device enumeration and output initialization.

use compositor_core::backend::{
    device_path, session_present, Backend, BackendType, DeviceProbe, DiscoveredOutput,
    PresentationTarget, SessionEnv,
};
use compositor_core::display::{
    find_display_plane, plan_display_surface, select_display, select_display_mode,
    supports_display, DisplayMode, DisplaySurfacePlan, PhysicalDisplay,
};
use compositor_core::error::ErrorKind;
use compositor_core::renderer::{RendererInfo, Swapchain, VulkanRenderer};

fn no_session() -> SessionEnv {
    SessionEnv { session_type: None, has_session_id: false, login_name: None }
}

fn wayland_session() -> SessionEnv {
    SessionEnv { session_type: Some("wayland".to_string()), has_session_id: false, login_name: None }
}

fn probe(present: &[bool], accessible: &[bool], session: SessionEnv) -> DeviceProbe {
    DeviceProbe {
        present: present.to_vec(),
        accessible: accessible
            .iter()
            .map(|ok| if *ok { Ok(()) } else { Err("Permission denied (os error 13)".to_string()) })
            .collect(),
        session,
    }
}

fn panel(name: &str, width: u32, height: u32, target: Option<PresentationTarget>) -> DiscoveredOutput {
    DiscoveredOutput { name: name.to_string(), width, height, refresh_rate: 60, target }
}

fn two_panels(
    first: Option<PresentationTarget>,
    second: Option<PresentationTarget>,
) -> Vec<DiscoveredOutput> {
    vec![panel("eDP-1", 3840, 2160, first), panel("DP-2", 3840, 1100, second)]
}

fn renderer() -> VulkanRenderer {
    VulkanRenderer::new(RendererInfo {
        api_version: 0,
        device_name: "Test GPU".to_string(),
        vendor_id: 1,
        device_type: "CPU".to_string(),
    })
}

#[test]
fn backend_detection() {
    let backend = Backend::new(&probe(&[], &[], no_session())).expect("Failed to initialize backend");
    println!("   Backend type: {:?}", backend.backend_type());
    assert!(backend.is_initialized());
}

#[test]
fn auto_without_devices_is_windowed_twice() {
    let empty = probe(&[false; 8], &[false; 8], wayland_session());
    let first = Backend::new_with_type(BackendType::Auto, &empty).unwrap();
    let second = Backend::new_with_type(BackendType::Auto, &empty).unwrap();
    assert_eq!(first.backend_type(), BackendType::Windowed);
    assert_eq!(second.backend_type(), BackendType::Windowed);
    assert_eq!(first.drm_device_path(), None);
    assert_eq!(second.drm_device_path(), None);
}

#[test]
fn auto_selection_is_deterministic() {
    let found = probe(
        &[false, true, false, true],
        &[false, true, false, true],
        wayland_session(),
    );
    let first = Backend::new(&found).unwrap();
    let second = Backend::new(&found).unwrap();
    assert_eq!(first.backend_type(), BackendType::Drm);
    assert_eq!(second.backend_type(), BackendType::Drm);
    assert_eq!(first.drm_device_path(), Some("/dev/dri/card1"));
    assert_eq!(second.drm_device_path(), Some("/dev/dri/card1"));
}

#[test]
fn windowed_backend_has_one_synthetic_output() {
    let mut backend =
        Backend::new_with_type(BackendType::Windowed, &probe(&[], &[], no_session())).unwrap();
    assert!(backend.displays().is_empty());
    assert!(backend.primary_display().is_none());
    let mut r = renderer();
    let found = vec![panel("eDP-1", 3840, 2160, Some(PresentationTarget { surface: 5, image_count: 3 }))];
    assert_eq!(backend.initialize_displays(&mut r, &found), Ok(()));
    assert_eq!(backend.displays().len(), 1);
    let primary = backend.primary_display().unwrap();
    assert_eq!(primary.id, 0);
    assert_eq!(primary.name, "Windowed Display");
    assert_eq!((primary.width, primary.height, primary.refresh_rate), (1920, 1080, 60));
    assert!(primary.connected);
    assert_eq!(primary.vk_surface, None);
    assert_eq!(r.swapchain, None);
    assert_eq!(backend.process_events(), Ok(()));
    assert_eq!(backend.backend_type(), BackendType::Windowed);
}

#[test]
fn direct_output_degrades_without_presentation_surface() {
    let found = probe(&[true], &[true], wayland_session());
    let mut backend = Backend::new_with_type(BackendType::Drm, &found).unwrap();
    assert_eq!(backend.drm_device_path(), Some("/dev/dri/card0"));
    let mut r = renderer();
    assert_eq!(backend.initialize_displays(&mut r, &two_panels(None, None)), Ok(()));
    let displays = backend.displays();
    assert_eq!(displays.len(), 2);
    assert_eq!(displays[0].name, "eDP-1");
    assert_eq!((displays[0].id, displays[0].width, displays[0].height), (0, 3840, 2160));
    assert_eq!(displays[1].name, "DP-2");
    assert_eq!((displays[1].id, displays[1].width, displays[1].height), (1, 3840, 1100));
    assert_eq!(displays[1].refresh_rate, 60);
    assert!(displays[0].connected && displays[1].connected);
    assert_eq!(displays[0].vk_surface, None);
    assert_eq!(displays[1].vk_surface, None);
    assert_eq!(backend.primary_display().unwrap().id, 0);
    assert_eq!(r.swapchain, None);
    assert!(r.begin_frame(Some(0)).unwrap_err().is_recoverable());
    assert!(r.render_frame(0, 0, &vec![]).unwrap_err().is_recoverable());
}

#[test]
fn direct_output_binds_the_surfaces_it_gets() {
    let found = probe(&[true], &[true], wayland_session());
    let mut backend = Backend::new_with_type(BackendType::Drm, &found).unwrap();
    let mut r = renderer();
    let targets = two_panels(
        Some(PresentationTarget { surface: 11, image_count: 3 }),
        Some(PresentationTarget { surface: 0, image_count: 3 }),
    );
    assert_eq!(backend.initialize_displays(&mut r, &targets), Ok(()));
    assert_eq!(backend.displays()[0].vk_surface, Some(11));
    assert_eq!(backend.displays()[1].vk_surface, None);
    assert_eq!(
        r.swapchain,
        Some(Swapchain { surface: 11, width: 3840, height: 2160, image_count: 3 })
    );
    let both = two_panels(
        Some(PresentationTarget { surface: 11, image_count: 3 }),
        Some(PresentationTarget { surface: 12, image_count: 2 }),
    );
    backend.initialize_displays(&mut r, &both).unwrap();
    assert_eq!(backend.displays()[1].vk_surface, Some(12));
    assert_eq!(
        r.swapchain,
        Some(Swapchain { surface: 12, width: 3840, height: 1100, image_count: 2 })
    );
    let none_valid = two_panels(None, Some(PresentationTarget { surface: 12, image_count: 0 }));
    let mut fresh = renderer();
    backend.initialize_displays(&mut fresh, &none_valid).unwrap();
    assert_eq!(backend.displays()[0].vk_surface, None);
    assert_eq!(backend.displays()[1].vk_surface, None);
    assert_eq!(fresh.swapchain, None);
    let empty_extent = vec![panel("HDMI-1", 0, 1080, Some(PresentationTarget { surface: 4, image_count: 2 }))];
    backend.initialize_displays(&mut fresh, &empty_extent).unwrap();
    assert_eq!(backend.displays().len(), 1);
    assert_eq!(backend.displays()[0].vk_surface, None);
    assert!(backend.displays()[0].connected);
    backend.initialize_displays(&mut fresh, &vec![]).unwrap();
    assert!(backend.displays().is_empty());
    assert!(backend.primary_display().is_none());
    assert_eq!(fresh.swapchain, None);
}

#[test]
fn explicit_direct_output_fails_without_a_usable_card() {
    let none = probe(&[], &[], wayland_session());
    let error = Backend::new_with_type(BackendType::Drm, &none).err().unwrap();
    assert_eq!(error.kind, ErrorKind::Init);
    assert_eq!(error.message, "No DRM devices found");
    let locked = probe(&[true, true], &[false, true], wayland_session());
    let error = Backend::new_with_type(BackendType::Drm, &locked).err().unwrap();
    assert_eq!(error.kind, ErrorKind::Init);
    assert_eq!(error.message, "DRM device access failed: Permission denied (os error 13)");
    let unprobed = DeviceProbe { present: vec![true], accessible: vec![], session: wayland_session() };
    let error = Backend::new_with_type(BackendType::Drm, &unprobed).err().unwrap();
    assert_eq!(error.message, "DRM device access failed: device was not probed");
    let busy = DeviceProbe {
        present: vec![false, true, true],
        accessible: vec![Ok(()), Err("Device or resource busy (os error 16)".to_string()), Ok(())],
        session: wayland_session(),
    };
    let error = Backend::new_with_type(BackendType::Drm, &busy).err().unwrap();
    assert_eq!(error.message, "DRM device access failed: Device or resource busy (os error 16)");
    let auto = Backend::new_with_type(BackendType::Auto, &locked).unwrap();
    assert_eq!(auto.backend_type(), BackendType::Windowed);
    let open = probe(&[true, true], &[true, false], no_session());
    let direct = Backend::new_with_type(BackendType::Drm, &open).unwrap();
    assert_eq!(direct.backend_type(), BackendType::Drm);
    assert_eq!(direct.drm_device_path(), Some("/dev/dri/card0"));
}

#[test]
fn probing_rules() {
    let present = [false, true, false, false, true, false, false, true, true, true];
    let cards = Backend::enumerate_drm_devices(&probe(&present, &[], no_session()));
    assert_eq!(cards, vec![1, 4, 7]);
    assert!(Backend::enumerate_drm_devices(&probe(&[], &[], no_session())).is_empty());
    let paths: Vec<String> = cards.iter().map(|c| device_path(*c)).collect();
    assert_eq!(paths, vec!["/dev/dri/card1", "/dev/dri/card4", "/dev/dri/card7"]);
    let mut sorted = paths.clone();
    sorted.sort();
    assert_eq!(sorted, paths);
    assert_eq!(device_path(0), "/dev/dri/card0");
    assert_eq!(device_path(9), "/dev/dri/card9");
    assert_eq!(device_path(10), "/dev/dri/card10");
    assert_eq!(device_path(99), "/dev/dri/card99");
    assert_eq!(device_path(100), "/dev/dri/card100");
    assert_eq!(device_path(255), "/dev/dri/card255");

    assert!(!session_present(&no_session()));
    assert!(session_present(&wayland_session()));
    let x11 = SessionEnv { session_type: Some("x11".to_string()), ..no_session() };
    assert!(!session_present(&x11));
    assert!(session_present(&SessionEnv { has_session_id: true, ..no_session() }));
    let root = SessionEnv { login_name: Some("root".to_string()), ..no_session() };
    assert!(session_present(&root));
    let user = SessionEnv { login_name: Some("alice".to_string()), ..no_session() };
    assert!(!session_present(&user));

    assert!(!Backend::can_use_drm(&probe(&[], &[], wayland_session())));
    assert!(!Backend::can_use_drm(&probe(&[true], &[true], no_session())));
    assert!(!Backend::can_use_drm(&probe(&[true, true], &[false, false], wayland_session())));
    assert!(!Backend::can_use_drm(&probe(&[true, false], &[false, true], wayland_session())));
    assert!(Backend::can_use_drm(&probe(&[true, true], &[false, true], wayland_session())));
    assert!(!Backend::can_use_drm(&probe(&[true], &[], wayland_session())));
}

#[test]
fn display_and_mode_selection() {
    let displays = vec![
        PhysicalDisplay { handle: 1, width: 1920, height: 1080 },
        PhysicalDisplay { handle: 2, width: 3840, height: 2160 },
        PhysicalDisplay { handle: 3, width: 3840, height: 2160 },
    ];
    assert_eq!(select_display(&displays, 3840, 2160), Some(1));
    assert_eq!(select_display(&displays, 1920, 1080), Some(0));
    assert_eq!(select_display(&displays, 3840, 1100), Some(0));
    assert_eq!(select_display(&vec![], 3840, 2160), None);

    let modes = vec![
        DisplayMode { handle: 70, width: 1920, height: 1080, refresh_rate: 60_000 },
        DisplayMode { handle: 71, width: 3840, height: 2160, refresh_rate: 60_000 },
    ];
    assert_eq!(select_display_mode(&modes, 3840, 2160), Some(1));
    assert_eq!(select_display_mode(&modes, 3840, 2161), Some(0));
    assert_eq!(select_display_mode(&vec![], 1, 1), None);

    let planes = vec![vec![9u64], vec![], vec![3, 2], vec![2]];
    assert!(supports_display(&planes[2], 2));
    assert!(!supports_display(&planes[1], 2));
    assert_eq!(find_display_plane(&planes, 2), Some(2));
    assert_eq!(find_display_plane(&planes, 9), Some(0));
    assert_eq!(find_display_plane(&planes, 4), None);

    assert_eq!(
        plan_display_surface(&modes, &planes, 2, 3840, 2160),
        Ok(DisplaySurfacePlan {
            display_mode: 71,
            plane_index: 2,
            plane_stack_index: 0,
            width: 3840,
            height: 2160,
        })
    );
    assert_eq!(
        plan_display_surface(&modes, &planes, 2, 800, 600).unwrap().display_mode,
        70
    );
    let no_mode = plan_display_surface(&vec![], &planes, 2, 3840, 2160).unwrap_err();
    assert_eq!(no_mode.kind, ErrorKind::Graphics);
    assert_eq!(no_mode.message, "No suitable display mode found");
    let no_plane = plan_display_surface(&modes, &planes, 4, 3840, 2160).unwrap_err();
    assert_eq!(no_plane.kind, ErrorKind::Graphics);
    assert_eq!(no_plane.message, "No suitable display plane found for display");
}
