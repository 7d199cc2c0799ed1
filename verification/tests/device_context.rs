use darc_renderer::render::device::{
    adapter_request, device_request, AdapterRequest, DeviceError, DeviceRequest, DeviceStatus,
    GraphInterfaceResource, LimitProfile, PowerPreference,
};
use darc_renderer::render::surface::{
    CompositeAlphaMode, FrameDirective, PhysicalSize, PresentMode, SurfaceCapabilities,
    SurfaceConfiguration, SurfaceError, SurfaceState, TextureFormat, EXIT_GPU_FAILURE,
    EXIT_SUCCESS, RENDER_ATTACHMENT,
};

fn device_capabilities(first_format: u32) -> SurfaceCapabilities {
    SurfaceCapabilities {
        formats: vec![TextureFormat { code: first_format }, TextureFormat { code: 99 }],
        present_modes: vec![PresentMode::Immediate],
        alpha_modes: vec![CompositeAlphaMode::PreMultiplied, CompositeAlphaMode::Opaque],
    }
}

fn config(first_format: u32, width: u32, height: u32) -> SurfaceConfiguration {
    SurfaceConfiguration {
        usage: RENDER_ATTACHMENT,
        format: TextureFormat { code: first_format },
        width,
        height,
        present_mode: PresentMode::Fifo,
        alpha_mode: CompositeAlphaMode::PreMultiplied,
    }
}

fn ready() -> GraphInterfaceResource {
    let mut resource = GraphInterfaceResource::new(false);
    assert!(resource.on_adapter(true).is_ok());
    assert_eq!(resource.on_device(true), Ok(()));
    resource
}

fn sorted(mut windows: Vec<u64>) -> Vec<u64> {
    windows.sort();
    windows
}

#[test]
fn the_adapter_request_is_for_high_performance_without_fallback() {
    assert_eq!(
        adapter_request(Some(7)),
        AdapterRequest {
            power_preference: PowerPreference::HighPerformance,
            compatible_surface: Some(7),
            force_fallback_adapter: false,
        }
    );
    assert_eq!(adapter_request(None).compatible_surface, None);
}

#[test]
fn the_device_request_has_reduced_limits_on_a_constrained_host() {
    assert_eq!(
        device_request(false),
        DeviceRequest { features: 0, limits: LimitProfile::Default }
    );
    assert_eq!(
        device_request(true),
        DeviceRequest { features: 0, limits: LimitProfile::DownlevelWebgl2 }
    );
}

#[test]
fn startup_goes_from_adapter_to_device_to_ready() {
    let mut resource = GraphInterfaceResource::new(true);
    assert_eq!(resource.device_status(), DeviceStatus::Uninitialized);
    assert_eq!(
        resource.on_adapter(true),
        Ok(DeviceRequest { features: 0, limits: LimitProfile::DownlevelWebgl2 })
    );
    assert_eq!(resource.device_status(), DeviceStatus::AdapterSelected);
    assert_eq!(resource.on_device(true), Ok(()));
    assert_eq!(resource.device_status(), DeviceStatus::Ready);
    assert_eq!(resource.on_device(false), Ok(()));
    assert_eq!(resource.device_status(), DeviceStatus::Ready);
}

#[test]
fn no_adapter_is_fatal() {
    let mut resource = GraphInterfaceResource::new(false);
    assert_eq!(resource.on_adapter(false), Err(DeviceError::NoCompatibleAdapter));
    assert_eq!(
        resource.device_status(),
        DeviceStatus::Failed(DeviceError::NoCompatibleAdapter)
    );
    assert_eq!(resource.on_adapter(true), Err(DeviceError::NoCompatibleAdapter));
    assert_eq!(resource.on_device(true), Err(DeviceError::NoCompatibleAdapter));
    assert_eq!(DeviceError::NoCompatibleAdapter.exit_code(), EXIT_GPU_FAILURE);
}

#[test]
fn a_refused_device_is_fatal() {
    let mut resource = GraphInterfaceResource::new(false);
    assert!(resource.on_adapter(true).is_ok());
    assert_eq!(resource.on_device(false), Err(DeviceError::DeviceRequestFailed));
    assert_eq!(
        resource.device_status(),
        DeviceStatus::Failed(DeviceError::DeviceRequestFailed)
    );
    assert_eq!(resource.on_device(true), Err(DeviceError::DeviceRequestFailed));
    assert_eq!(DeviceError::DeviceRequestFailed.exit_code(), 1);
    assert_ne!(DeviceError::DeviceRequestFailed.exit_code(), EXIT_SUCCESS);
}

#[test]
fn a_device_answer_before_any_adapter_changes_nothing() {
    let mut resource = GraphInterfaceResource::new(false);
    assert_eq!(resource.on_device(true), Err(DeviceError::NoCompatibleAdapter));
    assert_eq!(resource.device_status(), DeviceStatus::Uninitialized);
}

#[test]
fn a_window_is_paired_only_with_a_ready_device() {
    let mut resource = GraphInterfaceResource::new(false);
    let size = PhysicalSize { width: 800, height: 800 };
    assert_eq!(resource.attach_window(1, &device_capabilities(5), size), None);
    assert_eq!(resource.surface_state(1), None);
    assert!(resource.frame_targets().is_empty());

    let mut resource = ready();
    assert_eq!(resource.surface_state(1), None);
    assert_eq!(resource.attach_window(1, &device_capabilities(5), size), Some(config(5, 800, 800)));
    assert_eq!(
        resource.surface_state(1),
        Some(SurfaceState::Configured(config(5, 800, 800)))
    );
    assert_eq!(resource.surface_state(2), None);
    assert_eq!(resource.frame_targets(), vec![1]);
}

#[test]
fn attaching_a_window_again_replaces_its_surface() {
    let mut resource = ready();
    resource.attach_window(1, &device_capabilities(5), PhysicalSize { width: 800, height: 800 });
    resource.acquired(1, Err(SurfaceError::Lost));
    assert_eq!(
        resource.attach_window(1, &device_capabilities(6), PhysicalSize { width: 10, height: 20 }),
        Some(config(6, 10, 20))
    );
    assert_eq!(resource.surface_state(1), Some(SurfaceState::Configured(config(6, 10, 20))));
    assert_eq!(resource.frame_targets(), vec![1]);
}

#[test]
fn every_configured_window_is_a_frame_target_once() {
    let mut resource = ready();
    for window in [40u64, 3, 17, 8, 1000] {
        resource.attach_window(
            window,
            &device_capabilities(window as u32),
            PhysicalSize { width: 100, height: 50 },
        );
    }
    assert_eq!(sorted(resource.frame_targets()), vec![3, 8, 17, 40, 1000]);

    assert_eq!(
        resource.acquired(17, Err(SurfaceError::Lost)),
        FrameDirective::ReconfigureAndRetry(config(17, 100, 50))
    );
    assert_eq!(sorted(resource.frame_targets()), vec![3, 8, 40, 1000]);
    assert_eq!(resource.acquired(17, Err(SurfaceError::Lost)), FrameDirective::Retire);
    assert_eq!(resource.surface_state(17), Some(SurfaceState::Retired));
    assert_eq!(sorted(resource.frame_targets()), vec![3, 8, 40, 1000]);
    assert_eq!(resource.acquired(17, Ok(())), FrameDirective::Skip);
}

#[test]
fn resize_of_one_window_leaves_the_others() {
    let mut resource = ready();
    resource.attach_window(1, &device_capabilities(5), PhysicalSize { width: 800, height: 800 });
    resource.attach_window(2, &device_capabilities(6), PhysicalSize { width: 640, height: 480 });
    assert_eq!(
        resource.resize(2, PhysicalSize { width: 320, height: 240 }),
        Some(config(6, 320, 240))
    );
    assert_eq!(resource.surface_state(1), Some(SurfaceState::Configured(config(5, 800, 800))));
    assert_eq!(resource.surface_state(2), Some(SurfaceState::Configured(config(6, 320, 240))));
    assert_eq!(resource.resize(3, PhysicalSize { width: 1, height: 1 }), None);
    assert_eq!(resource.surface_state(3), None);
}

#[test]
fn resize_to_the_current_size_changes_no_bit_of_the_configuration() {
    let mut resource = ready();
    resource.attach_window(1, &device_capabilities(5), PhysicalSize { width: 800, height: 800 });
    let before = resource.surface_state(1);
    assert_eq!(resource.resize(1, PhysicalSize { width: 800, height: 800 }), None);
    assert_eq!(resource.surface_state(1), before);
    assert_eq!(
        resource.resize(1, PhysicalSize { width: 801, height: 800 }),
        Some(config(5, 801, 800))
    );
    assert_eq!(resource.resize(1, PhysicalSize { width: 801, height: 800 }), None);
    assert_eq!(resource.surface_state(1), Some(SurfaceState::Configured(config(5, 801, 800))));
}

#[test]
fn a_report_on_an_unknown_window_is_passed_over() {
    let mut resource = ready();
    resource.attach_window(1, &device_capabilities(5), PhysicalSize { width: 800, height: 800 });
    assert_eq!(resource.acquired(2, Ok(())), FrameDirective::Skip);
    assert_eq!(resource.acquired(2, Err(SurfaceError::Lost)), FrameDirective::Skip);
    assert_eq!(resource.surface_state(2), None);
    assert_eq!(resource.frame_targets(), vec![1]);
}

#[test]
fn out_of_memory_ends_all_frame_processing() {
    let mut resource = ready();
    resource.attach_window(1, &device_capabilities(5), PhysicalSize { width: 800, height: 800 });
    resource.attach_window(2, &device_capabilities(6), PhysicalSize { width: 640, height: 480 });
    assert_eq!(
        resource.acquired(1, Err(SurfaceError::OutOfMemory)),
        FrameDirective::Exit(EXIT_GPU_FAILURE)
    );
    assert_eq!(resource.device_status(), DeviceStatus::Failed(DeviceError::OutOfMemory));
    assert_eq!(resource.surface_state(1), Some(SurfaceState::Retired));
    assert_eq!(resource.surface_state(2), Some(SurfaceState::Retired));
    assert!(resource.frame_targets().is_empty());
    assert_eq!(resource.acquired(2, Ok(())), FrameDirective::Skip);
    assert_eq!(resource.acquired(1, Err(SurfaceError::Lost)), FrameDirective::Skip);
    assert_eq!(
        resource.attach_window(3, &device_capabilities(7), PhysicalSize { width: 1, height: 1 }),
        None
    );
    assert_eq!(DeviceError::OutOfMemory.exit_code(), EXIT_GPU_FAILURE);
    assert_ne!(EXIT_GPU_FAILURE, EXIT_SUCCESS);
}

#[test]
fn out_of_memory_outside_an_acquisition_is_as_final() {
    let mut resource = ready();
    resource.attach_window(9, &device_capabilities(5), PhysicalSize { width: 800, height: 800 });
    assert_eq!(resource.out_of_memory(), FrameDirective::Exit(1));
    assert_eq!(resource.surface_state(9), Some(SurfaceState::Retired));
    assert!(resource.frame_targets().is_empty());

    let mut unknown = ready();
    assert_eq!(
        unknown.acquired(5, Err(SurfaceError::OutOfMemory)),
        FrameDirective::Exit(EXIT_GPU_FAILURE)
    );
    assert_eq!(unknown.device_status(), DeviceStatus::Failed(DeviceError::OutOfMemory));
}
