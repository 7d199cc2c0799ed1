use darc_renderer::component::label::RenderPipelineLabel;
use darc_renderer::component::proxy::{BufferHandle, BufferSlice, Publication, SnapshotProxy};
use darc_renderer::render::device::{DeviceError, DeviceStatus, GraphInterfaceResource};
use darc_renderer::render::frame::{collect_frame_draws, DrawCall, FrameDriver, FramePhase};
use darc_renderer::render::surface::{
    CompositeAlphaMode, FrameDirective, PhysicalSize, PresentMode, SurfaceCapabilities,
    SurfaceError, SurfaceState, TextureFormat, EXIT_GPU_FAILURE,
};
use darc_renderer::render::windows::holds_window;

fn frame_capabilities() -> SurfaceCapabilities {
    SurfaceCapabilities {
        formats: vec![TextureFormat { code: 1 }],
        present_modes: vec![PresentMode::Fifo],
        alpha_modes: vec![CompositeAlphaMode::Auto],
    }
}

fn resource_with(windows: &[u64]) -> GraphInterfaceResource {
    let mut resource = GraphInterfaceResource::new(false);
    resource.on_adapter(true).unwrap();
    resource.on_device(true).unwrap();
    for window in windows {
        resource
            .attach_window(*window, &frame_capabilities(), PhysicalSize { width: 800, height: 800 })
            .unwrap();
    }
    resource
}

fn proxy(
    tick: u64,
    pipeline: Vec<RenderPipelineLabel<'static>>,
    buffer: u64,
    end: u64,
) -> SnapshotProxy<'static> {
    let mut proxy = SnapshotProxy::new();
    proxy.publish(Publication {
        tick,
        pipeline,
        vertex_buffer: BufferHandle { id: buffer },
        buffer_slice: BufferSlice { start: 0, end },
    });
    proxy
}

fn draw(pipeline: usize, primitive: usize, buffer: u64, end: u64) -> DrawCall {
    DrawCall {
        pipeline,
        primitive,
        vertex_buffer: BufferHandle { id: buffer },
        buffer_slice: BufferSlice { start: 0, end },
    }
}

#[test]
fn one_window_one_primitive_one_frame() {
    let mut resource = resource_with(&[1]);
    let proxies = vec![proxy(1, vec![RenderPipelineLabel::SimpleVertexColor], 42, 72)];
    let pipelines = vec![RenderPipelineLabel::SimpleVertexColor];
    let mut driver = FrameDriver::new();
    assert_eq!(driver.frame_count(), 0);

    let mut acquires = 0;
    let mut submits = 0;
    let mut presents = 0;

    let targets = driver.begin(&resource);
    assert_eq!(targets, vec![1]);
    assert_eq!(driver.current_phase(), FramePhase::Acquiring);
    for window in targets {
        acquires += 1;
        assert_eq!(driver.acquired(&mut resource, window, Ok(())), FrameDirective::Render);
    }
    let commands = driver.encode(&pipelines, &proxies).expect("one texture was acquired");
    assert_eq!(driver.current_phase(), FramePhase::Encoded);
    submits += 1;
    assert_eq!(commands.passes.len(), 1);
    assert_eq!(commands.passes[0].target, 1);
    assert_eq!(commands.passes[0].draws, vec![draw(0, 0, 42, 72)]);
    for window in driver.submitted() {
        assert_eq!(window, 1);
        presents += 1;
    }
    assert_eq!(driver.current_phase(), FramePhase::Submitted);
    assert_eq!(driver.presented(), 1);

    assert_eq!((acquires, submits, presents), (1, 1, 1));
    assert_eq!(driver.frame_count(), 1);
    assert_eq!(driver.current_phase(), FramePhase::Idle);
}

#[test]
fn a_lost_surface_is_reconfigured_once_and_the_frame_is_presented() {
    let mut resource = resource_with(&[1]);
    let proxies: Vec<SnapshotProxy<'static>> = Vec::new();
    let mut driver = FrameDriver::new();
    assert_eq!(driver.begin(&resource), vec![1]);
    let mut reconfigures = 0;
    let mut outcomes = vec![Ok(()), Err(SurfaceError::Lost)];
    loop {
        match driver.acquired(&mut resource, 1, outcomes.pop().unwrap()) {
            FrameDirective::ReconfigureAndRetry(config) => {
                assert_eq!((config.width, config.height), (800, 800));
                reconfigures += 1;
            }
            FrameDirective::Render => break,
            other => panic!("unexpected directive {:?}", other),
        }
    }
    assert_eq!(reconfigures, 1);
    assert!(outcomes.is_empty());
    let commands = driver.encode(&[], &proxies).unwrap();
    assert_eq!(commands.passes.len(), 1);
    assert!(commands.passes[0].draws.is_empty());
    assert_eq!(driver.submitted(), vec![1]);
    assert_eq!(driver.presented(), 1);
}

#[test]
fn a_window_lost_twice_is_retired_and_never_presented_again() {
    let mut resource = resource_with(&[1]);
    let proxies: Vec<SnapshotProxy<'static>> = Vec::new();
    let mut driver = FrameDriver::new();
    driver.begin(&resource);
    assert!(matches!(
        driver.acquired(&mut resource, 1, Err(SurfaceError::Lost)),
        FrameDirective::ReconfigureAndRetry(_)
    ));
    assert_eq!(driver.acquired(&mut resource, 1, Err(SurfaceError::Lost)), FrameDirective::Retire);
    assert_eq!(resource.surface_state(1), Some(SurfaceState::Retired));
    assert!(driver.encode(&[], &proxies).is_none());
    assert_eq!(driver.current_phase(), FramePhase::Idle);
    assert!(driver.submitted().is_empty());
    assert_eq!(driver.frame_count(), 0);

    for _ in 0..3 {
        assert!(driver.begin(&resource).is_empty());
        assert_eq!(driver.current_phase(), FramePhase::Idle);
        assert_eq!(driver.acquired(&mut resource, 1, Ok(())), FrameDirective::Skip);
        assert!(driver.encode(&[], &proxies).is_none());
        assert!(driver.submitted().is_empty());
    }
    assert_eq!(driver.frame_count(), 0);
}

#[test]
fn a_timeout_drops_the_frame_of_that_surface_only() {
    let mut resource = resource_with(&[1, 2]);
    let proxies: Vec<SnapshotProxy<'static>> = Vec::new();
    let mut driver = FrameDriver::new();
    let mut targets = driver.begin(&resource);
    targets.sort();
    assert_eq!(targets, vec![1, 2]);
    assert_eq!(driver.acquired(&mut resource, 1, Err(SurfaceError::Timeout)), FrameDirective::Skip);
    assert_eq!(driver.acquired(&mut resource, 2, Ok(())), FrameDirective::Render);
    let commands = driver.encode(&[], &proxies).unwrap();
    assert_eq!(commands.passes.len(), 1);
    assert_eq!(commands.passes[0].target, 2);
    assert_eq!(driver.submitted(), vec![2]);
    assert_eq!(driver.presented(), 1);

    let mut targets = driver.begin(&resource);
    targets.sort();
    assert_eq!(targets, vec![1, 2]);
}

#[test]
fn one_command_buffer_serves_every_surface() {
    let mut resource = resource_with(&[5, 6, 7]);
    let proxies = vec![proxy(3, vec![RenderPipelineLabel::BasePass], 11, 24)];
    let pipelines = vec![RenderPipelineLabel::BasePass];
    let mut driver = FrameDriver::new();
    let targets = driver.begin(&resource);
    assert_eq!(targets.len(), 3);
    for window in [7u64, 5, 6] {
        assert_eq!(driver.acquired(&mut resource, window, Ok(())), FrameDirective::Render);
    }
    let commands = driver.encode(&pipelines, &proxies).unwrap();
    let passes: Vec<u64> = commands.passes.iter().map(|pass| pass.target).collect();
    assert_eq!(passes, vec![7, 5, 6]);
    for pass in &commands.passes {
        assert_eq!(pass.draws, vec![draw(0, 0, 11, 24)]);
    }
    assert_eq!(driver.submitted(), vec![7, 5, 6]);
    assert_eq!(driver.presented(), 1);
}

#[test]
fn draws_are_grouped_by_pipeline_and_misses_are_passed_over() {
    let custom = RenderPipelineLabel::Custom("outline");
    let proxies = vec![
        proxy(1, vec![RenderPipelineLabel::BasePass, custom], 10, 100),
        SnapshotProxy::new(),
        proxy(1, vec![custom], 12, 300),
        proxy(1, vec![RenderPipelineLabel::SimpleVertexColor, RenderPipelineLabel::BasePass], 13, 400),
    ];
    let pipelines = vec![
        RenderPipelineLabel::SimpleVertexColor,
        RenderPipelineLabel::BasePass,
        RenderPipelineLabel::Custom("shadow"),
        RenderPipelineLabel::Custom("outline"),
    ];
    assert_eq!(
        collect_frame_draws(&pipelines, &proxies),
        vec![
            draw(0, 3, 13, 400),
            draw(1, 0, 10, 100),
            draw(1, 3, 13, 400),
            draw(3, 0, 10, 100),
            draw(3, 2, 12, 300),
        ]
    );
    assert!(collect_frame_draws(&[], &proxies).is_empty());
    let none: Vec<SnapshotProxy<'static>> = Vec::new();
    assert!(collect_frame_draws(&pipelines, &none).is_empty());
}

#[test]
fn steps_out_of_order_do_nothing() {
    let mut resource = resource_with(&[1]);
    let proxies: Vec<SnapshotProxy<'static>> = Vec::new();
    let mut driver = FrameDriver::new();
    assert!(driver.encode(&[], &proxies).is_none());
    assert!(driver.submitted().is_empty());
    assert_eq!(driver.presented(), 0);
    assert_eq!(driver.acquired(&mut resource, 1, Ok(())), FrameDirective::Skip);
    assert_eq!(driver.current_phase(), FramePhase::Idle);

    assert_eq!(driver.begin(&resource), vec![1]);
    assert!(driver.begin(&resource).is_empty());
    assert!(driver.submitted().is_empty());
    assert_eq!(driver.presented(), 0);
    assert_eq!(driver.current_phase(), FramePhase::Acquiring);

    assert_eq!(driver.acquired(&mut resource, 1, Ok(())), FrameDirective::Render);
    assert_eq!(driver.acquired(&mut resource, 1, Ok(())), FrameDirective::Skip);
    assert_eq!(driver.acquired(&mut resource, 2, Ok(())), FrameDirective::Skip);
    assert!(driver.encode(&[], &proxies).is_some());
    assert!(driver.encode(&[], &proxies).is_none());
    assert_eq!(driver.presented(), 0);
    assert_eq!(driver.acquired(&mut resource, 1, Ok(())), FrameDirective::Skip);
    assert_eq!(driver.submitted(), vec![1]);
    assert!(driver.submitted().is_empty());
    assert_eq!(driver.presented(), 1);
    assert_eq!(driver.presented(), 1);
}

#[test]
fn without_a_configured_surface_no_frame_begins() {
    let resource = resource_with(&[]);
    let mut driver = FrameDriver::new();
    assert!(driver.begin(&resource).is_empty());
    assert_eq!(driver.current_phase(), FramePhase::Idle);
    assert_eq!(driver.frame_count(), 0);
}

#[test]
fn out_of_memory_at_acquisition_gives_the_frame_up() {
    let mut resource = resource_with(&[1, 2]);
    let proxies: Vec<SnapshotProxy<'static>> = Vec::new();
    let mut driver = FrameDriver::new();
    driver.begin(&resource);
    assert_eq!(driver.acquired(&mut resource, 1, Ok(())), FrameDirective::Render);
    assert_eq!(
        driver.acquired(&mut resource, 2, Err(SurfaceError::OutOfMemory)),
        FrameDirective::Exit(EXIT_GPU_FAILURE)
    );
    assert_eq!(driver.current_phase(), FramePhase::Idle);
    assert!(driver.encode(&[], &proxies).is_none());
    assert!(driver.submitted().is_empty());
    assert!(driver.begin(&resource).is_empty());
    assert_eq!(driver.frame_count(), 0);
    assert_eq!(resource.device_status(), DeviceStatus::Failed(DeviceError::OutOfMemory));
}

#[test]
fn out_of_memory_at_submission_gives_the_frame_up() {
    let mut resource = resource_with(&[1]);
    let proxies: Vec<SnapshotProxy<'static>> = Vec::new();
    let mut driver = FrameDriver::new();
    driver.begin(&resource);
    driver.acquired(&mut resource, 1, Ok(()));
    assert!(driver.encode(&[], &proxies).is_some());
    assert_eq!(driver.out_of_memory(&mut resource), FrameDirective::Exit(EXIT_GPU_FAILURE));
    assert_ne!(EXIT_GPU_FAILURE, 0);
    assert_eq!(driver.current_phase(), FramePhase::Idle);
    assert!(driver.submitted().is_empty());
    assert_eq!(driver.presented(), 0);
    assert!(driver.begin(&resource).is_empty());
    assert_eq!(resource.surface_state(1), Some(SurfaceState::Retired));
}

#[test]
fn holds_window_finds_what_is_there() {
    assert!(holds_window(&vec![4, 9, 2], 2));
    assert!(holds_window(&vec![4, 9, 2], 4));
    assert!(!holds_window(&vec![4, 9, 2], 3));
    assert!(!holds_window(&vec![], 0));
}
