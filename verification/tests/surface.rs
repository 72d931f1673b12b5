use virt_core::color::Color;
use virt_core::decoder::{ToolWidgetConfig, Tools, Type, WidgetConfig};
use virt_core::error::CoreError;
use virt_core::shape::{Circle, Shape};
use virt_core::state::CoreState;
use virt_core::surface::{
    swapchain_request, Capabilities, CompositeAlpha, CoreSurface, FrameStage, PresentMode,
    SupportedCompositeAlpha, SurfaceAction, SurfaceEvent, SurfaceState, SwapchainRequest,
    WindowRequest,
};
use virt_core::util::{
    find_device_index, find_graphics_family, window_size_dependent_setup, CoreConfig,
    DynamicState, Framebuffer, PhysicalDeviceType, Viewport,
};
use virt_core::vector::Vector;
use virt_core::widget::Extent;

fn config() -> WidgetConfig {
    WidgetConfig {
        name: Some(String::from("clock")),
        width: 200,
        height: 100,
        position: [30, 40],
        color: Some(String::from("#10203040")),
        shape: None,
        tool: Some(vec![ToolWidgetConfig {
            ty: Tools::Button,
            shape: vec![0, 0, 50, 50],
            color: None,
            action: Some(virt_core::decoder::Action {
                action: String::from("echo"),
                args: Some(vec![String::from("hi")]),
                ty: Type::Clicked,
            }),
        }]),
    }
}

fn size(width: u32, height: u32) -> Extent {
    Extent { width, height }
}

fn ready() -> CoreSurface {
    let mut s = CoreSurface::new(config()).unwrap();
    let a = s.step(SurfaceEvent::Created(vec![size(200, 100), size(200, 100)]));
    assert!(matches!(a, SurfaceAction::Nothing));
    s
}

fn draw_one(s: &mut CoreSurface, image: usize) -> u64 {
    assert!(matches!(s.step(SurfaceEvent::RedrawRequested(size(200, 100))), SurfaceAction::Acquire));
    let number = match s.step(SurfaceEvent::Acquired { image, suboptimal: false }) {
        SurfaceAction::Submit(frame) => frame.number,
        other => panic!("no frame: {:?}", other),
    };
    assert!(matches!(s.step(SurfaceEvent::Presented), SurfaceAction::Presented(n) if n == number));
    number
}

#[test]
fn new_surface_is_initialized() {
    let s = CoreSurface::new(config()).unwrap();
    assert_eq!(s.state, SurfaceState::Initialized);
    assert_eq!(s.stage, FrameStage::Idle);
    assert!(s.framebuffers.is_empty());
    assert!(s.dynamic_state.viewports.is_none());
    assert_eq!(s.previous_frame_end, None);
    assert_eq!(s.frames, 0);
    assert!(!s.needs_rebuild());
}

#[test]
fn new_surface_passes_on_the_error_of_the_widget() {
    let mut bad = config();
    bad.tool.as_mut().unwrap()[0].shape = vec![0, 0, 50];
    assert_eq!(CoreSurface::new(bad).err(), Some(CoreError::InvalidShapeFormat));
}

#[test]
fn window_is_borderless_transparent_and_fixed() {
    let s = CoreSurface::new(config()).unwrap();
    assert_eq!(
        s.window_request(),
        WindowRequest {
            size: size(200, 100),
            x: 30,
            y: 40,
            decorations: false,
            transparent: true,
            resizable: false,
        }
    );
}

#[test]
fn created_makes_the_surface_ready() {
    let s = ready();
    assert_eq!(s.state, SurfaceState::Ready);
    assert_eq!(
        s.framebuffers,
        vec![
            Framebuffer { image: 0, extent: size(200, 100) },
            Framebuffer { image: 1, extent: size(200, 100) },
        ]
    );
    assert_eq!(
        s.dynamic_state.viewports,
        Some(vec![Viewport { x: 0, y: 0, dimensions: size(200, 100), min_depth: 0, max_depth: 1 }])
    );
}

#[test]
fn created_without_images_changes_nothing() {
    let mut s = CoreSurface::new(config()).unwrap();
    assert!(matches!(s.step(SurfaceEvent::Created(vec![])), SurfaceAction::Skipped));
    assert_eq!(s.state, SurfaceState::Initialized);
}

#[test]
fn created_twice_is_ignored() {
    let mut s = ready();
    assert!(matches!(s.step(SurfaceEvent::Created(vec![size(1, 1)])), SurfaceAction::Ignored));
    assert_eq!(s.framebuffers.len(), 2);
}

#[test]
fn a_frame_runs_through_acquire_submit_present() {
    let mut s = ready();
    assert!(matches!(s.step(SurfaceEvent::RedrawRequested(size(200, 100))), SurfaceAction::Acquire));
    assert_eq!(s.stage, FrameStage::Acquiring);
    match s.step(SurfaceEvent::Acquired { image: 1, suboptimal: false }) {
        SurfaceAction::Submit(frame) => {
            assert_eq!(frame.number, 1);
            assert_eq!(frame.image, 1);
            assert_eq!(frame.framebuffer, Framebuffer { image: 1, extent: size(200, 100) });
            assert_eq!(frame.clear, Color::new(0x10, 0x20, 0x30, 0x40));
            assert_eq!(frame.resolution, size(200, 100));
            assert_eq!(Ok(frame.vertices), s.widget.to_vertex_list());
            assert_eq!(frame.after, None);
        },
        other => panic!("no frame: {:?}", other),
    }
    assert_eq!(s.stage, FrameStage::Submitting);
    assert!(matches!(s.step(SurfaceEvent::Presented), SurfaceAction::Presented(1)));
    assert_eq!(s.stage, FrameStage::Idle);
    assert_eq!(s.state, SurfaceState::Ready);
    assert_eq!(s.frames, 1);
    assert_eq!(s.previous_frame_end, Some(1));
}

#[test]
fn frames_are_numbered_in_the_order_of_the_requests() {
    let mut s = ready();
    for n in 1..=20u64 {
        assert_eq!(draw_one(&mut s, (n % 2) as usize), n);
        assert_eq!(s.frames, n);
        assert_eq!(s.previous_frame_end, Some(n));
    }
}

#[test]
fn each_frame_waits_for_the_one_before() {
    let mut s = ready();
    draw_one(&mut s, 0);
    s.step(SurfaceEvent::RedrawRequested(size(200, 100)));
    match s.step(SurfaceEvent::Acquired { image: 0, suboptimal: false }) {
        SurfaceAction::Submit(frame) => {
            assert_eq!(frame.after, Some(1));
            assert_eq!(frame.number, 2);
        },
        other => panic!("no frame: {:?}", other),
    }
    assert_eq!(s.previous_frame_end, None);
}

#[test]
fn redraw_during_a_frame_is_ignored() {
    let mut s = ready();
    s.step(SurfaceEvent::RedrawRequested(size(200, 100)));
    assert!(matches!(s.step(SurfaceEvent::RedrawRequested(size(200, 100))), SurfaceAction::Ignored));
    assert_eq!(s.stage, FrameStage::Acquiring);
}

#[test]
fn events_out_of_turn_are_ignored() {
    let mut s = ready();
    assert!(matches!(s.step(SurfaceEvent::Presented), SurfaceAction::Ignored));
    assert!(matches!(s.step(SurfaceEvent::Acquired { image: 0, suboptimal: false }), SurfaceAction::Ignored));
    assert!(matches!(s.step(SurfaceEvent::Rebuilt(vec![size(1, 1)])), SurfaceAction::Ignored));
    assert!(matches!(s.step(SurfaceEvent::AcquireFailed), SurfaceAction::Ignored));
    assert!(matches!(s.step(SurfaceEvent::PresentOutOfDate), SurfaceAction::Ignored));
    assert_eq!(s.state, SurfaceState::Ready);
    assert_eq!(s.frames, 0);
}

#[test]
fn resize_asks_for_a_rebuild_at_the_next_frame() {
    let mut s = ready();
    assert!(matches!(s.step(SurfaceEvent::Resized), SurfaceAction::Nothing));
    assert!(s.needs_rebuild());
    match s.step(SurfaceEvent::RedrawRequested(size(300, 150))) {
        SurfaceAction::Rebuild(e) => assert_eq!(e, size(300, 150)),
        other => panic!("no rebuild: {:?}", other),
    }
    let images = vec![size(300, 150), size(300, 150), size(300, 150)];
    assert!(matches!(s.step(SurfaceEvent::Rebuilt(images)), SurfaceAction::Acquire));
    assert_eq!(s.state, SurfaceState::Ready);
    assert_eq!(s.stage, FrameStage::Acquiring);
    assert_eq!(s.framebuffers.len(), 3);
    assert_eq!(s.framebuffers[2], Framebuffer { image: 2, extent: size(300, 150) });
    assert_eq!(s.dynamic_state.viewports.as_ref().unwrap()[0].dimensions, size(300, 150));
}

#[test]
fn rebuilding_twice_to_the_same_size_gives_the_same_framebuffers() {
    let mut s = ready();
    let images = vec![size(300, 150), size(300, 150)];
    s.step(SurfaceEvent::Resized);
    s.step(SurfaceEvent::RedrawRequested(size(300, 150)));
    s.step(SurfaceEvent::Rebuilt(images.clone()));
    let once = (s.framebuffers.clone(), s.dynamic_state.viewports.clone());
    s.step(SurfaceEvent::Acquired { image: 0, suboptimal: false });
    s.step(SurfaceEvent::Presented);
    s.step(SurfaceEvent::Resized);
    s.step(SurfaceEvent::RedrawRequested(size(300, 150)));
    s.step(SurfaceEvent::Rebuilt(images));
    assert_eq!((s.framebuffers.clone(), s.dynamic_state.viewports.clone()), once);
    assert_eq!(once.0.len(), 2);
    assert!(once.0.iter().all(|f| f.extent == size(300, 150)));
}

#[test]
fn a_window_without_area_is_not_rebuilt() {
    let mut s = ready();
    s.step(SurfaceEvent::Resized);
    assert!(matches!(s.step(SurfaceEvent::RedrawRequested(size(0, 150))), SurfaceAction::Skipped));
    assert!(matches!(s.step(SurfaceEvent::RedrawRequested(size(300, 0))), SurfaceAction::Skipped));
    assert!(s.needs_rebuild());
    assert_eq!(s.stage, FrameStage::Idle);
    assert!(matches!(s.step(SurfaceEvent::RedrawRequested(size(300, 150))), SurfaceAction::Rebuild(_)));
}

#[test]
fn unsupported_dimensions_skip_the_frame() {
    let mut s = ready();
    s.step(SurfaceEvent::Resized);
    s.step(SurfaceEvent::RedrawRequested(size(300, 150)));
    assert!(matches!(s.step(SurfaceEvent::RebuildUnsupported), SurfaceAction::Skipped));
    assert!(s.needs_rebuild());
    assert_eq!(s.stage, FrameStage::Idle);
    assert_eq!(s.framebuffers.len(), 2);
}

#[test]
fn a_stale_chain_at_acquire_skips_the_frame() {
    let mut s = ready();
    s.step(SurfaceEvent::RedrawRequested(size(200, 100)));
    assert!(matches!(s.step(SurfaceEvent::AcquireOutOfDate), SurfaceAction::Skipped));
    assert!(s.needs_rebuild());
    assert_eq!(s.stage, FrameStage::Idle);
    assert_eq!(s.frames, 0);
}

#[test]
fn a_suboptimal_image_is_drawn_and_the_chain_rebuilt_after() {
    let mut s = ready();
    s.step(SurfaceEvent::RedrawRequested(size(200, 100)));
    assert!(matches!(
        s.step(SurfaceEvent::Acquired { image: 0, suboptimal: true }),
        SurfaceAction::Submit(_)
    ));
    assert!(s.needs_rebuild());
    assert!(matches!(s.step(SurfaceEvent::Presented), SurfaceAction::Presented(1)));
    assert!(matches!(s.step(SurfaceEvent::RedrawRequested(size(200, 100))), SurfaceAction::Rebuild(_)));
}

#[test]
fn a_stale_chain_at_present_resets_the_token() {
    let mut s = ready();
    draw_one(&mut s, 0);
    s.step(SurfaceEvent::RedrawRequested(size(200, 100)));
    s.step(SurfaceEvent::Acquired { image: 0, suboptimal: false });
    assert!(matches!(s.step(SurfaceEvent::PresentOutOfDate), SurfaceAction::Skipped));
    assert!(s.needs_rebuild());
    assert_eq!(s.previous_frame_end, None);
    assert_eq!(s.frames, 1);
}

#[test]
fn other_failures_end_the_drawing_of_the_surface() {
    let mut a = ready();
    a.step(SurfaceEvent::RedrawRequested(size(200, 100)));
    assert!(matches!(a.step(SurfaceEvent::AcquireFailed), SurfaceAction::Failed(CoreError::AcquireError)));
    assert_eq!(a.state, SurfaceState::Closed);
    assert!(a.framebuffers.is_empty());
    assert!(matches!(a.step(SurfaceEvent::RedrawRequested(size(200, 100))), SurfaceAction::Ignored));

    let mut p = ready();
    p.step(SurfaceEvent::RedrawRequested(size(200, 100)));
    p.step(SurfaceEvent::Acquired { image: 0, suboptimal: false });
    assert!(matches!(p.step(SurfaceEvent::PresentFailed), SurfaceAction::Failed(CoreError::FlushError)));
    assert_eq!(p.state, SurfaceState::Closed);

    let mut r = ready();
    r.step(SurfaceEvent::Resized);
    r.step(SurfaceEvent::RedrawRequested(size(200, 100)));
    assert!(matches!(
        r.step(SurfaceEvent::RebuildFailed),
        SurfaceAction::Failed(CoreError::SwapchainCreationError)
    ));
    assert_eq!(r.state, SurfaceState::Closed);
}

#[test]
fn an_image_that_is_not_of_the_chain_is_a_failure() {
    let mut s = ready();
    s.step(SurfaceEvent::RedrawRequested(size(200, 100)));
    assert!(matches!(
        s.step(SurfaceEvent::Acquired { image: 2, suboptimal: false }),
        SurfaceAction::Failed(CoreError::AcquireError)
    ));
    assert_eq!(s.state, SurfaceState::Closed);
}

#[test]
fn a_scene_with_a_circle_fails_at_the_frame() {
    let mut s = ready();
    s.widget.shapes.push(Shape::Circle(Circle::new(Vector::new(0, 0), Vector::new(1, 1))));
    s.step(SurfaceEvent::RedrawRequested(size(200, 100)));
    assert!(matches!(
        s.step(SurfaceEvent::Acquired { image: 0, suboptimal: false }),
        SurfaceAction::Failed(CoreError::Unimplemented)
    ));
}

#[test]
fn close_releases_everything() {
    let mut s = ready();
    draw_one(&mut s, 0);
    assert!(matches!(s.step(SurfaceEvent::CloseRequested), SurfaceAction::Release));
    assert_eq!(s.state, SurfaceState::Closed);
    assert!(s.framebuffers.is_empty());
    assert!(s.dynamic_state.viewports.is_none());
    assert_eq!(s.previous_frame_end, None);
    assert!(matches!(s.step(SurfaceEvent::CloseRequested), SurfaceAction::Ignored));
    assert!(matches!(s.step(SurfaceEvent::Resized), SurfaceAction::Nothing));
    assert_eq!(s.state, SurfaceState::Closed);
}

#[test]
fn the_frame_counter_starts_over_after_the_last_number() {
    let mut s = ready();
    s.frames = u64::MAX;
    assert_eq!(draw_one(&mut s, 0), 0);
    assert_eq!(s.frames, 0);
}

#[test]
fn cursor_positions_are_kept_two_deep() {
    let mut s = ready();
    assert_eq!((s.cur_mouse_pos, s.las_mouse_pos), (None, None));
    s.step(SurfaceEvent::CursorMoved(Vector::new(1, 1)));
    assert_eq!((s.cur_mouse_pos, s.las_mouse_pos), (Some(Vector::new(1, 1)), None));
    s.step(SurfaceEvent::CursorMoved(Vector::new(2, 2)));
    assert_eq!(
        (s.cur_mouse_pos, s.las_mouse_pos),
        (Some(Vector::new(2, 2)), Some(Vector::new(1, 1)))
    );
}

#[test]
fn release_of_the_mouse_button_runs_what_is_under_the_cursor() {
    let mut s = ready();
    assert!(s.released().is_empty());
    s.step(SurfaceEvent::CursorMoved(Vector::new(25, 25)));
    let run = s.released();
    assert_eq!(run.len(), 1);
    assert_eq!(run[0].program, "echo");
    assert_eq!(run[0].arguments, vec![String::from("hi")]);
    s.step(SurfaceEvent::CursorMoved(Vector::new(60, 60)));
    assert!(s.released().is_empty());
}

#[test]
fn swapchain_takes_the_first_format_and_the_first_blending() {
    let caps = Capabilities {
        min_image_count: 2,
        supported_formats: vec![44, 50],
        supported_composite_alpha: SupportedCompositeAlpha {
            opaque: false,
            pre_multiplied: true,
            post_multiplied: true,
            inherit: false,
        },
    };
    assert_eq!(
        swapchain_request(&caps, size(200, 100)),
        Some(SwapchainRequest {
            num_images: 2,
            format: 44,
            dimensions: size(200, 100),
            layers: 1,
            alpha: CompositeAlpha::PreMultiplied,
            mode: PresentMode::Fifo,
            clipped: true,
        })
    );
}

#[test]
fn swapchain_needs_a_format_and_a_blending() {
    let none = SupportedCompositeAlpha {
        opaque: false,
        pre_multiplied: false,
        post_multiplied: false,
        inherit: false,
    };
    assert_eq!(none.first(), None);
    let only_inherit = SupportedCompositeAlpha { inherit: true, ..none };
    assert_eq!(only_inherit.first(), Some(CompositeAlpha::Inherit));
    let all = SupportedCompositeAlpha { opaque: true, post_multiplied: true, ..only_inherit };
    assert_eq!(all.first(), Some(CompositeAlpha::Opaque));
    let post = SupportedCompositeAlpha { post_multiplied: true, ..only_inherit };
    assert_eq!(post.first(), Some(CompositeAlpha::PostMultiplied));
    let no_alpha = Capabilities {
        min_image_count: 2,
        supported_formats: vec![44],
        supported_composite_alpha: none,
    };
    assert_eq!(swapchain_request(&no_alpha, size(1, 1)), None);
    let no_format = Capabilities {
        min_image_count: 2,
        supported_formats: vec![],
        supported_composite_alpha: all,
    };
    assert_eq!(swapchain_request(&no_format, size(1, 1)), None);
}

#[test]
fn setup_makes_a_framebuffer_for_each_image() {
    let mut dynamic = DynamicState { viewports: None };
    let fbs = window_size_dependent_setup(&vec![size(4, 3), size(8, 6)], &mut dynamic);
    assert_eq!(
        fbs,
        vec![
            Framebuffer { image: 0, extent: size(4, 3) },
            Framebuffer { image: 1, extent: size(8, 6) },
        ]
    );
    assert_eq!(
        dynamic.viewports,
        Some(vec![Viewport { x: 0, y: 0, dimensions: size(4, 3), min_depth: 0, max_depth: 1 }])
    );
}

#[test]
fn device_index_is_that_of_the_first_of_the_kind() {
    let devices = vec![
        PhysicalDeviceType::Cpu,
        PhysicalDeviceType::DiscreteGpu,
        PhysicalDeviceType::IntegratedGpu,
        PhysicalDeviceType::IntegratedGpu,
    ];
    assert_eq!(find_device_index(&devices, PhysicalDeviceType::IntegratedGpu), Ok(2));
    assert_eq!(find_device_index(&devices, PhysicalDeviceType::Cpu), Ok(0));
    assert_eq!(
        find_device_index(&devices, PhysicalDeviceType::VirtualGpu),
        Err(CoreError::NoSupportedPhysicalDevice)
    );
    assert_eq!(
        find_device_index(&vec![], PhysicalDeviceType::Other),
        Err(CoreError::NoSupportedPhysicalDevice)
    );
}

#[test]
fn graphics_family_is_the_first_that_draws() {
    assert_eq!(find_graphics_family(&vec![false, true, true]), Some(1));
    assert_eq!(find_graphics_family(&vec![false, false]), None);
    assert_eq!(find_graphics_family(&vec![]), None);
}

#[test]
fn search_starts_at_the_configured_root() {
    let root = String::from("/etc/widgets");
    let with = CoreConfig { root_path: Some(root.clone()) };
    assert_eq!(with.search(), (Some(&root), "**/*.toml"));
    let without = CoreConfig { root_path: None };
    assert_eq!(without.search(), (None, "widgets/**/*.toml"));
}

#[test]
fn state_needs_an_integrated_device() {
    let state = CoreState::new(&vec![PhysicalDeviceType::Cpu, PhysicalDeviceType::IntegratedGpu])
        .ok()
        .unwrap();
    assert_eq!(state.physical_index, 1);
    assert!(state.finished());
    assert_eq!(
        CoreState::new(&vec![PhysicalDeviceType::DiscreteGpu]).err(),
        Some(CoreError::NoSupportedPhysicalDevice)
    );
}

#[test]
fn state_routes_events_by_window() {
    let mut state = CoreState::new(&vec![PhysicalDeviceType::IntegratedGpu]).ok().unwrap();
    state.insert(7, ready());
    state.insert(9, ready());
    assert!(state.contains(7));
    assert!(!state.contains(8));
    assert!(!state.finished());
    assert!(state.handle(8, SurfaceEvent::Resized).is_none());
    assert!(matches!(state.handle(7, SurfaceEvent::Resized), Some(SurfaceAction::Nothing)));
    assert!(state.surface(7).unwrap().needs_rebuild());
    assert!(!state.surface(9).unwrap().needs_rebuild());
    assert!(matches!(state.draw(9, size(200, 100)), Some(SurfaceAction::Acquire)));
    assert!(matches!(state.draw(7, size(200, 100)), Some(SurfaceAction::Rebuild(_))));
    assert!(state.draw(8, size(200, 100)).is_none());
    assert!(state.surface(8).is_none());
}

#[test]
fn state_runs_the_actions_under_the_cursor() {
    let mut state = CoreState::new(&vec![PhysicalDeviceType::IntegratedGpu]).ok().unwrap();
    state.insert(7, ready());
    assert!(state.released(7).is_empty());
    state.handle(7, SurfaceEvent::CursorMoved(Vector::new(25, 25)));
    assert_eq!(state.released(7).len(), 1);
    assert_eq!(state.released(7)[0].program, "echo");
    assert!(state.released(8).is_empty());
    state.handle(7, SurfaceEvent::CursorMoved(Vector::new(60, 60)));
    assert!(state.released(7).is_empty());
}

#[test]
fn state_ends_when_the_last_window_closes() {
    let mut state = CoreState::new(&vec![PhysicalDeviceType::IntegratedGpu]).ok().unwrap();
    state.insert(7, ready());
    state.insert(9, ready());
    assert!(matches!(state.handle(7, SurfaceEvent::CloseRequested), Some(SurfaceAction::Release)));
    assert!(!state.contains(7));
    assert!(!state.finished());
    assert!(state.handle(7, SurfaceEvent::CloseRequested).is_none());
    assert!(matches!(state.handle(9, SurfaceEvent::CloseRequested), Some(SurfaceAction::Release)));
    assert!(state.finished());
}
