use vstd::prelude::*;
use crate::action::{Action, ActionView};
use crate::color::Color;
use crate::decoder::WidgetConfig;
use crate::error::CoreError;
use crate::util::{
    framebuffers_of,
    viewport_of,
    window_size_dependent_setup,
    DynamicState,
    Framebuffer,
    Viewport,
};
use crate::vector::Vector;
use crate::widget::{fired, widget_of, Extent, Widget, WidgetView};

verus! {

/// Where a surface is in its life.
#[derive(Debug, Clone, Copy, PartialEq, Eq, Structural)]
pub enum SurfaceState {
    /// The scene is built; there is no presentation chain yet.
    Initialized,
    /// The presentation chain fits the window.
    Ready,
    /// The presentation chain is stale and is made anew before the next frame.
    NeedsRebuild,
    /// The surface has given up its resources and draws no more.
    Closed,
}

/// What a surface is waiting for within a frame.
#[derive(Debug, Clone, Copy, PartialEq, Eq, Structural)]
pub enum FrameStage {
    /// No frame is under way.
    Idle,
    /// The presentation chain is being made anew.
    Rebuilding,
    /// An image is being acquired.
    Acquiring,
    /// The frame has been handed over and its fate is awaited.
    Submitting,
}

/// One frame to record, submit and present.
#[derive(Debug, Clone)]
pub struct Frame {
    /// The number of the frame: the frames of a surface are numbered from 1
    /// in the order in which they are presented.
    pub number: u64,
    /// The acquired image, by its place in the presentation chain.
    pub image: usize,
    /// The render target to draw to.
    pub framebuffer: Framebuffer,
    /// The colour to clear the render target to.
    pub clear: Color,
    /// The size of the scene, by which the vertices are projected.
    pub resolution: Extent,
    /// The vertices to draw as a list of triangles, in widget-local units.
    pub vertices: Vec<Vector>,
    /// The frame whose completion this one has to wait for, beside the
    /// acquisition of the image; none when nothing is in flight.
    pub after: Option<u64>,
}

/// What a `Frame` holds, as plain values.
pub struct FrameView {
    pub number: u64,
    pub image: usize,
    pub framebuffer: Framebuffer,
    pub clear: Color,
    pub resolution: Extent,
    pub vertices: Seq<Vector>,
    pub after: Option<u64>,
}

impl View for Frame {
    type V = FrameView;

    open spec fn view(&self) -> FrameView {
        FrameView {
            number: self.number,
            image: self.image,
            framebuffer: self.framebuffer,
            clear: self.clear,
            resolution: self.resolution,
            vertices: self.vertices@,
            after: self.after,
        }
    }
}

/// What happened to a surface or to the work that it asked for.
#[derive(Debug, Clone)]
pub enum SurfaceEvent {
    /// The window and its presentation chain exist; the sizes of the images
    /// of the chain are given.
    Created(Vec<Extent>),
    /// The window changed size.
    Resized,
    /// The cursor moved to a point of the window, in widget-local units.
    CursorMoved(Vector),
    /// The window asks to be drawn; its current size is given.
    RedrawRequested(Extent),
    /// The presentation chain was made anew, with images of these sizes.
    Rebuilt(Vec<Extent>),
    /// The presentation chain cannot be made for the size of the window.
    RebuildUnsupported,
    /// Making the presentation chain anew failed for another reason.
    RebuildFailed,
    /// An image was acquired.
    Acquired { image: usize, suboptimal: bool },
    /// No image was acquired because the presentation chain is stale.
    AcquireOutOfDate,
    /// No image was acquired for another reason.
    AcquireFailed,
    /// The frame was submitted and its presentation is scheduled.
    Presented,
    /// The frame was not presented because the presentation chain is stale.
    PresentOutOfDate,
    /// The frame was not submitted or presented for another reason.
    PresentFailed,
    /// The window asks to be closed.
    CloseRequested,
}

/// What the caller has to do next for a surface.
#[derive(Debug, Clone)]
pub enum SurfaceAction {
    /// Nothing.
    Nothing,
    /// Nothing: the event does not fit the state of the surface, which is
    /// unchanged.
    Ignored,
    /// Make the presentation chain anew for a window of this size, and
    /// report `Rebuilt`, `RebuildUnsupported` or `RebuildFailed`.
    Rebuild(Extent),
    /// Acquire the next image, and report `Acquired`, `AcquireOutOfDate` or
    /// `AcquireFailed`.
    Acquire,
    /// Record, submit and present this frame, and report `Presented`,
    /// `PresentOutOfDate` or `PresentFailed`.
    Submit(Frame),
    /// Nothing: the frame with this number is on its way to the screen.
    Presented(u64),
    /// Nothing: the frame was given up and the next request to draw tries again.
    Skipped,
    /// Give up the resources of the surface and tell of this failure: the
    /// surface draws no more.
    Failed(CoreError),
    /// Give up the resources of the surface: it is closed.
    Release,
}

/// What a `SurfaceAction` holds, as plain values.
pub enum SurfaceActionView {
    Nothing,
    Ignored,
    Rebuild(Extent),
    Acquire,
    Submit(FrameView),
    Presented(u64),
    Skipped,
    Failed(CoreError),
    Release,
}

impl View for SurfaceAction {
    type V = SurfaceActionView;

    open spec fn view(&self) -> SurfaceActionView {
        match *self {
            SurfaceAction::Nothing => SurfaceActionView::Nothing,
            SurfaceAction::Ignored => SurfaceActionView::Ignored,
            SurfaceAction::Rebuild(size) => SurfaceActionView::Rebuild(size),
            SurfaceAction::Acquire => SurfaceActionView::Acquire,
            SurfaceAction::Submit(frame) => SurfaceActionView::Submit(frame@),
            SurfaceAction::Presented(n) => SurfaceActionView::Presented(n),
            SurfaceAction::Skipped => SurfaceActionView::Skipped,
            SurfaceAction::Failed(e) => SurfaceActionView::Failed(e),
            SurfaceAction::Release => SurfaceActionView::Release,
        }
    }
}

/// The state of one window's drawing: its scene, the render targets of its
/// presentation chain, and how far the frame under way has come.
#[derive(Debug, Clone)]
pub struct CoreSurface {
    pub widget: Widget,
    pub state: SurfaceState,
    pub stage: FrameStage,
    pub dynamic_state: DynamicState,
    pub framebuffers: Vec<Framebuffer>,
    /// The number of the frame that was presented last and may still be in
    /// flight; none when there is nothing to wait for.
    pub previous_frame_end: Option<u64>,
    /// How many frames have been presented.
    pub frames: u64,
    pub cur_mouse_pos: Option<Vector>,
    pub las_mouse_pos: Option<Vector>,
}

/// What a `CoreSurface` holds, as plain values.
pub struct SurfaceView {
    pub widget: WidgetView,
    pub state: SurfaceState,
    pub stage: FrameStage,
    pub viewports: Option<Seq<Viewport>>,
    pub framebuffers: Seq<Framebuffer>,
    pub previous_frame_end: Option<u64>,
    pub frames: u64,
    pub cur_mouse_pos: Option<Vector>,
    pub las_mouse_pos: Option<Vector>,
}

impl View for CoreSurface {
    type V = SurfaceView;

    open spec fn view(&self) -> SurfaceView {
        SurfaceView {
            widget: self.widget@,
            state: self.state,
            stage: self.stage,
            viewports: match self.dynamic_state.viewports {
                Some(v) => Some(v@),
                None => None,
            },
            framebuffers: self.framebuffers@,
            previous_frame_end: self.previous_frame_end,
            frames: self.frames,
            cur_mouse_pos: self.cur_mouse_pos,
            las_mouse_pos: self.las_mouse_pos,
        }
    }
}

/// The number of the frame after frame `n`. The numbers start over after
/// the last one that can be held.
pub open spec fn next_frame(n: u64) -> u64 {
    if n == u64::MAX {
        0
    } else {
        (n + 1) as u64
    }
}

impl SurfaceView {
    /// The surface that the scene `widget` starts as.
    pub open spec fn initial(widget: WidgetView) -> SurfaceView {
        SurfaceView {
            widget,
            state: SurfaceState::Initialized,
            stage: FrameStage::Idle,
            viewports: None,
            framebuffers: Seq::empty(),
            previous_frame_end: None,
            frames: 0,
            cur_mouse_pos: None,
            las_mouse_pos: None,
        }
    }

    /// Whether the surface has a presentation chain.
    pub open spec fn live(self) -> bool {
        self.state == SurfaceState::Ready || self.state == SurfaceState::NeedsRebuild
    }

    /// The surface with the render targets and the viewport for `images`.
    /// All earlier render targets are replaced.
    pub open spec fn attached(self, images: Seq<Extent>) -> SurfaceView {
        SurfaceView {
            viewports: Some(seq![viewport_of(images[0])]),
            framebuffers: framebuffers_of(images),
            ..self
        }
    }

    /// The surface after it has given up its resources.
    pub open spec fn released(self) -> SurfaceView {
        SurfaceView {
            state: SurfaceState::Closed,
            stage: FrameStage::Idle,
            viewports: None,
            framebuffers: Seq::empty(),
            previous_frame_end: None,
            ..self
        }
    }

    /// The surface at the given stage of a frame.
    pub open spec fn at(self, stage: FrameStage) -> SurfaceView {
        SurfaceView { stage, ..self }
    }

    /// The surface with a stale presentation chain.
    pub open spec fn stale(self) -> SurfaceView {
        SurfaceView { state: SurfaceState::NeedsRebuild, ..self }
    }

    /// The window and its chain exist: a surface without a chain takes the
    /// render targets for `images` and is ready. Without images nothing changes.
    pub open spec fn on_created(self, images: Seq<Extent>) -> (SurfaceView, SurfaceActionView) {
        if self.state != SurfaceState::Initialized {
            (self, SurfaceActionView::Ignored)
        } else if images.len() == 0 {
            (self, SurfaceActionView::Skipped)
        } else {
            (
                SurfaceView {
                    state: SurfaceState::Ready,
                    stage: FrameStage::Idle,
                    previous_frame_end: None,
                    ..self.attached(images)
                },
                SurfaceActionView::Nothing,
            )
        }
    }

    /// The window changed size: the chain of a ready surface is stale from now
    /// on. Nothing is drawn at once.
    pub open spec fn on_resized(self) -> (SurfaceView, SurfaceActionView) {
        if self.state == SurfaceState::Ready {
            (self.stale(), SurfaceActionView::Nothing)
        } else {
            (self, SurfaceActionView::Nothing)
        }
    }

    /// The cursor moved: the place it was at is kept as the one before.
    pub open spec fn on_cursor_moved(self, p: Vector) -> (SurfaceView, SurfaceActionView) {
        (
            SurfaceView {
                las_mouse_pos: if self.cur_mouse_pos is Some {
                    self.cur_mouse_pos
                } else {
                    self.las_mouse_pos
                },
                cur_mouse_pos: Some(p),
                ..self
            },
            SurfaceActionView::Nothing,
        )
    }

    /// The window asks to be drawn, which starts a frame unless one is under
    /// way. A stale chain is made anew first, unless the window has no area:
    /// then the frame is given up and the next request tries again.
    pub open spec fn on_redraw(self, size: Extent) -> (SurfaceView, SurfaceActionView) {
        if self.stage != FrameStage::Idle || !self.live() {
            (self, SurfaceActionView::Ignored)
        } else if self.state == SurfaceState::NeedsRebuild {
            if size.width == 0 || size.height == 0 {
                (self, SurfaceActionView::Skipped)
            } else {
                (self.at(FrameStage::Rebuilding), SurfaceActionView::Rebuild(size))
            }
        } else {
            (self.at(FrameStage::Acquiring), SurfaceActionView::Acquire)
        }
    }

    /// The chain was made anew: every render target is replaced, the surface
    /// is ready, and the frame goes on to acquire an image.
    pub open spec fn on_rebuilt(self, images: Seq<Extent>) -> (SurfaceView, SurfaceActionView) {
        if self.stage != FrameStage::Rebuilding {
            (self, SurfaceActionView::Ignored)
        } else if images.len() == 0 {
            (self.at(FrameStage::Idle), SurfaceActionView::Skipped)
        } else {
            (
                SurfaceView {
                    state: SurfaceState::Ready,
                    stage: FrameStage::Acquiring,
                    ..self.attached(images)
                },
                SurfaceActionView::Acquire,
            )
        }
    }

    /// The chain cannot be made for this size: the frame is given up, the
    /// chain stays stale, and the next request tries again.
    pub open spec fn on_rebuild_unsupported(self) -> (SurfaceView, SurfaceActionView) {
        if self.stage != FrameStage::Rebuilding {
            (self, SurfaceActionView::Ignored)
        } else {
            (self.at(FrameStage::Idle), SurfaceActionView::Skipped)
        }
    }

    /// An image was acquired: the frame to submit clears to the background
    /// colour and draws the vertices of the scene, after the frame before it.
    /// A suboptimal image is drawn to all the same, and the chain is stale
    /// afterwards. The surface fails when the image is none of its chain or
    /// the scene has no vertices to give.
    pub open spec fn on_acquired(self, image: usize, suboptimal: bool) -> (
        SurfaceView,
        SurfaceActionView,
    ) {
        let marked = if suboptimal {
            self.stale()
        } else {
            self
        };
        if self.stage != FrameStage::Acquiring {
            (self, SurfaceActionView::Ignored)
        } else if image >= self.framebuffers.len() {
            (self.released(), SurfaceActionView::Failed(CoreError::AcquireError))
        } else {
            match self.widget.vertices() {
                Err(e) => (self.released(), SurfaceActionView::Failed(e)),
                Ok(vertices) => (
                    SurfaceView {
                        stage: FrameStage::Submitting,
                        previous_frame_end: None,
                        ..marked
                    },
                    SurfaceActionView::Submit(
                        FrameView {
                            number: next_frame(self.frames),
                            image,
                            framebuffer: self.framebuffers[image as int],
                            clear: self.widget.color,
                            resolution: self.widget.bound,
                            vertices,
                            after: self.previous_frame_end,
                        },
                    ),
                ),
            }
        }
    }

    /// The chain is stale at acquisition: the frame is given up and the chain
    /// is made anew at the next request.
    pub open spec fn on_acquire_out_of_date(self) -> (SurfaceView, SurfaceActionView) {
        if self.stage != FrameStage::Acquiring {
            (self, SurfaceActionView::Ignored)
        } else {
            (self.stale().at(FrameStage::Idle), SurfaceActionView::Skipped)
        }
    }

    /// The frame is on its way to the screen: it is the one to wait for next.
    pub open spec fn on_presented(self) -> (SurfaceView, SurfaceActionView) {
        if self.stage != FrameStage::Submitting {
            (self, SurfaceActionView::Ignored)
        } else {
            (
                SurfaceView {
                    stage: FrameStage::Idle,
                    frames: next_frame(self.frames),
                    previous_frame_end: Some(next_frame(self.frames)),
                    ..self
                },
                SurfaceActionView::Presented(next_frame(self.frames)),
            )
        }
    }

    /// The chain is stale at presentation: the frame is given up, nothing is
    /// left to wait for, and the chain is made anew at the next request.
    pub open spec fn on_present_out_of_date(self) -> (SurfaceView, SurfaceActionView) {
        if self.stage != FrameStage::Submitting {
            (self, SurfaceActionView::Ignored)
        } else {
            (
                SurfaceView {
                    stage: FrameStage::Idle,
                    previous_frame_end: None,
                    ..self.stale()
                },
                SurfaceActionView::Skipped,
            )
        }
    }

    /// What a failure that the outside reports at `stage` leads to.
    pub open spec fn on_failure(self, stage: FrameStage, e: CoreError) -> (
        SurfaceView,
        SurfaceActionView,
    ) {
        if self.stage != stage {
            (self, SurfaceActionView::Ignored)
        } else {
            (self.released(), SurfaceActionView::Failed(e))
        }
    }

    /// The window asks to be closed: the surface gives up its resources.
    pub open spec fn on_close(self) -> (SurfaceView, SurfaceActionView) {
        if self.state == SurfaceState::Closed {
            (self, SurfaceActionView::Ignored)
        } else {
            (self.released(), SurfaceActionView::Release)
        }
    }

    /// The surface after `event`, and what the caller has to do next.
    pub open spec fn next(self, event: SurfaceEvent) -> (SurfaceView, SurfaceActionView) {
        match event {
            SurfaceEvent::Created(images) => self.on_created(images@),
            SurfaceEvent::Resized => self.on_resized(),
            SurfaceEvent::CursorMoved(p) => self.on_cursor_moved(p),
            SurfaceEvent::RedrawRequested(size) => self.on_redraw(size),
            SurfaceEvent::Rebuilt(images) => self.on_rebuilt(images@),
            SurfaceEvent::RebuildUnsupported => self.on_rebuild_unsupported(),
            SurfaceEvent::RebuildFailed => self.on_failure(
                FrameStage::Rebuilding,
                CoreError::SwapchainCreationError,
            ),
            SurfaceEvent::Acquired { image, suboptimal } => self.on_acquired(image, suboptimal),
            SurfaceEvent::AcquireOutOfDate => self.on_acquire_out_of_date(),
            SurfaceEvent::AcquireFailed => self.on_failure(
                FrameStage::Acquiring,
                CoreError::AcquireError,
            ),
            SurfaceEvent::Presented => self.on_presented(),
            SurfaceEvent::PresentOutOfDate => self.on_present_out_of_date(),
            SurfaceEvent::PresentFailed => self.on_failure(
                FrameStage::Submitting,
                CoreError::FlushError,
            ),
            SurfaceEvent::CloseRequested => self.on_close(),
        }
    }

    /// The actions that letting go of the primary mouse button sets off:
    /// those of the buttons under the last known place of the cursor.
    pub open spec fn released_over(self) -> Seq<ActionView> {
        match self.cur_mouse_pos {
            Some(p) => fired(self.widget.buttons, p),
            None => Seq::empty(),
        }
    }
}

/// What to ask of the window system for a widget's window.
#[derive(Debug, Clone, Copy, PartialEq, Eq, Structural)]
pub struct WindowRequest {
    /// The inner size of the window.
    pub size: Extent,
    /// Where the top left corner goes on the screen.
    pub x: i32,
    pub y: i32,
    pub decorations: bool,
    pub transparent: bool,
    pub resizable: bool,
}

/// The ways of blending a window with what is behind it.
#[derive(Debug, Clone, Copy, PartialEq, Eq, Structural)]
pub enum CompositeAlpha {
    Opaque,
    PreMultiplied,
    PostMultiplied,
    Inherit,
}

/// Which ways of blending a surface supports.
#[derive(Debug, Clone, Copy, PartialEq, Eq, Structural)]
pub struct SupportedCompositeAlpha {
    pub opaque: bool,
    pub pre_multiplied: bool,
    pub post_multiplied: bool,
    pub inherit: bool,
}

/// When presented images reach the screen.
#[derive(Debug, Clone, Copy, PartialEq, Eq, Structural)]
pub enum PresentMode {
    Immediate,
    Mailbox,
    Fifo,
    Relaxed,
}

/// What a surface can do, as far as the choice of a presentation chain goes.
#[derive(Debug, Clone)]
pub struct Capabilities {
    pub min_image_count: u32,
    /// The image formats that the surface supports, by their codes, in the
    /// order in which the surface lists them.
    pub supported_formats: Vec<u32>,
    pub supported_composite_alpha: SupportedCompositeAlpha,
}

/// The presentation chain to ask for.
#[derive(Debug, Clone, Copy, PartialEq, Eq, Structural)]
pub struct SwapchainRequest {
    pub num_images: u32,
    pub format: u32,
    pub dimensions: Extent,
    pub layers: u32,
    pub alpha: CompositeAlpha,
    pub mode: PresentMode,
    pub clipped: bool,
}

impl SupportedCompositeAlpha {
    /// The first supported way of blending, in the order opaque,
    /// premultiplied, postmultiplied, inherited.
    pub open spec fn spec_first(self) -> Option<CompositeAlpha> {
        if self.opaque {
            Some(CompositeAlpha::Opaque)
        } else if self.pre_multiplied {
            Some(CompositeAlpha::PreMultiplied)
        } else if self.post_multiplied {
            Some(CompositeAlpha::PostMultiplied)
        } else if self.inherit {
            Some(CompositeAlpha::Inherit)
        } else {
            None
        }
    }

    /// The first supported way of blending; see `spec_first`.
    pub fn first(&self) -> (r: Option<CompositeAlpha>)
        ensures
            r == self.spec_first(),
    {
        if self.opaque {
            Some(CompositeAlpha::Opaque)
        } else if self.pre_multiplied {
            Some(CompositeAlpha::PreMultiplied)
        } else if self.post_multiplied {
            Some(CompositeAlpha::PostMultiplied)
        } else if self.inherit {
            Some(CompositeAlpha::Inherit)
        } else {
            None
        }
    }
}

/// The presentation chain to ask for on a surface with the capabilities
/// `caps` for a window of the size `dimensions`: the fewest images that the
/// surface allows, in the first format and with the first way of blending
/// that it supports, one layer, presented in step with the screen, clipped.
/// There is none when the surface supports no format or no way of blending.
pub fn swapchain_request(caps: &Capabilities, dimensions: Extent) -> (r: Option<SwapchainRequest>)
    ensures
        r == if caps.supported_formats.len() == 0 {
            None
        } else {
            match caps.supported_composite_alpha.spec_first() {
                None => None,
                Some(alpha) => Some(
                    SwapchainRequest {
                        num_images: caps.min_image_count,
                        format: caps.supported_formats[0],
                        dimensions,
                        layers: 1,
                        alpha,
                        mode: PresentMode::Fifo,
                        clipped: true,
                    },
                ),
            }
        },
{
    if caps.supported_formats.len() == 0 {
        return None;
    }
    match caps.supported_composite_alpha.first() {
        None => None,
        Some(alpha) => Some(
            SwapchainRequest {
                num_images: caps.min_image_count,
                format: caps.supported_formats[0],
                dimensions,
                layers: 1,
                alpha,
                mode: PresentMode::Fifo,
                clipped: true,
            },
        ),
    }
}

impl CoreSurface {
    /// The surface for the widget that `config` stands for. It has no
    /// presentation chain yet: the caller makes the window that
    /// `window_request` describes and reports `Created`.
    pub fn new(config: WidgetConfig) -> (r: Result<CoreSurface, CoreError>)
        ensures
            match r {
                Ok(s) => widget_of(config) is Ok && s@ == SurfaceView::initial(
                    widget_of(config).unwrap(),
                ),
                Err(e) => widget_of(config) == Err::<WidgetView, CoreError>(e),
            },
    {
        match Widget::new(config) {
            Err(e) => Err(e),
            Ok(widget) => Ok(
                CoreSurface {
                    widget,
                    state: SurfaceState::Initialized,
                    stage: FrameStage::Idle,
                    dynamic_state: DynamicState { viewports: None },
                    framebuffers: Vec::new(),
                    previous_frame_end: None,
                    frames: 0,
                    cur_mouse_pos: None,
                    las_mouse_pos: None,
                },
            ),
        }
    }

    /// The window to ask for: as large as the widget, at the widget's place,
    /// without a frame, see-through, and of fixed size.
    pub fn window_request(&self) -> (w: WindowRequest)
        ensures
            w == (WindowRequest {
                size: self.widget.bound,
                x: self.widget.position.x,
                y: self.widget.position.y,
                decorations: false,
                transparent: true,
                resizable: false,
            }),
    {
        WindowRequest {
            size: self.widget.bound,
            x: self.widget.position.x,
            y: self.widget.position.y,
            decorations: false,
            transparent: true,
            resizable: false,
        }
    }

    /// Whether the presentation chain is made anew before the next frame.
    pub fn needs_rebuild(&self) -> (b: bool)
        ensures
            b == (self.state == SurfaceState::NeedsRebuild),
    {
        self.state == SurfaceState::NeedsRebuild
    }

    fn release(&mut self)
        ensures
            final(self)@ == old(self)@.released(),
    {
        self.state = SurfaceState::Closed;
        self.stage = FrameStage::Idle;
        self.dynamic_state.viewports = None;
        self.framebuffers = Vec::new();
        self.previous_frame_end = None;
    }

    fn attach(&mut self, images: &Vec<Extent>)
        requires
            images.len() > 0,
        ensures
            final(self)@ == old(self)@.attached(images@),
    {
        self.framebuffers = window_size_dependent_setup(images, &mut self.dynamic_state);
    }

    fn acquired(&mut self, image: usize, suboptimal: bool) -> (action: SurfaceAction)
        requires
            old(self).stage == FrameStage::Acquiring,
        ensures
            (final(self)@, action@) == old(self)@.on_acquired(image, suboptimal),
    {
        if image >= self.framebuffers.len() {
            self.release();
            return SurfaceAction::Failed(CoreError::AcquireError);
        }
        match self.widget.to_vertex_list() {
            Err(e) => {
                self.release();
                SurfaceAction::Failed(e)
            },
            Ok(vertices) => {
                let frame = Frame {
                    number: following(self.frames),
                    image,
                    framebuffer: self.framebuffers[image],
                    clear: self.widget.color,
                    resolution: self.widget.bound,
                    vertices,
                    after: self.previous_frame_end,
                };
                if suboptimal {
                    self.state = SurfaceState::NeedsRebuild;
                }
                self.stage = FrameStage::Submitting;
                self.previous_frame_end = None;
                SurfaceAction::Submit(frame)
            },
        }
    }

    fn fail(&mut self, stage: FrameStage, e: CoreError) -> (action: SurfaceAction)
        ensures
            (final(self)@, action@) == old(self)@.on_failure(stage, e),
    {
        if self.stage != stage {
            SurfaceAction::Ignored
        } else {
            self.release();
            SurfaceAction::Failed(e)
        }
    }

    /// Takes in `event` and says what to do next. This is the whole of the
    /// surface's behaviour: see `SurfaceView::next`.
    pub fn step(&mut self, event: SurfaceEvent) -> (action: SurfaceAction)
        ensures
            (final(self)@, action@) == old(self)@.next(event),
    {
        match event {
            SurfaceEvent::Created(images) => {
                if self.state != SurfaceState::Initialized {
                    SurfaceAction::Ignored
                } else if images.len() == 0 {
                    SurfaceAction::Skipped
                } else {
                    self.attach(&images);
                    self.state = SurfaceState::Ready;
                    self.stage = FrameStage::Idle;
                    self.previous_frame_end = None;
                    SurfaceAction::Nothing
                }
            },
            SurfaceEvent::Resized => {
                if self.state == SurfaceState::Ready {
                    self.state = SurfaceState::NeedsRebuild;
                }
                SurfaceAction::Nothing
            },
            SurfaceEvent::CursorMoved(p) => {
                if self.cur_mouse_pos.is_some() {
                    self.las_mouse_pos = self.cur_mouse_pos;
                }
                self.cur_mouse_pos = Some(p);
                SurfaceAction::Nothing
            },
            SurfaceEvent::RedrawRequested(size) => {
                if self.stage != FrameStage::Idle {
                    SurfaceAction::Ignored
                } else if self.state == SurfaceState::NeedsRebuild {
                    if size.width == 0 || size.height == 0 {
                        SurfaceAction::Skipped
                    } else {
                        self.stage = FrameStage::Rebuilding;
                        SurfaceAction::Rebuild(size)
                    }
                } else if self.state == SurfaceState::Ready {
                    self.stage = FrameStage::Acquiring;
                    SurfaceAction::Acquire
                } else {
                    SurfaceAction::Ignored
                }
            },
            SurfaceEvent::Rebuilt(images) => {
                if self.stage != FrameStage::Rebuilding {
                    SurfaceAction::Ignored
                } else if images.len() == 0 {
                    self.stage = FrameStage::Idle;
                    SurfaceAction::Skipped
                } else {
                    self.attach(&images);
                    self.state = SurfaceState::Ready;
                    self.stage = FrameStage::Acquiring;
                    SurfaceAction::Acquire
                }
            },
            SurfaceEvent::RebuildUnsupported => {
                if self.stage != FrameStage::Rebuilding {
                    SurfaceAction::Ignored
                } else {
                    self.stage = FrameStage::Idle;
                    SurfaceAction::Skipped
                }
            },
            SurfaceEvent::RebuildFailed => self.fail(
                FrameStage::Rebuilding,
                CoreError::SwapchainCreationError,
            ),
            SurfaceEvent::Acquired { image, suboptimal } => {
                if self.stage != FrameStage::Acquiring {
                    SurfaceAction::Ignored
                } else {
                    self.acquired(image, suboptimal)
                }
            },
            SurfaceEvent::AcquireOutOfDate => {
                if self.stage != FrameStage::Acquiring {
                    SurfaceAction::Ignored
                } else {
                    self.state = SurfaceState::NeedsRebuild;
                    self.stage = FrameStage::Idle;
                    SurfaceAction::Skipped
                }
            },
            SurfaceEvent::AcquireFailed => self.fail(
                FrameStage::Acquiring,
                CoreError::AcquireError,
            ),
            SurfaceEvent::Presented => {
                if self.stage != FrameStage::Submitting {
                    SurfaceAction::Ignored
                } else {
                    let number = following(self.frames);
                    self.stage = FrameStage::Idle;
                    self.frames = number;
                    self.previous_frame_end = Some(number);
                    SurfaceAction::Presented(number)
                }
            },
            SurfaceEvent::PresentOutOfDate => {
                if self.stage != FrameStage::Submitting {
                    SurfaceAction::Ignored
                } else {
                    self.state = SurfaceState::NeedsRebuild;
                    self.stage = FrameStage::Idle;
                    self.previous_frame_end = None;
                    SurfaceAction::Skipped
                }
            },
            SurfaceEvent::PresentFailed => self.fail(FrameStage::Submitting, CoreError::FlushError),
            SurfaceEvent::CloseRequested => {
                if self.state == SurfaceState::Closed {
                    SurfaceAction::Ignored
                } else {
                    self.release();
                    SurfaceAction::Release
                }
            },
        }
    }

    /// The actions to run when the primary mouse button is let go: those
    /// of the buttons under the last known place of the cursor, in the
    /// order of the buttons.
    pub fn released(&self) -> (run: Vec<&Action>)
        ensures
            run.deep_view() == self@.released_over(),
    {
        match self.cur_mouse_pos {
            Some(p) => self.widget.clicked(p),
            None => {
                let run: Vec<&Action> = Vec::new();
                assert(run.deep_view() =~= Seq::empty());
                run
            },
        }
    }
}

fn following(n: u64) -> (m: u64)
    ensures
        m == next_frame(n),
{
    if n == u64::MAX {
        0
    } else {
        n + 1
    }
}

impl SurfaceView {
    /// What holds of a surface at all times. Without a presentation chain
    /// there are no render targets and no frame is under way; with one there
    /// is a render target for each image; the chain is made anew only when
    /// it is stale; and the frame in flight, if any, is the last one presented.
    pub open spec fn wf(self) -> bool {
        &&& !self.live() ==> {
            &&& self.stage == FrameStage::Idle
            &&& self.framebuffers.len() == 0
            &&& self.viewports is None
            &&& self.previous_frame_end is None
        }
        &&& self.live() ==> {
            &&& self.framebuffers.len() > 0
            &&& self.viewports == Some(seq![viewport_of(self.framebuffers[0].extent)])
            &&& forall|i: int|
                0 <= i < self.framebuffers.len() ==> (#[trigger] self.framebuffers[i]).image == i
        }
        &&& self.stage == FrameStage::Rebuilding ==> self.state == SurfaceState::NeedsRebuild
        &&& self.stage == FrameStage::Submitting ==> self.previous_frame_end is None
        &&& self.previous_frame_end is Some ==> self.previous_frame_end == Some(self.frames)
    }

    /// Whether the surface is ready to draw a frame at once.
    pub open spec fn steady(self) -> bool {
        self.state == SurfaceState::Ready && self.stage == FrameStage::Idle
    }

    /// The surface after one frame that meets no obstacle: the window asks
    /// to be drawn, the image `image` is acquired and fits, and the frame
    /// is presented.
    pub open spec fn after_frame(self, size: Extent, image: usize) -> SurfaceView {
        self.next(SurfaceEvent::RedrawRequested(size)).0.next(
            SurfaceEvent::Acquired { image, suboptimal: false },
        ).0.next(SurfaceEvent::Presented).0
    }

    /// What the surface asks for once the image of such a frame is acquired.
    pub open spec fn frame_asked(self, size: Extent, image: usize) -> SurfaceActionView {
        self.next(SurfaceEvent::RedrawRequested(size)).0.next(
            SurfaceEvent::Acquired { image, suboptimal: false },
        ).1
    }

    /// The surface after one such frame for each of `images`, in order.
    pub open spec fn after_frames(self, size: Extent, images: Seq<usize>) -> SurfaceView
        decreases images.len(),
    {
        if images.len() == 0 {
            self
        } else {
            self.after_frames(size, images.drop_last()).after_frame(size, images.last())
        }
    }
}

/// A new surface is well formed.
pub proof fn lemma_initial_wf(widget: WidgetView)
    ensures
        SurfaceView::initial(widget).wf(),
{
}

/// No event breaks a well-formed surface.
pub proof fn lemma_next_wf(s: SurfaceView, event: SurfaceEvent)
    requires
        s.wf(),
    ensures
        s.next(event).0.wf(),
{
    match event {
        SurfaceEvent::Created(images) => {
            if images.len() > 0 {
                lemma_attached_wf(s, images@);
            }
        },
        SurfaceEvent::Rebuilt(images) => {
            if images.len() > 0 {
                lemma_attached_wf(s, images@);
            }
        },
        _ => {},
    }
}

/// The render targets for a chain of images are numbered in order, and the
/// viewport covers the first of them.
proof fn lemma_attached_wf(s: SurfaceView, images: Seq<Extent>)
    requires
        0 < images.len() <= usize::MAX,
    ensures
        ({
            let t = s.attached(images);
            &&& t.framebuffers.len() == images.len()
            &&& t.viewports == Some(seq![viewport_of(t.framebuffers[0].extent)])
            &&& forall|i: int|
                0 <= i < t.framebuffers.len() ==> (#[trigger] t.framebuffers[i]).image == i
        }),
{
    let t = s.attached(images);
    assert(t.viewports.unwrap() =~= seq![viewport_of(t.framebuffers[0].extent)]);
}

/// An event that is ignored changes nothing.
pub proof fn lemma_ignored_changes_nothing(s: SurfaceView, event: SurfaceEvent)
    requires
        s.next(event).1 == SurfaceActionView::Ignored,
    ensures
        s.next(event).0 == s,
{
}

/// No event changes the scene.
pub proof fn lemma_next_keeps_widget(s: SurfaceView, event: SurfaceEvent)
    ensures
        s.next(event).0.widget == s.widget,
{
}

/// A closed surface stays closed and asks for no work.
pub proof fn lemma_closed_is_final(s: SurfaceView, event: SurfaceEvent)
    requires
        s.wf(),
        s.state == SurfaceState::Closed,
    ensures
        s.next(event).0.state == SurfaceState::Closed,
        s.next(event).1 == SurfaceActionView::Ignored || s.next(event).1
            == SurfaceActionView::Nothing,
{
}

/// Making the presentation chain anew is idempotent: the render targets and
/// the viewport after it depend on the images alone, there is one render
/// target for each image and it has the size of its image. So a second
/// rebuild to the same images leaves what the first one left.
pub proof fn lemma_rebuild_idempotent(s: SurfaceView, again: SurfaceView, images: Seq<Extent>)
    requires
        s.stage == FrameStage::Rebuilding,
        again.stage == FrameStage::Rebuilding,
        images.len() > 0,
    ensures
        ({
            let once = s.on_rebuilt(images).0;
            let twice = again.on_rebuilt(images).0;
            &&& twice.framebuffers == once.framebuffers
            &&& twice.viewports == once.viewports
            &&& once.framebuffers.len() == images.len()
            &&& forall|i: int|
                0 <= i < images.len() ==> (#[trigger] once.framebuffers[i]).extent == images[i]
            &&& once.state == SurfaceState::Ready
        }),
{
}

/// One frame that meets no obstacle, on a surface that is ready: the
/// surface asks to acquire an image, then to submit the frame with the next
/// number and the vertices of the scene, to be run after the frame before
/// it; and once that frame is presented the surface is ready again, with
/// one frame more.
pub proof fn lemma_steady_frame(s: SurfaceView, size: Extent, image: usize)
    requires
        s.steady(),
        image < s.framebuffers.len(),
        s.widget.vertices() is Ok,
    ensures
        s.next(SurfaceEvent::RedrawRequested(size)).1 == SurfaceActionView::Acquire,
        s.frame_asked(size, image) == SurfaceActionView::Submit(
            FrameView {
                number: next_frame(s.frames),
                image,
                framebuffer: s.framebuffers[image as int],
                clear: s.widget.color,
                resolution: s.widget.bound,
                vertices: s.widget.vertices().unwrap(),
                after: s.previous_frame_end,
            },
        ),
        s.after_frame(size, image) == (SurfaceView {
            frames: next_frame(s.frames),
            previous_frame_end: Some(next_frame(s.frames)),
            ..s
        }),
{
}

/// Frames come out in the order in which they were asked for. On a surface
/// that is ready and is not resized, the `k`-th of a run of requests to
/// draw leads to exactly one frame: it has the `k`-th number after those
/// presented before, it carries the vertices of the scene, and it waits for
/// the frame before it. After the run the surface has presented as many
/// frames more as there were requests.
pub proof fn lemma_frames_in_order(s: SurfaceView, size: Extent, images: Seq<usize>, k: int)
    requires
        s.steady(),
        s.widget.vertices() is Ok,
        forall|i: int| 0 <= i < images.len() ==> (#[trigger] images[i]) < s.framebuffers.len(),
        s.frames + images.len() <= u64::MAX,
        0 <= k < images.len(),
    ensures
        s.after_frames(size, images) == (SurfaceView {
            frames: (s.frames + images.len()) as u64,
            previous_frame_end: Some((s.frames + images.len()) as u64),
            ..s
        }),
        s.after_frames(size, images.take(k)).frame_asked(size, images[k])
            == SurfaceActionView::Submit(
            FrameView {
                number: (s.frames + k + 1) as u64,
                image: images[k],
                framebuffer: s.framebuffers[images[k] as int],
                clear: s.widget.color,
                resolution: s.widget.bound,
                vertices: s.widget.vertices().unwrap(),
                after: if k == 0 {
                    s.previous_frame_end
                } else {
                    Some((s.frames + k) as u64)
                },
            },
        ),
{
    lemma_after_frames(s, size, images);
    let before = images.take(k);
    if k > 0 {
        lemma_after_frames(s, size, before);
    }
    lemma_steady_frame(s.after_frames(size, before), size, images[k]);
}

/// The surface after a run of frames that meet no obstacle.
proof fn lemma_after_frames(s: SurfaceView, size: Extent, images: Seq<usize>)
    requires
        s.steady(),
        s.widget.vertices() is Ok,
        forall|i: int| 0 <= i < images.len() ==> (#[trigger] images[i]) < s.framebuffers.len(),
        s.frames + images.len() <= u64::MAX,
        images.len() > 0,
    ensures
        s.after_frames(size, images) == (SurfaceView {
            frames: (s.frames + images.len()) as u64,
            previous_frame_end: Some((s.frames + images.len()) as u64),
            ..s
        }),
    decreases images.len(),
{
    let before = images.drop_last();
    if before.len() > 0 {
        lemma_after_frames(s, size, before);
    }
    lemma_steady_frame(s.after_frames(size, before), size, images.last());
}

} // verus!
