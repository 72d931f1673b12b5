use vstd::prelude::*;
use crate::error::CoreError;
use crate::widget::Extent;

verus! {

/// The kinds of physical device that a machine can offer.
#[derive(Debug, Clone, Copy, PartialEq, Eq, Structural)]
pub enum PhysicalDeviceType {
    IntegratedGpu,
    DiscreteGpu,
    VirtualGpu,
    Cpu,
    Other,
}

/// The part of a render target that is drawn to, in pixels, and the range
/// of depths that it maps to.
#[derive(Debug, Clone, Copy, PartialEq, Eq, Structural)]
pub struct Viewport {
    pub x: u32,
    pub y: u32,
    pub dimensions: Extent,
    pub min_depth: u32,
    pub max_depth: u32,
}

/// The drawing state that is set anew whenever the window changes size.
#[derive(Debug, Clone)]
pub struct DynamicState {
    pub viewports: Option<Vec<Viewport>>,
}

/// A render target: one presentable image, by its place in the
/// presentation chain, and its size.
#[derive(Debug, Clone, Copy, PartialEq, Eq, Structural)]
pub struct Framebuffer {
    pub image: usize,
    pub extent: Extent,
}

/// Where to look for widget files.
#[derive(Debug, Clone)]
pub struct CoreConfig {
    /// The directory to search; the current directory's `widgets` when absent.
    pub root_path: Option<String>,
}

/// The viewport that covers an image of the size `extent`.
pub open spec fn viewport_of(extent: Extent) -> Viewport {
    Viewport { x: 0, y: 0, dimensions: extent, min_depth: 0, max_depth: 1 }
}

/// One render target for each image, in the order of the images.
pub open spec fn framebuffers_of(images: Seq<Extent>) -> Seq<Framebuffer> {
    Seq::new(images.len(), |i: int| Framebuffer { image: i as usize, extent: images[i] })
}

/// Whether `i` is the place of the first device of the kind `ty` in `devices`.
pub open spec fn first_of_kind(devices: Seq<PhysicalDeviceType>, ty: PhysicalDeviceType, i: int)
    -> bool {
    &&& 0 <= i < devices.len()
    &&& devices[i] == ty
    &&& forall|j: int| 0 <= j < i ==> devices[j] != ty
}

/// The place in `devices` of the first device of the kind `ty`.
pub fn find_device_index(devices: &Vec<PhysicalDeviceType>, ty: PhysicalDeviceType) -> (r: Result<
    usize,
    CoreError,
>)
    ensures
        match r {
            Ok(i) => first_of_kind(devices@, ty, i as int),
            Err(e) => e == CoreError::NoSupportedPhysicalDevice && forall|j: int|
                0 <= j < devices.len() ==> devices[j] != ty,
        },
{
    let mut i: usize = 0;
    while i < devices.len()
        invariant
            i <= devices.len(),
            forall|j: int| 0 <= j < i ==> devices[j] != ty,
        decreases devices.len() - i,
    {
        if devices[i] == ty {
            return Ok(i);
        }
        i += 1;
    }
    Err(CoreError::NoSupportedPhysicalDevice)
}

/// The place of the first queue family that can draw, given for each family
/// in order whether it can.
pub fn find_graphics_family(supports_graphics: &Vec<bool>) -> (r: Option<usize>)
    ensures
        match r {
            Some(i) => i < supports_graphics.len() && supports_graphics[i as int] && forall|j: int|
                0 <= j < i ==> !supports_graphics[j],
            None => forall|j: int| 0 <= j < supports_graphics.len() ==> !supports_graphics[j],
        },
{
    let mut i: usize = 0;
    while i < supports_graphics.len()
        invariant
            i <= supports_graphics.len(),
            forall|j: int| 0 <= j < i ==> !supports_graphics[j],
        decreases supports_graphics.len() - i,
    {
        if supports_graphics[i] {
            return Some(i);
        }
        i += 1;
    }
    None
}

/// Sets the viewport to cover the first image and makes one render target
/// for each image of the presentation chain.
pub fn window_size_dependent_setup(images: &Vec<Extent>, dynamic_state: &mut DynamicState) -> (fbs:
    Vec<Framebuffer>)
    requires
        images.len() > 0,
    ensures
        final(dynamic_state).viewports is Some,
        final(dynamic_state).viewports.unwrap()@ == seq![viewport_of(images[0])],
        fbs@ == framebuffers_of(images@),
{
    let viewport = Viewport { x: 0, y: 0, dimensions: images[0], min_depth: 0, max_depth: 1 };
    let viewports = vec![viewport];
    assert(viewports@ =~= seq![viewport_of(images[0])]);
    dynamic_state.viewports = Some(viewports);
    let mut fbs: Vec<Framebuffer> = Vec::new();
    let mut i: usize = 0;
    while i < images.len()
        invariant
            i <= images.len(),
            fbs@ == framebuffers_of(images@.take(i as int)),
        decreases images.len() - i,
    {
        fbs.push(Framebuffer { image: i, extent: images[i] });
        assert(fbs@ =~= framebuffers_of(images@.take(i as int + 1)));
        i += 1;
    }
    assert(images@.take(i as int) =~= images@);
    fbs
}

impl CoreConfig {
    /// Where the search for widget files starts and the pattern, relative
    /// to that place, that widget files match. The start is the configured
    /// directory, or `None` for the current directory.
    pub fn search(&self) -> (r: (Option<&String>, &'static str))
        ensures
            match self.root_path {
                Some(root) => r.0 == Some(&root) && r.1@ == "**/*.toml"@,
                None => r.0 is None && r.1@ == "widgets/**/*.toml"@,
            },
    {
        match &self.root_path {
            Some(root) => (Some(root), "**/*.toml"),
            None => (None, "widgets/**/*.toml"),
        }
    }
}

} // verus!
