//! Renderer-side window sizing and the GPU teardown plan.
//!
//! The GPU object graph itself (instance, device, pipeline, command buffer)
//! lives outside this library with the event loop; what this module holds is
//! the sizing logic the renderer needs at startup and the order in which the
//! GPU objects must be destroyed on shutdown.

use vstd::prelude::*;
use vstd::assert_seqs_equal;
use crate::settings::Settings;

verus! {

/// Relies on winit's `EventLoop::primary_monitor`, `MonitorHandle::scale_factor`
/// and `LogicalSize::to_physical`: scales a logical size by the primary
/// monitor's DPI factor and rounds to whole pixels. Panics when the platform
/// reports no primary monitor. A zero dimension scales to zero.
#[verifier::external_body]
fn to_physical_on_primary_monitor(
    event_loop: &winit::event_loop::EventLoop<()>,
    logical: winit::dpi::LogicalSize<u32>,
) -> (r: winit::dpi::PhysicalSize<u32>)
    ensures
        logical.width == 0 ==> r.width == 0,
        logical.height == 0 ==> r.height == 0,
{
    let dpi = event_loop.primary_monitor().unwrap().scale_factor();
    logical.to_physical(dpi)
}

/// The logical window size is the one stored in the graphics settings; the
/// physical size is that size scaled by the primary monitor's DPI factor.
pub fn calc_logical_and_physical_window_size(
    event_loop: &winit::event_loop::EventLoop<()>,
    settings: &Settings,
) -> (r: (winit::dpi::LogicalSize<u32>, winit::dpi::PhysicalSize<u32>))
    ensures
        r.0.width == settings.spec_graphics().spec_window_size().0 as u32,
        r.0.height == settings.spec_graphics().spec_window_size().1 as u32,
{
    let size = settings.graphics().window_size();
    let logical = winit::dpi::LogicalSize { width: size[0] as u32, height: size[1] as u32 };
    let physical = to_physical_on_primary_monitor(event_loop, logical);

    (logical, physical)
}

/// The renderer picks its surface color format and its queue family as "the
/// first candidate that qualifies". Given which candidates qualify, this
/// returns the index of the first that does, and `None` exactly when none
/// does.
pub fn first_matching_index(qualifies: &Vec<bool>) -> (r: Option<usize>)
    ensures
        match r {
            Some(i) => {
                &&& i < qualifies.len()
                &&& qualifies@[i as int]
                &&& forall|j: int| 0 <= j < i ==> !qualifies@[j]
            },
            None => forall|j: int| 0 <= j < qualifies.len() ==> !qualifies@[j],
        },
{
    let mut i: usize = 0;
    while i < qualifies.len()
        invariant
            i <= qualifies.len(),
            forall|j: int| 0 <= j < i ==> !qualifies@[j],
        decreases qualifies.len() - i,
    {
        if qualifies[i] {
            return Some(i);
        }
        i = i + 1;
    }
    None
}

/// The kinds of GPU objects that the renderer creates during setup and must
/// destroy by hand on shutdown: the GPU API requires children destroyed
/// before parents and does not order destruction itself.
#[derive(Clone, Copy, Debug, PartialEq, Eq, Structural)]
pub enum GpuObjectKind {
    Surface,
    CommandPool,
    RenderPass,
    PipelineLayout,
    Pipeline,
    Fence,
    Semaphore,
}

/// The order in which the renderer creates its GPU objects during setup.
pub open spec fn creation_order() -> Seq<GpuObjectKind> {
    seq![
        GpuObjectKind::Surface,
        GpuObjectKind::CommandPool,
        GpuObjectKind::RenderPass,
        GpuObjectKind::PipelineLayout,
        GpuObjectKind::Pipeline,
        GpuObjectKind::Fence,
        GpuObjectKind::Semaphore,
    ]
}

/// The teardown plan: GPU objects are destroyed in strict reverse-creation
/// order, children before parents.
pub fn destruction_order() -> (r: Vec<GpuObjectKind>)
    ensures
        r@ == creation_order().reverse(),
{
    let order = vec![
        GpuObjectKind::Semaphore,
        GpuObjectKind::Fence,
        GpuObjectKind::Pipeline,
        GpuObjectKind::PipelineLayout,
        GpuObjectKind::RenderPass,
        GpuObjectKind::CommandPool,
        GpuObjectKind::Surface,
    ];
    proof {
        assert_seqs_equal!(order@ == creation_order().reverse());
    }
    order
}

/// Shutdown destroys GPU objects in strict reverse-creation order: the
/// object destroyed at step `i` of the plan is the one created at step
/// `len - 1 - i` of setup.
pub proof fn lemma_destruction_reverses_creation(i: int)
    requires
        0 <= i < creation_order().len(),
    ensures
        creation_order().reverse()[i] == creation_order()[creation_order().len() - 1 - i],
{
}

} // verus!
