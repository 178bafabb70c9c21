//! Verifier declarations for the windowing and GPU surface types that the
//! rest of the crate works with.

use vstd::prelude::*;

verus! {

/// Declares winit's logical (DPI-scaled) size so that its `width` and
/// `height` fields are visible to the verifier.
#[verifier::external_type_specification]
#[verifier::reject_recursive_types(P)]
pub struct ExLogicalSize<P>(winit::dpi::LogicalSize<P>);

/// Declares winit's physical (pixel) size so that its `width` and
/// `height` fields are visible to the verifier.
#[verifier::external_type_specification]
#[verifier::reject_recursive_types(P)]
pub struct ExPhysicalSize<P>(winit::dpi::PhysicalSize<P>);

/// Declares winit's event loop; the verifier treats it as opaque.
#[verifier::external_type_specification]
#[verifier::external_body]
#[verifier::reject_recursive_types(T)]
pub struct ExEventLoop<T: 'static>(winit::event_loop::EventLoop<T>);

/// Declares winit's window handle; the verifier treats it as opaque.
#[verifier::external_type_specification]
#[verifier::external_body]
pub struct ExWindow(winit::window::Window);

/// Declares the GPU surface extent so that its `width` and `height`
/// fields are visible to the verifier.
#[verifier::external_type_specification]
pub struct ExExtent2D(gfx_hal::window::Extent2D);

} // verus!
