//! A thin rendering-engine core: Vulkan device selection, swapchain
//! negotiation, and the teardown protocol that ties instance, surface,
//! device, swapchain and image views together, with the decision logic
//! verified. Driver calls themselves happen outside this crate; every
//! policy they follow is computed and proved here.

pub mod context;
pub mod device;
pub mod debug_report;
pub mod errors;
pub mod gl_objects;
pub mod gl_program;
pub mod program;
pub mod texture;
pub mod swapchain;
pub mod vertex;
pub mod teardown;
pub mod utils;

use vstd::prelude::*;

verus! {

} // verus!
