//! The teardown protocol. The native API dictates destruction order:
//! every image view before the swapchain, the swapchain before the
//! logical device, the logical device before the debug messenger,
//! surface and instance, and the surface always before the instance.
//! The plans below spell that order out as data; the embedding
//! program's drop handlers walk a plan and perform each step, so the
//! order is decided here and proved, not improvised at drop time.

use vstd::prelude::*;

verus! {

/// One destruction step of the teardown protocol.
#[derive(Debug, Clone, Copy, PartialEq, Eq, Structural)]
pub enum DestroyOp {
    ImageView(usize),
    Swapchain,
    LogicalDevice,
    DebugMessenger,
    Surface,
    Instance,
}

/// What a swapchain must destroy, in order: each of its image views,
/// then the swapchain itself.
pub open spec fn swapchain_teardown_order(image_view_count: int) -> Seq<DestroyOp> {
    Seq::new(image_view_count as nat, |i: int| DestroyOp::ImageView(i as usize)).push(
        DestroyOp::Swapchain,
    )
}

/// What a device must destroy: its logical device. The queue handles
/// are owned by the logical device and are not destroyed separately.
pub open spec fn device_teardown_order() -> Seq<DestroyOp> {
    seq![DestroyOp::LogicalDevice]
}

/// What a context must destroy, in order: the debug messenger where one
/// was installed, then the surface, then the instance.
pub open spec fn context_teardown_order(has_messenger: bool) -> Seq<DestroyOp> {
    (if has_messenger {
        seq![DestroyOp::DebugMessenger]
    } else {
        Seq::empty()
    }) + seq![DestroyOp::Surface, DestroyOp::Instance]
}

/// The full teardown of a context, a device and a swapchain with
/// `image_view_count` views: the swapchain's steps, then the device's,
/// then the context's.
pub open spec fn teardown_order(image_view_count: int, has_messenger: bool) -> Seq<DestroyOp> {
    swapchain_teardown_order(image_view_count) + device_teardown_order()
        + context_teardown_order(has_messenger)
}

/// The swapchain's destruction steps: one per image view, in index
/// order, then the swapchain.
pub fn swapchain_teardown(image_view_count: usize) -> (r: Vec<DestroyOp>)
    ensures
        r@ == swapchain_teardown_order(image_view_count as int),
{
    let mut plan: Vec<DestroyOp> = Vec::new();
    let mut i: usize = 0;
    while i < image_view_count
        invariant
            i <= image_view_count,
            plan@ == Seq::new(i as nat, |k: int| DestroyOp::ImageView(k as usize)),
        decreases image_view_count - i,
    {
        plan.push(DestroyOp::ImageView(i));
        assert(plan@ =~= Seq::new(i as nat + 1, |k: int| DestroyOp::ImageView(k as usize)));
        i += 1;
    }
    plan.push(DestroyOp::Swapchain);
    assert(plan@ =~= swapchain_teardown_order(image_view_count as int));
    plan
}

/// The context's destruction steps: the messenger where one was
/// installed, then the surface, then the instance.
pub fn context_teardown(has_messenger: bool) -> (r: Vec<DestroyOp>)
    ensures
        r@ == context_teardown_order(has_messenger),
{
    let mut plan: Vec<DestroyOp> = Vec::new();
    if has_messenger {
        plan.push(DestroyOp::DebugMessenger);
    }
    plan.push(DestroyOp::Surface);
    plan.push(DestroyOp::Instance);
    assert(plan@ =~= context_teardown_order(has_messenger));
    plan
}

/// The full teardown plan for a context, a device and a swapchain with
/// `image_view_count` views.
pub fn teardown_plan(image_view_count: usize, has_messenger: bool) -> (r: Vec<DestroyOp>)
    ensures
        r@ == teardown_order(image_view_count as int, has_messenger),
{
    let mut plan = swapchain_teardown(image_view_count);
    plan.push(DestroyOp::LogicalDevice);
    let mut rest = context_teardown(has_messenger);
    plan.append(&mut rest);
    assert(plan@ =~= teardown_order(image_view_count as int, has_messenger));
    plan
}

/// The sequence of destruction steps keeps the order the native API
/// dictates: every image view strictly before the swapchain, the
/// swapchain strictly before the logical device, the logical device
/// strictly before the surface and the instance, the debug messenger
/// before the surface, and the surface before the instance.
pub open spec fn respects_teardown_order(s: Seq<DestroyOp>) -> bool {
    forall|i: int, j: int|
        #![trigger s[i], s[j]]
        0 <= i < s.len() && 0 <= j < s.len() ==> {
            &&& (s[i] is ImageView && s[j] is Swapchain ==> i < j)
            &&& (s[i] is Swapchain && s[j] is LogicalDevice ==> i < j)
            &&& (s[i] is LogicalDevice && s[j] is Surface ==> i < j)
            &&& (s[i] is LogicalDevice && s[j] is Instance ==> i < j)
            &&& (s[i] is DebugMessenger && s[j] is Surface ==> i < j)
            &&& (s[i] is Surface && s[j] is Instance ==> i < j)
        }
}

/// Teardown ordering: every full teardown plan, for any number of image
/// views and with or without a debug messenger, destroys image views
/// before the swapchain, the swapchain before the logical device, and
/// the logical device before the surface and the instance, with the
/// surface released before the instance.
pub proof fn lemma_teardown_ordering(image_view_count: int, has_messenger: bool)
    requires
        image_view_count >= 0,
    ensures
        respects_teardown_order(teardown_order(image_view_count, has_messenger)),
{
    let s = teardown_order(image_view_count, has_messenger);
    let n = image_view_count;
    let m: int = if has_messenger {
        1
    } else {
        0
    };
    assert(swapchain_teardown_order(n).len() == n + 1);
    assert(device_teardown_order().len() == 1);
    assert(context_teardown_order(has_messenger).len() == 2 + m);
    assert(s.len() == n + 4 + m);
    assert forall|i: int| 0 <= i < s.len() implies (s[i] is ImageView <==> i < n) && (s[i]
        is Swapchain <==> i == n) && (s[i] is LogicalDevice <==> i == n + 1) && (s[i]
        is DebugMessenger <==> (has_messenger && i == n + 2)) && (s[i] is Surface <==> i == n + 2
        + m) && (s[i] is Instance <==> i == n + 3 + m) by {
        if i < n + 1 {
            assert(s[i] == swapchain_teardown_order(n)[i]);
        } else if i < n + 2 {
            assert(s[i] == device_teardown_order()[i - (n + 1)]);
        } else {
            assert(s[i] == context_teardown_order(has_messenger)[i - (n + 2)]);
        }
    }
}

} // verus!
