use opal::teardown::{context_teardown, swapchain_teardown, teardown_plan, DestroyOp};

fn position(plan: &[DestroyOp], wanted: &DestroyOp) -> usize {
    plan.iter().position(|op| op == wanted).unwrap()
}

#[test]
fn full_plan_lists_every_step_in_order() {
    let plan = teardown_plan(2, true);
    assert_eq!(
        plan,
        vec![
            DestroyOp::ImageView(0),
            DestroyOp::ImageView(1),
            DestroyOp::Swapchain,
            DestroyOp::LogicalDevice,
            DestroyOp::DebugMessenger,
            DestroyOp::Surface,
            DestroyOp::Instance,
        ]
    );
}

#[test]
fn full_plan_without_messenger_skips_it() {
    let plan = teardown_plan(0, false);
    assert_eq!(
        plan,
        vec![
            DestroyOp::Swapchain,
            DestroyOp::LogicalDevice,
            DestroyOp::Surface,
            DestroyOp::Instance,
        ]
    );
}

#[test]
fn recorded_destruction_order_is_respected() {
    // A recording harness: walk the plan as the drop handlers would and
    // check every ordering the native API dictates.
    for views in 0..4usize {
        for messenger in [false, true] {
            let plan = teardown_plan(views, messenger);
            let swapchain_at = position(&plan, &DestroyOp::Swapchain);
            let device_at = position(&plan, &DestroyOp::LogicalDevice);
            let surface_at = position(&plan, &DestroyOp::Surface);
            let instance_at = position(&plan, &DestroyOp::Instance);
            for (at, op) in plan.iter().enumerate() {
                if let DestroyOp::ImageView(_) = op {
                    assert!(at < swapchain_at);
                }
            }
            assert!(swapchain_at < device_at);
            assert!(device_at < surface_at);
            assert!(surface_at < instance_at);
            if messenger {
                let messenger_at = position(&plan, &DestroyOp::DebugMessenger);
                assert!(device_at < messenger_at);
                assert!(messenger_at < surface_at);
            } else {
                assert!(!plan.iter().any(|op| *op == DestroyOp::DebugMessenger));
            }
        }
    }
}

#[test]
fn swapchain_plan_destroys_views_first() {
    let plan = swapchain_teardown(3);
    assert_eq!(
        plan,
        vec![
            DestroyOp::ImageView(0),
            DestroyOp::ImageView(1),
            DestroyOp::ImageView(2),
            DestroyOp::Swapchain,
        ]
    );
}

#[test]
fn context_plan_releases_surface_before_instance() {
    assert_eq!(
        context_teardown(true),
        vec![DestroyOp::DebugMessenger, DestroyOp::Surface, DestroyOp::Instance]
    );
    assert_eq!(context_teardown(false), vec![DestroyOp::Surface, DestroyOp::Instance]);
}
