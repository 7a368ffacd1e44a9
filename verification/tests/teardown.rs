use resa::vulkan::teardown::{
    full_disposal_order, renewal_steps, shutdown_steps, Resource, ResourceKind, ResourceTracker,
    TeardownError, TeardownStep,
};

fn a() -> Resource {
    Resource { kind: ResourceKind::Instance, handle: 1 }
}

fn b() -> Resource {
    Resource { kind: ResourceKind::Device, handle: 2 }
}

fn c() -> Resource {
    Resource { kind: ResourceKind::Swapchain, handle: 3 }
}

fn three_live() -> ResourceTracker {
    let mut tracker = ResourceTracker::new();
    tracker.record_creation(a());
    tracker.record_creation(b());
    tracker.record_creation(c());
    tracker
}

#[test]
fn teardown_order_is_the_reverse_of_creation() {
    let tracker = three_live();
    assert_eq!(tracker.teardown_order(), vec![c(), b(), a()]);
    assert_eq!(tracker.live_count(), 3);
}

#[test]
fn resources_are_destroyed_in_reverse_order() {
    let mut tracker = three_live();
    assert_eq!(tracker.next_to_destroy(), Some(c()));
    assert_eq!(tracker.destroy(c()), Ok(()));
    assert_eq!(tracker.next_to_destroy(), Some(b()));
    assert_eq!(tracker.destroy(b()), Ok(()));
    assert_eq!(tracker.destroy(a()), Ok(()));
    assert_eq!(tracker.live_count(), 0);
    assert_eq!(tracker.next_to_destroy(), None);
}

#[test]
fn destroying_out_of_order_is_detected() {
    let mut tracker = three_live();
    assert_eq!(tracker.destroy(a()), Err(TeardownError::OutOfOrder { expected: c() }));
    assert_eq!(tracker.destroy(b()), Err(TeardownError::OutOfOrder { expected: c() }));
    assert_eq!(tracker.live_count(), 3);
    assert_eq!(tracker.destroy(c()), Ok(()));
    assert_eq!(tracker.destroy(a()), Err(TeardownError::OutOfOrder { expected: b() }));
    assert_eq!(tracker.teardown_order(), vec![b(), a()]);
}

#[test]
fn destroying_with_nothing_live_is_detected() {
    let mut tracker = ResourceTracker::new();
    assert_eq!(tracker.destroy(a()), Err(TeardownError::NothingLive));
    assert_eq!(tracker.teardown_order(), vec![]);
}

#[test]
fn same_kind_with_another_handle_is_another_resource() {
    let mut tracker = three_live();
    let other = Resource { kind: ResourceKind::Swapchain, handle: 4 };
    assert_eq!(tracker.destroy(other), Err(TeardownError::OutOfOrder { expected: c() }));
}

#[test]
fn dispose_all_empties_the_tracker() {
    let mut tracker = three_live();
    assert_eq!(tracker.dispose_all(), vec![c(), b(), a()]);
    assert_eq!(tracker.live_count(), 0);
    assert_eq!(tracker.dispose_all(), vec![]);
}

fn of(kind: ResourceKind, handle: u64) -> Resource {
    Resource { kind, handle }
}

#[test]
fn release_takes_the_last_resources_of_a_kind() {
    let mut tracker = ResourceTracker::new();
    tracker.record_creation(of(ResourceKind::Device, 1));
    tracker.record_creation(of(ResourceKind::Fences, 2));
    tracker.record_creation(of(ResourceKind::Semaphores, 3));
    tracker.record_creation(of(ResourceKind::Semaphores, 4));
    assert_eq!(tracker.release(ResourceKind::Fences), vec![]);
    assert_eq!(tracker.live_count(), 4);
    assert_eq!(
        tracker.release(ResourceKind::Semaphores),
        vec![of(ResourceKind::Semaphores, 4), of(ResourceKind::Semaphores, 3)]
    );
    assert_eq!(tracker.release(ResourceKind::Semaphores), vec![]);
    assert_eq!(tracker.release(ResourceKind::Fences), vec![of(ResourceKind::Fences, 2)]);
    assert_eq!(tracker.teardown_order(), vec![of(ResourceKind::Device, 1)]);
    assert_eq!(ResourceTracker::new().release(ResourceKind::Device), vec![]);
}

fn created_in_order() -> ResourceTracker {
    let mut tracker = ResourceTracker::new();
    let mut kinds = full_disposal_order();
    kinds.reverse();
    for (handle, kind) in kinds.into_iter().enumerate() {
        tracker.record_creation(of(kind, handle as u64));
    }
    tracker
}

fn released_by(tracker: &mut ResourceTracker, steps: Vec<TeardownStep>) -> Vec<Resource> {
    let mut released = Vec::new();
    for step in steps {
        if let TeardownStep::Destroy(kind) = step {
            released.extend(tracker.release(kind));
        }
    }
    released
}

#[test]
fn shutdown_releases_everything_in_reverse_order() {
    let mut tracker = created_in_order();
    let expected = tracker.teardown_order();
    assert_eq!(released_by(&mut tracker, shutdown_steps()), expected);
    assert_eq!(tracker.live_count(), 0);
}

#[test]
fn renewal_releases_what_goes_with_the_swapchain() {
    let mut tracker = created_in_order();
    let released = released_by(&mut tracker, renewal_steps());
    assert_eq!(released.len(), 6);
    assert_eq!(released[0].kind, ResourceKind::Semaphores);
    assert_eq!(released[5].kind, ResourceKind::Swapchain);
    assert_eq!(
        tracker.teardown_order(),
        vec![
            of(ResourceKind::Device, 2),
            of(ResourceKind::Surface, 1),
            of(ResourceKind::Instance, 0),
        ]
    );
}

#[test]
fn renewal_waits_and_ends_with_the_swapchain() {
    assert_eq!(
        renewal_steps(),
        vec![
            TeardownStep::WaitIdle,
            TeardownStep::Destroy(ResourceKind::Semaphores),
            TeardownStep::Destroy(ResourceKind::Fences),
            TeardownStep::Destroy(ResourceKind::DepthResources),
            TeardownStep::Destroy(ResourceKind::ImageViews),
            TeardownStep::Destroy(ResourceKind::CommandPool),
            TeardownStep::Destroy(ResourceKind::Swapchain),
        ]
    );
    assert_eq!(renewal_steps()[..], shutdown_steps()[..7]);
}

#[test]
fn resources_out_of_order_stay_live_after_a_shutdown() {
    let mut tracker = ResourceTracker::new();
    tracker.record_creation(of(ResourceKind::Swapchain, 1));
    tracker.record_creation(of(ResourceKind::Device, 2));
    let released = released_by(&mut tracker, shutdown_steps());
    assert_eq!(released, vec![of(ResourceKind::Device, 2)]);
    assert_eq!(tracker.teardown_order(), vec![of(ResourceKind::Swapchain, 1)]);
}

#[test]
fn disposal_order_runs_from_semaphores_to_the_instance() {
    assert_eq!(
        full_disposal_order(),
        vec![
            ResourceKind::Semaphores,
            ResourceKind::Fences,
            ResourceKind::DepthResources,
            ResourceKind::ImageViews,
            ResourceKind::CommandPool,
            ResourceKind::Swapchain,
            ResourceKind::Device,
            ResourceKind::Surface,
            ResourceKind::Instance,
        ]
    );
}

#[test]
fn shutdown_waits_for_the_device_first() {
    let steps = shutdown_steps();
    assert_eq!(steps.len(), 10);
    assert_eq!(steps[0], TeardownStep::WaitIdle);
    assert_eq!(steps[1], TeardownStep::Destroy(ResourceKind::Semaphores));
    assert_eq!(steps[6], TeardownStep::Destroy(ResourceKind::Swapchain));
    assert_eq!(steps[9], TeardownStep::Destroy(ResourceKind::Instance));
}
