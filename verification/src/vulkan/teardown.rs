//! The order in which the resources of a renderer are created and torn
//! down: what was created last is destroyed first.

use vstd::prelude::*;

verus! {

/// The kinds of resource a renderer owns.
#[derive(Clone, Copy, Debug, PartialEq, Eq, Structural)]
pub enum ResourceKind {
    Instance,
    Surface,
    Device,
    Swapchain,
    CommandPool,
    ImageViews,
    DepthResources,
    Fences,
    Semaphores,
}

/// A resource: its kind and the handle it is known by.
#[derive(Clone, Copy, Debug, PartialEq, Eq, Structural)]
pub struct Resource {
    pub kind: ResourceKind,
    pub handle: u64,
}

/// Why a resource was not destroyed.
#[derive(Clone, Copy, Debug, PartialEq, Eq, Structural)]
pub enum TeardownError {
    /// Nothing is left to destroy.
    NothingLive,
    /// Another resource was created later and has to go first.
    OutOfOrder { expected: Resource },
}

/// One step of a teardown.
#[derive(Clone, Copy, Debug, PartialEq, Eq, Structural)]
pub enum TeardownStep {
    /// Wait until the device has finished all work handed to it.
    WaitIdle,
    /// Destroy what is owned of the kind.
    Destroy(ResourceKind),
}

/// The place of a kind in the order of creation.
pub open spec fn creation_rank(kind: ResourceKind) -> int {
    match kind {
        ResourceKind::Instance => 0,
        ResourceKind::Surface => 1,
        ResourceKind::Device => 2,
        ResourceKind::Swapchain => 3,
        ResourceKind::CommandPool => 4,
        ResourceKind::ImageViews => 5,
        ResourceKind::DepthResources => 6,
        ResourceKind::Fences => 7,
        ResourceKind::Semaphores => 8,
    }
}

/// The kinds in the order in which a renderer disposes of them: each
/// before everything it was created after.
pub open spec fn disposal_order() -> Seq<ResourceKind> {
    seq![
        ResourceKind::Semaphores,
        ResourceKind::Fences,
        ResourceKind::DepthResources,
        ResourceKind::ImageViews,
        ResourceKind::CommandPool,
        ResourceKind::Swapchain,
        ResourceKind::Device,
        ResourceKind::Surface,
        ResourceKind::Instance,
    ]
}

/// Computes `disposal_order`.
pub fn full_disposal_order() -> (order: Vec<ResourceKind>)
    ensures
        order@ == disposal_order(),
{
    let mut order: Vec<ResourceKind> = Vec::new();
    order.push(ResourceKind::Semaphores);
    order.push(ResourceKind::Fences);
    order.push(ResourceKind::DepthResources);
    order.push(ResourceKind::ImageViews);
    order.push(ResourceKind::CommandPool);
    order.push(ResourceKind::Swapchain);
    order.push(ResourceKind::Device);
    order.push(ResourceKind::Surface);
    order.push(ResourceKind::Instance);
    assert(order@ =~= disposal_order());
    order
}

/// The steps of a shutdown: the device comes to rest, then everything is
/// destroyed in the disposal order.
pub open spec fn shutdown_sequence() -> Seq<TeardownStep> {
    seq![TeardownStep::WaitIdle] + disposal_order().map_values(
        |kind: ResourceKind| TeardownStep::Destroy(kind),
    )
}

/// Computes `shutdown_sequence`.
pub fn shutdown_steps() -> (steps: Vec<TeardownStep>)
    ensures
        steps@ == shutdown_sequence(),
{
    let order = full_disposal_order();
    let mut steps: Vec<TeardownStep> = Vec::new();
    steps.push(TeardownStep::WaitIdle);
    let mut i: usize = 0;
    while i < order.len()
        invariant
            i <= order.len(),
            order@ == disposal_order(),
            steps.len() == i + 1,
            steps@[0] == TeardownStep::WaitIdle,
            forall|j: int| 0 <= j < i ==> steps@[j + 1] == TeardownStep::Destroy(order@[j]),
        decreases order.len() - i,
    {
        steps.push(TeardownStep::Destroy(order[i]));
        i += 1;
    }
    assert(steps@ =~= shutdown_sequence());
    steps
}

/// Whether what is owned of a kind goes when the swapchain is renewed: the
/// swapchain and all that is created after it.
pub open spec fn renewed_with_swapchain(kind: ResourceKind) -> bool {
    creation_rank(kind) >= creation_rank(ResourceKind::Swapchain)
}

/// The steps by which a swapchain is given up for a new one: the device
/// comes to rest, then the swapchain and all that was created after it are
/// destroyed in the disposal order.
pub open spec fn renewal_sequence() -> Seq<TeardownStep> {
    seq![
        TeardownStep::WaitIdle,
        TeardownStep::Destroy(ResourceKind::Semaphores),
        TeardownStep::Destroy(ResourceKind::Fences),
        TeardownStep::Destroy(ResourceKind::DepthResources),
        TeardownStep::Destroy(ResourceKind::ImageViews),
        TeardownStep::Destroy(ResourceKind::CommandPool),
        TeardownStep::Destroy(ResourceKind::Swapchain),
    ]
}

/// Computes `renewal_sequence`.
pub fn renewal_steps() -> (steps: Vec<TeardownStep>)
    ensures
        steps@ == renewal_sequence(),
{
    let mut steps: Vec<TeardownStep> = Vec::new();
    steps.push(TeardownStep::WaitIdle);
    steps.push(TeardownStep::Destroy(ResourceKind::Semaphores));
    steps.push(TeardownStep::Destroy(ResourceKind::Fences));
    steps.push(TeardownStep::Destroy(ResourceKind::DepthResources));
    steps.push(TeardownStep::Destroy(ResourceKind::ImageViews));
    steps.push(TeardownStep::Destroy(ResourceKind::CommandPool));
    steps.push(TeardownStep::Destroy(ResourceKind::Swapchain));
    steps
}

/// A renewal begins like a shutdown and ends with the swapchain: it
/// destroys exactly what goes with the swapchain, and leaves the device,
/// the surface and the instance.
pub proof fn lemma_renewal_is_the_start_of_a_shutdown()
    ensures
        renewal_sequence() == shutdown_sequence().subrange(0, 7),
        forall|kind: ResourceKind|
            renewed_with_swapchain(kind) <==> renewal_sequence().contains(
                TeardownStep::Destroy(kind),
            ),
{
    let renewal = renewal_sequence();
    let shutdown = shutdown_sequence();
    assert(shutdown.len() == 10);
    assert forall|i: int| 0 <= i < 7 implies renewal[i] == shutdown[i] by {
        if i > 0 {
            assert(shutdown[i] == TeardownStep::Destroy(disposal_order()[i - 1]));
        }
    }
    assert(renewal =~= shutdown.subrange(0, 7));
    assert forall|kind: ResourceKind| renewed_with_swapchain(kind) implies renewal.contains(
        TeardownStep::Destroy(kind),
    ) by {
        let i = 9 - creation_rank(kind);
        assert(renewal[i] == TeardownStep::Destroy(kind));
    }
}

/// The disposal order names every kind once, and each kind before all
/// that were created earlier.
pub proof fn lemma_disposal_order_reverses_creation()
    ensures
        disposal_order().len() == 9,
        forall|i: int|
            0 <= i < 9 ==> creation_rank(#[trigger] disposal_order()[i]) == 8 - i,
        forall|kind: ResourceKind| disposal_order()[8 - creation_rank(kind)] == kind,
{
}

/// What a sequence of live resources becomes when `resource` is destroyed:
/// only the one created last may go.
pub open spec fn after_destroy(live: Seq<Resource>, resource: Resource) -> Result<
    Seq<Resource>,
    TeardownError,
> {
    if live.len() == 0 {
        Err(TeardownError::NothingLive)
    } else if live.last() != resource {
        Err(TeardownError::OutOfOrder { expected: live.last() })
    } else {
        Ok(live.drop_last())
    }
}

/// Whether destroying the resources of `order`, one after the other,
/// succeeds at every step and leaves nothing live.
pub open spec fn destroys_all(live: Seq<Resource>, order: Seq<Resource>) -> bool
    decreases order.len(),
{
    if order.len() == 0 {
        live.len() == 0
    } else {
        match after_destroy(live, order[0]) {
            Ok(rest) => destroys_all(rest, order.drop_first()),
            Err(_) => false,
        }
    }
}

/// What stays live when the resources of `kind` that were created last are
/// released: everything up to the last resource of another kind.
pub open spec fn without_last_of(live: Seq<Resource>, kind: ResourceKind) -> Seq<Resource>
    decreases live.len(),
{
    if live.len() > 0 && live.last().kind == kind {
        without_last_of(live.drop_last(), kind)
    } else {
        live
    }
}

/// What stays live when the resources of each kind of `kinds` are released
/// in turn.
pub open spec fn without_all_of(live: Seq<Resource>, kinds: Seq<ResourceKind>) -> Seq<Resource>
    decreases kinds.len(),
{
    if kinds.len() == 0 {
        live
    } else {
        without_last_of(without_all_of(live, kinds.drop_last()), kinds.last())
    }
}

/// Whether the resources were created in the order of their kinds.
pub open spec fn created_in_order(live: Seq<Resource>) -> bool {
    forall|i: int, j: int|
        0 <= i <= j < live.len() ==> creation_rank(live[i].kind) <= creation_rank(live[j].kind)
}

/// The resources that are live, in the order of their creation.
#[derive(Debug, PartialEq, Eq)]
pub struct ResourceTracker {
    live: Vec<Resource>,
}

impl View for ResourceTracker {
    type V = Seq<Resource>;

    closed spec fn view(&self) -> Seq<Resource> {
        self.live@
    }
}

impl ResourceTracker {
    /// A tracker with nothing live.
    pub fn new() -> (tracker: ResourceTracker)
        ensures
            tracker@ == Seq::<Resource>::empty(),
    {
        ResourceTracker { live: Vec::new() }
    }

    /// Records that `resource` was created, after all that are live.
    pub fn record_creation(&mut self, resource: Resource)
        ensures
            final(self)@ == old(self)@.push(resource),
    {
        self.live.push(resource);
    }

    /// The number of live resources.
    pub fn live_count(&self) -> (count: usize)
        ensures
            count == self@.len(),
    {
        self.live.len()
    }

    /// The resource that has to be destroyed next, if one is live.
    pub fn next_to_destroy(&self) -> (next: Option<Resource>)
        ensures
            next == if self@.len() == 0 {
                None
            } else {
                Some(self@.last())
            },
    {
        if self.live.len() == 0 {
            None
        } else {
            Some(self.live[self.live.len() - 1])
        }
    }

    /// Destroys `resource` if it is the one created last; otherwise says
    /// what is wrong and leaves the tracker as it was.
    pub fn destroy(&mut self, resource: Resource) -> (result: Result<(), TeardownError>)
        ensures
            match after_destroy(old(self)@, resource) {
                Ok(rest) => result == Ok::<(), TeardownError>(()) && final(self)@ == rest,
                Err(e) => result == Err::<(), TeardownError>(e) && final(self)@ == old(self)@,
            },
    {
        let n = self.live.len();
        if n == 0 {
            return Err(TeardownError::NothingLive);
        }
        let last = self.live[n - 1];
        if last != resource {
            return Err(TeardownError::OutOfOrder { expected: last });
        }
        self.live.pop();
        assert(self.live@ =~= old(self).live@.drop_last());
        Ok(())
    }

    /// The live resources in the order in which they have to be destroyed.
    pub fn teardown_order(&self) -> (order: Vec<Resource>)
        ensures
            order@ == self@.reverse(),
    {
        let n = self.live.len();
        let mut order: Vec<Resource> = Vec::new();
        let mut i: usize = 0;
        while i < n
            invariant
                i <= n,
                n == self.live.len(),
                order.len() == i,
                forall|j: int| 0 <= j < i ==> order@[j] == self.live@[n - 1 - j],
            decreases n - i,
        {
            order.push(self.live[n - 1 - i]);
            i += 1;
        }
        assert(order@ =~= self.live@.reverse());
        order
    }

    /// Releases the resources of `kind` that were created last: takes them
    /// from the tracker and hands them out, the last created first. Nothing
    /// is released where the resource created last is of another kind.
    pub fn release(&mut self, kind: ResourceKind) -> (released: Vec<Resource>)
        ensures
            final(self)@ == without_last_of(old(self)@, kind),
            final(self)@.len() + released@.len() == old(self)@.len(),
            final(self)@ == old(self)@.subrange(0, final(self)@.len() as int),
            released@ == old(self)@.subrange(
                final(self)@.len() as int,
                old(self)@.len() as int,
            ).reverse(),
    {
        let mut released: Vec<Resource> = Vec::new();
        let ghost before = self.live@;
        assert(before.subrange(0, before.len() as int) =~= before);
        while self.live.len() > 0 && self.live[self.live.len() - 1].kind == kind
            invariant
                before == old(self).live@,
                self.live@.len() + released@.len() == before.len(),
                self.live@ == before.subrange(0, self.live@.len() as int),
                without_last_of(self.live@, kind) == without_last_of(before, kind),
                forall|j: int|
                    0 <= j < released@.len() ==> released@[j] == before[before.len() - 1 - j],
            decreases self.live.len(),
        {
            let ghost live = self.live@;
            match self.live.pop() {
                Some(resource) => {
                    released.push(resource);
                },
                None => {},
            }
            assert(self.live@ =~= live.drop_last());
            assert(self.live@ =~= before.subrange(0, self.live@.len() as int));
        }
        assert(released@ =~= before.subrange(
            self.live@.len() as int,
            before.len() as int,
        ).reverse());
        released
    }

    /// Empties the tracker and hands out what was live, in the order in
    /// which it has to be destroyed.
    pub fn dispose_all(&mut self) -> (order: Vec<Resource>)
        ensures
            order@ == old(self)@.reverse(),
            final(self)@ == Seq::<Resource>::empty(),
    {
        let order = self.teardown_order();
        self.live.clear();
        order
    }
}

/// Releasing the resources of the kind that was created last leaves
/// resources of earlier kinds only, in the order of their kinds.
proof fn lemma_release_lowers_kinds(live: Seq<Resource>, kind: ResourceKind)
    requires
        created_in_order(live),
        forall|i: int|
            0 <= i < live.len() ==> creation_rank(#[trigger] live[i].kind) <= creation_rank(kind),
    ensures
        created_in_order(without_last_of(live, kind)),
        forall|i: int|
            0 <= i < without_last_of(live, kind).len() ==> creation_rank(
                #[trigger] without_last_of(live, kind)[i].kind,
            ) < creation_rank(kind),
    decreases live.len(),
{
    if live.len() > 0 && live.last().kind == kind {
        let rest = live.drop_last();
        assert forall|i: int, j: int| 0 <= i <= j < rest.len() implies creation_rank(rest[i].kind)
            <= creation_rank(rest[j].kind) by {
            assert(rest[i] == live[i] && rest[j] == live[j]);
        }
        assert forall|i: int| 0 <= i < rest.len() implies creation_rank(#[trigger] rest[i].kind)
            <= creation_rank(kind) by {
            assert(rest[i] == live[i]);
        }
        lemma_release_lowers_kinds(rest, kind);
    } else if live.len() > 0 {
        let last = live.len() - 1;
        assert forall|i: int| 0 <= i < live.len() implies creation_rank(#[trigger] live[i].kind)
            < creation_rank(kind) by {
            assert(creation_rank(live[i].kind) <= creation_rank(live[last].kind));
            assert(creation_rank(live[last].kind) <= creation_rank(kind));
        }
    }
}

/// Resources that were created in the order of their kinds are all
/// released by a shutdown: nothing stays live when the kinds are released
/// in the disposal order.
pub proof fn lemma_shutdown_releases_everything(live: Seq<Resource>)
    requires
        created_in_order(live),
    ensures
        without_all_of(live, disposal_order()) == Seq::<Resource>::empty(),
{
    let order = disposal_order();
    lemma_disposal_order_reverses_creation();
    lemma_released_kinds_are_gone(live, 9);
    assert(order.subrange(0, 9) =~= order);
    let rest = without_all_of(live, order);
    if rest.len() > 0 {
        assert(creation_rank(rest[0].kind) < 0);
    }
    assert(rest =~= Seq::<Resource>::empty());
}

/// Of resources that were created in the order of their kinds, a renewal
/// of the swapchain releases all that goes with the swapchain and nothing
/// else.
pub proof fn lemma_renewal_releases_what_goes_with_the_swapchain(live: Seq<Resource>)
    requires
        created_in_order(live),
    ensures
        forall|i: int|
            0 <= i < without_all_of(live, disposal_order().subrange(0, 6)).len()
                ==> !renewed_with_swapchain(
                #[trigger] without_all_of(live, disposal_order().subrange(0, 6))[i].kind,
            ),
        forall|i: int|
            0 <= i < live.len() && !renewed_with_swapchain(live[i].kind) ==> i < without_all_of(
                live,
                disposal_order().subrange(0, 6),
            ).len() && without_all_of(live, disposal_order().subrange(0, 6))[i] == live[i],
{
    lemma_released_kinds_are_gone(live, 6);
    lemma_only_named_kinds_are_released(live, disposal_order().subrange(0, 6));
    let rest = without_all_of(live, disposal_order().subrange(0, 6));
    assert forall|i: int| 0 <= i < live.len() && !renewed_with_swapchain(
        live[i].kind,
    ) implies i < rest.len() && rest[i] == live[i] by {
        if i >= rest.len() {
            assert(disposal_order().subrange(0, 6).contains(live[i].kind));
            let k = choose|k: int|
                0 <= k < 6 && disposal_order().subrange(0, 6)[k] == live[i].kind;
            assert(disposal_order()[k] == live[i].kind);
        }
    }
}

/// What stays live after a release is the front of what was live, and
/// what was released is of the kinds that were named.
proof fn lemma_only_named_kinds_are_released(live: Seq<Resource>, kinds: Seq<ResourceKind>)
    ensures
        without_all_of(live, kinds).len() <= live.len(),
        without_all_of(live, kinds) == live.subrange(0, without_all_of(live, kinds).len() as int),
        forall|i: int|
            without_all_of(live, kinds).len() <= i < live.len() ==> kinds.contains(
                #[trigger] live[i].kind,
            ),
    decreases kinds.len(),
{
    if kinds.len() == 0 {
        assert(live.subrange(0, live.len() as int) =~= live);
    } else {
        let before = without_all_of(live, kinds.drop_last());
        lemma_only_named_kinds_are_released(live, kinds.drop_last());
        lemma_release_takes_the_last(before, kinds.last());
        let after = without_all_of(live, kinds);
        assert(after =~= live.subrange(0, after.len() as int));
        assert forall|i: int| after.len() <= i < live.len() implies kinds.contains(
            #[trigger] live[i].kind,
        ) by {
            if i < before.len() {
                assert(before[i] == live[i]);
                assert(kinds[kinds.len() - 1] == live[i].kind);
            } else {
                let k = choose|k: int|
                    0 <= k < kinds.drop_last().len() && kinds.drop_last()[k] == live[i].kind;
                assert(kinds[k] == live[i].kind);
            }
        }
    }
}

/// A release takes resources of the named kind from the end and leaves
/// the front.
proof fn lemma_release_takes_the_last(live: Seq<Resource>, kind: ResourceKind)
    ensures
        without_last_of(live, kind).len() <= live.len(),
        without_last_of(live, kind) == live.subrange(0, without_last_of(live, kind).len() as int),
        forall|i: int|
            without_last_of(live, kind).len() <= i < live.len() ==> (#[trigger] live[i]).kind
                == kind,
    decreases live.len(),
{
    if live.len() > 0 && live.last().kind == kind {
        lemma_release_takes_the_last(live.drop_last(), kind);
        let rest = without_last_of(live, kind);
        assert(rest =~= live.subrange(0, rest.len() as int));
        assert forall|i: int| rest.len() <= i < live.len() implies (#[trigger] live[i]).kind
            == kind by {
            if i < live.len() - 1 {
                assert(live.drop_last()[i] == live[i]);
            }
        }
    } else {
        assert(live.subrange(0, live.len() as int) =~= live);
    }
}

/// After the first `n` kinds of the disposal order were released, what is
/// live is of the kinds that come after them.
proof fn lemma_released_kinds_are_gone(live: Seq<Resource>, n: int)
    requires
        created_in_order(live),
        0 <= n <= 9,
    ensures
        created_in_order(without_all_of(live, disposal_order().subrange(0, n))),
        forall|i: int|
            0 <= i < without_all_of(live, disposal_order().subrange(0, n)).len()
                ==> creation_rank(
                #[trigger] without_all_of(live, disposal_order().subrange(0, n))[i].kind,
            ) <= 8 - n,
    decreases n,
{
    let kinds = disposal_order().subrange(0, n);
    if n == 0 {
        assert(without_all_of(live, kinds) == live);
    } else {
        lemma_released_kinds_are_gone(live, n - 1);
        lemma_disposal_order_reverses_creation();
        assert(kinds.drop_last() =~= disposal_order().subrange(0, n - 1));
        assert(kinds.last() == disposal_order()[n - 1]);
        assert(creation_rank(kinds.last()) == 9 - n);
        lemma_release_lowers_kinds(without_all_of(live, kinds.drop_last()), kinds.last());
    }
}

/// Resources created in some order can all be destroyed in exactly one
/// order: the reverse of their creation.
pub proof fn lemma_teardown_is_reverse_of_creation(created: Seq<Resource>, order: Seq<Resource>)
    ensures
        destroys_all(created, order) <==> order == created.reverse(),
    decreases order.len(),
{
    if order.len() == 0 {
        if created.len() != 0 {
            assert(created.reverse().len() == created.len());
        }
        assert(created.len() == 0 ==> created.reverse() =~= order);
    } else {
        match after_destroy(created, order[0]) {
            Ok(rest) => {
                lemma_teardown_is_reverse_of_creation(rest, order.drop_first());
                let n = created.len() as int;
                assert(rest.len() == n - 1);
                assert(forall|i: int| 0 <= i < n - 1 ==> rest[i] == created[i]);
                if order.drop_first() == rest.reverse() {
                    assert(order.len() == n);
                    assert forall|i: int| 0 <= i < n implies order[i] == created[n - 1 - i] by {
                        if i > 0 {
                            assert(order[i] == order.drop_first()[i - 1]);
                            assert(rest.reverse()[i - 1] == rest[n - 1 - i]);
                        }
                    }
                    assert(order =~= created.reverse());
                }
                if order == created.reverse() {
                    assert forall|i: int| 0 <= i < n - 1 implies order.drop_first()[i]
                        == rest.reverse()[i] by {
                        assert(order.drop_first()[i] == order[i + 1]);
                        assert(rest.reverse()[i] == rest[n - 2 - i]);
                    }
                    assert(order.drop_first() =~= rest.reverse());
                }
            },
            Err(_) => {
                if order == created.reverse() {
                    assert(created.len() > 0);
                    assert(order[0] == created.last());
                }
            },
        }
    }
}

} // verus!
