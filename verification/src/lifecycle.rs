//! The order in which the renderer's resources come and go.
//!
//! Every resource is created after the resources it depends on and destroyed
//! before them.  [`Lifecycle`] keeps the resources that are alive in the order
//! of their creation and accepts a creation only when the dependencies are
//! alive, and a destruction only of the newest resource.
use vstd::prelude::*;

verus! {

/// The resources that the renderer owns.  The command buffers are not listed:
/// they are allocated from the command pool and freed with it.
#[derive(Clone, Copy, Debug, PartialEq, Eq, Structural)]
pub enum Resource {
    Instance,
    Surface,
    DebugMessenger,
    Device,
    Swapchain,
    ImageViews,
    RenderPass,
    PipelineLayout,
    Pipeline,
    Framebuffers,
    CommandPool,
    Semaphores,
}

/// Why a creation or a destruction was refused.
#[derive(Clone, Copy, Debug, PartialEq, Eq, Structural)]
pub enum LifecycleError {
    /// The resource to create is alive already.
    AlreadyLive,
    /// A resource that the new one depends on is not alive.
    MissingDependency,
    /// The resource to destroy is not alive.
    NotLive,
    /// The resource to destroy is alive, but a newer one is too.
    OutOfOrder,
}

/// The resources that must be alive when `r` is created.
pub open spec fn spec_dependencies(r: Resource) -> Seq<Resource> {
    match r {
        Resource::Instance => seq![],
        Resource::Surface => seq![Resource::Instance],
        Resource::DebugMessenger => seq![Resource::Instance],
        Resource::Device => seq![Resource::Instance, Resource::Surface],
        Resource::Swapchain => seq![Resource::Device, Resource::Surface],
        Resource::ImageViews => seq![Resource::Device, Resource::Swapchain],
        Resource::RenderPass => seq![Resource::Device, Resource::Swapchain],
        Resource::PipelineLayout => seq![Resource::Device],
        Resource::Pipeline => seq![
            Resource::Device,
            Resource::Swapchain,
            Resource::RenderPass,
            Resource::PipelineLayout,
        ],
        Resource::Framebuffers => seq![Resource::Device, Resource::ImageViews, Resource::RenderPass],
        Resource::CommandPool => seq![Resource::Device],
        Resource::Semaphores => seq![Resource::Device],
    }
}

/// The order in which a bootstrap creates the resources.
pub open spec fn spec_setup_order() -> Seq<Resource> {
    seq![
        Resource::Instance,
        Resource::Surface,
        Resource::DebugMessenger,
        Resource::Device,
        Resource::Swapchain,
        Resource::ImageViews,
        Resource::RenderPass,
        Resource::PipelineLayout,
        Resource::Pipeline,
        Resource::Framebuffers,
        Resource::CommandPool,
        Resource::Semaphores,
    ]
}

/// The order in which a shutdown destroys the resources.
pub open spec fn spec_teardown_order() -> Seq<Resource> {
    seq![
        Resource::Semaphores,
        Resource::CommandPool,
        Resource::Framebuffers,
        Resource::Pipeline,
        Resource::PipelineLayout,
        Resource::RenderPass,
        Resource::ImageViews,
        Resource::Swapchain,
        Resource::Device,
        Resource::DebugMessenger,
        Resource::Surface,
        Resource::Instance,
    ]
}

/// `d` stands in `live` before position `i`.
pub open spec fn spec_created_before(live: Seq<Resource>, i: int, d: Resource) -> bool {
    exists|j: int| 0 <= j < i && live[j] == d
}

/// A creation order is sound when nothing occurs twice in it and every
/// resource comes after all of its dependencies.
pub open spec fn spec_sound_order(live: Seq<Resource>) -> bool {
    &&& live.no_duplicates()
    &&& forall|i: int, k: int|
        0 <= i < live.len() && 0 <= k < spec_dependencies(live[i]).len()
            ==> #[trigger] spec_created_before(live, i, spec_dependencies(live[i])[k])
}

/// `r` may be created: it is not alive and all of its dependencies are.
pub open spec fn spec_can_create(live: Seq<Resource>, r: Resource) -> bool {
    &&& !live.contains(r)
    &&& forall|k: int|
        0 <= k < spec_dependencies(r).len() ==> live.contains(#[trigger] spec_dependencies(r)[k])
}

/// `r` may be destroyed: it is the newest resource alive.
pub open spec fn spec_can_destroy(live: Seq<Resource>, r: Resource) -> bool {
    live.len() > 0 && live.last() == r
}

/// What is alive after the resources of `order` were created one by one, or
/// `None` if one of the creations is refused.
pub open spec fn spec_create_all(live: Seq<Resource>, order: Seq<Resource>) -> Option<
    Seq<Resource>,
>
    decreases order.len(),
{
    if order.len() == 0 {
        Some(live)
    } else if spec_can_create(live, order[0]) {
        spec_create_all(live.push(order[0]), order.drop_first())
    } else {
        None
    }
}

/// What is alive after the resources of `order` were destroyed one by one, or
/// `None` if one of the destructions is refused.
pub open spec fn spec_destroy_all(live: Seq<Resource>, order: Seq<Resource>) -> Option<
    Seq<Resource>,
>
    decreases order.len(),
{
    if order.len() == 0 {
        Some(live)
    } else if spec_can_destroy(live, order[0]) {
        spec_destroy_all(live.drop_last(), order.drop_first())
    } else {
        None
    }
}

/// The resources that must be alive when `r` is created.
pub fn dependencies(r: Resource) -> (deps: Vec<Resource>)
    ensures
        deps@ == spec_dependencies(r),
{
    let deps = match r {
        Resource::Instance => Vec::new(),
        Resource::Surface => vec![Resource::Instance],
        Resource::DebugMessenger => vec![Resource::Instance],
        Resource::Device => vec![Resource::Instance, Resource::Surface],
        Resource::Swapchain => vec![Resource::Device, Resource::Surface],
        Resource::ImageViews => vec![Resource::Device, Resource::Swapchain],
        Resource::RenderPass => vec![Resource::Device, Resource::Swapchain],
        Resource::PipelineLayout => vec![Resource::Device],
        Resource::Pipeline => vec![
            Resource::Device,
            Resource::Swapchain,
            Resource::RenderPass,
            Resource::PipelineLayout,
        ],
        Resource::Framebuffers => vec![
            Resource::Device,
            Resource::ImageViews,
            Resource::RenderPass,
        ],
        Resource::CommandPool => vec![Resource::Device],
        Resource::Semaphores => vec![Resource::Device],
    };
    assert(deps@ =~= spec_dependencies(r));
    deps
}

/// The order in which a bootstrap creates the resources.
pub fn setup_order() -> (order: Vec<Resource>)
    ensures
        order@ == spec_setup_order(),
{
    let order = vec![
        Resource::Instance,
        Resource::Surface,
        Resource::DebugMessenger,
        Resource::Device,
        Resource::Swapchain,
        Resource::ImageViews,
        Resource::RenderPass,
        Resource::PipelineLayout,
        Resource::Pipeline,
        Resource::Framebuffers,
        Resource::CommandPool,
        Resource::Semaphores,
    ];
    assert(order@ =~= spec_setup_order());
    order
}

/// The order in which a shutdown destroys the resources: the semaphores
/// first, the instance last.  The caller has waited for the device to be
/// idle before it destroys the first of them.
pub fn teardown_order() -> (order: Vec<Resource>)
    ensures
        order@ == spec_teardown_order(),
{
    let order = vec![
        Resource::Semaphores,
        Resource::CommandPool,
        Resource::Framebuffers,
        Resource::Pipeline,
        Resource::PipelineLayout,
        Resource::RenderPass,
        Resource::ImageViews,
        Resource::Swapchain,
        Resource::Device,
        Resource::DebugMessenger,
        Resource::Surface,
        Resource::Instance,
    ];
    assert(order@ =~= spec_teardown_order());
    order
}

/// One step of a shutdown.
#[derive(Clone, Copy, Debug, PartialEq, Eq, Structural)]
pub enum ShutdownStep {
    /// Block until the device has finished all the work submitted to it.
    WaitDeviceIdle,
    /// Destroy the resource.
    Destroy(Resource),
}

/// The steps of a shutdown: the wait for the device, then the destructions
/// in teardown order.
pub open spec fn spec_shutdown_steps() -> Seq<ShutdownStep> {
    seq![ShutdownStep::WaitDeviceIdle] + spec_teardown_order().map_values(
        |r: Resource| ShutdownStep::Destroy(r),
    )
}

/// Lists the steps of a shutdown.
///
/// Destroying a resource does not wait for the device, so the shutdown waits
/// once, before the first destruction, until no work is in flight.
pub fn shutdown_steps() -> (steps: Vec<ShutdownStep>)
    ensures
        steps@ == spec_shutdown_steps(),
{
    let order = teardown_order();
    let mut steps: Vec<ShutdownStep> = Vec::new();
    steps.push(ShutdownStep::WaitDeviceIdle);
    let mut i: usize = 0;
    while i < order.len()
        invariant
            i <= order@.len(),
            steps@.len() == i + 1,
            steps@[0] == ShutdownStep::WaitDeviceIdle,
            forall|k: int| 0 <= k < i ==> steps@[k + 1] == ShutdownStep::Destroy(order@[k]),
        decreases order@.len() - i,
    {
        steps.push(ShutdownStep::Destroy(order[i]));
        i = i + 1;
    }
    assert(steps@ =~= spec_shutdown_steps());
    steps
}

/// The resources that are alive, oldest first.
pub struct Lifecycle {
    live: Vec<Resource>,
}

impl View for Lifecycle {
    type V = Seq<Resource>;

    closed spec fn view(&self) -> Seq<Resource> {
        self.live@
    }
}

fn position(live: &Vec<Resource>, r: Resource) -> (found: Option<usize>)
    ensures
        match found {
            Some(i) => i < live@.len() && live@[i as int] == r,
            None => !live@.contains(r),
        },
{
    let mut i: usize = 0;
    while i < live.len()
        invariant
            i <= live@.len(),
            forall|k: int| 0 <= k < i ==> live@[k] != r,
        decreases live@.len() - i,
    {
        if live[i] == r {
            return Some(i);
        }
        i = i + 1;
    }
    None
}

impl Lifecycle {
    /// The invariant of a `Lifecycle`: what is alive was created in a sound
    /// order.
    pub open spec fn wf(&self) -> bool {
        spec_sound_order(self@)
    }

    /// A lifecycle in which nothing is alive.
    pub fn new() -> (r: Lifecycle)
        ensures
            r@ == Seq::<Resource>::empty(),
            r.wf(),
    {
        Lifecycle { live: Vec::new() }
    }

    /// Whether `r` is alive.
    pub fn is_live(&self, r: Resource) -> (b: bool)
        ensures
            b == self@.contains(r),
    {
        position(&self.live, r).is_some()
    }

    /// The number of resources alive.
    pub fn len(&self) -> (n: usize)
        ensures
            n == self@.len(),
    {
        self.live.len()
    }

    /// Whether the bootstrap is complete: everything is alive, created in
    /// setup order.
    pub fn is_complete(&self) -> (b: bool)
        ensures
            b == (self@ == spec_setup_order()),
    {
        let order = setup_order();
        if self.live.len() != order.len() {
            return false;
        }
        let mut i: usize = 0;
        while i < order.len()
            invariant
                i <= order@.len(),
                order@.len() == self.live@.len(),
                order@ == spec_setup_order(),
                forall|k: int| 0 <= k < i ==> self.live@[k] == order@[k],
            decreases order@.len() - i,
        {
            if self.live[i] != order[i] {
                return false;
            }
            i = i + 1;
        }
        assert(self@ =~= spec_setup_order());
        true
    }

    /// Records the creation of `r`.
    ///
    /// The creation is accepted when `r` is not alive and all of its
    /// dependencies are; `r` is then the newest resource.  A refused creation
    /// changes nothing.
    pub fn create(&mut self, r: Resource) -> (res: Result<(), LifecycleError>)
        requires
            old(self).wf(),
        ensures
            final(self).wf(),
            match res {
                Ok(_) => spec_can_create(old(self)@, r) && final(self)@ == old(self)@.push(r),
                Err(e) => !spec_can_create(old(self)@, r) && final(self)@ == old(self)@ && e == (
                if old(self)@.contains(r) {
                    LifecycleError::AlreadyLive
                } else {
                    LifecycleError::MissingDependency
                }),
            },
    {
        if position(&self.live, r).is_some() {
            return Err(LifecycleError::AlreadyLive);
        }
        let deps = dependencies(r);
        let mut k: usize = 0;
        while k < deps.len()
            invariant
                k <= deps@.len(),
                deps@ == spec_dependencies(r),
                self.live@ == old(self).live@,
                spec_sound_order(self.live@),
                !self.live@.contains(r),
                forall|m: int| 0 <= m < k ==> self.live@.contains(#[trigger] deps@[m]),
            decreases deps@.len() - k,
        {
            if position(&self.live, deps[k]).is_none() {
                assert(!self@.contains(spec_dependencies(r)[k as int]));
                return Err(LifecycleError::MissingDependency);
            }
            k = k + 1;
        }
        self.live.push(r);
        proof {
            assert(self@ =~= old(self)@.push(r));
            lemma_push_keeps_sound(old(self)@, r);
        }
        Ok(())
    }

    /// Records the destruction of `r`.
    ///
    /// Only the newest resource may go.  A refused destruction changes
    /// nothing, and the error tells a resource that is not alive from one
    /// that is alive under a newer one.
    pub fn destroy(&mut self, r: Resource) -> (res: Result<(), LifecycleError>)
        requires
            old(self).wf(),
        ensures
            final(self).wf(),
            match res {
                Ok(_) => spec_can_destroy(old(self)@, r) && final(self)@ == old(self)@.drop_last(),
                Err(e) => !spec_can_destroy(old(self)@, r) && final(self)@ == old(self)@ && e == (
                if old(self)@.contains(r) {
                    LifecycleError::OutOfOrder
                } else {
                    LifecycleError::NotLive
                }),
            },
    {
        let n: usize = self.live.len();
        if n > 0 && self.live[n - 1] == r {
            self.live.pop();
            proof {
                assert(self@ =~= old(self)@.drop_last());
                lemma_drop_last_keeps_sound(old(self)@);
            }
            Ok(())
        } else if position(&self.live, r).is_some() {
            Err(LifecycleError::OutOfOrder)
        } else {
            Err(LifecycleError::NotLive)
        }
    }

    /// The order in which everything alive is to be destroyed: newest first.
    pub fn teardown_plan(&self) -> (plan: Vec<Resource>)
        ensures
            plan@ == self@.reverse(),
    {
        let n: usize = self.live.len();
        let mut plan: Vec<Resource> = Vec::new();
        let mut i: usize = n;
        while i > 0
            invariant
                n == self.live@.len(),
                i <= n,
                plan@.len() == n - i,
                forall|k: int| 0 <= k < plan@.len() ==> plan@[k] == self.live@[n - 1 - k],
            decreases i,
        {
            i = i - 1;
            plan.push(self.live[i]);
        }
        assert(plan@ =~= self@.reverse());
        plan
    }
}

// ---------------------------------------------------------------------------
// Laws
// ---------------------------------------------------------------------------

/// A sound order stays sound when a resource that may be created is added.
pub proof fn lemma_push_keeps_sound(live: Seq<Resource>, r: Resource)
    requires
        spec_sound_order(live),
        spec_can_create(live, r),
    ensures
        spec_sound_order(live.push(r)),
{
    let after = live.push(r);
    assert forall|i: int, j: int|
        0 <= i < after.len() && 0 <= j < after.len() && i != j implies after[i] != after[j] by {
        if i < live.len() && j < live.len() {
            assert(live[i] != live[j]);
        } else if i < live.len() {
            assert(live[i] == after[i]);
        } else {
            assert(live[j] == after[j]);
        }
    }
    assert forall|i: int, m: int|
        0 <= i < after.len() && 0 <= m < spec_dependencies(after[i]).len()
        implies #[trigger] spec_created_before(after, i, spec_dependencies(after[i])[m]) by {
        let d = spec_dependencies(after[i])[m];
        if i < live.len() {
            assert(after[i] == live[i]);
            assert(spec_created_before(live, i, d));
            let j = choose|j: int| 0 <= j < i && live[j] == d;
            assert(after[j] == d);
        } else {
            assert(live.contains(d));
            let j = choose|j: int| 0 <= j < live.len() && live[j] == d;
            assert(after[j] == d);
        }
    }
}

/// A sound order stays sound when its newest resource is taken away.
pub proof fn lemma_drop_last_keeps_sound(live: Seq<Resource>)
    requires
        spec_sound_order(live),
        live.len() > 0,
    ensures
        spec_sound_order(live.drop_last()),
{
    let after = live.drop_last();
    assert forall|i: int, m: int|
        0 <= i < after.len() && 0 <= m < spec_dependencies(after[i]).len()
        implies #[trigger] spec_created_before(after, i, spec_dependencies(after[i])[m]) by {
        let d = spec_dependencies(after[i])[m];
        assert(after[i] == live[i]);
        assert(spec_created_before(live, i, d));
        let j = choose|j: int| 0 <= j < i && live[j] == d;
        assert(after[j] == d);
    }
}

/// Whatever a run of accepted creations leaves alive is the resources in the
/// order of their creation, and that order is sound.
pub proof fn lemma_created_order_is_sound(live: Seq<Resource>, order: Seq<Resource>)
    requires
        spec_sound_order(live),
        spec_create_all(live, order) is Some,
    ensures
        spec_create_all(live, order) == Some(live + order),
        spec_sound_order(live + order),
    decreases order.len(),
{
    if order.len() == 0 {
        assert(live + order =~= live);
    } else {
        lemma_push_keeps_sound(live, order[0]);
        lemma_created_order_is_sound(live.push(order[0]), order.drop_first());
        assert(live.push(order[0]) + order.drop_first() =~= live + order);
    }
}

/// Every sound order is accepted, creation by creation.
pub proof fn lemma_sound_order_is_accepted(live: Seq<Resource>, order: Seq<Resource>)
    requires
        spec_sound_order(live + order),
    ensures
        spec_create_all(live, order) == Some(live + order),
    decreases order.len(),
{
    let whole = live + order;
    if order.len() == 0 {
        assert(whole =~= live);
    } else {
        let r = order[0];
        let at = live.len() as int;
        assert(whole[at] == r);
        assert(!live.contains(r)) by {
            if live.contains(r) {
                let j = choose|j: int| 0 <= j < live.len() && live[j] == r;
                assert(whole[j] == r);
            }
        }
        assert forall|k: int| 0 <= k < spec_dependencies(r).len() implies live.contains(
            #[trigger] spec_dependencies(r)[k],
        ) by {
            let d = spec_dependencies(r)[k];
            assert(spec_created_before(whole, at, spec_dependencies(whole[at])[k]));
            let j = choose|j: int| 0 <= j < at && whole[j] == d;
            assert(live[j] == d);
        }
        assert(live.push(r) + order.drop_first() =~= whole);
        lemma_sound_order_is_accepted(live.push(r), order.drop_first());
    }
}

/// Destroying what is alive newest first is accepted at every step and
/// leaves nothing alive.
pub proof fn lemma_reverse_teardown_is_accepted(live: Seq<Resource>)
    ensures
        spec_destroy_all(live, live.reverse()) == Some(Seq::<Resource>::empty()),
    decreases live.len(),
{
    if live.len() == 0 {
        assert(live =~= Seq::<Resource>::empty());
    } else {
        assert(live.reverse()[0] == live.last());
        assert(live.reverse().drop_first() =~= live.drop_last().reverse());
        lemma_reverse_teardown_is_accepted(live.drop_last());
    }
}

/// A run of destructions that is accepted at every step takes the resources
/// in the reverse of their creation order, as far as it goes: what it
/// destroyed, reversed, is the tail of what was alive.
pub proof fn lemma_accepted_teardown_is_reverse(live: Seq<Resource>, order: Seq<Resource>)
    requires
        spec_destroy_all(live, order) is Some,
    ensures
        order.len() <= live.len(),
        spec_destroy_all(live, order) == Some(live.take(live.len() - order.len())),
        order.reverse() == live.skip(live.len() - order.len()),
    decreases order.len(),
{
    if order.len() == 0 {
        assert(live.take(live.len() as int) =~= live);
        assert(order.reverse() =~= live.skip(live.len() as int));
    } else {
        let rest = order.drop_first();
        let shorter = live.drop_last();
        lemma_accepted_teardown_is_reverse(shorter, rest);
        assert(shorter.take(shorter.len() - rest.len()) =~= live.take(live.len() - order.len()));
        assert(order.reverse() =~= live.skip(live.len() - order.len())) by {
            let tail = live.skip(live.len() - order.len());
            assert(rest.reverse() == shorter.skip(shorter.len() - rest.len()));
            assert forall|i: int| 0 <= i < order.len() implies order.reverse()[i] == tail[i] by {
                if i == order.len() - 1 {
                    assert(order.reverse()[i] == order[0]);
                } else {
                    assert(order.reverse()[i] == rest.reverse()[i]);
                    assert(shorter.skip(shorter.len() - rest.len())[i] == tail[i]);
                }
            }
        }
    }
}

/// For every order in which resources were created with success, the one
/// order in which all of them can be destroyed is the exact reverse.
pub proof fn lemma_teardown_reverses_creation(created: Seq<Resource>, destroyed: Seq<Resource>)
    requires
        spec_create_all(Seq::<Resource>::empty(), created) is Some,
        spec_destroy_all(created, destroyed) == Some(Seq::<Resource>::empty()),
    ensures
        spec_create_all(Seq::<Resource>::empty(), created) == Some(created),
        destroyed == created.reverse(),
{
    let empty = Seq::<Resource>::empty();
    assert(spec_sound_order(empty));
    lemma_created_order_is_sound(empty, created);
    assert(empty + created =~= created);
    lemma_accepted_teardown_is_reverse(created, destroyed);
    assert(created.take(created.len() - destroyed.len()).len() == 0);
    assert(created.skip(0) =~= created);
    assert(destroyed =~= destroyed.reverse().reverse());
}

/// The bootstrap order is sound: every resource in it comes after the
/// resources it depends on.
pub proof fn lemma_setup_order_is_sound()
    ensures
        spec_sound_order(spec_setup_order()),
        spec_create_all(Seq::<Resource>::empty(), spec_setup_order()) == Some(spec_setup_order()),
{
    let s = spec_setup_order();
    assert(s.len() == 12);
    assert(s[0] == Resource::Instance);
    assert(s[1] == Resource::Surface);
    assert(s[2] == Resource::DebugMessenger);
    assert(s[3] == Resource::Device);
    assert(s[4] == Resource::Swapchain);
    assert(s[5] == Resource::ImageViews);
    assert(s[6] == Resource::RenderPass);
    assert(s[7] == Resource::PipelineLayout);
    assert(s[8] == Resource::Pipeline);
    assert(s[9] == Resource::Framebuffers);
    assert(s[10] == Resource::CommandPool);
    assert(s[11] == Resource::Semaphores);
    assert(s.no_duplicates());
    assert forall|i: int, k: int|
        0 <= i < s.len() && 0 <= k < spec_dependencies(s[i]).len()
        implies #[trigger] spec_created_before(s, i, spec_dependencies(s[i])[k]) by {
        let d = spec_dependencies(s[i])[k];
        assert(d == Resource::Instance || d == Resource::Surface || d == Resource::Device || d
            == Resource::Swapchain || d == Resource::ImageViews || d == Resource::RenderPass || d
            == Resource::PipelineLayout);
    }
    assert(Seq::<Resource>::empty() + s =~= s);
    lemma_sound_order_is_accepted(Seq::<Resource>::empty(), s);
}

/// The shutdown order is the exact reverse of the bootstrap order.
pub proof fn lemma_teardown_order_reverses_setup_order()
    ensures
        spec_teardown_order() == spec_setup_order().reverse(),
        spec_destroy_all(spec_setup_order(), spec_teardown_order()) == Some(
            Seq::<Resource>::empty(),
        ),
{
    assert(spec_teardown_order() =~= spec_setup_order().reverse());
    lemma_reverse_teardown_is_accepted(spec_setup_order());
}

/// A shutdown waits for the device before it destroys anything, waits only
/// once, and destroys the resources in teardown order.
pub proof fn lemma_shutdown_waits_before_it_destroys()
    ensures
        spec_shutdown_steps().len() == spec_teardown_order().len() + 1,
        spec_shutdown_steps()[0] == ShutdownStep::WaitDeviceIdle,
        forall|i: int|
            1 <= i < spec_shutdown_steps().len() ==> #[trigger] spec_shutdown_steps()[i]
                == ShutdownStep::Destroy(spec_teardown_order()[i - 1]),
{
}

} // verus!
