//! Destruction order for GPU resources.
//!
//! No resource may be destroyed while a pending submission references it,
//! and none may be destroyed twice. The shell first waits for the device to
//! go fully idle, then destroys resources in exactly the order given here:
//! a single forward pass in which each resource appears once.

use vstd::prelude::*;
use vstd::seq_lib::*;

verus! {

/// One kind of GPU resource the engine owns. The swapchain-dependent kinds
/// are rebuilt on every recreation; the rest live for the whole process.
#[derive(Clone, Copy, Debug, PartialEq, Eq, Structural)]
pub enum ResourceKind {
    DescriptorPool,
    UniformBuffers,
    UniformBuffersMemory,
    CommandBuffers,
    Framebuffers,
    Pipeline,
    PipelineLayout,
    RenderPass,
    SwapchainImageViews,
    Swapchain,
    DescriptorSetLayout,
    InFlightFences,
    RenderFinishedSemaphores,
    ImageAvailableSemaphores,
    IndexBuffer,
    IndexBufferMemory,
    VertexBuffer,
    VertexBufferMemory,
    CommandPool,
    Device,
    Surface,
    DebugMessenger,
    Instance,
}

/// The order in which the swapchain-dependent resource bundle is built:
/// the swapchain first, then everything sized or bound to it.
pub open spec fn spec_swapchain_construction() -> Seq<ResourceKind> {
    seq![
        ResourceKind::Swapchain,
        ResourceKind::SwapchainImageViews,
        ResourceKind::RenderPass,
        ResourceKind::PipelineLayout,
        ResourceKind::Pipeline,
        ResourceKind::Framebuffers,
        ResourceKind::UniformBuffers,
        ResourceKind::UniformBuffersMemory,
        ResourceKind::DescriptorPool,
        ResourceKind::CommandBuffers,
    ]
}

/// The order in which the swapchain-dependent resource bundle is torn down:
/// dependents before what they depend on, ending with the swapchain itself.
pub open spec fn spec_swapchain_teardown() -> Seq<ResourceKind> {
    seq![
        ResourceKind::DescriptorPool,
        ResourceKind::UniformBuffers,
        ResourceKind::UniformBuffersMemory,
        ResourceKind::CommandBuffers,
        ResourceKind::Framebuffers,
        ResourceKind::Pipeline,
        ResourceKind::PipelineLayout,
        ResourceKind::RenderPass,
        ResourceKind::SwapchainImageViews,
        ResourceKind::Swapchain,
    ]
}

/// The full shutdown order: the swapchain bundle first, then every
/// process-lifetime resource, ending with the instance.
pub open spec fn spec_full_teardown() -> Seq<ResourceKind> {
    spec_swapchain_teardown() + seq![
        ResourceKind::DescriptorSetLayout,
        ResourceKind::InFlightFences,
        ResourceKind::RenderFinishedSemaphores,
        ResourceKind::ImageAvailableSemaphores,
        ResourceKind::IndexBuffer,
        ResourceKind::IndexBufferMemory,
        ResourceKind::VertexBuffer,
        ResourceKind::VertexBufferMemory,
        ResourceKind::CommandPool,
        ResourceKind::Device,
        ResourceKind::Surface,
        ResourceKind::DebugMessenger,
        ResourceKind::Instance,
    ]
}

/// No element of the sequence appears twice.
pub open spec fn distinct_kinds(s: Seq<ResourceKind>) -> bool {
    forall|i: int, j: int| 0 <= i < j < s.len() ==> s[i] != s[j]
}

/// The swapchain teardown pass destroys exactly the resources the
/// construction pass builds, each exactly once: the two passes touch the
/// same set of kinds, have the same length, and neither repeats a kind.
pub proof fn lemma_teardown_matches_construction()
    ensures
        spec_swapchain_teardown().to_set() =~= spec_swapchain_construction().to_set(),
        spec_swapchain_teardown().len() == spec_swapchain_construction().len(),
        distinct_kinds(spec_swapchain_construction()),
        distinct_kinds(spec_swapchain_teardown()),
{
    let t = spec_swapchain_teardown();
    let c = spec_swapchain_construction();
    assert forall|x: ResourceKind| t.contains(x) implies c.contains(x) by {
        let i = choose|i: int| 0 <= i < t.len() && t[i] == x;
        assert(c[0] == ResourceKind::Swapchain);
        assert(c[1] == ResourceKind::SwapchainImageViews);
        assert(c[2] == ResourceKind::RenderPass);
        assert(c[3] == ResourceKind::PipelineLayout);
        assert(c[4] == ResourceKind::Pipeline);
        assert(c[5] == ResourceKind::Framebuffers);
        assert(c[6] == ResourceKind::UniformBuffers);
        assert(c[7] == ResourceKind::UniformBuffersMemory);
        assert(c[8] == ResourceKind::DescriptorPool);
        assert(c[9] == ResourceKind::CommandBuffers);
    }
    assert forall|x: ResourceKind| c.contains(x) implies t.contains(x) by {
        let j = choose|j: int| 0 <= j < c.len() && c[j] == x;
        assert(t[0] == ResourceKind::DescriptorPool);
        assert(t[1] == ResourceKind::UniformBuffers);
        assert(t[2] == ResourceKind::UniformBuffersMemory);
        assert(t[3] == ResourceKind::CommandBuffers);
        assert(t[4] == ResourceKind::Framebuffers);
        assert(t[5] == ResourceKind::Pipeline);
        assert(t[6] == ResourceKind::PipelineLayout);
        assert(t[7] == ResourceKind::RenderPass);
        assert(t[8] == ResourceKind::SwapchainImageViews);
        assert(t[9] == ResourceKind::Swapchain);
    }
}

/// The swapchain teardown pass touches no resource twice.
pub proof fn lemma_swapchain_teardown_distinct()
    ensures
        distinct_kinds(spec_swapchain_teardown()),
{
}

/// The full shutdown pass touches no resource twice.
pub proof fn lemma_full_teardown_distinct()
    ensures
        distinct_kinds(spec_full_teardown()),
{
    let s = spec_full_teardown();
    assert forall|i: int, j: int| 0 <= i < j < s.len() implies s[i] != s[j] by {
        assert(s.len() == 23);
    }
}

/// The resources destroyed in the swapchain teardown pass, in order.
pub fn swapchain_teardown_order() -> (r: Vec<ResourceKind>)
    ensures
        r@ == spec_swapchain_teardown(),
{
    let mut r: Vec<ResourceKind> = Vec::new();
    r.push(ResourceKind::DescriptorPool);
    r.push(ResourceKind::UniformBuffers);
    r.push(ResourceKind::UniformBuffersMemory);
    r.push(ResourceKind::CommandBuffers);
    r.push(ResourceKind::Framebuffers);
    r.push(ResourceKind::Pipeline);
    r.push(ResourceKind::PipelineLayout);
    r.push(ResourceKind::RenderPass);
    r.push(ResourceKind::SwapchainImageViews);
    r.push(ResourceKind::Swapchain);
    assert(r@ =~= spec_swapchain_teardown());
    r
}

/// The resources destroyed at shutdown, in order: the swapchain bundle,
/// then every process-lifetime resource.
pub fn full_teardown_order() -> (r: Vec<ResourceKind>)
    ensures
        r@ == spec_full_teardown(),
{
    let mut r = swapchain_teardown_order();
    r.push(ResourceKind::DescriptorSetLayout);
    r.push(ResourceKind::InFlightFences);
    r.push(ResourceKind::RenderFinishedSemaphores);
    r.push(ResourceKind::ImageAvailableSemaphores);
    r.push(ResourceKind::IndexBuffer);
    r.push(ResourceKind::IndexBufferMemory);
    r.push(ResourceKind::VertexBuffer);
    r.push(ResourceKind::VertexBufferMemory);
    r.push(ResourceKind::CommandPool);
    r.push(ResourceKind::Device);
    r.push(ResourceKind::Surface);
    r.push(ResourceKind::DebugMessenger);
    r.push(ResourceKind::Instance);
    assert(r@ =~= spec_full_teardown());
    r
}

} // verus!
