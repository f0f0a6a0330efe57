//! Descriptor subsystem model: binding layouts, pool capacity
//! declarations, and set writers.
//!
//! A layout is an immutable schema of bindings with unique binding
//! indices; a pool declares per-type capacity and a set cap; a writer
//! pairs concrete buffer ranges with bindings the layout declares, and
//! only with those. Allocating and populating the driver objects is the
//! host program's work, done against these validated values.

use vstd::prelude::*;

use crate::buffer::DescriptorBufferInfo;

verus! {

/// One declared binding: its index, resource type (driver code), the
/// shader stages that may read it, and its array count.
#[derive(Debug, Clone, Copy, PartialEq, Eq, Structural)]
pub struct DescriptorSetLayoutBinding {
    pub binding: u32,
    pub descriptor_type: u32,
    pub stage_flags: u32,
    pub descriptor_count: u32,
}

/// No two declared bindings share a binding index.
pub open spec fn unique_binding_indices(s: Seq<DescriptorSetLayoutBinding>) -> bool {
    forall|i: int, j: int|
        0 <= i < j < s.len() ==> (#[trigger] s[i]).binding != (#[trigger] s[j]).binding
}

/// Some declared binding has index `binding`.
pub open spec fn declares_binding(s: Seq<DescriptorSetLayoutBinding>, binding: u32) -> bool {
    exists|i: int| 0 <= i < s.len() && (#[trigger] s[i]).binding == binding
}

/// An immutable binding schema.
#[derive(Debug, Clone)]
pub struct DescriptorSetLayout {
    pub bindings: Vec<DescriptorSetLayoutBinding>,
}

/// Accumulates binding declarations before they are frozen into a
/// layout.
#[derive(Debug, Clone)]
pub struct DescriptorSetLayoutBuilder {
    pub bindings: Vec<DescriptorSetLayoutBinding>,
}

impl DescriptorSetLayout {
    /// Starts an empty layout description.
    pub fn new() -> (r: DescriptorSetLayoutBuilder)
        ensures
            r.bindings@.len() == 0,
    {
        DescriptorSetLayoutBuilder { bindings: Vec::new() }
    }

    /// Binding indices are unique.
    pub open spec fn wf(&self) -> bool {
        unique_binding_indices(self.bindings@)
    }

    /// Whether the layout declares a binding with index `binding`.
    pub fn has_binding(&self, binding: u32) -> (r: bool)
        ensures
            r <==> declares_binding(self.bindings@, binding),
    {
        has_binding_index(&self.bindings, binding)
    }

    /// How many bindings the layout declares.
    pub fn binding_count(&self) -> (r: usize)
        ensures
            r == self.bindings@.len(),
    {
        self.bindings.len()
    }
}

/// Scans declared bindings for one with index `binding`.
fn has_binding_index(bindings: &Vec<DescriptorSetLayoutBinding>, binding: u32) -> (r: bool)
    ensures
        r <==> declares_binding(bindings@, binding),
{
    let n = bindings.len();
    let mut i: usize = 0;
    while i < n
        invariant
            n == bindings@.len(),
            i <= n,
            forall|j: int| 0 <= j < i ==> (#[trigger] bindings@[j]).binding != binding,
        decreases n - i,
    {
        if bindings[i].binding == binding {
            return true;
        }
        i = i + 1;
    }
    false
}

impl DescriptorSetLayoutBuilder {
    /// Whether a binding with index `binding` was already declared: the
    /// guard callers test before `add_binding`.
    pub fn has_binding(&self, binding: u32) -> (r: bool)
        ensures
            r <==> declares_binding(self.bindings@, binding),
    {
        has_binding_index(&self.bindings, binding)
    }

    /// Declares one binding. Declaring the same binding index twice is a
    /// caller error, ruled out here.
    pub fn add_binding(
        self,
        binding: u32,
        descriptor_type: u32,
        stage_flags: u32,
        descriptor_count: u32,
    ) -> (r: DescriptorSetLayoutBuilder)
        requires
            !declares_binding(self.bindings@, binding),
        ensures
            r.bindings@ == self.bindings@.push(
                DescriptorSetLayoutBinding { binding, descriptor_type, stage_flags, descriptor_count },
            ),
            unique_binding_indices(self.bindings@) ==> unique_binding_indices(r.bindings@),
    {
        let mut bindings = self.bindings;
        bindings.push(
            DescriptorSetLayoutBinding { binding, descriptor_type, stage_flags, descriptor_count },
        );
        DescriptorSetLayoutBuilder { bindings }
    }

    /// Freezes the accumulated declarations into a layout.
    pub fn build(self) -> (r: DescriptorSetLayout)
        requires
            unique_binding_indices(self.bindings@),
        ensures
            r.wf(),
            r.bindings@ == self.bindings@,
    {
        DescriptorSetLayout { bindings: self.bindings }
    }
}

/// Capacity declared for one descriptor type.
#[derive(Debug, Clone, Copy, PartialEq, Eq, Structural)]
pub struct DescriptorPoolSize {
    pub descriptor_type: u32,
    pub descriptor_count: u32,
}

/// A shared allocation arena: per-type capacities, a cap on the number of
/// sets, and the driver's pool flag word. Allocation beyond the declared
/// capacity fails in the driver, not here.
#[derive(Debug, Clone)]
pub struct DescriptorPool {
    pub pool_sizes: Vec<DescriptorPoolSize>,
    pub max_sets: u32,
    pub pool_flags: u32,
}

/// Accumulates the pool's capacity declarations.
#[derive(Debug, Clone)]
pub struct DescriptorPoolBuilder {
    pub pool_sizes: Vec<DescriptorPoolSize>,
    pub max_sets: u32,
    pub pool_flags: u32,
}

impl DescriptorPool {
    /// Starts a pool description with no capacities, a cap of 1000 sets,
    /// and empty flags.
    pub fn new() -> (r: DescriptorPoolBuilder)
        ensures
            r.pool_sizes@.len() == 0,
            r.max_sets == 1000,
            r.pool_flags == 0,
    {
        DescriptorPoolBuilder { pool_sizes: Vec::new(), max_sets: 1000, pool_flags: 0 }
    }
}

impl DescriptorPoolBuilder {
    /// Declares capacity for `count` descriptors of one type.
    pub fn add_pool_size(self, descriptor_type: u32, count: u32) -> (r: DescriptorPoolBuilder)
        ensures
            r.pool_sizes@ == self.pool_sizes@.push(
                DescriptorPoolSize { descriptor_type, descriptor_count: count },
            ),
            r.max_sets == self.max_sets,
            r.pool_flags == self.pool_flags,
    {
        let mut pool_sizes = self.pool_sizes;
        pool_sizes.push(DescriptorPoolSize { descriptor_type, descriptor_count: count });
        DescriptorPoolBuilder { pool_sizes, max_sets: self.max_sets, pool_flags: self.pool_flags }
    }

    /// Sets the driver's pool flag word.
    pub fn set_pool_flags(self, flags: u32) -> (r: DescriptorPoolBuilder)
        ensures
            r.pool_sizes@ == self.pool_sizes@,
            r.max_sets == self.max_sets,
            r.pool_flags == flags,
    {
        DescriptorPoolBuilder { pool_sizes: self.pool_sizes, max_sets: self.max_sets, pool_flags: flags }
    }

    /// Caps how many sets may be allocated from the pool.
    pub fn set_max_sets(self, max_sets: u32) -> (r: DescriptorPoolBuilder)
        ensures
            r.pool_sizes@ == self.pool_sizes@,
            r.max_sets == max_sets,
            r.pool_flags == self.pool_flags,
    {
        DescriptorPoolBuilder { pool_sizes: self.pool_sizes, max_sets, pool_flags: self.pool_flags }
    }

    /// Freezes the declarations into a pool description.
    pub fn build(self) -> (r: DescriptorPool)
        ensures
            r.pool_sizes@ == self.pool_sizes@,
            r.max_sets == self.max_sets,
            r.pool_flags == self.pool_flags,
    {
        DescriptorPool { pool_sizes: self.pool_sizes, max_sets: self.max_sets, pool_flags: self.pool_flags }
    }
}

/// One buffer write aimed at a declared binding.
#[derive(Debug, Clone, Copy, PartialEq, Eq, Structural)]
pub struct DescriptorBufferWrite {
    pub binding: u32,
    pub buffer_info: DescriptorBufferInfo,
}

/// Every write targets a binding the layout declares: the invariant of a
/// populated set.
pub open spec fn writes_match_layout(
    writes: Seq<DescriptorBufferWrite>,
    layout: Seq<DescriptorSetLayoutBinding>,
) -> bool {
    forall|i: int| 0 <= i < writes.len() ==> declares_binding(layout, (#[trigger] writes[i]).binding)
}

/// Pairs concrete buffer ranges with a layout's bindings, then hands the
/// host program everything it needs to allocate and populate the set in
/// one step.
#[derive(Debug, Clone)]
pub struct DescriptorSetWriter {
    pub layout: DescriptorSetLayout,
    pub writes: Vec<DescriptorBufferWrite>,
}

impl DescriptorSetWriter {
    /// Starts a writer against a layout.
    pub fn new(layout: DescriptorSetLayout) -> (r: DescriptorSetWriter)
        requires
            layout.wf(),
        ensures
            r.layout.bindings@ == layout.bindings@,
            r.writes@.len() == 0,
            writes_match_layout(r.writes@, r.layout.bindings@),
    {
        DescriptorSetWriter { layout, writes: Vec::new() }
    }

    /// Aims a buffer range at one binding. A write whose binding the
    /// layout does not declare is a caller error, ruled out here.
    pub fn write_to_buffer(self, binding: u32, buffer_info: DescriptorBufferInfo) -> (r:
        DescriptorSetWriter)
        requires
            declares_binding(self.layout.bindings@, binding),
        ensures
            r.layout.bindings@ == self.layout.bindings@,
            r.writes@ == self.writes@.push(DescriptorBufferWrite { binding, buffer_info }),
            writes_match_layout(self.writes@, self.layout.bindings@) ==> writes_match_layout(
                r.writes@,
                r.layout.bindings@,
            ),
    {
        let mut writes = self.writes;
        writes.push(DescriptorBufferWrite { binding, buffer_info });
        DescriptorSetWriter { layout: self.layout, writes }
    }

    /// Hands back the accumulated writes, each aimed at a declared
    /// binding.
    pub fn build(self) -> (r: Vec<DescriptorBufferWrite>)
        requires
            writes_match_layout(self.writes@, self.layout.bindings@),
        ensures
            r@ == self.writes@,
            writes_match_layout(r@, self.layout.bindings@),
    {
        self.writes
    }
}

} // verus!
