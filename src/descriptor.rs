//! Descriptor set layouts and the fixed-capacity pool that sets are drawn
//! from.

use vstd::prelude::*;

verus! {

#[derive(Clone, Copy, Debug, PartialEq, Eq, Structural)]
pub enum DescriptorType {
    Sampler,
    CombinedImageSampler,
    SampledImage,
    StorageImage,
    UniformBuffer,
    StorageBuffer,
}

/// One binding of a layout: its slot, the kind of resource bound there, the
/// number of descriptors (always one) and the shader stages (raw flag bits)
/// that see it.
#[derive(Clone, Copy, Debug, PartialEq, Eq, Structural)]
pub struct LayoutBinding {
    pub binding: u32,
    pub descriptor_type: DescriptorType,
    pub descriptor_count: u32,
    pub stage_flags: u32,
}

/// Accumulates bindings for one descriptor set layout.
#[derive(Clone, Debug)]
pub struct DescriptorSetLayoutBuilder {
    pub bindings: Vec<LayoutBinding>,
}

impl DescriptorSetLayoutBuilder {
    /// No bindings.
    pub fn default() -> (r: DescriptorSetLayoutBuilder)
        ensures
            r.bindings@.len() == 0,
    {
        DescriptorSetLayoutBuilder { bindings: Vec::new() }
    }

    /// Adds one descriptor of `descriptor_type` at slot `binding`, visible to
    /// no stage until `build`.
    pub fn add_binding(self, binding: u32, descriptor_type: DescriptorType) -> (r:
        DescriptorSetLayoutBuilder)
        ensures
            r.bindings@ == self.bindings@.push(
                LayoutBinding { binding, descriptor_type, descriptor_count: 1, stage_flags: 0 },
            ),
    {
        let mut bindings = self.bindings;
        bindings.push(LayoutBinding { binding, descriptor_type, descriptor_count: 1, stage_flags: 0 });
        DescriptorSetLayoutBuilder { bindings }
    }

    pub fn clear(&mut self)
        ensures
            final(self).bindings@.len() == 0,
    {
        self.bindings.clear();
    }

    /// Sets every binding's stages to `shader_stages` (one mask shared by all
    /// bindings, replacing any earlier one) and returns the bindings the
    /// layout is created from.
    pub fn build(&mut self, shader_stages: u32) -> (r: Vec<LayoutBinding>)
        ensures
            final(self).bindings@.len() == old(self).bindings@.len(),
            forall|i: int|
                0 <= i < old(self).bindings@.len() ==> #[trigger] final(self).bindings@[i] == (
                LayoutBinding {
                    stage_flags: shader_stages,
                    ..old(self).bindings@[i]
                }),
            r@ == final(self).bindings@,
    {
        let n = self.bindings.len();
        let mut out: Vec<LayoutBinding> = Vec::new();
        let mut i: usize = 0;
        while i < n
            invariant
                n == old(self).bindings@.len(),
                i <= n,
                self.bindings@.len() == n,
                out@ == self.bindings@.subrange(0, i as int),
                forall|j: int|
                    0 <= j < i ==> #[trigger] self.bindings@[j] == (LayoutBinding {
                        stage_flags: shader_stages,
                        ..old(self).bindings@[j]
                    }),
                forall|j: int| i <= j < n ==> #[trigger] self.bindings@[j] == old(self).bindings@[j],
            decreases n - i,
        {
            let b = self.bindings[i];
            let updated = LayoutBinding { stage_flags: shader_stages, ..b };
            self.bindings.set(i, updated);
            out.push(updated);
            i += 1;
            proof {
                assert(out@ =~= self.bindings@.subrange(0, i as int));
            }
        }
        proof {
            assert(out@ =~= self.bindings@);
        }
        out
    }
}

/// How many descriptors of a type the pool holds per set it can hold, as
/// the fraction `numerator / denominator`.
#[derive(Clone, Copy, Debug, PartialEq, Eq, Structural)]
pub struct DescriptorSetPoolSizeRatio {
    pub descriptor_type: DescriptorType,
    pub numerator: u32,
    pub denominator: u32,
}

impl DescriptorSetPoolSizeRatio {
    pub fn new(descriptor_type: DescriptorType, numerator: u32, denominator: u32) -> (r:
        DescriptorSetPoolSizeRatio)
        ensures
            r.descriptor_type == descriptor_type,
            r.numerator == numerator,
            r.denominator == denominator,
    {
        DescriptorSetPoolSizeRatio { descriptor_type, numerator, denominator }
    }
}

/// The number of descriptors of one type in a pool.
#[derive(Clone, Copy, Debug, PartialEq, Eq, Structural)]
pub struct DescriptorPoolSize {
    pub descriptor_type: DescriptorType,
    pub descriptor_count: u32,
}

/// `max_sets` times the ratio, rounded down, and capped at `u32::MAX`.
pub open spec fn pool_count(ratio: DescriptorSetPoolSizeRatio, max_sets: u32) -> u32 {
    let c = ratio.numerator as int * max_sets as int / ratio.denominator as int;
    if c > u32::MAX {
        u32::MAX
    } else {
        c as u32
    }
}

/// A pool of at most `max_sets` sets. `allocated` sets are drawn; a set is
/// drawn per layout, and a draw that does not fit fails as a whole.
/// `reset` returns every set to the pool at once.
#[derive(Clone, Debug)]
pub struct DescriptorSetAllocator {
    pub max_sets: u32,
    pub pool_sizes: Vec<DescriptorPoolSize>,
    pub allocated: u32,
}

/// Drawing more sets than the pool has left.
#[derive(Clone, Copy, Debug, PartialEq, Eq, Structural)]
pub enum DescriptorPoolError {
    PoolExhausted,
}

impl DescriptorSetAllocator {
    pub open spec fn wf(&self) -> bool {
        self.allocated <= self.max_sets
    }

    /// A pool for `max_sets` sets, with `max_sets` times each ratio of
    /// descriptors of its type.
    pub fn new(max_sets: u32, pool_ratios: &Vec<DescriptorSetPoolSizeRatio>) -> (r:
        DescriptorSetAllocator)
        requires
            forall|i: int| 0 <= i < pool_ratios@.len() ==> (#[trigger] pool_ratios@[i]).denominator > 0,
        ensures
            r.wf(),
            r.max_sets == max_sets,
            r.allocated == 0,
            r.pool_sizes@.len() == pool_ratios@.len(),
            forall|i: int|
                0 <= i < pool_ratios@.len() ==> #[trigger] r.pool_sizes@[i] == (DescriptorPoolSize {
                    descriptor_type: pool_ratios@[i].descriptor_type,
                    descriptor_count: pool_count(pool_ratios@[i], max_sets),
                }),
    {
        let mut pool_sizes: Vec<DescriptorPoolSize> = Vec::new();
        let mut i: usize = 0;
        while i < pool_ratios.len()
            invariant
                i <= pool_ratios@.len(),
                forall|k: int| 0 <= k < pool_ratios@.len() ==> (#[trigger] pool_ratios@[k]).denominator > 0,
                pool_sizes@.len() == i,
                forall|j: int|
                    0 <= j < i ==> #[trigger] pool_sizes@[j] == (DescriptorPoolSize {
                        descriptor_type: pool_ratios@[j].descriptor_type,
                        descriptor_count: pool_count(pool_ratios@[j], max_sets),
                    }),
            decreases pool_ratios@.len() - i,
        {
            let ratio = pool_ratios[i];
            proof {
                let a = ratio.numerator as int;
                let b = max_sets as int;
                assert(a * b <= 0xffff_ffff * 0xffff_ffff) by (nonlinear_arith)
                    requires
                        0 <= a <= 0xffff_ffff,
                        0 <= b <= 0xffff_ffff,
                ;
            }
            let product: u64 = ratio.numerator as u64 * max_sets as u64;
            let c: u64 = product / ratio.denominator as u64;
            let count: u32 = if c > u32::MAX as u64 {
                u32::MAX
            } else {
                c as u32
            };
            pool_sizes.push(DescriptorPoolSize { descriptor_type: ratio.descriptor_type, descriptor_count: count });
            i += 1;
        }
        DescriptorSetAllocator { max_sets, pool_sizes, allocated: 0 }
    }

    /// Draws one set per layout, or none when they do not all fit.
    pub fn allocate(&mut self, layouts: usize) -> (r: Result<(), DescriptorPoolError>)
        requires
            old(self).wf(),
        ensures
            final(self).wf(),
            final(self).max_sets == old(self).max_sets,
            final(self).pool_sizes@ == old(self).pool_sizes@,
            r is Ok <==> old(self).allocated as int + layouts as int <= old(self).max_sets as int,
            r is Ok ==> final(self).allocated == old(self).allocated + layouts,
            r is Err ==> final(self).allocated == old(self).allocated,
    {
        let remaining = self.max_sets - self.allocated;
        if layouts > remaining as usize {
            return Err(DescriptorPoolError::PoolExhausted);
        }
        self.allocated = self.allocated + layouts as u32;
        Ok(())
    }

    /// Returns every set to the pool.
    pub fn reset_pool(&mut self)
        ensures
            final(self).wf(),
            final(self).allocated == 0,
            final(self).max_sets == old(self).max_sets,
            final(self).pool_sizes@ == old(self).pool_sizes@,
    {
        self.allocated = 0;
    }
}

} // verus!
