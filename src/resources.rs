//! Deferred destruction of GPU resources: one bin per frame slot and one
//! global bin. A resource waits in its bin until the bin is drained, and the
//! caller destroys what a drain hands back.

use vstd::prelude::*;

verus! {

/// Bins of resources awaiting destruction: `frame_resources[i]` for frame
/// slot `i`, `global_resources` for what lives as long as the renderer. Each
/// bin keeps its resources in the order they were added.
pub struct ResourceAllocator<T> {
    pub frame_resources: Vec<Vec<T>>,
    pub global_resources: Vec<T>,
}

/// Every frame bin, in slot order, followed by the global bin.
pub open spec fn all_bins_flat<T>(frames: Seq<Vec<T>>, global: Seq<T>) -> Seq<T>
    decreases frames.len(),
{
    if frames.len() == 0 {
        global
    } else {
        frames[0]@ + all_bins_flat(frames.drop_first(), global)
    }
}

impl<T> ResourceAllocator<T> {
    /// The number of frame bins.
    pub open spec fn buffering(&self) -> nat {
        self.frame_resources@.len()
    }

    /// The contents of frame bin `i`.
    pub open spec fn frame_bin(&self, i: int) -> Seq<T> {
        self.frame_resources@[i]@
    }

    /// `buffering` empty frame bins and an empty global bin.
    pub fn new(buffering: u32) -> (r: ResourceAllocator<T>)
        ensures
            r.buffering() == buffering,
            forall|i: int| 0 <= i < buffering ==> r.frame_bin(i).len() == 0,
            r.global_resources@.len() == 0,
    {
        let mut frame_resources: Vec<Vec<T>> = Vec::new();
        let mut i: u32 = 0;
        while i < buffering
            invariant
                i <= buffering,
                frame_resources@.len() == i,
                forall|j: int| 0 <= j < i ==> (#[trigger] frame_resources@[j])@.len() == 0,
            decreases buffering - i,
        {
            frame_resources.push(Vec::new());
            i += 1;
        }
        ResourceAllocator { frame_resources, global_resources: Vec::new() }
    }

    /// Places `resource` at the back of frame bin `frame`, or of the global
    /// bin when no frame is given.
    pub fn add(&mut self, frame: Option<usize>, resource: T)
        requires
            frame matches Some(i) ==> i < old(self).buffering(),
        ensures
            final(self).buffering() == old(self).buffering(),
            match frame {
                Some(i) => final(self).frame_bin(i as int) == old(self).frame_bin(i as int).push(
                    resource,
                ) && (forall|j: int|
                    0 <= j < old(self).buffering() && j != i ==> #[trigger] final(self).frame_bin(j)
                        == old(self).frame_bin(j)) && final(self).global_resources@ == old(self).global_resources@,
                None => final(self).global_resources@ == old(self).global_resources@.push(resource)
                    && forall|j: int|
                    0 <= j < old(self).buffering() ==> #[trigger] final(self).frame_bin(j) == old(self).frame_bin(j),
            },
    {
        match frame {
            Some(i) => {
                let mut bin: Vec<T> = Vec::new();
                core::mem::swap(&mut bin, &mut self.frame_resources[i]);
                bin.push(resource);
                self.frame_resources.set(i, bin);
            },
            None => {
                self.global_resources.push(resource);
            },
        }
    }

    /// Empties frame bin `frame` and hands back what it held, oldest first,
    /// for the caller to destroy.
    pub fn drop_frame_resources(&mut self, frame: usize) -> (r: Vec<T>)
        requires
            frame < old(self).buffering(),
        ensures
            r@ == old(self).frame_bin(frame as int),
            final(self).buffering() == old(self).buffering(),
            final(self).frame_bin(frame as int).len() == 0,
            forall|j: int|
                0 <= j < old(self).buffering() && j != frame ==> #[trigger] final(self).frame_bin(j)
                    == old(self).frame_bin(j),
            final(self).global_resources@ == old(self).global_resources@,
    {
        let mut bin: Vec<T> = Vec::new();
        core::mem::swap(&mut bin, &mut self.frame_resources[frame]);
        self.frame_resources.set(frame, Vec::new());
        bin
    }

    /// Empties every bin: the frame bins in slot order, then the global bin.
    /// Only to be used once the device has finished all work.
    pub fn drop(&mut self) -> (r: Vec<T>)
        ensures
            r@ == all_bins_flat(old(self).frame_resources@, old(self).global_resources@),
            final(self).buffering() == old(self).buffering(),
            forall|j: int| 0 <= j < old(self).buffering() ==> #[trigger] final(self).frame_bin(j).len() == 0,
            final(self).global_resources@.len() == 0,
    {
        let mut out: Vec<T> = Vec::new();
        let n = self.frame_resources.len();
        let ghost frames0 = self.frame_resources@;
        let ghost global0 = self.global_resources@;
        let mut i: usize = 0;
        proof {
            assert(frames0.subrange(0, n as int) =~= frames0);
            assert(out@ + all_bins_flat(frames0, global0) =~= all_bins_flat(frames0, global0));
        }
        while i < n
            invariant
                n == frames0.len(),
                i <= n,
                self.frame_resources@.len() == n,
                self.global_resources@ == global0,
                forall|j: int| 0 <= j < i ==> (#[trigger] self.frame_resources@[j])@.len() == 0,
                forall|j: int| i <= j < n ==> #[trigger] self.frame_resources@[j] == frames0[j],
                out@ + all_bins_flat(frames0.subrange(i as int, n as int), global0) == all_bins_flat(
                    frames0,
                    global0,
                ),
            decreases n - i,
        {
            let mut bin: Vec<T> = Vec::new();
            core::mem::swap(&mut bin, &mut self.frame_resources[i]);
            self.frame_resources.set(i, Vec::new());
            proof {
                assert(frames0.subrange(i as int, n as int).drop_first() =~= frames0.subrange(
                    i + 1,
                    n as int,
                ));
                assert(frames0.subrange(i as int, n as int)[0] == frames0[i as int]);
            }
            let ghost before = out@;
            out.append(&mut bin);
            proof {
                assert(out@ == before + frames0[i as int]@);
                assert((before + frames0[i as int]@) + all_bins_flat(
                    frames0.subrange(i + 1, n as int),
                    global0,
                ) =~= before + (frames0[i as int]@ + all_bins_flat(
                    frames0.subrange(i + 1, n as int),
                    global0,
                )));
            }
            i += 1;
        }
        proof {
            assert(frames0.subrange(n as int, n as int).len() == 0);
        }
        let mut global: Vec<T> = Vec::new();
        core::mem::swap(&mut global, &mut self.global_resources);
        out.append(&mut global);
        out
    }
}

} // verus!
