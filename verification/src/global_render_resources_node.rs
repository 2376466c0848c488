//! Uploading a set of global render resources into one uniform buffer.
//!
//! Each resource's bytes are laid out at the device's uniform alignment:
//! every payload starts at an aligned offset and is padded with zeros up
//! to the next boundary.  When any resource changed, the whole set is
//! rewritten into a staging buffer, each resource is given its binding
//! range in the target buffer, and one staging-to-target copy is queued
//! for the render graph to execute; buffers are reused unless the total
//! aligned size changed.

use vstd::prelude::*;

use crate::render_resource::{BufferId, RenderDevice};

verus! {

/// One buffer-to-buffer copy queued for the render graph.
#[derive(Clone, Copy, Debug, PartialEq, Eq, Structural)]
pub struct CopyCommand {
    pub src_buffer: BufferId,
    pub src_offset: u64,
    pub dst_buffer: BufferId,
    pub dst_offset: u64,
    pub size: u64,
}

/// One resource's binding range in the target buffer.
#[derive(Clone, Copy, Debug, PartialEq, Eq, Structural)]
pub struct ResourceBinding {
    pub buffer: BufferId,
    pub offset: u64,
    pub size: u64,
}

/// `size` rounded up to the next multiple of `align`.
pub open spec fn spec_align_up(size: int, align: int) -> int {
    if size % align == 0 {
        size
    } else {
        size + align - size % align
    }
}

/// Rounding up to the alignment yields a multiple of it, at most one
/// whole alignment above the size.
pub proof fn lemma_align_up(size: int, align: int)
    requires
        0 <= size,
        1 <= align,
    ensures
        spec_align_up(size, align) % align == 0,
        size <= spec_align_up(size, align) < size + align,
    decreases 0int,
{
    vstd::arithmetic::div_mod::lemma_fundamental_div_mod(size, align);
    vstd::arithmetic::div_mod::lemma_mod_division_less_than_divisor(size, align);
    if size % align != 0 {
        assert(spec_align_up(size, align) == align * (size / align + 1)) by {
            assert(size == align * (size / align) + size % align);
            assert(align * (size / align + 1) == align * (size / align) + align) by (nonlinear_arith);
        }
        vstd::arithmetic::div_mod::lemma_mod_multiples_basic(size / align + 1, align);
    }
}

/// The aligned size the device reports for a uniform of `size` bytes.
pub fn get_aligned_uniform_size(size: u64, align: u64) -> (r: u64)
    requires
        1 <= align,
        spec_align_up(size as int, align as int) <= u64::MAX,
    ensures
        r == spec_align_up(size as int, align as int),
        r % align == 0,
        size <= r < size + align,
{
    proof {
        lemma_align_up(size as int, align as int);
    }
    let rem = size % align;
    if rem == 0 {
        size
    } else {
        size + (align - rem)
    }
}

/// Total aligned size of a payload list: each one rounded up, summed.
pub open spec fn spec_aligned_total(payloads: Seq<Seq<u8>>, align: int) -> int
    decreases payloads.len(),
{
    if payloads.len() == 0 {
        0
    } else {
        spec_aligned_total(payloads.drop_last(), align) + spec_align_up(
            payloads.last().len() as int,
            align,
        )
    }
}

/// A prefix of the payloads never needs more room than the whole list.
pub proof fn lemma_aligned_total_monotone(payloads: Seq<Seq<u8>>, align: int, i: int)
    requires
        1 <= align,
        0 <= i <= payloads.len(),
    ensures
        0 <= spec_aligned_total(payloads.take(i), align) <= spec_aligned_total(payloads, align),
    decreases payloads.len(),
{
    if payloads.len() > 0 {
        lemma_align_up(payloads.last().len() as int, align);
        if i == payloads.len() {
            assert(payloads.take(i) =~= payloads);
            lemma_aligned_total_monotone(payloads.drop_last(), align, payloads.len() - 1);
            assert(payloads.drop_last().take(payloads.len() - 1) =~= payloads.drop_last());
        } else {
            assert(payloads.drop_last().take(i) =~= payloads.take(i));
            lemma_aligned_total_monotone(payloads.drop_last(), align, i);
        }
    }
}

/// The staging buffer's contents: each payload at its aligned offset,
/// zero-padded to the next alignment boundary.
pub open spec fn spec_staging_bytes(payloads: Seq<Seq<u8>>, align: int) -> Seq<u8>
    decreases payloads.len(),
{
    if payloads.len() == 0 {
        Seq::empty()
    } else {
        spec_staging_bytes(payloads.drop_last(), align) + payloads.last() + Seq::new(
            (spec_align_up(payloads.last().len() as int, align) - payloads.last().len()) as nat,
            |i: int| 0u8,
        )
    }
}

/// The staging bytes fill exactly the total aligned size.
pub proof fn lemma_staging_bytes_len(payloads: Seq<Seq<u8>>, align: int)
    requires
        1 <= align,
    ensures
        spec_staging_bytes(payloads, align).len() == spec_aligned_total(payloads, align),
    decreases payloads.len(),
{
    if payloads.len() > 0 {
        lemma_align_up(payloads.last().len() as int, align);
        lemma_staging_bytes_len(payloads.drop_last(), align);
    }
}

/// The node that uploads one global resource set: the copies it has
/// queued for the render graph, and the staging and target buffers of
/// the last upload, each with the size it was created at.
#[derive(Clone, Debug, PartialEq)]
pub struct GlobalRenderResourcesNode {
    pub command_queue: Vec<CopyCommand>,
    pub staging_buffer: Option<(BufferId, u64)>,
    pub target_buffer: Option<(BufferId, u64)>,
}

impl GlobalRenderResourcesNode {
    /// A node that has uploaded nothing yet.
    pub fn new() -> (r: Self)
        ensures
            r.command_queue@ =~= Seq::<CopyCommand>::empty(),
            r.staging_buffer is None,
            r.target_buffer is None,
    {
        GlobalRenderResourcesNode {
            command_queue: Vec::new(),
            staging_buffer: None,
            target_buffer: None,
        }
    }

    /// The render-graph hook: the copies the graph must execute, in the
    /// order they were queued.
    pub fn update(&self) -> (r: &Vec<CopyCommand>)
        ensures
            r@ =~= self.command_queue@,
    {
        &self.command_queue
    }
}

impl Default for GlobalRenderResourcesNode {
    /// Same as `new`: nothing uploaded yet.
    fn default() -> (r: Self)
        ensures
            r.command_queue@ =~= Seq::<CopyCommand>::empty(),
            r.staging_buffer is None,
            r.target_buffer is None,
    {
        GlobalRenderResourcesNode::new()
    }
}

/// What one run of the upload system produced: the staging buffer's new
/// contents and each resource's binding range in the target buffer.
#[derive(Clone, Debug, PartialEq)]
pub struct StagingUpload {
    pub staging_bytes: Vec<u8>,
    pub bindings: Vec<ResourceBinding>,
}

/// The per-frame upload system.  With no change it does nothing.  On a
/// change it lays every payload out at the device's uniform alignment,
/// reuses each buffer unless the total size changed (else creates a
/// fresh one), hands back the staging contents and the bindings into
/// the target buffer, and queues one whole-buffer copy.
pub fn global_render_resources_node_system(
    state: &mut GlobalRenderResourcesNode,
    changed: bool,
    payloads: &Vec<Vec<u8>>,
    align: u64,
    render_device: &mut RenderDevice,
) -> (r: Option<StagingUpload>)
    requires
        1 <= align,
        spec_aligned_total(payloads.deep_view(), align as int) <= u64::MAX,
        old(render_device).next_id + 2 <= u64::MAX,
    ensures
        r is Some <==> changed,
        !changed ==> *final (state) == *old(state) && *final (render_device) == *old(
            render_device,
        ),
        changed ==> ({
            let total = spec_aligned_total(payloads.deep_view(), align as int);
            let staging_kept = old(state).staging_buffer matches Some((sid, ssz)) && ssz == total;
            let staging_id: BufferId = if staging_kept {
                old(state).staging_buffer->Some_0.0
            } else {
                old(render_device).next_id
            };
            let target_kept = old(state).target_buffer matches Some((tid, tsz)) && tsz == total;
            let target_id: BufferId = if target_kept {
                old(state).target_buffer->Some_0.0
            } else if staging_kept {
                old(render_device).next_id
            } else {
                (old(render_device).next_id + 1) as u64
            };
            &&& final (state).staging_buffer == Some((staging_id, total as u64))
            &&& final (state).target_buffer == Some((target_id, total as u64))
            &&& final (state).command_queue@ =~= old(state).command_queue@.push(
                (CopyCommand {
                    src_buffer: staging_id,
                    src_offset: 0,
                    dst_buffer: target_id,
                    dst_offset: 0,
                    size: total as u64,
                }),
            )
            &&& (r matches Some(upload) && {
                &&& upload.staging_bytes@ =~= spec_staging_bytes(
                    payloads.deep_view(),
                    align as int,
                )
                &&& upload.bindings@.len() == payloads@.len()
                &&& forall|i: int|
                    0 <= i < payloads@.len() ==> {
                        &&& (#[trigger] upload.bindings@[i]).buffer == target_id
                        &&& upload.bindings@[i].offset == spec_aligned_total(
                            payloads.deep_view().take(i),
                            align as int,
                        )
                        &&& upload.bindings@[i].size == spec_align_up(
                            payloads.deep_view()[i].len() as int,
                            align as int,
                        )
                    }
            })
        }),
{
    if !changed {
        return None;
    }

    // Precalculate the aligned size of the whole resource set.
    let mut aligned_size: u64 = 0;
    let mut i: usize = 0;
    #[verifier::loop_isolation(false)]
    while i < payloads.len()
        invariant
            i <= payloads@.len(),
            aligned_size == spec_aligned_total(payloads.deep_view().take(i as int), align as int),
        decreases payloads@.len() - i,
    {
        proof {
            lemma_aligned_total_monotone(payloads.deep_view(), align as int, i + 1);
            assert(payloads.deep_view().take(i + 1).drop_last() =~= payloads.deep_view().take(
                i as int,
            ));
            assert(payloads.deep_view().take(i + 1).last() == payloads.deep_view()[i as int]);
            lemma_align_up(payloads.deep_view()[i as int].len() as int, align as int);
        }
        let len = payloads[i].len() as u64;
        let aligned = get_aligned_uniform_size(len, align);
        aligned_size = aligned_size + aligned;
        i = i + 1;
    }
    proof {
        assert(payloads.deep_view().take(payloads@.len() as int) =~= payloads.deep_view());
    }

    // Reuse each buffer, unless the total size changed.
    let staging_buffer: BufferId = match state.staging_buffer {
        Some((id, size)) => {
            if size != aligned_size {
                render_device.create_buffer(aligned_size)
            } else {
                id
            }
        },
        None => render_device.create_buffer(aligned_size),
    };
    let target_buffer: BufferId = match state.target_buffer {
        Some((id, size)) => {
            if size != aligned_size {
                render_device.create_buffer(aligned_size)
            } else {
                id
            }
        },
        None => render_device.create_buffer(aligned_size),
    };
    state.staging_buffer = Some((staging_buffer, aligned_size));
    state.target_buffer = Some((target_buffer, aligned_size));

    // Write the resources into the staging contents, zero-padded, and
    // give each its binding range in the target buffer.
    let mut staging_bytes: Vec<u8> = Vec::new();
    let mut bindings: Vec<ResourceBinding> = Vec::new();
    let mut offset: u64 = 0;
    let mut i: usize = 0;
    #[verifier::loop_isolation(false)]
    while i < payloads.len()
        invariant
            i <= payloads@.len(),
            offset == spec_aligned_total(payloads.deep_view().take(i as int), align as int),
            staging_bytes@ =~= spec_staging_bytes(
                payloads.deep_view().take(i as int),
                align as int,
            ),
            bindings@.len() == i,
            forall|k: int|
                0 <= k < i ==> {
                    &&& (#[trigger] bindings@[k]).buffer == target_buffer
                    &&& bindings@[k].offset == spec_aligned_total(
                        payloads.deep_view().take(k),
                        align as int,
                    )
                    &&& bindings@[k].size == spec_align_up(
                        payloads.deep_view()[k].len() as int,
                        align as int,
                    )
                },
        decreases payloads@.len() - i,
    {
        proof {
            lemma_aligned_total_monotone(payloads.deep_view(), align as int, i + 1);
            assert(payloads.deep_view().take(i + 1).drop_last() =~= payloads.deep_view().take(
                i as int,
            ));
            assert(payloads.deep_view().take(i + 1).last() == payloads.deep_view()[i as int]);
            lemma_align_up(payloads.deep_view()[i as int].len() as int, align as int);
            lemma_staging_bytes_len(payloads.deep_view().take(i as int), align as int);
        }
        let len = payloads[i].len() as u64;
        let aligned = get_aligned_uniform_size(len, align);
        staging_bytes.extend_from_slice(payloads[i].as_slice());
        let mut pad: u64 = len;
        #[verifier::loop_isolation(false)]
        while pad < aligned
            invariant
                len <= pad <= aligned,
                staging_bytes@ =~= spec_staging_bytes(
                    payloads.deep_view().take(i as int),
                    align as int,
                ) + payloads.deep_view()[i as int] + Seq::new((pad - len) as nat, |k: int| 0u8),
            decreases aligned - pad,
        {
            staging_bytes.push(0);
            proof {
                assert(Seq::new((pad + 1 - len) as nat, |k: int| 0u8) =~= Seq::new(
                    (pad - len) as nat,
                    |k: int| 0u8,
                ).push(0u8));
            }
            pad = pad + 1;
        }
        bindings.push(ResourceBinding { buffer: target_buffer, offset, size: aligned });
        offset = offset + aligned;
        i = i + 1;
    }
    proof {
        assert(payloads.deep_view().take(payloads@.len() as int) =~= payloads.deep_view());
    }

    state.command_queue.push(
        CopyCommand {
            src_buffer: staging_buffer,
            src_offset: 0,
            dst_buffer: target_buffer,
            dst_offset: 0,
            size: aligned_size,
        },
    );

    Some(StagingUpload { staging_bytes, bindings })
}

} // verus!
