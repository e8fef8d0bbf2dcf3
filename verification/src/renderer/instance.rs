//! Per-draw-call instancing: one `Instance` record per sprite (model
//! transform plus atlas cell index), and the `InstanceBuffer` protocol — a
//! GPU-resident ordered sequence whose logical length is fixed at
//! construction and whose contents may be partially overwritten.

use crate::bytes::{le4, push_le4};
use crate::math::Transform;
use vstd::prelude::*;

verus! {

/// The byte stride of one instance record: nine single-precision model
/// entries and two unsigned atlas indices.
pub const INSTANCE_STRIDE: u64 = 44;

/// One sprite instance: the model matrix mapping the mesh rectangle into
/// screen space (column-major single-precision bit patterns) and the atlas
/// cell index the fragment stage samples from.
#[derive(Debug, Clone, Copy, PartialEq)]
pub struct Instance {
    pub model: [u32; 9],
    pub uv_index: [u32; 2],
}

/// The 44 little-endian bytes of one instance record: the model entries in
/// storage order, then the two atlas indices.
pub open spec fn instance_le(i: Instance) -> Seq<u8> {
    le4(i.model[0]) + le4(i.model[1]) + le4(i.model[2]) + le4(i.model[3]) + le4(i.model[4]) + le4(
        i.model[5],
    ) + le4(i.model[6]) + le4(i.model[7]) + le4(i.model[8]) + le4(i.uv_index[0]) + le4(
        i.uv_index[1],
    )
}

/// The concatenated records of an instance sequence.
pub open spec fn instances_le(s: Seq<Instance>) -> Seq<u8>
    decreases s.len(),
{
    if s.len() == 0 {
        Seq::empty()
    } else {
        instances_le(s.drop_last()) + instance_le(s.last())
    }
}

/// Each record serializes to `INSTANCE_STRIDE` bytes.
pub proof fn lemma_instances_le_len(s: Seq<Instance>)
    ensures
        instances_le(s).len() == INSTANCE_STRIDE * s.len(),
    decreases s.len(),
{
    if s.len() > 0 {
        lemma_instances_le_len(s.drop_last());
    }
}

impl Instance {
    /// Pack a transform and an atlas cell index into one instance record.
    /// The full matrix is retained; the caller is responsible for the
    /// documented atlas contract that the index lies inside the bound
    /// texture's grid.
    pub fn new(model: Transform, uv_index: [u32; 2]) -> (r: Self)
        ensures
            r.model == model.0,
            r.uv_index == uv_index,
    {
        Instance { model: model.0, uv_index }
    }

    /// The layout of the per-instance stream: 44-byte records stepped per
    /// instance, the model matrix as three three-float columns at offsets
    /// 0, 12 and 24 feeding shader locations 2, 3 and 4, and the atlas index
    /// pair at offset 36 feeding location 5 — matching `instance_le`.
    pub fn layout() -> (r: super::mesh::VertexBufferLayout)
        ensures
            r.array_stride == INSTANCE_STRIDE,
            r.step_mode == super::mesh::StepMode::Instance,
            r.attributes@ =~= seq![
                (super::mesh::VertexAttribute {
                    format: super::mesh::AttributeFormat::Float32x3,
                    offset: 0,
                    shader_location: 2,
                }),
                (super::mesh::VertexAttribute {
                    format: super::mesh::AttributeFormat::Float32x3,
                    offset: 12,
                    shader_location: 3,
                }),
                (super::mesh::VertexAttribute {
                    format: super::mesh::AttributeFormat::Float32x3,
                    offset: 24,
                    shader_location: 4,
                }),
                (super::mesh::VertexAttribute {
                    format: super::mesh::AttributeFormat::Uint32x2,
                    offset: 36,
                    shader_location: 5,
                }),
            ],
    {
        let mut attributes: Vec<super::mesh::VertexAttribute> = Vec::new();
        attributes.push(
            super::mesh::VertexAttribute {
                format: super::mesh::AttributeFormat::Float32x3,
                offset: 0,
                shader_location: 2,
            },
        );
        attributes.push(
            super::mesh::VertexAttribute {
                format: super::mesh::AttributeFormat::Float32x3,
                offset: 12,
                shader_location: 3,
            },
        );
        attributes.push(
            super::mesh::VertexAttribute {
                format: super::mesh::AttributeFormat::Float32x3,
                offset: 24,
                shader_location: 4,
            },
        );
        attributes.push(
            super::mesh::VertexAttribute {
                format: super::mesh::AttributeFormat::Uint32x2,
                offset: 36,
                shader_location: 5,
            },
        );
        super::mesh::VertexBufferLayout {
            array_stride: 44,
            step_mode: super::mesh::StepMode::Instance,
            attributes,
        }
    }
}

/// Serialize a run of instance records for upload, in order, each as its
/// 44 little-endian bytes.
pub fn instances_bytes(data: &[Instance]) -> (r: Vec<u8>)
    ensures
        r@ == instances_le(data@),
        r@.len() == INSTANCE_STRIDE * data@.len(),
{
    let mut out: Vec<u8> = Vec::new();
    let n = data.len();
    for i in 0..n
        invariant
            n == data@.len(),
            out@ == instances_le(data@.take(i as int)),
    {
        let ins = data[i];
        push_le4(&mut out, ins.model[0]);
        push_le4(&mut out, ins.model[1]);
        push_le4(&mut out, ins.model[2]);
        push_le4(&mut out, ins.model[3]);
        push_le4(&mut out, ins.model[4]);
        push_le4(&mut out, ins.model[5]);
        push_le4(&mut out, ins.model[6]);
        push_le4(&mut out, ins.model[7]);
        push_le4(&mut out, ins.model[8]);
        push_le4(&mut out, ins.uv_index[0]);
        push_le4(&mut out, ins.uv_index[1]);
        proof {
            let taken = data@.take(i + 1);
            assert(taken.drop_last() =~= data@.take(i as int));
            assert(taken.last() == data@[i as int]);
            assert(out@ =~= instances_le(taken));
        }
    }
    proof {
        assert(data@.take(n as int) =~= data@);
        lemma_instances_le_len(data@);
    }
    out
}

/// A GPU-resident ordered sequence of instance records together with its
/// half-open draw range. The logical length is fixed by construction:
/// `update` overwrites records in place and can never grow the buffer.
#[derive(Debug)]
pub struct InstanceBuffer {
    instances: Vec<Instance>,
}

impl InstanceBuffer {
    /// The records the buffer currently holds, in draw order.
    pub closed spec fn contents(self) -> Seq<Instance> {
        self.instances@
    }

    /// The record count fits the backend's 32-bit instance range.
    #[verifier::type_invariant]
    spec fn inv(self) -> bool {
        self.instances@.len() <= 0xffff_ffff
    }

    /// Fix the buffer's contents and capacity to the given records; the
    /// draw range becomes `[0, n)` for their count `n`.
    pub fn new(instances: &[Instance]) -> (r: Self)
        requires
            instances@.len() <= 0xffff_ffff,
        ensures
            r.contents() == instances@,
    {
        let mut held: Vec<Instance> = Vec::new();
        let n = instances.len();
        for i in 0..n
            invariant
                n == instances@.len(),
                held@ == instances@.take(i as int),
        {
            held.push(instances[i]);
            proof {
                assert(held@ =~= instances@.take(i + 1));
            }
        }
        proof {
            assert(instances@.take(n as int) =~= instances@);
        }
        InstanceBuffer { instances: held }
    }

    /// Overwrite the records starting at byte `offset` with `data`, which
    /// must fit inside the original allocation. The backend itself takes any
    /// byte offset that fits; this layer models the buffer as a sequence of
    /// whole records, so the offset must be a whole number of 44-byte
    /// records — a narrowing of the byte-offset interface that every caller
    /// here satisfies (they update from offset zero). The length never
    /// changes; records outside the written window keep their old values, so
    /// writing the whole buffer and reading it back returns exactly what was
    /// written.
    pub fn update(&mut self, offset: u64, data: &[Instance])
        requires
            offset % INSTANCE_STRIDE == 0,
            offset / INSTANCE_STRIDE + data@.len() <= old(self).contents().len(),
        ensures
            final(self).contents() == old(self).contents().take(
                (offset / INSTANCE_STRIDE) as int,
            ) + data@ + old(self).contents().skip(
                (offset / INSTANCE_STRIDE) as int + data@.len(),
            ),
    {
        proof {
            use_type_invariant(&*self);
        }
        let start: usize = (offset / INSTANCE_STRIDE) as usize;
        let mut updated: Vec<Instance> = Vec::new();
        let n = self.instances.len();
        let k = data.len();
        for i in 0..n
            invariant
                n == self.instances@.len(),
                n <= 0xffff_ffff,
                k == data@.len(),
                start + k <= n,
                start == offset / INSTANCE_STRIDE,
                updated@ == (self.instances@.take(start as int) + data@ + self.instances@.skip(
                    start as int + k,
                )).take(i as int),
        {
            if i >= start && i < start + k {
                updated.push(data[i - start]);
            } else {
                updated.push(self.instances[i]);
            }
            proof {
                let target = self.instances@.take(start as int) + data@
                    + self.instances@.skip(start as int + k);
                assert(updated@ =~= target.take(i + 1));
            }
        }
        proof {
            let target = self.instances@.take(start as int) + data@ + self.instances@.skip(
                start as int + k,
            );
            assert(target.take(n as int) =~= target);
        }
        self.instances = updated;
    }

    /// The records currently held, for read-back.
    pub fn instances(&self) -> (r: &Vec<Instance>)
        ensures
            r@ == self.contents(),
    {
        &self.instances
    }

    /// The half-open instance range `[0, n)` one draw of this buffer covers.
    pub fn range(&self) -> (r: (u32, u32))
        ensures
            r.0 == 0,
            r.1 == self.contents().len(),
    {
        proof {
            use_type_invariant(self);
        }
        (0, self.instances.len() as u32)
    }
}

} // verus!
