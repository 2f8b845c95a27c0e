use vstd::prelude::*;

verus! {

/// What a binding slot holds.
#[derive(Clone, Copy, Debug, PartialEq, Eq, Structural)]
pub enum ResourceKind {
    SampledImage,
    StorageImage,
    UniformBlock,
    StorageBuffer,
}

/// How the kernel reaches the resource in a slot.
#[derive(Clone, Copy, Debug, PartialEq, Eq, Structural)]
pub enum Access {
    ReadOnly,
    WriteOnly,
    ReadWrite,
}

/// One entry of a kernel's declared binding signature.
#[derive(Clone, Copy, Debug, PartialEq, Eq, Structural)]
pub struct BindingSlot {
    pub slot: u32,
    pub kind: ResourceKind,
    pub access: Access,
}

pub open spec fn slot_of(slot: u32, kind: ResourceKind, access: Access) -> BindingSlot {
    BindingSlot { slot, kind, access }
}

/// The signature of every correction kernel: input image, correction map, output image,
/// parameter block.
pub open spec fn correction_signature_spec() -> Seq<BindingSlot> {
    seq![
        slot_of(0, ResourceKind::SampledImage, Access::ReadOnly),
        slot_of(1, ResourceKind::SampledImage, Access::ReadOnly),
        slot_of(2, ResourceKind::StorageImage, Access::WriteOnly),
        slot_of(3, ResourceKind::UniformBlock, Access::ReadOnly),
    ]
}

/// The signature of the histogram kernel: input samples, bin array updated by atomics.
pub open spec fn histogram_signature_spec() -> Seq<BindingSlot> {
    seq![
        slot_of(0, ResourceKind::StorageBuffer, Access::ReadOnly),
        slot_of(1, ResourceKind::StorageBuffer, Access::ReadWrite),
    ]
}

pub fn correction_signature() -> (r: Vec<BindingSlot>)
    ensures
        r@ == correction_signature_spec(),
{
    let r = vec![
        BindingSlot { slot: 0, kind: ResourceKind::SampledImage, access: Access::ReadOnly },
        BindingSlot { slot: 1, kind: ResourceKind::SampledImage, access: Access::ReadOnly },
        BindingSlot { slot: 2, kind: ResourceKind::StorageImage, access: Access::WriteOnly },
        BindingSlot { slot: 3, kind: ResourceKind::UniformBlock, access: Access::ReadOnly },
    ];
    assert(r@ =~= correction_signature_spec());
    r
}

pub fn histogram_signature() -> (r: Vec<BindingSlot>)
    ensures
        r@ == histogram_signature_spec(),
{
    let r = vec![
        BindingSlot { slot: 0, kind: ResourceKind::StorageBuffer, access: Access::ReadOnly },
        BindingSlot { slot: 1, kind: ResourceKind::StorageBuffer, access: Access::ReadWrite },
    ];
    assert(r@ =~= histogram_signature_spec());
    r
}

/// Whether two signatures agree slot for slot: same count, and in each position the same
/// slot number, kind and access mode.
pub fn signatures_match(declared: &Vec<BindingSlot>, supplied: &Vec<BindingSlot>) -> (r: bool)
    ensures
        r == (declared@ == supplied@),
{
    if declared.len() != supplied.len() {
        return false;
    }
    let mut i: usize = 0;
    while i < declared.len()
        invariant
            declared@.len() == supplied@.len(),
            i <= declared@.len(),
            forall|j: int| 0 <= j < i ==> declared@[j] == supplied@[j],
        decreases declared@.len() - i,
    {
        if declared[i] != supplied[i] {
            return false;
        }
        i = i + 1;
    }
    assert(declared@ =~= supplied@);
    true
}

} // verus!
