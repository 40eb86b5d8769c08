//! Interleaved vertex layouts: stride and attribute offsets of a buffer of
//! 32-bit floats, computed from the component count of each attribute.

use vstd::prelude::*;
use crate::error::Error;

verus! {

/// Size in bytes of one vertex component, a 32-bit float.
pub const FLOAT_SIZE: usize = 4;

/// Sum of all component counts in `components`.
pub open spec fn component_sum(components: Seq<i32>) -> int
    decreases components.len(),
{
    if components.len() == 0 {
        0
    } else {
        component_sum(components.drop_last()) + components.last()
    }
}

/// No attribute has a negative number of components.
pub open spec fn all_non_negative(components: Seq<i32>) -> bool {
    forall|i: int| 0 <= i < components.len() ==> components[i] >= 0
}

/// The lists for which a layout can be expressed in the integer types of the
/// graphics API: no negative count, a stride that fits a signed 32-bit
/// integer, and attribute indices that fit an unsigned one.
pub open spec fn layout_exists(components: Seq<i32>) -> bool {
    &&& all_non_negative(components)
    &&& FLOAT_SIZE * component_sum(components) <= i32::MAX
    &&& components.len() <= u32::MAX
}

/// Byte offset of attribute `i` inside one vertex.
pub open spec fn attribute_offset(components: Seq<i32>, i: int) -> int {
    FLOAT_SIZE * component_sum(components.take(i))
}

/// Byte distance between two consecutive vertices.
pub open spec fn stride_of(components: Seq<i32>) -> int {
    FLOAT_SIZE * component_sum(components)
}

/// One attribute of an interleaved layout.
#[derive(Clone, Copy, Debug, PartialEq, Eq, Structural)]
pub struct VertexAttribute {
    /// Attribute index, the position in the component list.
    pub index: u32,
    /// Number of floats that make up the attribute.
    pub components: i32,
    /// Byte offset of the attribute from the start of a vertex.
    pub offset: usize,
}

/// Stride and attributes of one buffer bound to one vertex array.
#[derive(Clone, Debug, PartialEq, Eq)]
pub struct VertexLayout {
    /// Byte distance between two consecutive vertices.
    pub stride: i32,
    /// The attributes in index order.
    pub attributes: Vec<VertexAttribute>,
}

impl VertexLayout {
    /// `self` is the layout of `components`: the stride is the size of all
    /// components together, and each attribute starts where the one before
    /// it ends, the first at offset zero.
    pub open spec fn describes(&self, components: Seq<i32>) -> bool {
        &&& self.stride == stride_of(components)
        &&& self.attributes@.len() == components.len()
        &&& forall|i: int|
            0 <= i < components.len() ==> {
                &&& (#[trigger] self.attributes@[i]).index == i
                &&& self.attributes@[i].components == components[i]
                &&& self.attributes@[i].offset == attribute_offset(components, i)
            }
    }
}

/// Extending a prefix by one attribute adds that attribute's count.
pub proof fn lemma_sum_step(components: Seq<i32>, i: int)
    requires
        0 <= i < components.len(),
    ensures
        component_sum(components.take(i + 1)) == component_sum(components.take(i)) + components[i],
{
    assert(components.take(i + 1).drop_last() =~= components.take(i));
}

/// With no negative count, a prefix never sums to more than the whole list.
pub proof fn lemma_sum_monotone(components: Seq<i32>, i: int)
    requires
        all_non_negative(components),
        0 <= i <= components.len(),
    ensures
        0 <= component_sum(components.take(i)) <= component_sum(components),
    decreases components.len() - i,
{
    if i == components.len() {
        assert(components.take(i) =~= components);
        lemma_sum_non_negative(components);
    } else {
        lemma_sum_step(components, i);
        lemma_sum_monotone(components, i + 1);
        lemma_sum_non_negative(components.take(i));
    }
}

/// With no negative count, the sum is not negative.
pub proof fn lemma_sum_non_negative(components: Seq<i32>)
    requires
        all_non_negative(components),
    ensures
        component_sum(components) >= 0,
    decreases components.len(),
{
    if components.len() > 0 {
        lemma_sum_non_negative(components.drop_last());
    }
}

/// The first attribute starts at offset zero.
pub proof fn lemma_first_offset_is_zero(components: Seq<i32>)
    ensures
        attribute_offset(components, 0) == 0,
{
    assert(components.take(0).len() == 0);
}

/// Each attribute starts where the one before it ends.
pub proof fn lemma_offsets_are_cumulative(components: Seq<i32>, i: int)
    requires
        0 <= i < components.len(),
    ensures
        attribute_offset(components, i + 1) == attribute_offset(components, i) + FLOAT_SIZE
            * components[i],
        i + 1 == components.len() ==> attribute_offset(components, i + 1) == stride_of(components),
{
    lemma_sum_step(components, i);
    if i + 1 == components.len() {
        assert(components.take(i + 1) =~= components);
    }
}

/// Computes the interleaved layout of a buffer whose vertices consist of
/// attributes with the given component counts.
///
/// Fails exactly on the lists that have no layout ([`layout_exists`]).
pub fn vertex_layout(components: &[i32]) -> (r: Result<VertexLayout, Error>)
    ensures
        r is Ok <==> layout_exists(components@),
        r matches Ok(layout) ==> layout.describes(components@),
        r matches Err(e) ==> e@ == "vertex components do not describe a layout"@,
{
    let mut attributes: Vec<VertexAttribute> = Vec::new();
    let mut offset: usize = 0;
    let mut i: usize = 0;
    while i < components.len()
        invariant
            i <= components@.len(),
            i <= u32::MAX,
            attributes@.len() == i,
            all_non_negative(components@.take(i as int)),
            offset == attribute_offset(components@, i as int),
            offset <= i32::MAX,
            forall|j: int|
                0 <= j < i ==> {
                    &&& (#[trigger] attributes@[j]).index == j
                    &&& attributes@[j].components == components@[j]
                    &&& attributes@[j].offset == attribute_offset(components@, j)
                },
        decreases components@.len() - i,
    {
        let count: i32 = components[i];
        if count < 0 || i >= u32::MAX as usize {
            return Err(Error::new("vertex components do not describe a layout"));
        }
        let room: usize = (i32::MAX as usize - offset) / FLOAT_SIZE;
        if count as usize > room {
            proof {
                lemma_sum_step(components@, i as int);
                if all_non_negative(components@) {
                    lemma_sum_monotone(components@, i + 1);
                }
            }
            return Err(Error::new("vertex components do not describe a layout"));
        }
        proof {
            lemma_sum_step(components@, i as int);
            let longer = components@.take(i + 1);
            assert forall|j: int| 0 <= j < longer.len() implies #[trigger] longer[j] >= 0 by {
                if j < i {
                    assert(components@.take(i as int)[j] >= 0);
                }
            }
        }
        attributes.push(VertexAttribute { index: i as u32, components: count, offset });
        offset = offset + FLOAT_SIZE * (count as usize);
        i = i + 1;
    }
    proof {
        assert(components@.take(i as int) =~= components@);
    }
    Ok(VertexLayout { stride: offset as i32, attributes })
}

} // verus!
