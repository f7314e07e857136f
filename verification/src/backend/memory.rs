//! Choosing memory types and depth formats from what a device reports.
use vstd::prelude::*;

use crate::error::EngineError;

verus! {

/// `VK_MEMORY_PROPERTY_DEVICE_LOCAL_BIT`.
pub const MEMORY_PROPERTY_DEVICE_LOCAL: u32 = 0x1;
/// `VK_MEMORY_PROPERTY_HOST_VISIBLE_BIT`.
pub const MEMORY_PROPERTY_HOST_VISIBLE: u32 = 0x2;
/// `VK_MEMORY_PROPERTY_HOST_COHERENT_BIT`.
pub const MEMORY_PROPERTY_HOST_COHERENT: u32 = 0x4;
/// `VK_FORMAT_FEATURE_DEPTH_STENCIL_ATTACHMENT_BIT`.
pub const FORMAT_FEATURE_DEPTH_STENCIL_ATTACHMENT: u32 = 0x200;
/// `VK_FORMAT_D32_SFLOAT`.
pub const FORMAT_D32_SFLOAT: i32 = 126;
/// `VK_FORMAT_D24_UNORM_S8_UINT`.
pub const FORMAT_D24_UNORM_S8_UINT: i32 = 129;
/// `VK_FORMAT_D32_SFLOAT_S8_UINT`.
pub const FORMAT_D32_SFLOAT_S8_UINT: i32 = 130;
/// `VK_MAX_MEMORY_TYPES`.
pub const MAX_MEMORY_TYPES: u32 = 32;

/// The memory types of a physical device: how many there are and the
/// property flags of each.
#[derive(Clone, Debug)]
pub struct MemoryProperties {
    pub memory_type_count: u32,
    pub memory_type_flags: Vec<u32>,
}

/// Every bit of `required` is set in `flags` (`Flags::contains`).
pub open spec fn has_flags(flags: u32, required: u32) -> bool {
    flags & required == required
}

/// Memory type `index` is allowed by the filter and has the properties.
pub open spec fn memory_type_suits(props: MemoryProperties, type_filter: u32, required: u32, index: u32) -> bool {
    &&& type_filter & (1u32 << index) != 0
    &&& has_flags(props.memory_type_flags@[index as int], required)
}

/// A memory type suits exactly when the filter has its bit and its property
/// flags contain every required bit; flags with more bits than required
/// still suit.
pub proof fn lemma_memory_type_suits_by_bits(props: MemoryProperties, type_filter: u32, required: u32, index: u32)
    ensures
        memory_type_suits(props, type_filter, required, index) <==> (
            type_filter & (1u32 << index) != 0
            && props.memory_type_flags@[index as int] & required == required
        ),
        type_filter & (1u32 << index) != 0 && props.memory_type_flags@[index as int] == required
            ==> memory_type_suits(props, type_filter, required, index),
{
    let f = props.memory_type_flags@[index as int];
    assert(f == required ==> f & required == required) by (bit_vector);
}

/// The first memory type that the filter allows and that has all the
/// required properties.
pub fn find_memory_type_index(props: &MemoryProperties, type_filter: u32, required: u32) -> (r: Option<u32>)
    requires
        props.memory_type_count <= MAX_MEMORY_TYPES,
        props.memory_type_count <= props.memory_type_flags@.len(),
    ensures
        r matches Some(i) ==> i < props.memory_type_count && memory_type_suits(*props, type_filter, required, i)
            && forall|j: u32| j < i ==> !memory_type_suits(*props, type_filter, required, j),
        r is None ==> forall|j: u32| j < props.memory_type_count ==> !memory_type_suits(*props, type_filter, required, j),
{
    let mut index: u32 = 0;
    while index < props.memory_type_count
        invariant
            props.memory_type_count <= MAX_MEMORY_TYPES,
            props.memory_type_count <= props.memory_type_flags@.len(),
            index <= props.memory_type_count,
            forall|j: u32| j < index ==> !memory_type_suits(*props, type_filter, required, j),
        decreases props.memory_type_count - index,
    {
        let is_supported = type_filter & (1u32 << index) != 0;
        let flags = props.memory_type_flags[index as usize];
        let has_properties = flags & required == required;
        if is_supported && has_properties {
            return Some(index);
        }
        index = index + 1;
    }
    None
}

/// The depth formats tried, best first.
pub open spec fn depth_format_candidate(i: int) -> i32 {
    if i == 0 {
        FORMAT_D32_SFLOAT
    } else if i == 1 {
        FORMAT_D32_SFLOAT_S8_UINT
    } else {
        FORMAT_D24_UNORM_S8_UINT
    }
}

/// The number of depth formats tried.
pub const DEPTH_FORMAT_CANDIDATE_COUNT: usize = 3;

fn depth_format_at(i: usize) -> (f: i32)
    requires
        i < DEPTH_FORMAT_CANDIDATE_COUNT,
    ensures
        f == depth_format_candidate(i as int),
{
    if i == 0 {
        FORMAT_D32_SFLOAT
    } else if i == 1 {
        FORMAT_D32_SFLOAT_S8_UINT
    } else {
        FORMAT_D24_UNORM_S8_UINT
    }
}

/// The first candidate depth format whose optimal-tiling features allow a
/// depth/stencil attachment; `optimal_tiling_features[i]` belongs to
/// candidate `i`.
pub fn select_depth_format(optimal_tiling_features: &[u32]) -> (r: Result<i32, EngineError>)
    requires
        optimal_tiling_features@.len() == DEPTH_FORMAT_CANDIDATE_COUNT,
    ensures
        r matches Ok(f) ==> exists|i: int| 0 <= i < DEPTH_FORMAT_CANDIDATE_COUNT && f == depth_format_candidate(i)
            && has_flags(optimal_tiling_features@[i], FORMAT_FEATURE_DEPTH_STENCIL_ATTACHMENT)
            && forall|j: int| 0 <= j < i ==> !has_flags(#[trigger] optimal_tiling_features@[j], FORMAT_FEATURE_DEPTH_STENCIL_ATTACHMENT),
        r is Err <==> forall|j: int| 0 <= j < DEPTH_FORMAT_CANDIDATE_COUNT ==> !has_flags(#[trigger] optimal_tiling_features@[j], FORMAT_FEATURE_DEPTH_STENCIL_ATTACHMENT),
        r matches Err(e) ==> e is Message,
{
    let mut i: usize = 0;
    while i < DEPTH_FORMAT_CANDIDATE_COUNT
        invariant
            optimal_tiling_features@.len() == DEPTH_FORMAT_CANDIDATE_COUNT,
            i <= DEPTH_FORMAT_CANDIDATE_COUNT,
            forall|j: int| 0 <= j < i ==> !has_flags(#[trigger] optimal_tiling_features@[j], FORMAT_FEATURE_DEPTH_STENCIL_ATTACHMENT),
        decreases DEPTH_FORMAT_CANDIDATE_COUNT - i,
    {
        let features = optimal_tiling_features[i];
        if features & FORMAT_FEATURE_DEPTH_STENCIL_ATTACHMENT == FORMAT_FEATURE_DEPTH_STENCIL_ATTACHMENT {
            return Ok(depth_format_at(i));
        }
        i = i + 1;
    }
    Err(EngineError::Message(String::from_str("failed to find supported depth format")))
}

} // verus!
