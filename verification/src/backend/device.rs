//! Choosing the physical device and its queue families.
use vstd::prelude::*;

use crate::error::EngineError;

verus! {

/// `VK_QUEUE_GRAPHICS_BIT`.
pub const QUEUE_GRAPHICS: u32 = 0x1;
/// `VK_PHYSICAL_DEVICE_TYPE_DISCRETE_GPU`.
pub const PHYSICAL_DEVICE_TYPE_DISCRETE_GPU: i32 = 2;
/// Score bonus of a discrete GPU over other devices.
pub const DISCRETE_GPU_BONUS: usize = 1000;

/// The queue families used for graphics and for presentation.
#[derive(Clone, Copy, Debug, PartialEq, Eq)]
pub struct QueueFamilies {
    pub graphics: u32,
    pub present: u32,
}

/// One queue family of a device, as far as the choice needs it.
#[derive(Clone, Copy, Debug, PartialEq, Eq)]
pub struct QueueFamilyInfo {
    /// `VkQueueFlags`.
    pub queue_flags: u32,
    /// Whether the family can present to the window's surface.
    pub supports_present: bool,
}

/// The index of the last element of `s` that satisfies `pred`.
pub open spec fn last_index_where(s: Seq<QueueFamilyInfo>, pred: spec_fn(QueueFamilyInfo) -> bool) -> Option<int>
    decreases s.len(),
{
    if s.len() == 0 {
        None
    } else if pred(s.last()) {
        Some(s.len() - 1)
    } else {
        last_index_where(s.drop_last(), pred)
    }
}

pub open spec fn has_graphics(f: QueueFamilyInfo) -> bool {
    f.queue_flags & QUEUE_GRAPHICS == QUEUE_GRAPHICS
}

pub open spec fn can_present(f: QueueFamilyInfo) -> bool {
    f.supports_present
}

/// The queue families a device offers: the last family with graphics and
/// the last family that can present, when both exist.
pub open spec fn queue_families_of(families: Seq<QueueFamilyInfo>) -> Option<QueueFamilies> {
    match (last_index_where(families, |f: QueueFamilyInfo| has_graphics(f)), last_index_where(families, |f: QueueFamilyInfo| can_present(f))) {
        (Some(g), Some(p)) => Some(QueueFamilies { graphics: g as u32, present: p as u32 }),
        _ => None,
    }
}

proof fn lemma_last_index_step(s: Seq<QueueFamilyInfo>, i: int, pred: spec_fn(QueueFamilyInfo) -> bool)
    requires
        0 <= i < s.len(),
    ensures
        last_index_where(s.take(i + 1), pred) == if pred(s[i]) {
            Some(i)
        } else {
            last_index_where(s.take(i), pred)
        },
{
    assert(s.take(i + 1).drop_last() =~= s.take(i));
    assert(s.take(i + 1).last() == s[i]);
}

proof fn lemma_last_index_where(s: Seq<QueueFamilyInfo>, pred: spec_fn(QueueFamilyInfo) -> bool)
    ensures
        last_index_where(s, pred) matches Some(i) ==> {
            &&& 0 <= i < s.len()
            &&& pred(s[i])
            &&& forall|j: int| i < j < s.len() ==> !pred(#[trigger] s[j])
        },
        last_index_where(s, pred) is None ==> forall|j: int| 0 <= j < s.len() ==> !pred(#[trigger] s[j]),
    decreases s.len(),
{
    if s.len() > 0 {
        let t = s.drop_last();
        lemma_last_index_where(t, pred);
        assert forall|j: int| 0 <= j < t.len() implies #[trigger] t[j] == s[j] by {}
        if !pred(s.last()) {
            assert forall|j: int| 0 <= j < s.len() && j != s.len() - 1 implies t[j] == s[j] by {}
        }
    }
}

/// The queue families found are the last family whose flags include the
/// graphics bit and the last family that can present; there is no result
/// exactly when no family has the graphics bit or none can present.
pub proof fn lemma_queue_families_found(families: Seq<QueueFamilyInfo>)
    requires
        families.len() <= u32::MAX,
    ensures
        queue_families_of(families) matches Some(q) ==> {
            &&& q.graphics < families.len()
            &&& families[q.graphics as int].queue_flags & QUEUE_GRAPHICS == QUEUE_GRAPHICS
            &&& forall|j: int| q.graphics < j < families.len() ==> (#[trigger] families[j]).queue_flags & QUEUE_GRAPHICS != QUEUE_GRAPHICS
            &&& q.present < families.len()
            &&& families[q.present as int].supports_present
            &&& forall|j: int| q.present < j < families.len() ==> !(#[trigger] families[j]).supports_present
        },
        queue_families_of(families) is None <==> (
            (forall|j: int| 0 <= j < families.len() ==> (#[trigger] families[j]).queue_flags & QUEUE_GRAPHICS != QUEUE_GRAPHICS)
            || (forall|j: int| 0 <= j < families.len() ==> !(#[trigger] families[j]).supports_present)
        ),
{
    let g = |f: QueueFamilyInfo| has_graphics(f);
    let p = |f: QueueFamilyInfo| can_present(f);
    lemma_last_index_where(families, g);
    lemma_last_index_where(families, p);
    match last_index_where(families, g) {
        Some(gi) => {
            assert(has_graphics(families[gi]));
            match last_index_where(families, p) {
                Some(pi) => {
                    assert(can_present(families[pi]));
                    assert forall|j: int| gi < j < families.len() implies (#[trigger] families[j]).queue_flags & QUEUE_GRAPHICS != QUEUE_GRAPHICS by {
                        assert(!g(families[j]));
                    }
                    assert forall|j: int| pi < j < families.len() implies !(#[trigger] families[j]).supports_present by {
                        assert(!p(families[j]));
                    }
                },
                None => {
                    assert forall|j: int| 0 <= j < families.len() implies !(#[trigger] families[j]).supports_present by {
                        assert(!p(families[j]));
                    }
                    if forall|j: int| 0 <= j < families.len() ==> (#[trigger] families[j]).queue_flags & QUEUE_GRAPHICS != QUEUE_GRAPHICS {
                        assert(families[gi].queue_flags & QUEUE_GRAPHICS != QUEUE_GRAPHICS);
                    }
                },
            }
        },
        None => {
            assert forall|j: int| 0 <= j < families.len() implies (#[trigger] families[j]).queue_flags & QUEUE_GRAPHICS != QUEUE_GRAPHICS by {
                assert(!g(families[j]));
            }
            match last_index_where(families, p) {
                Some(pi) => {
                    assert(can_present(families[pi]));
                },
                None => {},
            }
        },
    }
    if queue_families_of(families) is Some {
        let gi = last_index_where(families, g).unwrap();
        let pi = last_index_where(families, p).unwrap();
        assert(!(forall|j: int| 0 <= j < families.len() ==> (#[trigger] families[j]).queue_flags & QUEUE_GRAPHICS != QUEUE_GRAPHICS)) by {
            assert(families[gi].queue_flags & QUEUE_GRAPHICS == QUEUE_GRAPHICS);
        }
        assert(!(forall|j: int| 0 <= j < families.len() ==> !(#[trigger] families[j]).supports_present)) by {
            assert(families[pi].supports_present);
        }
    }
}

/// Scans the queue families of a device for graphics and presentation.
pub fn find_queue_families(families: &[QueueFamilyInfo]) -> (r: Option<QueueFamilies>)
    requires
        families@.len() <= u32::MAX,
    ensures
        r == queue_families_of(families@),
{
    let mut graphics: Option<u32> = None;
    let mut present: Option<u32> = None;
    let mut index: usize = 0;
    let ghost g_pred = |f: QueueFamilyInfo| has_graphics(f);
    let ghost p_pred = |f: QueueFamilyInfo| can_present(f);
    proof {
        assert(families@.take(0) =~= Seq::<QueueFamilyInfo>::empty());
    }
    while index < families.len()
        invariant
            families@.len() <= u32::MAX,
            index <= families@.len(),
            g_pred == (|f: QueueFamilyInfo| has_graphics(f)),
            p_pred == (|f: QueueFamilyInfo| can_present(f)),
            graphics == match last_index_where(families@.take(index as int), g_pred) {
                Some(i) => Some(i as u32),
                None => None::<u32>,
            },
            present == match last_index_where(families@.take(index as int), p_pred) {
                Some(i) => Some(i as u32),
                None => None::<u32>,
            },
        decreases families.len() - index,
    {
        let family = families[index];
        proof {
            lemma_last_index_step(families@, index as int, g_pred);
            lemma_last_index_step(families@, index as int, p_pred);
        }
        if family.queue_flags & QUEUE_GRAPHICS == QUEUE_GRAPHICS {
            graphics = Some(index as u32);
        }
        if family.supports_present {
            present = Some(index as u32);
        }
        index = index + 1;
    }
    proof {
        assert(families@.take(index as int) =~= families@);
    }
    match (graphics, present) {
        (Some(graphics), Some(present)) => Some(QueueFamilies { graphics, present }),
        _ => None,
    }
}

/// What the engine knows of a physical device when choosing one.
#[derive(Clone, Copy, Debug, PartialEq, Eq)]
pub struct DeviceCandidate {
    /// The queue families found on it, if it has both kinds.
    pub queue_families: Option<QueueFamilies>,
    /// Whether it supports the swapchain extension.
    pub swapchain_supported: bool,
    /// How many surface formats it offers for the window.
    pub surface_format_count: usize,
    /// How many present modes it offers for the window.
    pub present_mode_count: usize,
    /// `VkPhysicalDeviceType`.
    pub device_type: i32,
}

/// A device that can render to and present on the window.
pub open spec fn eligible(c: DeviceCandidate) -> bool {
    &&& c.queue_families is Some
    &&& c.swapchain_supported
    &&& c.surface_format_count > 0
    &&& c.present_mode_count > 0
}

/// More formats and present modes score higher; discrete GPUs far higher.
pub open spec fn device_score(c: DeviceCandidate) -> int {
    c.surface_format_count + c.present_mode_count + if c.device_type == PHYSICAL_DEVICE_TYPE_DISCRETE_GPU {
        DISCRETE_GPU_BONUS as int
    } else {
        0
    }
}

/// `i` is the first eligible candidate with the highest score.
pub open spec fn is_best_device(cs: Seq<DeviceCandidate>, i: int) -> bool {
    &&& 0 <= i < cs.len()
    &&& eligible(cs[i])
    &&& forall|j: int| 0 <= j < cs.len() && eligible(#[trigger] cs[j]) ==> device_score(cs[j]) <= device_score(cs[i])
    &&& forall|j: int| 0 <= j < i && eligible(#[trigger] cs[j]) ==> device_score(cs[j]) < device_score(cs[i])
}

/// Offered formats plus present modes of a candidate.
pub open spec fn offered(c: DeviceCandidate) -> int {
    c.surface_format_count + c.present_mode_count
}

/// Only discrete GPUs get the bonus: between two devices of the same class
/// (both discrete GPUs, or both not) the one offering more formats and
/// present modes scores higher, and a discrete GPU outscores any other
/// device that offers fewer than `DISCRETE_GPU_BONUS` more.
pub proof fn lemma_device_score_ranking(a: DeviceCandidate, b: DeviceCandidate)
    ensures
        (a.device_type == PHYSICAL_DEVICE_TYPE_DISCRETE_GPU) == (b.device_type == PHYSICAL_DEVICE_TYPE_DISCRETE_GPU)
            ==> (device_score(a) < device_score(b) <==> offered(a) < offered(b)),
        a.device_type == PHYSICAL_DEVICE_TYPE_DISCRETE_GPU && b.device_type != PHYSICAL_DEVICE_TYPE_DISCRETE_GPU
            && offered(b) < offered(a) + 1000 ==> device_score(b) < device_score(a),
        a.device_type != PHYSICAL_DEVICE_TYPE_DISCRETE_GPU ==> device_score(a) == offered(a),
{
}

/// What the chosen device says about every other eligible one: a device of
/// the same class offers no more formats and present modes; a discrete GPU
/// passed over for another kind of device offers at least
/// `DISCRETE_GPU_BONUS` fewer; an earlier device of the same class offers
/// strictly fewer.
pub proof fn lemma_best_device_prefers(cs: Seq<DeviceCandidate>, i: int, j: int)
    requires
        is_best_device(cs, i),
        0 <= j < cs.len(),
        eligible(cs[j]),
    ensures
        (cs[i].device_type == PHYSICAL_DEVICE_TYPE_DISCRETE_GPU) == (cs[j].device_type == PHYSICAL_DEVICE_TYPE_DISCRETE_GPU)
            ==> offered(cs[j]) <= offered(cs[i]),
        cs[j].device_type == PHYSICAL_DEVICE_TYPE_DISCRETE_GPU && cs[i].device_type != PHYSICAL_DEVICE_TYPE_DISCRETE_GPU
            ==> offered(cs[j]) + 1000 <= offered(cs[i]),
        j < i && (cs[i].device_type == PHYSICAL_DEVICE_TYPE_DISCRETE_GPU) == (cs[j].device_type == PHYSICAL_DEVICE_TYPE_DISCRETE_GPU)
            ==> offered(cs[j]) < offered(cs[i]),
{
    lemma_device_score_ranking(cs[j], cs[i]);
}

/// Picks the first eligible device with the highest score, with its queue
/// families; fails when no device is eligible.
pub fn select_physical_device(candidates: &[DeviceCandidate]) -> (r: Result<(usize, QueueFamilies), EngineError>)
    requires
        forall|j: int| 0 <= j < candidates@.len() ==>
            (#[trigger] candidates@[j]).surface_format_count + candidates@[j].present_mode_count + DISCRETE_GPU_BONUS <= usize::MAX,
    ensures
        r matches Ok((i, families)) ==> is_best_device(candidates@, i as int) && candidates@[i as int].queue_families == Some(families),
        r is Err <==> forall|j: int| 0 <= j < candidates@.len() ==> !eligible(#[trigger] candidates@[j]),
        r matches Err(e) ==> e == EngineError::NoCompatibleDevice,
{
    let mut selected: Option<(usize, QueueFamilies)> = None;
    let mut best_score: usize = 0;
    let mut i: usize = 0;
    while i < candidates.len()
        invariant
            forall|j: int| 0 <= j < candidates@.len() ==>
                (#[trigger] candidates@[j]).surface_format_count + candidates@[j].present_mode_count + DISCRETE_GPU_BONUS <= usize::MAX,
            i <= candidates@.len(),
            selected is None ==> best_score == 0 && forall|j: int| 0 <= j < i ==> !eligible(#[trigger] candidates@[j]),
            selected matches Some((k, families)) ==> {
                &&& k < i
                &&& eligible(candidates@[k as int])
                &&& candidates@[k as int].queue_families == Some(families)
                &&& best_score == device_score(candidates@[k as int])
                &&& forall|j: int| 0 <= j < i && eligible(#[trigger] candidates@[j]) ==> device_score(candidates@[j]) <= best_score
                &&& forall|j: int| 0 <= j < k && eligible(#[trigger] candidates@[j]) ==> device_score(candidates@[j]) < best_score
            },
        decreases candidates.len() - i,
    {
        let c = candidates[i];
        match c.queue_families {
            Some(families) => {
                if c.swapchain_supported && c.surface_format_count > 0 && c.present_mode_count > 0 {
                    let mut score = c.surface_format_count + c.present_mode_count;
                    if c.device_type == PHYSICAL_DEVICE_TYPE_DISCRETE_GPU {
                        score = score + DISCRETE_GPU_BONUS;
                    }
                    if score > best_score {
                        best_score = score;
                        selected = Some((i, families));
                    }
                }
            },
            None => {},
        }
        i = i + 1;
    }
    match selected {
        Some(found) => Ok(found),
        None => Err(EngineError::NoCompatibleDevice),
    }
}

} // verus!
