use vstd::prelude::*;

verus! {

/// What one queue family of a physical device offers to the renderer.
#[derive(Clone, Copy, Debug, PartialEq, Eq, Structural)]
pub struct QueueFamilySupport {
    /// The family's identifier, which is also its position among the device's families.
    pub id: u32,
    /// The family accepts graphics work.
    pub graphics: bool,
    /// The family can present to the window surface.
    pub presentation: bool,
}

/// The queue families chosen for graphics work and for presentation.
#[derive(Clone, Copy, Debug, PartialEq, Eq, Structural)]
pub struct QueueCollection {
    pub graphics_queue_id: Option<u32>,
    pub presentation_queue_id: Option<u32>,
}

/// The id of the last family in `families` that accepts graphics work.
pub open spec fn last_graphics_family(families: Seq<QueueFamilySupport>) -> Option<u32>
    decreases families.len(),
{
    if families.len() == 0 {
        None
    } else if families.last().graphics {
        Some(families.last().id)
    } else {
        last_graphics_family(families.drop_last())
    }
}

/// The id of the last family in `families` that can present to the surface.
pub open spec fn last_presentation_family(families: Seq<QueueFamilySupport>) -> Option<u32>
    decreases families.len(),
{
    if families.len() == 0 {
        None
    } else if families.last().presentation {
        Some(families.last().id)
    } else {
        last_presentation_family(families.drop_last())
    }
}

impl QueueCollection {
    pub open spec fn all_present_spec(self) -> bool {
        self.graphics_queue_id.is_some() && self.presentation_queue_id.is_some()
    }

    /// Whether family `index` is one of the chosen families.
    pub open spec fn requests(self, index: int) -> bool {
        self.graphics_queue_id == Some(index as u32) && 0 <= index <= u32::MAX
            || self.presentation_queue_id == Some(index as u32) && 0 <= index <= u32::MAX
    }

    /// Both a graphics family and a presentation family were found.
    pub fn all_present(&self) -> (r: bool)
        ensures
            r == self.all_present_spec(),
    {
        self.graphics_queue_id.is_some() && self.presentation_queue_id.is_some()
    }

    /// Graphics work and presentation go to one and the same family.
    pub fn is_shared(&self) -> (r: bool)
        ensures
            r == (self.all_present_spec() && self.graphics_queue_id == self.presentation_queue_id),
    {
        if self.all_present() {
            self.graphics_queue_id.unwrap() == self.presentation_queue_id.unwrap()
        } else {
            false
        }
    }

    /// The positions among `family_count` queue families for which a queue is created:
    /// in increasing order, those that are the graphics or the presentation family.
    pub fn requested_families(&self, family_count: usize) -> (r: Vec<usize>)
        ensures
            forall|k: int| 0 <= k < r@.len() ==> #[trigger] r@[k] < family_count && self.requests(r@[k] as int),
            forall|k: int, l: int| 0 <= k < l < r@.len() ==> r@[k] < r@[l],
            forall|i: int| 0 <= i < family_count && #[trigger] self.requests(i) ==> r@.contains(i as usize),
    {
        let mut r: Vec<usize> = Vec::new();
        let mut i: usize = 0;
        while i < family_count
            invariant
                i <= family_count,
                forall|k: int| 0 <= k < r@.len() ==> #[trigger] r@[k] < i && self.requests(r@[k] as int),
                forall|k: int, l: int| 0 <= k < l < r@.len() ==> r@[k] < r@[l],
                forall|j: int| 0 <= j < i && #[trigger] self.requests(j) ==> r@.contains(j as usize),
            decreases family_count - i,
        {
            let wanted = match (self.graphics_queue_id, self.presentation_queue_id) {
                (Some(g), _) if g as usize == i => true,
                (_, Some(p)) if p as usize == i => true,
                _ => false,
            };
            let ghost before = r@;
            if wanted {
                r.push(i);
            }
            proof {
                assert forall|j: int| 0 <= j <= i && #[trigger] self.requests(j) implies r@.contains(
                    j as usize,
                ) by {
                    if j < i {
                        let k = choose|k: int| 0 <= k < before.len() && before[k] == j as usize;
                        assert(r@[k] == j as usize);
                    } else {
                        assert(r@[r@.len() - 1] == i);
                    }
                }
            }
            i += 1;
        }
        r
    }
}

/// Scans the families of a device in order; the last family that accepts graphics work
/// becomes the graphics family, the last one that can present becomes the presentation family.
pub fn find_queue_families(families: &Vec<QueueFamilySupport>) -> (r: QueueCollection)
    ensures
        r.graphics_queue_id == last_graphics_family(families@),
        r.presentation_queue_id == last_presentation_family(families@),
{
    let mut collection = QueueCollection { graphics_queue_id: None, presentation_queue_id: None };
    let mut i: usize = 0;
    while i < families.len()
        invariant
            i <= families@.len(),
            collection.graphics_queue_id == last_graphics_family(families@.take(i as int)),
            collection.presentation_queue_id == last_presentation_family(families@.take(i as int)),
        decreases families@.len() - i,
    {
        let family = families[i];
        proof {
            assert(families@.take(i as int + 1).drop_last() =~= families@.take(i as int));
        }
        if family.graphics {
            collection.graphics_queue_id = Some(family.id);
        }
        if family.presentation {
            collection.presentation_queue_id = Some(family.id);
        }
        i += 1;
    }
    proof {
        assert(families@.take(i as int) =~= families@);
    }
    collection
}

/// The position of the first device whose queue families cover both graphics and
/// presentation, or `None` when no device does.
pub fn pick_physical_device(candidates: &Vec<QueueCollection>) -> (r: Option<usize>)
    ensures
        r matches Some(i) ==> i < candidates@.len() && candidates@[i as int].all_present_spec()
            && forall|j: int| 0 <= j < i ==> !(#[trigger] candidates@[j]).all_present_spec(),
        r is None ==> forall|j: int| 0 <= j < candidates@.len() ==> !(#[trigger] candidates@[j]).all_present_spec(),
{
    let mut i: usize = 0;
    while i < candidates.len()
        invariant
            i <= candidates@.len(),
            forall|j: int| 0 <= j < i ==> !(#[trigger] candidates@[j]).all_present_spec(),
        decreases candidates@.len() - i,
    {
        if candidates[i].all_present() {
            return Some(i);
        }
        i += 1;
    }
    None
}

} // verus!
