use vstd::prelude::*;

verus! {

/// What one queue family of a physical device can do.
#[derive(Debug, Clone, Copy, PartialEq, Eq, Structural)]
pub struct QueueFamilySupport {
    /// It runs graphics work.
    pub graphics: bool,
    /// It can present to the surface.
    pub present: bool,
}

/// Whether a queue family can both draw and present.
pub open spec fn usable(f: QueueFamilySupport) -> bool {
    f.graphics && f.present
}

/// Whether family `q` of device `d` is usable, `d` and `q` in range.
pub open spec fn usable_at(devices: Seq<Vec<QueueFamilySupport>>, d: int, q: int) -> bool {
    0 <= d < devices.len() && 0 <= q < devices[d]@.len() && usable(devices[d]@[q])
}

/// Whether no usable family comes before family `q` of device `d`, taking
/// devices in order and each device's families in order.
pub open spec fn none_usable_before(devices: Seq<Vec<QueueFamilySupport>>, d: int, q: int) -> bool {
    &&& forall|e: int, p: int| 0 <= e < d ==> !usable_at(devices, e, p)
    &&& forall|p: int| 0 <= p < q ==> !usable_at(devices, d, p)
}

/// Picks the device and queue family to draw and present with: the first
/// family, in device order then family order, that does both.
pub fn select_queue_family(devices: &Vec<Vec<QueueFamilySupport>>) -> (r: Option<(usize, usize)>)
    ensures
        r is None <==> forall|d: int, q: int| !usable_at(devices@, d, q),
        r is Some ==> usable_at(devices@, r->Some_0.0 as int, r->Some_0.1 as int)
            && none_usable_before(devices@, r->Some_0.0 as int, r->Some_0.1 as int),
{
    let mut d: usize = 0;
    while d < devices.len()
        invariant
            d <= devices@.len(),
            forall|e: int, p: int| 0 <= e < d ==> !usable_at(devices@, e, p),
        decreases devices@.len() - d,
    {
        let families = &devices[d];
        let mut q: usize = 0;
        while q < families.len()
            invariant
                d < devices@.len(),
                families@ == devices@[d as int]@,
                q <= families@.len(),
                forall|e: int, p: int| 0 <= e < d ==> !usable_at(devices@, e, p),
                forall|p: int| 0 <= p < q ==> !usable_at(devices@, d as int, p),
            decreases families@.len() - q,
        {
            if families[q].graphics && families[q].present {
                assert(usable_at(devices@, d as int, q as int));
                return Some((d, q));
            }
            q = q + 1;
        }
        assert forall|e: int, p: int| 0 <= e < d + 1 implies !usable_at(devices@, e, p) by {
            if e == d as int {
                if 0 <= p < families@.len() {
                    assert(!usable_at(devices@, d as int, p));
                }
            }
        }
        d = d + 1;
    }
    None
}

} // verus!
