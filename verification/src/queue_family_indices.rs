//! Queue family resolution for a (physical device, surface) pair.
//!
//! The scan walks the device's queue families in index order, records the
//! first family that supports graphics submission and the first that can
//! present to the target surface, and stops as soon as both are known.

use vstd::prelude::*;
use vstd::assert_by_contradiction;

use crate::errors::EngineError;

verus! {

/// Whether one queue family can present to the target surface.
///
/// The surface-support query is performed per family and may itself fail;
/// a failed query aborts the scan that reaches it.
#[derive(Clone, Copy, Debug, PartialEq, Eq, Structural)]
pub enum PresentSupport {
    Supported,
    Unsupported,
    QueryFailed,
}

/// What one queue family of a physical device offers, as far as the
/// resolution logic is concerned.
#[derive(Clone, Copy, Debug, PartialEq, Eq, Structural)]
pub struct QueueFamilyProperties {
    pub supports_graphics: bool,
    pub present_support: PresentSupport,
}

/// The resolved queue family indices for one (physical device, surface)
/// combination. Both roles must be present for the device to be usable;
/// when the two indices coincide the device exposes a single shared queue.
#[derive(Clone, Copy, Debug, PartialEq, Eq, Structural)]
pub struct QueueFamilyIndices {
    pub graphics_family: usize,
    pub present_family: usize,
}

/// `g` is the first family index that supports graphics submission.
pub open spec fn is_first_graphics(families: Seq<QueueFamilyProperties>, g: int) -> bool {
    &&& 0 <= g < families.len()
    &&& families[g].supports_graphics
    &&& forall|j: int| 0 <= j < g ==> !(#[trigger] families[j]).supports_graphics
}

/// `p` is the first family index that can present to the surface.
pub open spec fn is_first_present(families: Seq<QueueFamilyProperties>, p: int) -> bool {
    &&& 0 <= p < families.len()
    &&& families[p].present_support is Supported
    &&& forall|j: int| 0 <= j < p ==> !((#[trigger] families[j]).present_support is Supported)
}

/// No surface-support query fails among the families the scan visits,
/// that is families `0 ..= stop`.
pub open spec fn queries_ok_through(families: Seq<QueueFamilyProperties>, stop: int) -> bool {
    forall|j: int| 0 <= j <= stop ==> !((#[trigger] families[j]).present_support is QueryFailed)
}

/// The scan succeeds: both roles exist, and every family visited before the
/// scan stops answers its surface-support query. The scan stops at the
/// later of the two first matches.
pub open spec fn scan_succeeds(families: Seq<QueueFamilyProperties>) -> bool {
    exists|g: int, p: int|
        {
            &&& #[trigger] is_first_graphics(families, g)
            &&& #[trigger] is_first_present(families, p)
            &&& queries_ok_through(families, if g >= p { g } else { p })
        }
}

impl QueueFamilyIndices {
    /// Find the queue family indices for the given device.
    ///
    /// Scans the families in index order, records the first index for each
    /// role, and stops once both are found. Fails with
    /// `IncompleteQueueFamilies` when a surface-support query fails during
    /// the scan or when either role is missing after every family was
    /// considered.
    pub fn find(families: &Vec<QueueFamilyProperties>) -> (r: Result<Self, EngineError>)
        ensures
            r is Ok <==> scan_succeeds(families@),
            r matches Ok(ind) ==> {
                &&& is_first_graphics(families@, ind.graphics_family as int)
                &&& is_first_present(families@, ind.present_family as int)
                &&& queries_ok_through(
                    families@,
                    if ind.graphics_family >= ind.present_family {
                        ind.graphics_family as int
                    } else {
                        ind.present_family as int
                    },
                )
            },
            r matches Err(e) ==> e == EngineError::IncompleteQueueFamilies,
    {
        let mut graphics: Option<usize> = None;
        let mut present: Option<usize> = None;

        let n = families.len();
        let mut i: usize = 0;
        while i < n
            invariant
                n == families@.len(),
                0 <= i <= n,
                graphics matches Some(g) ==> is_first_graphics(families@, g as int) && g < i,
                graphics is None ==> forall|j: int|
                    0 <= j < i ==> !(#[trigger] families@[j]).supports_graphics,
                present matches Some(p) ==> is_first_present(families@, p as int) && p < i,
                present is None ==> forall|j: int|
                    0 <= j < i ==> !((#[trigger] families@[j]).present_support is Supported),
                queries_ok_through(families@, i - 1),
                !(graphics is Some && present is Some),
            decreases n - i,
        {
            let family = families[i];

            if matches!(family.present_support, PresentSupport::QueryFailed) {
                proof {
                    assert_by_contradiction!(!scan_succeeds(families@), {
                        let (g, p) = choose|g: int, p: int|
                            {
                                &&& #[trigger] is_first_graphics(families@, g)
                                &&& #[trigger] is_first_present(families@, p)
                                &&& queries_ok_through(families@, if g >= p { g } else { p })
                            };
                        if g < i && p < i {
                            assert(families@[g].supports_graphics);
                            assert(families@[p].present_support is Supported);
                            assert(graphics is Some);
                            assert(present is Some);
                        } else {
                            assert(!((families@[i as int]).present_support is QueryFailed));
                        }
                    });
                }
                return Err(EngineError::IncompleteQueueFamilies);
            }

            if family.supports_graphics && graphics.is_none() {
                graphics = Some(i);
            }

            if matches!(family.present_support, PresentSupport::Supported) && present.is_none() {
                present = Some(i);
            }

            if graphics.is_some() && present.is_some() {
                let g = graphics.unwrap();
                let p = present.unwrap();
                proof {
                    assert(is_first_graphics(families@, g as int));
                    assert(is_first_present(families@, p as int));
                    assert(!(families@[i as int].present_support is QueryFailed));
                    assert(queries_ok_through(families@, i as int));
                    assert(g <= i && p <= i);
                    assert(queries_ok_through(families@, if g >= p { g as int } else { p as int }));
                    assert(scan_succeeds(families@));
                }
                return Ok(QueueFamilyIndices { graphics_family: g, present_family: p });
            }

            i = i + 1;
        }

        proof {
            assert_by_contradiction!(!scan_succeeds(families@), {
                let (g, p) = choose|g: int, p: int|
                    {
                        &&& #[trigger] is_first_graphics(families@, g)
                        &&& #[trigger] is_first_present(families@, p)
                        &&& queries_ok_through(families@, if g >= p { g } else { p })
                    };
                assert(families@[g].supports_graphics);
                assert(families@[p].present_support is Supported);
                assert(graphics is Some);
                assert(present is Some);
            });
        }
        Err(EngineError::IncompleteQueueFamilies)
    }

    /// The set of unique queue family indices, graphics first: one entry
    /// when both roles share a family, two distinct entries otherwise.
    pub open spec fn unique_indices_spec(&self) -> Seq<usize> {
        if self.graphics_family == self.present_family {
            seq![self.graphics_family]
        } else {
            seq![self.graphics_family, self.present_family]
        }
    }

    /// The set of unique queue family indices `unique_indices_spec`
    /// describes, as a vector.
    pub fn unique_indices(&self) -> (r: Vec<usize>)
        ensures
            self.graphics_family == self.present_family ==> r@ == seq![self.graphics_family],
            self.graphics_family != self.present_family ==> r@ == seq![
                self.graphics_family,
                self.present_family,
            ],
    {
        let mut indices: Vec<usize> = Vec::new();
        indices.push(self.graphics_family);
        if !self.is_same_queue() {
            indices.push(self.present_family);
        }
        proof {
            if self.graphics_family == self.present_family {
                assert(indices@ =~= seq![self.graphics_family]);
            } else {
                assert(indices@ =~= seq![self.graphics_family, self.present_family]);
            }
        }
        indices
    }

    /// Pick the graphics and the present queue out of the queues the
    /// logical device handed back, in the order `unique_indices` asked for
    /// them. When both roles share a family the single queue serves both.
    pub fn take_queues(&self, queues: &Vec<u64>) -> (r: Result<(u64, u64), EngineError>)
        ensures
            r is Ok <==> queues@.len() >= self.queues_needed(),
            r matches Ok(q) ==> {
                &&& q.0 == queues@[0]
                &&& q.1 == (if self.graphics_family == self.present_family {
                    queues@[0]
                } else {
                    queues@[1]
                })
            },
            r matches Err(e) ==> e == EngineError::DeviceCreationFailed,
    {
        if queues.len() == 0 {
            return Err(EngineError::DeviceCreationFailed);
        }
        let graphics_queue = queues[0];

        if self.is_same_queue() {
            Ok((graphics_queue, graphics_queue))
        } else {
            if queues.len() < 2 {
                return Err(EngineError::DeviceCreationFailed);
            }
            Ok((graphics_queue, queues[1]))
        }
    }

    /// How many queues the logical device must yield for this resolution.
    pub open spec fn queues_needed(&self) -> int {
        if self.graphics_family == self.present_family {
            1
        } else {
            2
        }
    }

    /// Whether graphics and presentation share one queue family.
    pub fn is_same_queue(&self) -> (r: bool)
        ensures
            r == (self.graphics_family == self.present_family),
    {
        self.graphics_family == self.present_family
    }
}

/// Queue family resolution yields either a single shared index or two
/// distinct indices, never any other shape.
pub proof fn lemma_unique_indices_shape(ind: QueueFamilyIndices)
    ensures
        ind.graphics_family == ind.present_family ==> ind.unique_indices_spec().len() == 1,
        ind.graphics_family != ind.present_family ==> {
            &&& ind.unique_indices_spec().len() == 2
            &&& ind.unique_indices_spec()[0] != ind.unique_indices_spec()[1]
        },
{
}

} // verus!
