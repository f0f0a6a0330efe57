//! Queue-family selection: which of the device's queue families serve
//! presentation and graphics work.
//!
//! The host program queries the driver for per-family capabilities and
//! hands them over as plain booleans; the choice of families is made and
//! verified here.

use vstd::prelude::*;

verus! {

/// The queue families chosen for presentation and for graphics, if any
/// family supports each role.
#[derive(Debug, Clone, Copy, PartialEq, Eq, Structural)]
pub struct QueueFamilies {
    pub present: Option<usize>,
    pub graphics: Option<usize>,
}

impl QueueFamilies {
    /// Picks the first family that can present and the first that can run
    /// graphics, scanning families in index order.
    ///
    /// `present_support[i]` and `graphics_support[i]` report what the
    /// driver said of family `i`.
    pub fn new(present_support: &Vec<bool>, graphics_support: &Vec<bool>) -> (r: QueueFamilies)
        requires
            present_support@.len() == graphics_support@.len(),
        ensures
            r.present matches Some(i) ==> i < present_support@.len()
                && present_support@[i as int]
                && (forall|j: int| 0 <= j < i ==> !present_support@[j]),
            r.present is None ==> forall|j: int|
                0 <= j < present_support@.len() ==> !present_support@[j],
            r.graphics matches Some(i) ==> i < graphics_support@.len()
                && graphics_support@[i as int]
                && (forall|j: int| 0 <= j < i ==> !graphics_support@[j]),
            r.graphics is None ==> forall|j: int|
                0 <= j < graphics_support@.len() ==> !graphics_support@[j],
    {
        let mut queue_families = QueueFamilies { present: None, graphics: None };
        let n = present_support.len();
        let mut index: usize = 0;
        while index < n
            invariant
                n == present_support@.len(),
                n == graphics_support@.len(),
                index <= n,
                queue_families.present matches Some(i) ==> i < index
                    && present_support@[i as int]
                    && (forall|j: int| 0 <= j < i ==> !present_support@[j]),
                queue_families.present is None ==> forall|j: int|
                    0 <= j < index ==> !present_support@[j],
                queue_families.graphics matches Some(i) ==> i < index
                    && graphics_support@[i as int]
                    && (forall|j: int| 0 <= j < i ==> !graphics_support@[j]),
                queue_families.graphics is None ==> forall|j: int|
                    0 <= j < index ==> !graphics_support@[j],
            ensures
                index == n || (queue_families.present is Some && queue_families.graphics
                    is Some),
            decreases n - index,
        {
            if present_support[index] && queue_families.present.is_none() {
                queue_families.present = Some(index);
            }
            if graphics_support[index] && queue_families.graphics.is_none() {
                queue_families.graphics = Some(index);
            }
            index = index + 1;
            if queue_families.finished() {
                break;
            }
        }
        queue_families
    }

    /// Both roles have been assigned a family.
    pub fn finished(&self) -> (r: bool)
        ensures
            r <==> (self.graphics is Some && self.present is Some),
    {
        self.graphics.is_some() && self.present.is_some()
    }

    /// Whether the two roles share one family; unknown until both are
    /// assigned.
    pub fn same(&self) -> (r: Option<bool>)
        ensures
            r is Some <==> (self.present is Some && self.graphics is Some),
            self.present matches Some(p) ==> (self.graphics matches Some(g) ==> r == Some(p
                == g)),
    {
        match (self.present, self.graphics) {
            (Some(p), Some(g)) => Some(p == g),
            _ => None,
        }
    }
}

} // verus!
