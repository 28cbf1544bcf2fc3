//! Corner radii of a badge's rounded rectangle.
use vstd::prelude::*;

verus! {

/// The radius of each of the four corners of a rectangle, in the unit of
/// the rectangle's own measurements.
#[derive(Clone, Copy, Debug, PartialEq)]
pub struct CornerRadius<T> {
    pub top_left: T,
    pub top_right: T,
    pub bottom_left: T,
    pub bottom_right: T,
}

impl<T> CornerRadius<T> {
    /// The record whose four corners all have radius `radius`.
    pub open spec fn uniform(radius: T) -> Self {
        CornerRadius { top_left: radius, top_right: radius, bottom_left: radius, bottom_right: radius }
    }

    /// A fully rounded rectangle (a pill) has one radius on every corner.
    pub open spec fn is_fully_rounded(self) -> bool {
        &&& self.top_right == self.top_left
        &&& self.bottom_left == self.top_left
        &&& self.bottom_right == self.top_left
    }
}

impl<T: Copy> CornerRadius<T> {
    /// Builds the corners of a fully rounded rectangle from its one radius,
    /// so that the four corners can never disagree.
    pub fn fully_rounded(radius: T) -> (r: Self)
        ensures
            r == Self::uniform(radius),
            r.top_left == radius,
            r.is_fully_rounded(),
    {
        CornerRadius { top_left: radius, top_right: radius, bottom_left: radius, bottom_right: radius }
    }
}

/// Building the corners is a pure function of the radius: two records built
/// from the same radius are identical, field for field.
pub proof fn lemma_fully_rounded_deterministic<T>(radius: T, a: CornerRadius<T>, b: CornerRadius<T>)
    requires
        a == CornerRadius::<T>::uniform(radius),
        b == CornerRadius::<T>::uniform(radius),
    ensures
        a == b,
        a.is_fully_rounded(),
{
}

} // verus!
