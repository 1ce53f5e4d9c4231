use vstd::prelude::*;

verus! {

/// What a monitored value must offer to be guarded by an [`crate::Interlock`].
///
/// Each implementer decides what "clear" means for its own domain. The spec
/// functions describe the value's behaviour; the executable methods are held to
/// them. Outside Verus the spec functions are ordinary methods too, and an
/// implementer gives them bodies that compute what they describe.
pub trait Interlockable: Sized {
    /// The payload of an update.
    type UpdateType;

    /// Whether the value is in a state that allows the interlock to be cleared.
    spec fn spec_is_clear(&self) -> bool;

    /// The value after an ordinary update with `new`.
    spec fn spec_set(&self, new: Self::UpdateType) -> Self;

    /// The value after an update that acknowledges or resets the monitored
    /// condition with `new`.
    spec fn spec_clear(&self, new: Self::UpdateType) -> Self;

    /// Returns true if the value allows clearing the interlock, false otherwise.
    fn is_clear(&self) -> (r: bool)
        ensures
            r == self.spec_is_clear(),
    ;

    /// Applies an ordinary update.
    fn set(&mut self, new: Self::UpdateType)
        ensures
            *final(self) == old(self).spec_set(new),
    ;

    /// Applies an acknowledging update.
    fn clear(&mut self, new: Self::UpdateType)
        ensures
            *final(self) == old(self).spec_clear(new),
    ;
}

} // verus!
