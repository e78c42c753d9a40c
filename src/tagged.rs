use vstd::prelude::*;

verus! {

/// A native value together with the type tag of its class.
///
/// The payload is optional so that it can be taken out exactly once; the tag
/// never changes.
pub struct TaggedObject<T> {
    pub type_id: u64,
    pub object: Option<T>,
}

impl<T> TaggedObject<T> {
    /// Packages `object` with the tag `type_id`.
    pub fn new(type_id: u64, object: T) -> (r: Self)
        ensures
            r.type_id == type_id,
            r.object == Some(object),
    {
        TaggedObject { type_id, object: Some(object) }
    }

    /// Removes and returns the payload, leaving the box empty.
    pub fn take(&mut self) -> (r: Option<T>)
        ensures
            r == old(self).object,
            final(self).object.is_none(),
            final(self).type_id == old(self).type_id,
    {
        self.object.take()
    }

    /// Whether the payload is still present.
    pub fn is_attached(&self) -> (r: bool)
        ensures
            r == self.object.is_some(),
    {
        self.object.is_some()
    }
}

} // verus!
