//! What the controller records on a resource after it has created the
//! entity on the server.

use vstd::prelude::*;

verus! {

/// The status of a user, folder or administrator resource: the name
/// under which the entity was last written to the server, and the
/// identifier that the server gave it.
pub trait SftpgoStatus {
    /// The name under which the entity was last written.
    spec fn last_name(&self) -> Seq<char>;

    /// The identifier that the server gave the entity, once it has one.
    spec fn id(&self) -> Option<i32>;

    /// The name under which the entity was last written.
    fn get_last_name(&self) -> (name: &str)
        ensures
            name@ == self.last_name(),
    ;

    /// Records the name under which the entity was written; the
    /// identifier stays.
    fn set_last_name(&mut self, name: &str)
        ensures
            final(self).last_name() == name@,
            final(self).id() == old(self).id(),
    ;

    /// The identifier that the server gave the entity.
    fn get_id(&self) -> (id: Option<i32>)
        ensures
            id == self.id(),
    ;

    /// Records the identifier; the name stays.
    fn set_id(&mut self, id: Option<i32>)
        ensures
            final(self).id() == id,
            final(self).last_name() == old(self).last_name(),
    ;
}

} // verus!
