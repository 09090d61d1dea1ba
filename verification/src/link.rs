//! Handles that lead back to a connection without keeping it open.

use crate::connection::Connection;
use std::sync::{Arc, Weak};
use vstd::prelude::*;

verus! {

/// Holds a [`std::sync::Weak`]. Nothing is claimed of it here.
#[verifier::external_body]
#[verifier::reject_recursive_types(N)]
struct WeakConnection<N> {
    weak: Weak<Connection<N>>,
}

/// A handle that leads back to one connection while that is open. Only
/// [`Link::downgrade`] makes one, and [`Link::clone`] a further one of the same
/// connection.
#[verifier::reject_recursive_types(N)]
pub struct Link<N> {
    weak: WeakConnection<N>,
    target: Ghost<Connection<N>>,
}

impl<N> Link<N> {
    /// The connection that this handle leads back to.
    pub closed spec fn target(&self) -> Connection<N> {
        self.target@
    }

    /// Whether a lookup of this handle's connection has given this answer. Only
    /// [`Link::upgrade`] gives one.
    pub closed spec fn answered(&self, found: Option<Arc<Connection<N>>>) -> bool {
        call_ensures(Link::<N>::upgrade, (self,), found)
    }

    /// [`Arc::downgrade`]: the handle leads back to this connection.
    #[verifier::external_body]
    pub(crate) fn downgrade(connection: &Arc<Connection<N>>) -> (link: Link<N>)
        ensures
            link.target() == **connection,
    {
        let weak = WeakConnection { weak: Arc::downgrade(connection) };
        Link { weak, target: Ghost(**connection) }
    }

    /// [`Weak::upgrade`]: what is found is the connection that this handle leads back
    /// to. Whether it is found rests on who else holds it, and is not stated.
    #[verifier::external_body]
    pub(crate) fn upgrade(&self) -> (found: Option<Arc<Connection<N>>>)
        ensures
            found matches Some(connection) ==> *connection == self.target(),
    {
        self.weak.weak.upgrade()
    }

    /// [`Weak::clone`]: the clone leads back to the same connection.
    #[verifier::external_body]
    fn duplicate(&self) -> (copy: Link<N>)
        ensures
            copy.target() == self.target(),
    {
        let weak = WeakConnection { weak: self.weak.weak.clone() };
        Link { weak, target: Ghost(self.target()) }
    }
}

/// An answer is one that the lookup itself gave.
pub(crate) proof fn law_answer_is_that_of_the_lookup<N>(
    link: &Link<N>,
    found: Option<Arc<Connection<N>>>,
)
    ensures
        link.answered(found) <==> call_ensures(Link::<N>::upgrade, (link,), found),
{
}

/// An answer names the connection that the handle leads back to, or none.
pub proof fn law_answer_names_the_target<N>(link: &Link<N>, found: Option<Arc<Connection<N>>>)
    requires
        link.answered(found),
    ensures
        found matches Some(connection) ==> *connection == link.target(),
{
}

impl<N> Clone for Link<N> {
    fn clone(&self) -> (copy: Link<N>)
        ensures
            copy.target() == self.target(),
    {
        self.duplicate()
    }
}

} // verus!
