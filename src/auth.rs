use vstd::prelude::*;

use crate::envelope::Response;

verus! {

/// An access check that a handler may run before its work. Deprecated: kept for
/// handlers that still use `interceptor`.
pub trait Auth {
    /// Whether access is granted.
    spec fn granted(&self) -> bool;

    /// The envelope that refuses access.
    spec fn refusal(&self) -> Response<Vec<i32>>;

    fn response(&self) -> (r: Response<Vec<i32>>)
        ensures
            r == self.refusal();

    fn ok(&self) -> (r: bool)
        ensures
            r == self.granted();
}

/// The refusal of `a` when it does not grant access, else nothing. Deprecated.
pub fn interceptor<A: Auth>(a: A) -> (r: Option<Response<Vec<i32>>>)
    ensures
        r is None <==> a.granted(),
        !a.granted() ==> r == Some(a.refusal()),
{
    if !a.ok() {
        return Some(a.response());
    }
    None
}

} // verus!
