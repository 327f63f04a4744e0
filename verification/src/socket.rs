//! The socket on which the server listens, as the path that names it.

use vstd::prelude::*;

verus! {

/// A filesystem path used as a listening address.
pub struct Socket {
    path: String,
}

impl View for Socket {
    type V = Seq<char>;

    closed spec fn view(&self) -> Seq<char> {
        self.path@
    }
}

impl Socket {
    /// The socket at this path.
    pub fn new(path: String) -> (socket: Socket)
        ensures
            socket@ == path@,
    {
        Socket { path }
    }

    /// The path, as an owned string.
    pub fn value(&self) -> (path: String)
        ensures
            path@ == self@,
    {
        self.path.clone()
    }

    /// The path.
    pub fn as_str(&self) -> (path: &str)
        ensures
            path@ == self@,
    {
        self.path.as_str()
    }
}

} // verus!
