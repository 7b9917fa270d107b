use vstd::prelude::*;

verus! {

/// The database engines that a connection can talk to.
#[derive(Clone, Copy, Debug, PartialEq, Eq, Structural)]
pub enum DbBackend {
    Postgres,
    Sqlite,
}

} // verus!
