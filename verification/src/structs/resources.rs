use vstd::prelude::*;

verus! {

/// Limits of a server. Signed for the database's sake; `-1` means unlimited,
/// and no other negative value is valid.
#[derive(Clone, Copy, Debug, PartialEq, Eq, Structural)]
pub struct Resources {
    /// In millicores.
    pub cpu: i64,
    /// In MiB.
    pub ram: i64,
    /// In MiB.
    pub swap: i64,
    /// In MiB.
    pub disk: i64,
}

} // verus!
