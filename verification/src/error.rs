use vstd::prelude::*;

verus! {

/// The failure modes of the pool engine.
///
/// Every failure rejects the whole operation: no operation that returns an
/// error changes the pool record, so the reserves and the share ledger stay
/// consistent with each other on every exit path.
#[derive(Clone, Copy, Debug, PartialEq, Eq, Structural)]
pub enum AmmError {
    /// A zero or otherwise degenerate quantity was supplied or computed.
    InvalidAmount,
    /// A required non-zero floor was zero.
    InvalidMinAmount,
    /// A computed amount violates a caller-supplied bound.
    SlippageExceeded,
    /// The operation was attempted while the administrative lock is set.
    PoolLocked,
    /// A configuration change was attempted by a caller other than the
    /// current authority.
    InvalidConfigAuthority,
    /// Pool creation was attempted for an identity that already has a pool.
    AlreadyInitialized,
}

} // verus!
