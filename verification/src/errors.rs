use vstd::prelude::*;

verus! {

/// The fatal conditions a run can hit. The caller is expected to stop on any
/// of them: nothing is persisted or broadcast before the chain is complete.
#[derive(Clone, Copy, Debug, PartialEq, Eq, Structural)]
pub enum CovenantError {
    /// The configured network is neither "signet" nor "testnet".
    UnsupportedNetwork,
    /// The wallet library rejected the freshly generated covenant descriptor
    /// or could not derive its address and satisfaction weight.
    DescriptorRejected,
    /// A transaction did not carry exactly one output paying the covenant
    /// scriptPubKey: the chain invariant is broken.
    CovenantOutputMissing,
    /// The wallet failed to assemble or sign a child transaction for a reason
    /// other than the dust floor.
    BuildFailed,
}

impl CovenantError {
    /// A human-readable description, for the driver's fatal reports.
    pub fn describe(&self) -> (r: &'static str)
        ensures
            self is UnsupportedNetwork ==> r@ == "Only signet supported for now"@,
            self is DescriptorRejected ==> r@ == "the covenant descriptor was rejected"@,
            self is CovenantOutputMissing ==> r@ == "no unique covenant output was found"@,
            self is BuildFailed ==> r@ == "a child transaction could not be built or signed"@,
    {
        match self {
            CovenantError::UnsupportedNetwork => "Only signet supported for now",
            CovenantError::DescriptorRejected => "the covenant descriptor was rejected",
            CovenantError::CovenantOutputMissing => "no unique covenant output was found",
            CovenantError::BuildFailed => "a child transaction could not be built or signed",
        }
    }
}

} // verus!
