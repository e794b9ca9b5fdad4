use vstd::prelude::*;

verus! {

/// An account the host runtime has already loaded, reduced to the fields
/// the dispatcher reads: its address, whether it signed the transaction,
/// its lamport balance, and its raw data bytes.  A handle is supplied for
/// the duration of one dispatch call and never retained past return.
pub struct AccountHandle {
    /// The account's address.
    pub key: [u8; 32],
    /// Whether the host runtime saw this account's signature.
    pub is_signer: bool,
    /// The account's balance in lamports.
    pub lamports: u64,
    /// The account's raw data bytes.
    pub data: Vec<u8>,
}

} // verus!
