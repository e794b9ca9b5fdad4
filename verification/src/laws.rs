use vstd::prelude::*;

use crate::account::AccountHandle;
use crate::dispatch::plan_abs;
use crate::dispatch::spec_dispatch;
use crate::dispatch::CallDescr;
use crate::dispatch::DelegatedCall;
use crate::engine::is_delegate_id;
use crate::engine::is_rent_oracle_id;
use crate::error::DispatchError;
use crate::rent::spec_rent_verdict;
use crate::rent::RentVerdict;

verus! {

/// A fully validated selector-0 request plans exactly one
/// mint-initialization call, addressed to the bound delegate, for the
/// bound mint and authority identities, with no freeze authority and
/// zero decimal places.
pub proof fn lemma_initialize_mint_call(accounts: Seq<AccountHandle>, data: Seq<u8>)
    ensures
        (accounts.len() >= 6 && data.len() >= 1 && data[0] == 0 && is_delegate_id(
            accounts[1].key@,
        ) && accounts[2].is_signer && is_rent_oracle_id(accounts[5].key@) && spec_rent_verdict(
            accounts[5].data@,
            accounts[2].lamports,
            accounts[2].data@.len() as usize,
        ) == RentVerdict::Exempt) ==> spec_dispatch(accounts, data) == Ok::<
            CallDescr,
            DispatchError,
        >(
            CallDescr::InitializeMint {
                delegate: accounts[1].key@,
                mint: accounts[3].key@,
                authority: accounts[0].key@,
                freeze_authority: None,
                decimals: 0,
            },
        ),
{
}

/// A bound delegate-program account whose identity is not the engine's
/// is refused with `IncorrectDelegateProgram`, and no call descriptor is
/// produced, whatever the rest of the request holds.
pub proof fn lemma_delegate_mismatch(accounts: Seq<AccountHandle>, data: Seq<u8>)
    ensures
        (accounts.len() >= 6 && !is_delegate_id(accounts[1].key@)) ==> spec_dispatch(
            accounts,
            data,
        ) == Err::<CallDescr, DispatchError>(DispatchError::IncorrectDelegateProgram),
{
}

/// When the bound delegate is the engine but the initializer's signer
/// flag is down, the dispatch fails with `MissingSignature` regardless
/// of the other accounts' validity and of the buffer.
pub proof fn lemma_missing_signature(accounts: Seq<AccountHandle>, data: Seq<u8>)
    ensures
        (accounts.len() >= 6 && is_delegate_id(accounts[1].key@)
            && !accounts[2].is_signer) ==> spec_dispatch(accounts, data) == Err::<
            CallDescr,
            DispatchError,
        >(DispatchError::MissingSignature),
{
}

/// An empty instruction buffer is refused with `InvalidInstructionData`
/// as soon as the fixed prefix is bound and validated: six accounts
/// suffice for the refusal, before any operation-specific account is
/// consumed.
pub proof fn lemma_empty_buffer(accounts: Seq<AccountHandle>, data: Seq<u8>)
    ensures
        (accounts.len() >= 6 && is_delegate_id(accounts[1].key@) && accounts[2].is_signer
            && is_rent_oracle_id(accounts[5].key@) && spec_rent_verdict(
            accounts[5].data@,
            accounts[2].lamports,
            accounts[2].data@.len() as usize,
        ) == RentVerdict::Exempt && data.len() == 0) ==> spec_dispatch(accounts, data) == Err::<
            CallDescr,
            DispatchError,
        >(DispatchError::InvalidInstructionData),
{
}

/// A transfer whose account list holds only one trailing account after
/// the fixed prefix (a source but no destination) is refused with
/// `NotEnoughAccounts`.
pub proof fn lemma_transfer_missing_destination(accounts: Seq<AccountHandle>, data: Seq<u8>)
    ensures
        (accounts.len() == 7 && is_delegate_id(accounts[1].key@) && accounts[2].is_signer
            && is_rent_oracle_id(accounts[5].key@) && spec_rent_verdict(
            accounts[5].data@,
            accounts[2].lamports,
            accounts[2].data@.len() as usize,
        ) == RentVerdict::Exempt && data.len() >= 1 && data[0] == 3) ==> spec_dispatch(
            accounts,
            data,
        ) == Err::<CallDescr, DispatchError>(DispatchError::NotEnoughAccounts),
{
}

/// Planning is a pure function of the handed accounts and bytes: two
/// plans of the identical request agree, call for call and error for
/// error, even though issuing the call may affect external ledger state
/// differently run to run.
pub proof fn lemma_replanning_agrees(
    accounts: Seq<AccountHandle>,
    data: Seq<u8>,
    r1: Result<DelegatedCall, DispatchError>,
    r2: Result<DelegatedCall, DispatchError>,
)
    requires
        plan_abs(r1) == spec_dispatch(accounts, data),
        plan_abs(r2) == spec_dispatch(accounts, data),
    ensures
        plan_abs(r1) == plan_abs(r2),
{
}

} // verus!
