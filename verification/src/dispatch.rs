use vstd::prelude::*;

use crate::account::AccountHandle;
use crate::engine::build_initialize_account;
use crate::engine::build_initialize_mint;
use crate::engine::build_mint_to;
use crate::engine::build_transfer;
use crate::engine::initialize_account_instr;
use crate::engine::initialize_mint_instr;
use crate::engine::is_delegate_id;
use crate::engine::is_rent_oracle_id;
use crate::engine::is_rent_sysvar_id;
use crate::engine::is_spl_token_id;
use crate::engine::key_option_view;
use crate::engine::mint_to_instr;
use crate::engine::transfer_instr;
use crate::error::DispatchError;
use crate::operation::decode_operation;
use crate::operation::spec_operation;
use crate::operation::Operation;
use crate::rent::rent_verdict;
use crate::rent::spec_rent_verdict;
use crate::rent::RentVerdict;

verus! {

/// The mathematical description of one delegated call: which engine entry
/// point is invoked and with which account identities and arguments.
pub enum CallDescr {
    InitializeMint {
        delegate: Seq<u8>,
        mint: Seq<u8>,
        authority: Seq<u8>,
        freeze_authority: Option<Seq<u8>>,
        decimals: u8,
    },
    InitializeAccount { delegate: Seq<u8>, account: Seq<u8>, mint: Seq<u8>, owner: Seq<u8> },
    MintTo { delegate: Seq<u8>, mint: Seq<u8>, destination: Seq<u8>, authority: Seq<u8>, amount: u64 },
    Transfer {
        delegate: Seq<u8>,
        source: Seq<u8>,
        destination: Seq<u8>,
        authority: Seq<u8>,
        amount: u64,
    },
}

/// One fully validated call to the token engine, ready to be issued.
/// Constructing a value of this type is the dispatcher's whole effect;
/// issuing it never mutates anything here.
#[derive(Clone, Debug, PartialEq, Eq)]
pub enum DelegatedCall {
    InitializeMint {
        delegate: [u8; 32],
        mint: [u8; 32],
        authority: [u8; 32],
        freeze_authority: Option<[u8; 32]>,
        decimals: u8,
    },
    InitializeAccount { delegate: [u8; 32], account: [u8; 32], mint: [u8; 32], owner: [u8; 32] },
    MintTo {
        delegate: [u8; 32],
        mint: [u8; 32],
        destination: [u8; 32],
        authority: [u8; 32],
        amount: u64,
    },
    Transfer {
        delegate: [u8; 32],
        source: [u8; 32],
        destination: [u8; 32],
        authority: [u8; 32],
        amount: u64,
    },
}

impl View for DelegatedCall {
    type V = CallDescr;

    open spec fn view(&self) -> CallDescr {
        match self {
            DelegatedCall::InitializeMint { delegate, mint, authority, freeze_authority, decimals } => CallDescr::InitializeMint {
                delegate: delegate@,
                mint: mint@,
                authority: authority@,
                freeze_authority: key_option_view(*freeze_authority),
                decimals: *decimals,
            },
            DelegatedCall::InitializeAccount { delegate, account, mint, owner } => CallDescr::InitializeAccount {
                delegate: delegate@,
                account: account@,
                mint: mint@,
                owner: owner@,
            },
            DelegatedCall::MintTo { delegate, mint, destination, authority, amount } => CallDescr::MintTo {
                delegate: delegate@,
                mint: mint@,
                destination: destination@,
                authority: authority@,
                amount: *amount,
            },
            DelegatedCall::Transfer { delegate, source, destination, authority, amount } => CallDescr::Transfer {
                delegate: delegate@,
                source: source@,
                destination: destination@,
                authority: authority@,
                amount: *amount,
            },
        }
    }
}

/// The delegate-program identity a call descriptor is addressed to.
pub open spec fn descr_delegate(c: CallDescr) -> Seq<u8> {
    match c {
        CallDescr::InitializeMint { delegate, .. } => delegate,
        CallDescr::InitializeAccount { delegate, .. } => delegate,
        CallDescr::MintTo { delegate, .. } => delegate,
        CallDescr::Transfer { delegate, .. } => delegate,
    }
}

/// Routes a decoded operation to its call descriptor, consuming the
/// operation-specific trailing accounts after the six-account fixed
/// prefix {authority, delegate-program, initializer, mint, owner,
/// rent-oracle}.
pub open spec fn spec_route(accounts: Seq<AccountHandle>, op: Operation) -> Result<
    CallDescr,
    DispatchError,
> {
    match op {
        Operation::InitializeMint => Ok(
            CallDescr::InitializeMint {
                delegate: accounts[1].key@,
                mint: accounts[3].key@,
                authority: accounts[0].key@,
                freeze_authority: None,
                decimals: 0,
            },
        ),
        Operation::InitializeAccount => if accounts.len() < 7 {
            Err(DispatchError::NotEnoughAccounts)
        } else {
            Ok(
                CallDescr::InitializeAccount {
                    delegate: accounts[1].key@,
                    account: accounts[6].key@,
                    mint: accounts[3].key@,
                    owner: accounts[4].key@,
                },
            )
        },
        Operation::MintTo { amount } => if accounts.len() < 7 {
            Err(DispatchError::NotEnoughAccounts)
        } else {
            Ok(
                CallDescr::MintTo {
                    delegate: accounts[1].key@,
                    mint: accounts[3].key@,
                    destination: accounts[6].key@,
                    authority: accounts[2].key@,
                    amount,
                },
            )
        },
        Operation::Transfer { amount } => if accounts.len() < 8 {
            Err(DispatchError::NotEnoughAccounts)
        } else {
            Ok(
                CallDescr::Transfer {
                    delegate: accounts[1].key@,
                    source: accounts[6].key@,
                    destination: accounts[7].key@,
                    authority: accounts[2].key@,
                    amount,
                },
            )
        },
        Operation::Unknown { .. } => Err(DispatchError::InvalidInstructionData),
    }
}

/// The dispatcher's whole decision, as a function of its inputs: either
/// the one call descriptor to forward or the first failing check.  The
/// checks run in the fixed order {account binding, delegate identity,
/// signer, rent-oracle identity, rent exemption, buffer decoding,
/// routing}.
pub open spec fn spec_dispatch(accounts: Seq<AccountHandle>, data: Seq<u8>) -> Result<
    CallDescr,
    DispatchError,
> {
    if accounts.len() < 6 {
        Err(DispatchError::NotEnoughAccounts)
    } else if !is_delegate_id(accounts[1].key@) {
        Err(DispatchError::IncorrectDelegateProgram)
    } else if !accounts[2].is_signer {
        Err(DispatchError::MissingSignature)
    } else if !is_rent_oracle_id(accounts[5].key@) {
        Err(DispatchError::InvalidRentOracle)
    } else {
        match spec_rent_verdict(
            accounts[5].data@,
            accounts[2].lamports,
            accounts[2].data@.len() as usize,
        ) {
            RentVerdict::Unusable => Err(DispatchError::InvalidRentOracle),
            RentVerdict::NotExempt => Err(DispatchError::NotRentExempt),
            RentVerdict::Exempt => match spec_operation(data) {
                Err(e) => Err(e),
                Ok(op) => spec_route(accounts, op),
            },
        }
    }
}

/// A planned dispatch abstracted to its mathematical description.
pub open spec fn plan_abs(r: Result<DelegatedCall, DispatchError>) -> Result<
    CallDescr,
    DispatchError,
> {
    match r {
        Ok(c) => Ok(c@),
        Err(e) => Err(e),
    }
}

/// Binds the account roles, validates the operation-independent
/// preconditions, decodes the buffer, and returns the one call to
/// forward, without issuing it.  The result is exactly `spec_dispatch`
/// of the inputs.
pub fn plan_dispatch(accounts: &Vec<AccountHandle>, data: &Vec<u8>) -> (r: Result<
    DelegatedCall,
    DispatchError,
>)
    ensures
        plan_abs(r) == spec_dispatch(accounts@, data@),
{
    if accounts.len() < 6 {
        return Err(DispatchError::NotEnoughAccounts);
    }
    if !is_spl_token_id(&accounts[1].key) {
        return Err(DispatchError::IncorrectDelegateProgram);
    }
    if !accounts[2].is_signer {
        return Err(DispatchError::MissingSignature);
    }
    if !is_rent_sysvar_id(&accounts[5].key) {
        return Err(DispatchError::InvalidRentOracle);
    }
    match rent_verdict(&accounts[5].data, accounts[2].lamports, accounts[2].data.len()) {
        RentVerdict::Unusable => {
            return Err(DispatchError::InvalidRentOracle);
        },
        RentVerdict::NotExempt => {
            return Err(DispatchError::NotRentExempt);
        },
        RentVerdict::Exempt => {},
    }
    let op = match decode_operation(data) {
        Ok(op) => op,
        Err(e) => {
            return Err(e);
        },
    };
    match op {
        Operation::InitializeMint => Ok(
            DelegatedCall::InitializeMint {
                delegate: accounts[1].key,
                mint: accounts[3].key,
                authority: accounts[0].key,
                freeze_authority: None,
                decimals: 0,
            },
        ),
        Operation::InitializeAccount => {
            if accounts.len() < 7 {
                return Err(DispatchError::NotEnoughAccounts);
            }
            Ok(
                DelegatedCall::InitializeAccount {
                    delegate: accounts[1].key,
                    account: accounts[6].key,
                    mint: accounts[3].key,
                    owner: accounts[4].key,
                },
            )
        },
        Operation::MintTo { amount } => {
            if accounts.len() < 7 {
                return Err(DispatchError::NotEnoughAccounts);
            }
            Ok(
                DelegatedCall::MintTo {
                    delegate: accounts[1].key,
                    mint: accounts[3].key,
                    destination: accounts[6].key,
                    authority: accounts[2].key,
                    amount,
                },
            )
        },
        Operation::Transfer { amount } => {
            if accounts.len() < 8 {
                return Err(DispatchError::NotEnoughAccounts);
            }
            Ok(
                DelegatedCall::Transfer {
                    delegate: accounts[1].key,
                    source: accounts[6].key,
                    destination: accounts[7].key,
                    authority: accounts[2].key,
                    amount,
                },
            )
        },
        Operation::Unknown { .. } => Err(DispatchError::InvalidInstructionData),
    }
}

/// Hands a validated call to the engine's corresponding instruction
/// builder and returns the instruction the host is to issue: for each
/// variant, exactly the instruction the engine builds from that
/// variant's own identities and arguments.
pub fn build_engine_call(call: &DelegatedCall) -> (r: Result<
    solana_program::instruction::Instruction,
    solana_program::program_error::ProgramError,
>)
    ensures
        r is Ok <==> is_delegate_id(descr_delegate(call@)),
        call@ matches CallDescr::InitializeMint {
            delegate,
            mint,
            authority,
            freeze_authority,
            decimals,
        } ==> (r matches Ok(i) ==> i == initialize_mint_instr(
            delegate,
            mint,
            authority,
            freeze_authority,
            decimals,
        )),
        call@ matches CallDescr::InitializeAccount { delegate, account, mint, owner } ==> (
        r matches Ok(i) ==> i == initialize_account_instr(delegate, account, mint, owner)),
        call@ matches CallDescr::MintTo { delegate, mint, destination, authority, amount } ==> (
        r matches Ok(i) ==> i == mint_to_instr(delegate, mint, destination, authority, amount)),
        call@ matches CallDescr::Transfer { delegate, source, destination, authority, amount }
            ==> (r matches Ok(i) ==> i == transfer_instr(
            delegate,
            source,
            destination,
            authority,
            amount,
        )),
{
    match call {
        DelegatedCall::InitializeMint {
            delegate,
            mint,
            authority,
            freeze_authority,
            decimals,
        } => build_initialize_mint(delegate, mint, authority, freeze_authority, *decimals),
        DelegatedCall::InitializeAccount { delegate, account, mint, owner } => {
            build_initialize_account(delegate, account, mint, owner)
        },
        DelegatedCall::MintTo { delegate, mint, destination, authority, amount } => {
            build_mint_to(delegate, mint, destination, authority, *amount)
        },
        DelegatedCall::Transfer { delegate, source, destination, authority, amount } => {
            build_transfer(delegate, source, destination, authority, *amount)
        },
    }
}

/// A call descriptor the dispatcher plans is always addressed to the
/// delegate account it validated.
proof fn lemma_planned_delegate(accounts: Seq<AccountHandle>, data: Seq<u8>, c: CallDescr)
    requires
        spec_dispatch(accounts, data) == Ok::<CallDescr, DispatchError>(c),
    ensures
        descr_delegate(c) == accounts[1].key@,
        is_delegate_id(accounts[1].key@),
{
}

/// Dispatches one instruction: validates the accounts, decodes the
/// buffer, and issues exactly one delegated call to the engine's builder,
/// or fails with the first failing check and issues none.
pub fn dispatch(_program_id: &[u8; 32], accounts: &Vec<AccountHandle>, data: &Vec<u8>) -> (r:
    Result<(), DispatchError>)
    ensures
        (match spec_dispatch(accounts@, data@) {
            Ok(_) => r == Ok::<(), DispatchError>(()),
            Err(e) => r == Err::<(), DispatchError>(e),
        }),
{
    let call = match plan_dispatch(accounts, data) {
        Ok(c) => c,
        Err(e) => {
            return Err(e);
        },
    };
    proof {
        lemma_planned_delegate(accounts@, data@, call@);
    }
    match build_engine_call(&call) {
        Ok(_) => Ok(()),
        Err(_) => Err(DispatchError::DelegatedCallFailure),
    }
}

} // verus!
