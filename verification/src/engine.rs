use vstd::prelude::*;

use solana_program::pubkey::Pubkey;

verus! {

#[verifier::external_type_specification]
#[verifier::external_body]
pub struct ExInstruction(solana_program::instruction::Instruction);

#[verifier::external_type_specification]
#[verifier::external_body]
pub struct ExProgramError(solana_program::program_error::ProgramError);

/// Whether a 32-byte address is the token engine's own well-known program
/// address.  The engine publishes that address as a compile-time constant
/// (`spl_token::id`), so the answer depends on the key alone.
pub uninterp spec fn is_delegate_id(key: Seq<u8>) -> bool;

/// Whether a 32-byte address is the rent sysvar's own well-known address,
/// another compile-time constant of the host's interface.
pub uninterp spec fn is_rent_oracle_id(key: Seq<u8>) -> bool;

/// An optional key, viewed as its optional byte sequence.
pub open spec fn key_option_view(o: Option<[u8; 32]>) -> Option<Seq<u8>> {
    match o {
        Some(k) => Some(k@),
        None => None,
    }
}

/// The instruction `spl_token::instruction::initialize_mint` builds from
/// these arguments; a function of them alone.
pub uninterp spec fn initialize_mint_instr(
    delegate: Seq<u8>,
    mint: Seq<u8>,
    authority: Seq<u8>,
    freeze_authority: Option<Seq<u8>>,
    decimals: u8,
) -> solana_program::instruction::Instruction;

/// The instruction `spl_token::instruction::initialize_account` builds
/// from these arguments; a function of them alone.
pub uninterp spec fn initialize_account_instr(
    delegate: Seq<u8>,
    account: Seq<u8>,
    mint: Seq<u8>,
    owner: Seq<u8>,
) -> solana_program::instruction::Instruction;

/// The instruction `spl_token::instruction::mint_to` builds from these
/// arguments with no multisig co-signers; a function of them alone.
pub uninterp spec fn mint_to_instr(
    delegate: Seq<u8>,
    mint: Seq<u8>,
    destination: Seq<u8>,
    authority: Seq<u8>,
    amount: u64,
) -> solana_program::instruction::Instruction;

/// The instruction `spl_token::instruction::transfer` builds from these
/// arguments with no multisig co-signers; a function of them alone.
pub uninterp spec fn transfer_instr(
    delegate: Seq<u8>,
    source: Seq<u8>,
    destination: Seq<u8>,
    authority: Seq<u8>,
    amount: u64,
) -> solana_program::instruction::Instruction;

/// Relies on `spl_token::id`: equality with the engine's fixed program
/// address.
#[verifier::external_body]
pub(crate) fn is_spl_token_id(key: &[u8; 32]) -> (r: bool)
    ensures
        r == is_delegate_id(key@),
{
    solana_program::pubkey::Pubkey::new_from_array(*key) == spl_token::id()
}

/// Relies on `solana_program::sysvar::rent::check_id`: equality with the
/// rent sysvar's fixed address.
#[verifier::external_body]
pub(crate) fn is_rent_sysvar_id(key: &[u8; 32]) -> (r: bool)
    ensures
        r == is_rent_oracle_id(key@),
{
    solana_program::sysvar::rent::check_id(&Pubkey::new_from_array(*key))
}

/// Relies on `spl_token::instruction::initialize_mint`: it checks the
/// delegate against the engine's program address and otherwise only packs
/// its arguments into an instruction, so it returns `Ok` exactly when the
/// delegate is the engine, and then the instruction those arguments
/// determine.
#[verifier::external_body]
pub(crate) fn build_initialize_mint(
    delegate: &[u8; 32],
    mint: &[u8; 32],
    authority: &[u8; 32],
    freeze_authority: &Option<[u8; 32]>,
    decimals: u8,
) -> (r: Result<solana_program::instruction::Instruction, solana_program::program_error::ProgramError>)
    ensures
        r is Ok <==> is_delegate_id(delegate@),
        r matches Ok(i) ==> i == initialize_mint_instr(
            delegate@,
            mint@,
            authority@,
            key_option_view(*freeze_authority),
            decimals,
        ),
{
    let freeze = (*freeze_authority).map(Pubkey::new_from_array);
    spl_token::instruction::initialize_mint(
        &Pubkey::new_from_array(*delegate),
        &Pubkey::new_from_array(*mint),
        &Pubkey::new_from_array(*authority),
        freeze.as_ref(),
        decimals,
    )
}

/// Relies on `spl_token::instruction::initialize_account`: `Ok` exactly
/// when the delegate is the engine's program address, and then the
/// instruction the arguments determine.
#[verifier::external_body]
pub(crate) fn build_initialize_account(
    delegate: &[u8; 32],
    account: &[u8; 32],
    mint: &[u8; 32],
    owner: &[u8; 32],
) -> (r: Result<solana_program::instruction::Instruction, solana_program::program_error::ProgramError>)
    ensures
        r is Ok <==> is_delegate_id(delegate@),
        r matches Ok(i) ==> i == initialize_account_instr(delegate@, account@, mint@, owner@),
{
    spl_token::instruction::initialize_account(
        &Pubkey::new_from_array(*delegate),
        &Pubkey::new_from_array(*account),
        &Pubkey::new_from_array(*mint),
        &Pubkey::new_from_array(*owner),
    )
}

/// Relies on `spl_token::instruction::mint_to`, called with no multisig
/// co-signers: `Ok` exactly when the delegate is the engine's program
/// address, and then the instruction the arguments determine.
#[verifier::external_body]
pub(crate) fn build_mint_to(
    delegate: &[u8; 32],
    mint: &[u8; 32],
    destination: &[u8; 32],
    authority: &[u8; 32],
    amount: u64,
) -> (r: Result<solana_program::instruction::Instruction, solana_program::program_error::ProgramError>)
    ensures
        r is Ok <==> is_delegate_id(delegate@),
        r matches Ok(i) ==> i == mint_to_instr(delegate@, mint@, destination@, authority@, amount),
{
    spl_token::instruction::mint_to(
        &Pubkey::new_from_array(*delegate),
        &Pubkey::new_from_array(*mint),
        &Pubkey::new_from_array(*destination),
        &Pubkey::new_from_array(*authority),
        &[],
        amount,
    )
}

/// Relies on `spl_token::instruction::transfer`, called with no multisig
/// co-signers: `Ok` exactly when the delegate is the engine's program
/// address, and then the instruction the arguments determine.
#[verifier::external_body]
pub(crate) fn build_transfer(
    delegate: &[u8; 32],
    source: &[u8; 32],
    destination: &[u8; 32],
    authority: &[u8; 32],
    amount: u64,
) -> (r: Result<solana_program::instruction::Instruction, solana_program::program_error::ProgramError>)
    ensures
        r is Ok <==> is_delegate_id(delegate@),
        r matches Ok(i) ==> i == transfer_instr(delegate@, source@, destination@, authority@, amount),
{
    spl_token::instruction::transfer(
        &Pubkey::new_from_array(*delegate),
        &Pubkey::new_from_array(*source),
        &Pubkey::new_from_array(*destination),
        &Pubkey::new_from_array(*authority),
        &[],
        amount,
    )
}

} // verus!
