//! The operations: each checks the request it is given and plans the steps
//! that carry it out.

use crate::account::{
    accounts_view, plan_view, steps_view, AccountInfo, AccountInfoView, Step, StepView,
};
use crate::error::ProgramError;
use crate::instruction::{MeepInstructions, MeepInstructionsView};
use crate::processor::initialize_meep::{process_initialize, spec_process_initialize};
use crate::processor::mint_nft::{process_mint, spec_process_mint};
use crate::processor::update_settings::{process_update_settings, spec_process_update_settings};
use crate::pubkey::Pubkey;
use vstd::prelude::*;

pub mod initialize_meep;
pub mod mint_nft;
pub mod update_settings;

verus! {

/// What the request with body `instruction_data` on `accounts` leads to.
pub open spec fn spec_process_instruction(
    program_id: Seq<u8>,
    accounts: Seq<AccountInfoView>,
    instruction_data: Seq<u8>,
) -> Result<Seq<StepView>, ProgramError> {
    match MeepInstructionsView::spec_from_bytes(instruction_data) {
        None => Err(ProgramError::BorshIoError),
        Some(MeepInstructionsView::InitializeMeep(settings)) => spec_process_initialize(
            program_id,
            accounts,
            settings,
        ),
        Some(MeepInstructionsView::UpdateSettings(settings)) => spec_process_update_settings(
            program_id,
            accounts,
            settings,
        ),
        Some(MeepInstructionsView::MintNft(mint_args)) => spec_process_mint(
            program_id,
            accounts,
            mint_args,
        ),
    }
}

/// Decodes the body of a request and plans the one operation it asks for.
/// The steps are to be run in order within the transaction of the request;
/// where one fails, the transaction fails with it and leaves nothing behind.
///
/// Fails with `BorshIoError` where the body asks for no operation, and
/// otherwise as the operation does.
pub fn process_instruction(
    program_id: &Pubkey,
    accounts: &[AccountInfo],
    instruction_data: &[u8],
) -> (planned: Result<Vec<Step>, ProgramError>)
    ensures
        plan_view(planned) == spec_process_instruction(
            program_id@,
            accounts_view(accounts@),
            instruction_data@,
        ),
{
    let instruction = match MeepInstructions::try_from_slice(instruction_data) {
        Some(instruction) => instruction,
        None => { return Err(ProgramError::BorshIoError); },
    };
    proof {
        MeepInstructionsView::lemma_bytes_of_from_bytes(instruction_data@);
    }
    match instruction {
        MeepInstructions::InitializeMeep(settings) => process_initialize(
            program_id,
            accounts,
            settings,
        ),
        MeepInstructions::UpdateSettings(settings) => process_update_settings(
            program_id,
            accounts,
            settings,
        ),
        MeepInstructions::MintNft(mint_args) => process_mint(program_id, accounts, mint_args),
    }
}

/// A request is routed to the operation it was written for, with the
/// arguments it was written with.
pub proof fn lemma_requests_reach_their_operation(
    program_id: Pubkey,
    accounts: Seq<AccountInfo>,
    instruction: MeepInstructions,
)
    requires
        instruction@.encodable(),
    ensures
        spec_process_instruction(
            program_id@,
            accounts_view(accounts),
            instruction@.spec_bytes(),
        ) == match instruction@ {
            MeepInstructionsView::InitializeMeep(settings) => spec_process_initialize(
                program_id@,
                accounts_view(accounts),
                settings,
            ),
            MeepInstructionsView::UpdateSettings(settings) => spec_process_update_settings(
                program_id@,
                accounts_view(accounts),
                settings,
            ),
            MeepInstructionsView::MintNft(mint_args) => spec_process_mint(
                program_id@,
                accounts_view(accounts),
                mint_args,
            ),
        },
{
    instruction@.lemma_from_bytes_of_bytes();
}

/// A body that is no request of any operation leads to nothing but the
/// failure to decode it, whatever the accounts are.
pub proof fn lemma_unknown_requests_are_refused(
    program_id: Pubkey,
    accounts: Seq<AccountInfo>,
    instruction_data: Seq<u8>,
)
    requires
        instruction_data.len() == 0 || instruction_data[0] > 2,
    ensures
        spec_process_instruction(program_id@, accounts_view(accounts), instruction_data) == Err::<
            Seq<StepView>,
            ProgramError,
        >(ProgramError::BorshIoError),
{
}

} // verus!
