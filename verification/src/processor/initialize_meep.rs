//! The creation of the settings record of an authority.

use crate::account::{
    accounts_view, keys_view, plan_view, steps_view, AccountInfo, AccountInfoView, CreateAccount,
    CreateAccountView, Step, StepView,
};
use crate::error::{MeepError, ProgramError};
use crate::instruction::SettingsArgs;
use crate::pubkey::Pubkey;
use crate::state::{NounsSettings, SettingsView, MAX_PERCENTAGE, SETTINGS_LEN};
use crate::utils::Pda;
use vstd::prelude::*;

verus! {

/// The steps that create the settings record of `authority` and fill it with
/// `settings`.
pub open spec fn spec_create_settings_account(
    authority: Seq<u8>,
    settings_key: Seq<u8>,
    system_program: Seq<u8>,
    rent_program: Seq<u8>,
    program_id: Seq<u8>,
    settings: SettingsView,
) -> Result<Seq<StepView>, ProgramError> {
    match Pda::spec_settings_pubkey_with_bump(program_id, authority) {
        None => Err(ProgramError::InvalidSeeds),
        Some((address, bump)) => Ok(
            seq![
                StepView::CreateAccount(
                    CreateAccountView {
                        payer: authority,
                        account: address,
                        space: SETTINGS_LEN as u64,
                        owner: program_id,
                        rent: rent_program,
                        account_keys: seq![authority, settings_key, system_program],
                        signer_seeds: Pda::settings_signer_seeds(authority, bump),
                    },
                ),
                StepView::Store { account: settings_key, data: settings.spec_bytes() },
            ],
        ),
    }
}

/// Plans the creation of the settings record: an account at the canonical
/// address of the record, of the size of a record, owned by this program and
/// signed for with the seeds of the address; then the record written into
/// `settings_info`. The account-creation service refuses an address that is
/// taken, so an authority has one record at most.
///
/// Fails with `InvalidSeeds` in the event that the address cannot be derived.
pub fn create_settings_account(
    authority_info: &AccountInfo,
    settings_info: &AccountInfo,
    system_program: &AccountInfo,
    rent_program: &AccountInfo,
    program_id: &Pubkey,
    settings: &NounsSettings,
) -> (planned: Result<Vec<Step>, ProgramError>)
    ensures
        plan_view(planned) == spec_create_settings_account(
            authority_info@.key,
            settings_info@.key,
            system_program@.key,
            rent_program@.key,
            program_id@,
            settings@,
        ),
{
    let authority = authority_info.key;
    let (settings_pubkey, bump) = match Pda::settings_pubkey_with_bump(program_id, &authority) {
        Some(found) => found,
        None => { return Err(ProgramError::InvalidSeeds); },
    };
    let account_keys = vec![authority, settings_info.key, system_program.key];
    assert(keys_view(account_keys@) =~= seq![
        authority@,
        settings_info@.key,
        system_program@.key,
    ]);
    let create = Step::CreateAccount(
        CreateAccount {
            payer: authority,
            account: settings_pubkey,
            space: SETTINGS_LEN as u64,
            owner: *program_id,
            rent: rent_program.key,
            account_keys,
            signer_seeds: Pda::signer_seeds(&authority, bump),
        },
    );
    let store = Step::Store { account: settings_info.key, data: settings.try_to_vec() };
    let steps = vec![create, store];
    assert(steps_view(steps@) =~= spec_create_settings_account(
        authority_info@.key,
        settings_info@.key,
        system_program@.key,
        rent_program@.key,
        program_id@,
        settings@,
    ).unwrap());
    Ok(steps)
}

/// What an initialize request on `accounts` leads to.
pub open spec fn spec_process_initialize(
    program_id: Seq<u8>,
    accounts: Seq<AccountInfoView>,
    settings_args: SettingsArgs,
) -> Result<Seq<StepView>, ProgramError> {
    if accounts.len() < 5 {
        Err(ProgramError::NotEnoughAccountKeys)
    } else if !accounts[0].is_signer || !accounts[1].is_signer {
        Err(ProgramError::MissingRequiredSignature)
    } else if accounts[0].key == accounts[1].key {
        Err(ProgramError::Custom(MeepError::PrimareAndSecondaryAreSame))
    } else if settings_args.primary_wallet_percentage > MAX_PERCENTAGE {
        Err(ProgramError::Custom(MeepError::PercentageLimitExceeded))
    } else {
        spec_create_settings_account(
            accounts[0].key,
            accounts[2].key,
            accounts[3].key,
            accounts[4].key,
            program_id,
            SettingsView {
                authority: accounts[0].key,
                secondary_creator: accounts[1].key,
                primary_wallet_percentage: settings_args.primary_wallet_percentage,
                minimum_price: settings_args.minimum_price,
            },
        )
    }
}

/// Plans the initialize operation on the accounts of a request: the
/// authority, the secondary creator, the settings record, the
/// account-creation service and the rent record, in this order.
///
/// Fails with `MissingRequiredSignature` unless both parties signed, with
/// `PrimareAndSecondaryAreSame` where they are one identity, and with
/// `PercentageLimitExceeded` where the share is above 100.
pub fn process_initialize(
    program_id: &Pubkey,
    accounts: &[AccountInfo],
    settings_args: SettingsArgs,
) -> (planned: Result<Vec<Step>, ProgramError>)
    ensures
        plan_view(planned) == spec_process_initialize(
            program_id@,
            accounts_view(accounts@),
            settings_args,
        ),
{
    if accounts.len() < 5 {
        return Err(ProgramError::NotEnoughAccountKeys);
    }
    let authority_info = &accounts[0];
    let secondary_creator_info = &accounts[1];
    let settings_info = &accounts[2];
    let system_program = &accounts[3];
    let rent_program = &accounts[4];

    if !authority_info.is_signer || !secondary_creator_info.is_signer {
        return Err(ProgramError::MissingRequiredSignature);
    }
    if authority_info.key == secondary_creator_info.key {
        return Err(ProgramError::Custom(MeepError::PrimareAndSecondaryAreSame));
    }
    if settings_args.primary_wallet_percentage > MAX_PERCENTAGE {
        return Err(ProgramError::Custom(MeepError::PercentageLimitExceeded));
    }
    let settings = NounsSettings {
        authority: authority_info.key,
        secondary_creator: secondary_creator_info.key,
        primary_wallet_percentage: settings_args.primary_wallet_percentage,
        minimum_price: settings_args.minimum_price,
    };
    create_settings_account(
        authority_info,
        settings_info,
        system_program,
        rent_program,
        program_id,
        &settings,
    )
}

/// Every share from 0 to 100 and every two distinct parties that both
/// signed give a plan: it creates an account at the canonical address of the
/// settings record of the authority, and stores there the record that the
/// request describes.
pub proof fn lemma_initialize_succeeds(
    program_id: Pubkey,
    accounts: Seq<AccountInfo>,
    settings_args: SettingsArgs,
)
    requires
        accounts.len() >= 5,
        accounts[0].is_signer,
        accounts[1].is_signer,
        accounts[0].key@ != accounts[1].key@,
        settings_args.primary_wallet_percentage <= 100,
        Pda::spec_settings_pubkey_with_bump(program_id@, accounts[0].key@) is Some,
    ensures
        spec_process_initialize(program_id@, accounts_view(accounts), settings_args) matches Ok(
            steps,
        ) && {
            &&& steps.len() == 2
            &&& steps[0] matches StepView::CreateAccount(create) && {
                &&& Pda::spec_settings_pubkey_with_bump(program_id@, accounts[0].key@) matches Some(
                    (address, _),
                ) && create.account == address
                &&& create.payer == accounts[0].key@
                &&& create.owner == program_id@
                &&& create.space == SETTINGS_LEN
            }
            &&& steps[1] matches StepView::Store { account, data } && {
                &&& account == accounts[2].key@
                &&& SettingsView::spec_from_bytes(data) == Some(
                    SettingsView {
                        authority: accounts[0].key@,
                        secondary_creator: accounts[1].key@,
                        primary_wallet_percentage: settings_args.primary_wallet_percentage,
                        minimum_price: settings_args.minimum_price,
                    },
                )
            }
        },
{
    let settings = SettingsView {
        authority: accounts[0].key@,
        secondary_creator: accounts[1].key@,
        primary_wallet_percentage: settings_args.primary_wallet_percentage,
        minimum_price: settings_args.minimum_price,
    };
    settings.lemma_from_bytes_of_bytes();
}

/// Two plans that initialize the settings of one authority under one program
/// create their account at one and the same address, whatever else the two
/// requests say. The account-creation service refuses the second creation, so
/// an authority is initialized once.
pub proof fn lemma_initialize_once_per_authority(
    program_id: Pubkey,
    first: Seq<AccountInfo>,
    first_args: SettingsArgs,
    second: Seq<AccountInfo>,
    second_args: SettingsArgs,
)
    requires
        spec_process_initialize(program_id@, accounts_view(first), first_args) is Ok,
        spec_process_initialize(program_id@, accounts_view(second), second_args) is Ok,
        first[0].key@ == second[0].key@,
    ensures
        ({
            let one = spec_process_initialize(
                program_id@,
                accounts_view(first),
                first_args,
            ).unwrap();
            let other = spec_process_initialize(
                program_id@,
                accounts_view(second),
                second_args,
            ).unwrap();
            &&& one[0] matches StepView::CreateAccount(create)
            &&& other[0] matches StepView::CreateAccount(again)
            &&& create.account == again.account
        }),
{
}

/// No initialization is planned unless both parties signed the request, are
/// two identities, and the share is a percentage. Its steps let the authority
/// and the new record sign and no other, and change nothing but what the
/// authority, the new record and the account handed in for it hold.
pub proof fn lemma_initialize_is_authorized(
    program_id: Pubkey,
    accounts: Seq<AccountInfo>,
    settings_args: SettingsArgs,
)
    requires
        spec_process_initialize(program_id@, accounts_view(accounts), settings_args) is Ok,
    ensures
        accounts.len() >= 5,
        accounts[0].is_signer,
        accounts[1].is_signer,
        accounts[0].key@ != accounts[1].key@,
        settings_args.primary_wallet_percentage <= 100,
        ({
            let steps = spec_process_initialize(
                program_id@,
                accounts_view(accounts),
                settings_args,
            ).unwrap();
            let record = Pda::spec_settings_pubkey_with_bump(program_id@, accounts[0].key@);
            &&& forall|i: int, key: Seq<u8>|
                0 <= i < steps.len() && #[trigger] steps[i].lets_sign(key) ==> {
                    ||| key == accounts[0].key@
                    ||| record matches Some((address, _)) && key == address
                }
            &&& forall|i: int, key: Seq<u8>|
                0 <= i < steps.len() && #[trigger] steps[i].may_change(key) ==> {
                    ||| key == accounts[0].key@
                    ||| key == accounts[2].key@
                    ||| record matches Some((address, _)) && key == address
                }
        }),
{
}

} // verus!
