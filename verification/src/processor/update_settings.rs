//! The replacement of the share and the price in a settings record.

use crate::account::{
    accounts_view, plan_view, steps_view, AccountInfo, AccountInfoView, Step, StepView,
};
use crate::error::{MeepError, ProgramError};
use crate::instruction::SettingsArgs;
use crate::pubkey::Pubkey;
use crate::state::{MeepSettings, SettingsView, MAX_PERCENTAGE};
use crate::utils::{
    assert_authority, get_settings_checked, spec_assert_authority, spec_get_settings_checked, Pda,
};
use vstd::prelude::*;

verus! {

/// What an update request on `accounts` leads to.
pub open spec fn spec_process_update_settings(
    program_id: Seq<u8>,
    accounts: Seq<AccountInfoView>,
    new_settings: SettingsArgs,
) -> Result<Seq<StepView>, ProgramError> {
    if accounts.len() < 2 {
        Err(ProgramError::NotEnoughAccountKeys)
    } else {
        match spec_get_settings_checked(
            program_id,
            accounts[0].key,
            accounts[1].key,
            accounts[1].data,
        ) {
            Err(e) => Err(e),
            Ok(old_settings) => match spec_assert_authority(
                old_settings,
                accounts[0].key,
                accounts[0].is_signer,
            ) {
                Err(e) => Err(e),
                Ok(_) => if new_settings.primary_wallet_percentage > MAX_PERCENTAGE {
                    Err(ProgramError::Custom(MeepError::PercentageLimitExceeded))
                } else {
                    Ok(
                        seq![
                            StepView::Store {
                                account: accounts[1].key,
                                data: SettingsView {
                                    authority: accounts[0].key,
                                    secondary_creator: old_settings.secondary_creator,
                                    primary_wallet_percentage:
                                        new_settings.primary_wallet_percentage,
                                    minimum_price: new_settings.minimum_price,
                                }.spec_bytes(),
                            },
                        ],
                    )
                },
            },
        }
    }
}

/// Plans the update operation on the accounts of a request: the authority,
/// then its settings record. The one step overwrites the share and the price
/// of the record and keeps its two parties.
///
/// Fails with `WrongSettingsAccount` unless the second account is the
/// settings record of the first, with `MissingRequiredSignature` unless the
/// authority signed, with `WrongAuthority` unless the record names it as its
/// authority, and with `PercentageLimitExceeded` where the new share is above
/// 100.
pub fn process_update_settings(
    program_id: &Pubkey,
    accounts: &[AccountInfo],
    new_settings: SettingsArgs,
) -> (planned: Result<Vec<Step>, ProgramError>)
    ensures
        plan_view(planned) == spec_process_update_settings(
            program_id@,
            accounts_view(accounts@),
            new_settings,
        ),
{
    if accounts.len() < 2 {
        return Err(ProgramError::NotEnoughAccountKeys);
    }
    let authority_info = &accounts[0];
    let settings_info = &accounts[1];
    let old_settings = match get_settings_checked(program_id, authority_info, settings_info) {
        Ok(settings) => settings,
        Err(e) => { return Err(e); },
    };
    match assert_authority(&old_settings, authority_info) {
        Ok(_) => {},
        Err(e) => { return Err(e); },
    }
    if new_settings.primary_wallet_percentage > MAX_PERCENTAGE {
        return Err(ProgramError::Custom(MeepError::PercentageLimitExceeded));
    }
    let data = MeepSettings {
        authority: authority_info.key,
        secondary_creator: old_settings.secondary_creator,
        primary_wallet_percentage: new_settings.primary_wallet_percentage,
        minimum_price: new_settings.minimum_price,
    }.try_to_vec();
    let steps = vec![Step::Store { account: settings_info.key, data }];
    assert(steps_view(steps@) =~= spec_process_update_settings(
        program_id@,
        accounts_view(accounts@),
        new_settings,
    ).unwrap());
    Ok(steps)
}

/// An update that is signed by another identity than the authority of the
/// record is refused with `WrongAuthority`.
pub proof fn lemma_update_needs_the_authority(
    program_id: Pubkey,
    accounts: Seq<AccountInfo>,
    new_settings: SettingsArgs,
)
    requires
        accounts.len() >= 2,
        accounts[0].is_signer,
        spec_get_settings_checked(
            program_id@,
            accounts[0].key@,
            accounts[1].key@,
            accounts[1].data@,
        ) matches Ok(old_settings) && old_settings.authority != accounts[0].key@,
    ensures
        spec_process_update_settings(program_id@, accounts_view(accounts), new_settings) == Err::<
            Seq<StepView>,
            ProgramError,
        >(ProgramError::Custom(MeepError::WrongAuthority)),
{
}

/// An update that is accepted stores one record: it keeps the authority and
/// the secondary creator of the record it found, holds the share and the
/// price of the request, and is a settings record again.
pub proof fn lemma_update_keeps_the_parties(
    program_id: Pubkey,
    accounts: Seq<AccountInfo>,
    new_settings: SettingsArgs,
)
    requires
        spec_process_update_settings(program_id@, accounts_view(accounts), new_settings) is Ok,
    ensures
        ({
            let steps = spec_process_update_settings(
                program_id@,
                accounts_view(accounts),
                new_settings,
            ).unwrap();
            let old_settings = SettingsView::spec_from_bytes(accounts[1].data@).unwrap();
            &&& steps.len() == 1
            &&& steps[0] matches StepView::Store { account, data }
            &&& account == accounts[1].key@
            &&& SettingsView::spec_from_bytes(data) == Some(
                SettingsView {
                    authority: old_settings.authority,
                    secondary_creator: old_settings.secondary_creator,
                    primary_wallet_percentage: new_settings.primary_wallet_percentage,
                    minimum_price: new_settings.minimum_price,
                },
            )
        }),
{
    let old_settings = SettingsView::spec_from_bytes(accounts[1].data@).unwrap();
    SettingsView::lemma_bytes_of_from_bytes(accounts[1].data@);
    let stored = SettingsView {
        authority: accounts[0].key@,
        secondary_creator: old_settings.secondary_creator,
        primary_wallet_percentage: new_settings.primary_wallet_percentage,
        minimum_price: new_settings.minimum_price,
    };
    stored.lemma_from_bytes_of_bytes();
}

/// No update is planned unless the authority signed the request, the
/// settings record lies at its canonical address, and it names the signer as
/// its authority. The one step of an update changes that record and nothing
/// else.
pub proof fn lemma_update_is_authorized(
    program_id: Pubkey,
    accounts: Seq<AccountInfo>,
    new_settings: SettingsArgs,
)
    requires
        spec_process_update_settings(program_id@, accounts_view(accounts), new_settings) is Ok,
    ensures
        accounts.len() >= 2,
        accounts[0].is_signer,
        Pda::spec_settings_pubkey_with_bump(program_id@, accounts[0].key@) matches Some(
            (address, _),
        ) && accounts[1].key@ == address,
        SettingsView::spec_from_bytes(accounts[1].data@) matches Some(settings)
            && settings.authority == accounts[0].key@,
        ({
            let steps = spec_process_update_settings(
                program_id@,
                accounts_view(accounts),
                new_settings,
            ).unwrap();
            forall|i: int, key: Seq<u8>|
                0 <= i < steps.len() && #[trigger] steps[i].may_change(key) ==> key
                    == accounts[1].key@
        }),
{
}

} // verus!
