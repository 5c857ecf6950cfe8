//! The derived addresses of the records, and the checks that every
//! operation makes before it plans a step.

use crate::account::{seeds_view, AccountInfo};
use crate::collaborators::{on_curve, program_address, try_find_program_address};
use crate::error::{MeepError, ProgramError};
use crate::pubkey::{Pubkey, METADATA_PROGRAM_ID};
use crate::state::{MeepSettings, NounsSettings, SettingsView};
use vstd::prelude::*;
use vstd::slice::slice_to_vec;

verus! {

/// Tag of the settings records: the text `settings_meep`.
pub const SETTINGS_SEED: [u8; 13] = [
    115, 101, 116, 116, 105, 110, 103, 115, 95, 109, 101, 101, 112,
];

/// Tag of the records of the metadata registry: the text `metadata`.
pub const PREFIX: [u8; 8] = [109, 101, 116, 97, 100, 97, 116, 97];

/// Marker that ends the seeds of an edition record: the text `edition`.
pub const EDITION: [u8; 7] = [101, 100, 105, 116, 105, 111, 110];

/// The addresses of the records that this program reads and writes. None is
/// stored anywhere: each is derived anew from what it belongs to.
pub struct Pda;

impl Pda {
    /// The address and bump seed of the record that the tag `tag` marks
    /// among the records of `owner` under the program `registry`.
    pub open spec fn spec_derive(tag: Seq<u8>, owner: Seq<u8>, registry: Seq<u8>) -> Option<
        (Seq<u8>, u8),
    > {
        program_address(seq![tag, owner], registry)
    }

    /// Seeds of the settings record of `authority`.
    pub open spec fn settings_seeds(authority: Seq<u8>) -> Seq<Seq<u8>> {
        seq![SETTINGS_SEED@, authority]
    }

    /// Seeds of the metadata record of the token `mint`.
    pub open spec fn metadata_seeds(mint: Seq<u8>) -> Seq<Seq<u8>> {
        seq![PREFIX@, METADATA_PROGRAM_ID@, mint]
    }

    /// Seeds of the edition record of the token `mint`.
    pub open spec fn master_edition_seeds(mint: Seq<u8>) -> Seq<Seq<u8>> {
        seq![PREFIX@, METADATA_PROGRAM_ID@, mint, EDITION@]
    }

    /// The address of the settings record of `authority` under the program
    /// `program_id`, with its bump seed.
    pub open spec fn spec_settings_pubkey_with_bump(
        program_id: Seq<u8>,
        authority: Seq<u8>,
    ) -> Option<(Seq<u8>, u8)> {
        program_address(Self::settings_seeds(authority), program_id)
    }

    /// The address of the metadata record of the token `mint`.
    pub open spec fn spec_metadata_pubkey(mint: Seq<u8>) -> Option<Seq<u8>> {
        match program_address(Self::metadata_seeds(mint), METADATA_PROGRAM_ID@) {
            Some((address, _)) => Some(address),
            None => None,
        }
    }

    /// The address of the edition record of the token `mint`.
    pub open spec fn spec_master_edition_pubkey(mint: Seq<u8>) -> Option<Seq<u8>> {
        match program_address(Self::master_edition_seeds(mint), METADATA_PROGRAM_ID@) {
            Some((address, _)) => Some(address),
            None => None,
        }
    }

    /// Derives the address of the record that the tag `tag` marks among the
    /// records of `owner` under the program `registry`, with the bump seed
    /// that the search for it ends on. The address is off the curve: no
    /// private key signs for it, only the program with the seeds of the
    /// record. There is none in the event that the ledger finds no address
    /// off the curve for the seeds.
    pub fn derive(tag: &[u8], owner: &Pubkey, registry: &Pubkey) -> (found: Option<(Pubkey, u8)>)
        ensures
            match found {
                Some((address, bump)) => Self::spec_derive(tag@, owner@, registry@) == Some(
                    (address@, bump),
                ),
                None => Self::spec_derive(tag@, owner@, registry@) is None,
            },
            found matches Some((address, _)) ==> !on_curve(address@),
    {
        let mut seeds: Vec<Vec<u8>> = Vec::new();
        seeds.push(slice_to_vec(tag));
        seeds.push(owner.to_vec());
        assert(seeds_view(seeds@) =~= seq![tag@, owner@]);
        try_find_program_address(&seeds, registry)
    }

    /// The address of the settings record of `authority`, with its bump seed.
    /// There is none in the event that it cannot be derived.
    pub fn settings_pubkey_with_bump(program_id: &Pubkey, authority: &Pubkey) -> (found: Option<
        (Pubkey, u8),
    >)
        ensures
            match found {
                Some((address, bump)) => Self::spec_settings_pubkey_with_bump(
                    program_id@,
                    authority@,
                ) == Some((address@, bump)),
                None => Self::spec_settings_pubkey_with_bump(program_id@, authority@) is None,
            },
            found matches Some((address, _)) ==> !on_curve(address@),
    {
        Self::derive(SETTINGS_SEED.as_slice(), authority, program_id)
    }

    /// The address of the metadata record of the token `mint`.
    pub fn metadata_pubkey(mint: &Pubkey) -> (found: Option<Pubkey>)
        ensures
            match found {
                Some(address) => Self::spec_metadata_pubkey(mint@) == Some(address@),
                None => Self::spec_metadata_pubkey(mint@) is None,
            },
            found matches Some(address) ==> !on_curve(address@),
    {
        let registry = Pubkey::new_from_array(METADATA_PROGRAM_ID);
        let mut seeds: Vec<Vec<u8>> = Vec::new();
        seeds.push(tag_bytes(&PREFIX));
        seeds.push(registry.to_vec());
        seeds.push(mint.to_vec());
        assert(seeds_view(seeds@) =~= Self::metadata_seeds(mint@));
        match try_find_program_address(&seeds, &registry) {
            Some((address, _)) => Some(address),
            None => None,
        }
    }

    /// The address of the edition record of the token `mint`.
    pub fn master_edition_pubkey(mint: &Pubkey) -> (found: Option<Pubkey>)
        ensures
            match found {
                Some(address) => Self::spec_master_edition_pubkey(mint@) == Some(address@),
                None => Self::spec_master_edition_pubkey(mint@) is None,
            },
            found matches Some(address) ==> !on_curve(address@),
    {
        let registry = Pubkey::new_from_array(METADATA_PROGRAM_ID);
        let mut seeds: Vec<Vec<u8>> = Vec::new();
        seeds.push(tag_bytes(&PREFIX));
        seeds.push(registry.to_vec());
        seeds.push(mint.to_vec());
        seeds.push(tag_bytes(&EDITION));
        assert(seeds_view(seeds@) =~= Self::master_edition_seeds(mint@));
        match try_find_program_address(&seeds, &registry) {
            Some((address, _)) => Some(address),
            None => None,
        }
    }

    /// Seeds with which the program signs for the settings record of
    /// `authority`: those of the record, then its bump seed.
    pub open spec fn settings_signer_seeds(authority: Seq<u8>, bump: u8) -> Seq<Seq<u8>> {
        seq![SETTINGS_SEED@, authority, seq![bump]]
    }

    /// Seeds with which the program signs for the settings record of
    /// `authority`.
    pub fn signer_seeds(authority: &Pubkey, bump: u8) -> (seeds: Vec<Vec<u8>>)
        ensures
            seeds_view(seeds@) == Self::settings_signer_seeds(authority@, bump),
    {
        let mut seeds: Vec<Vec<u8>> = Vec::new();
        seeds.push(tag_bytes(&SETTINGS_SEED));
        seeds.push(authority.to_vec());
        let last = vec![bump];
        assert(last@ =~= seq![bump]);
        seeds.push(last);
        assert(seeds_view(seeds@) =~= Self::settings_signer_seeds(authority@, bump));
        seeds
    }

    /// The same tag, owner and program always give the same address and bump
    /// seed.
    pub proof fn lemma_derive_deterministic(
        tag: Seq<u8>,
        owner: Pubkey,
        registry: Pubkey,
        other_tag: Seq<u8>,
        other_owner: Pubkey,
        other_registry: Pubkey,
    )
        requires
            tag == other_tag,
            owner@ == other_owner@,
            registry@ == other_registry@,
        ensures
            Self::spec_derive(tag, owner@, registry@) == Self::spec_derive(
                other_tag,
                other_owner@,
                other_registry@,
            ),
    {
    }

    /// The settings record of an authority lies where its tag, the authority
    /// and the program derive it: the same authority and program always give
    /// the same address and bump seed.
    pub proof fn lemma_settings_address_deterministic(
        program_id: Pubkey,
        authority: Pubkey,
        other_program_id: Pubkey,
        other_authority: Pubkey,
    )
        requires
            program_id@ == other_program_id@,
            authority@ == other_authority@,
        ensures
            Self::spec_settings_pubkey_with_bump(program_id@, authority@) == Self::spec_derive(
                SETTINGS_SEED@,
                authority@,
                program_id@,
            ),
            Self::spec_settings_pubkey_with_bump(program_id@, authority@)
                == Self::spec_settings_pubkey_with_bump(other_program_id@, other_authority@),
    {
    }

    /// The same token always gives the same metadata and edition addresses.
    pub proof fn lemma_token_addresses_deterministic(mint: Pubkey, other_mint: Pubkey)
        requires
            mint@ == other_mint@,
        ensures
            Self::spec_metadata_pubkey(mint@) == Self::spec_metadata_pubkey(other_mint@),
            Self::spec_master_edition_pubkey(mint@) == Self::spec_master_edition_pubkey(
                other_mint@,
            ),
    {
    }
}

/// The bytes of a tag, as an owned seed.
fn tag_bytes<const N: usize>(tag: &[u8; N]) -> (bytes: Vec<u8>)
    ensures
        bytes@ == tag@,
{
    let mut bytes: Vec<u8> = Vec::with_capacity(N);
    let mut i: usize = 0;
    while i < N
        invariant
            i <= N,
            bytes@ == tag@.subrange(0, i as int),
        decreases N - i,
    {
        bytes.push(tag[i]);
        assert(bytes@ =~= tag@.subrange(0, i + 1));
        i += 1;
    }
    assert(tag@.subrange(0, N as int) =~= tag@);
    bytes
}

/// Whether `settings_key` is where the settings record of `authority` lives.
pub open spec fn spec_assert_settings(
    program_id: Seq<u8>,
    authority: Seq<u8>,
    settings_key: Seq<u8>,
) -> Result<(), ProgramError> {
    match Pda::spec_settings_pubkey_with_bump(program_id, authority) {
        None => Err(ProgramError::InvalidSeeds),
        Some((address, _)) => if settings_key != address {
            Err(ProgramError::Custom(MeepError::WrongSettingsAccount))
        } else {
            Ok(())
        },
    }
}

/// The settings record of `authority`, read from the account that claims to
/// hold it.
pub open spec fn spec_get_settings_checked(
    program_id: Seq<u8>,
    authority: Seq<u8>,
    settings_key: Seq<u8>,
    settings_data: Seq<u8>,
) -> Result<SettingsView, ProgramError> {
    match spec_assert_settings(program_id, authority, settings_key) {
        Err(e) => Err(e),
        Ok(_) => match SettingsView::spec_from_bytes(settings_data) {
            None => Err(ProgramError::Custom(MeepError::WrongSettingsAccount)),
            Some(settings) => Ok(settings),
        },
    }
}

/// Whether `authority_key` signed and is the authority of `settings`.
pub open spec fn spec_assert_authority(
    settings: SettingsView,
    authority_key: Seq<u8>,
    is_signer: bool,
) -> Result<(), ProgramError> {
    if !is_signer {
        Err(ProgramError::MissingRequiredSignature)
    } else if authority_key != settings.authority {
        Err(ProgramError::Custom(MeepError::WrongAuthority))
    } else {
        Ok(())
    }
}

/// Whether `key` is the secondary creator of `settings`.
pub open spec fn spec_assert_secondary_creator(settings: SettingsView, key: Seq<u8>) -> Result<
    (),
    ProgramError,
> {
    if key != settings.secondary_creator {
        Err(ProgramError::Custom(MeepError::WrongSecondaryCreator))
    } else {
        Ok(())
    }
}

/// Loads the settings record of the authority from `settings_info`. Fails
/// with `WrongSettingsAccount` where that account is not at the address of
/// the record, or does not store a settings record.
pub fn get_settings_checked(
    program_id: &Pubkey,
    authority_info: &AccountInfo,
    settings_info: &AccountInfo,
) -> (loaded: Result<MeepSettings, ProgramError>)
    ensures
        match loaded {
            Ok(settings) => spec_get_settings_checked(
                program_id@,
                authority_info@.key,
                settings_info@.key,
                settings_info@.data,
            ) == Ok::<SettingsView, ProgramError>(settings@),
            Err(e) => spec_get_settings_checked(
                program_id@,
                authority_info@.key,
                settings_info@.key,
                settings_info@.data,
            ) == Err::<SettingsView, ProgramError>(e),
        },
{
    match assert_settings(program_id, authority_info, settings_info) {
        Err(e) => { return Err(e); },
        Ok(_) => {},
    }
    match NounsSettings::try_from_slice(settings_info.data.as_slice()) {
        Some(settings) => Ok(settings),
        None => Err(ProgramError::Custom(MeepError::WrongSettingsAccount)),
    }
}

/// Fails with `WrongSettingsAccount` unless `settings_info` is at the address
/// of the settings record of the authority.
pub fn assert_settings(
    program_id: &Pubkey,
    authority_info: &AccountInfo,
    settings_info: &AccountInfo,
) -> (checked: Result<(), ProgramError>)
    ensures
        checked == spec_assert_settings(program_id@, authority_info@.key, settings_info@.key),
{
    let settings_pubkey = match Pda::settings_pubkey_with_bump(program_id, &authority_info.key) {
        Some((address, _)) => address,
        None => { return Err(ProgramError::InvalidSeeds); },
    };
    if settings_info.key != settings_pubkey {
        return Err(ProgramError::Custom(MeepError::WrongSettingsAccount));
    }
    Ok(())
}

/// Fails with `MissingRequiredSignature` unless the authority signed, and
/// with `WrongAuthority` unless it is the authority of `settings`.
pub fn assert_authority(settings: &MeepSettings, authority_info: &AccountInfo) -> (checked: Result<
    (),
    ProgramError,
>)
    ensures
        checked == spec_assert_authority(
            settings@,
            authority_info@.key,
            authority_info@.is_signer,
        ),
{
    if !authority_info.is_signer {
        return Err(ProgramError::MissingRequiredSignature);
    }
    if authority_info.key != settings.authority {
        return Err(ProgramError::Custom(MeepError::WrongAuthority));
    }
    Ok(())
}

/// Fails with `WrongSecondaryCreator` unless the account is the secondary
/// creator of `settings`.
pub fn assert_secondary_creator(
    settings: &MeepSettings,
    secondary_creator_info: &AccountInfo,
) -> (checked: Result<(), ProgramError>)
    ensures
        checked == spec_assert_secondary_creator(settings@, secondary_creator_info@.key),
{
    if secondary_creator_info.key != settings.secondary_creator {
        return Err(ProgramError::Custom(MeepError::WrongSecondaryCreator));
    }
    Ok(())
}

} // verus!
