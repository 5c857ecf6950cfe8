//! The calls this library makes into the crates of the ledger and of its two
//! collaborators, the token ledger and the metadata registry. Nothing in this
//! file is proved: each function states what the crate it calls is trusted to
//! return.

use crate::account::{
    keys_view, readonly, seeds_view, writable, AccountMeta, AccountMetaView, Instruction,
};
use crate::encoding::text_fits;
use crate::pubkey::{Pubkey, RENT_SYSVAR_ID, SYSTEM_PROGRAM_ID, TOKEN_PROGRAM_ID};
use crate::state::{creators_view, Creator};
use metaplex_token_metadata::state;
use vstd::bytes::spec_u64_to_le_bytes;
use vstd::prelude::*;

verus! {

/// The address and bump seed that the ledger derives for `seeds` under the
/// program `program_id`, if it finds any.
pub uninterp spec fn program_address(seeds: Seq<Seq<u8>>, program_id: Seq<u8>) -> Option<
    (Seq<u8>, u8),
>;

/// Whether `key` is a point of the curve on which the identities lie that
/// have a private key, and so can sign by themselves.
pub uninterp spec fn on_curve(key: Seq<u8>) -> bool;

/// `solana_program::pubkey::Pubkey::try_find_program_address`: the search for
/// an address off the curve, from bump seed 255 downwards. Trusted to return
/// the same answer for the same seeds and program, and only addresses that
/// are off the curve.
#[verifier::external_body]
pub(crate) fn try_find_program_address(seeds: &Vec<Vec<u8>>, program_id: &Pubkey) -> (found: Option<
    (Pubkey, u8),
>)
    ensures
        match found {
            Some((address, bump)) => program_address(seeds_view(seeds@), program_id@) == Some(
                (address@, bump),
            ),
            None => program_address(seeds_view(seeds@), program_id@) is None,
        },
        found matches Some((address, _)) ==> !on_curve(address@),
{
    let parts: Vec<&[u8]> = seeds.iter().map(|s| s.as_slice()).collect();
    match solana_program::pubkey::Pubkey::try_find_program_address(&parts, &program_id.bytes.into()) {
        Some((address, bump)) => Some((Pubkey { bytes: address.to_bytes() }, bump)),
        None => None,
    }
}

/// The body of the request that asks the account-creation service for a new
/// account.
pub uninterp spec fn create_account_data(lamports: u64, space: u64, owner: Seq<u8>) -> Seq<u8>;

/// `solana_program::system_instruction::create_account`: a request to the
/// account-creation service, signed by the payer and by the new account, both
/// writable. Its body is a function of the deposit, the size and the owner.
#[verifier::external_body]
pub(crate) fn create_account(
    payer: &Pubkey,
    account: &Pubkey,
    lamports: u64,
    space: u64,
    owner: &Pubkey,
) -> (ix: Instruction)
    ensures
        ix@.program_id == SYSTEM_PROGRAM_ID@,
        ix@.accounts == seq![writable(payer@, true), writable(account@, true)],
        ix@.data == create_account_data(lamports, space, owner@),
{
    let ix = solana_program::system_instruction::create_account(
        &payer.bytes.into(),
        &account.bytes.into(),
        lamports,
        space,
        &owner.bytes.into(),
    );
    Instruction {
        program_id: Pubkey { bytes: ix.program_id.to_bytes() },
        accounts: ix.accounts.iter().map(|m| AccountMeta { pubkey: Pubkey { bytes: m.pubkey.to_bytes() }, is_signer: m.is_signer, is_writable: m.is_writable }).collect(),
        data: ix.data,
    }
}

/// The body of a request to the token ledger that makes an account a token
/// type: tag 0, the decimals, the mint authority, then whether there is a
/// freeze authority, and which.
pub open spec fn initialize_mint_data(
    mint_authority: Seq<u8>,
    freeze_authority: Option<Seq<u8>>,
    decimals: u8,
) -> Seq<u8> {
    seq![0u8, decimals] + mint_authority + match freeze_authority {
        Some(key) => seq![1u8] + key,
        None => seq![0u8],
    }
}

/// `spl_token::instruction::initialize_mint`: refused unless `token_program`
/// is the token ledger; else a request to it on the mint (writable) and the
/// rent record, with the body that `TokenInstruction::pack` writes.
#[verifier::external_body]
pub(crate) fn initialize_mint(
    token_program: &Pubkey,
    mint: &Pubkey,
    mint_authority: &Pubkey,
    freeze_authority: Option<&Pubkey>,
    decimals: u8,
) -> (made: Option<Instruction>)
    ensures
        made is Some <==> token_program@ == TOKEN_PROGRAM_ID@,
        made matches Some(ix) ==> {
            &&& ix@.program_id == token_program@
            &&& ix@.accounts == seq![writable(mint@, false), readonly(RENT_SYSVAR_ID@, false)]
            &&& ix@.data == initialize_mint_data(
                mint_authority@,
                match freeze_authority {
                    Some(key) => Some(key@),
                    None => None,
                },
                decimals,
            )
        },
{
    let freeze = freeze_authority.map(|k| k.bytes.into());
    let ix = spl_token::instruction::initialize_mint(
        &token_program.bytes.into(),
        &mint.bytes.into(),
        &mint_authority.bytes.into(),
        freeze.as_ref(),
        decimals,
    ).ok()?;
    Some(Instruction {
        program_id: Pubkey { bytes: ix.program_id.to_bytes() },
        accounts: ix.accounts.iter().map(|m| AccountMeta { pubkey: Pubkey { bytes: m.pubkey.to_bytes() }, is_signer: m.is_signer, is_writable: m.is_writable }).collect(),
        data: ix.data,
    })
}

/// `spl_token::instruction::initialize_account`: refused unless
/// `token_program` is the token ledger; else a request to it on the holding
/// account (writable), its mint, its owner and the rent record, with the
/// one-byte body of tag 1.
#[verifier::external_body]
pub(crate) fn initialize_account(
    token_program: &Pubkey,
    account: &Pubkey,
    mint: &Pubkey,
    owner: &Pubkey,
) -> (made: Option<Instruction>)
    ensures
        made is Some <==> token_program@ == TOKEN_PROGRAM_ID@,
        made matches Some(ix) ==> {
            &&& ix@.program_id == token_program@
            &&& ix@.accounts == seq![
                writable(account@, false),
                readonly(mint@, false),
                readonly(owner@, false),
                readonly(RENT_SYSVAR_ID@, false),
            ]
            &&& ix@.data == seq![1u8]
        },
{
    let ix = spl_token::instruction::initialize_account(
        &token_program.bytes.into(),
        &account.bytes.into(),
        &mint.bytes.into(),
        &owner.bytes.into(),
    ).ok()?;
    Some(Instruction {
        program_id: Pubkey { bytes: ix.program_id.to_bytes() },
        accounts: ix.accounts.iter().map(|m| AccountMeta { pubkey: Pubkey { bytes: m.pubkey.to_bytes() }, is_signer: m.is_signer, is_writable: m.is_writable }).collect(),
        data: ix.data,
    })
}

/// The accounts of a request to mint units: the mint and the holding account,
/// both writable, the mint authority, which signs itself where no signers
/// are named, then the named signers.
pub open spec fn mint_to_accounts(
    mint: Seq<u8>,
    account: Seq<u8>,
    owner: Seq<u8>,
    signers: Seq<Seq<u8>>,
) -> Seq<AccountMetaView> {
    seq![writable(mint, false), writable(account, false), readonly(owner, signers.len() == 0)]
        + signers.map_values(|key: Seq<u8>| readonly(key, true))
}

/// `spl_token::instruction::mint_to`: refused unless `token_program` is the
/// token ledger; else a request to it on the accounts above, with tag 7 and
/// the amount as its body.
#[verifier::external_body]
pub(crate) fn mint_to(
    token_program: &Pubkey,
    mint: &Pubkey,
    account: &Pubkey,
    owner: &Pubkey,
    signers: &Vec<Pubkey>,
    amount: u64,
) -> (made: Option<Instruction>)
    ensures
        made is Some <==> token_program@ == TOKEN_PROGRAM_ID@,
        made matches Some(ix) ==> {
            &&& ix@.program_id == token_program@
            &&& ix@.accounts == mint_to_accounts(mint@, account@, owner@, keys_view(signers@))
            &&& ix@.data == seq![7u8] + spec_u64_to_le_bytes(amount)
        },
{
    let keys: Vec<solana_program::pubkey::Pubkey> = signers.iter().map(|k| k.bytes.into()).collect();
    let ix = spl_token::instruction::mint_to(
        &token_program.bytes.into(), &mint.bytes.into(), &account.bytes.into(),
        &owner.bytes.into(), &keys.iter().collect::<Vec<_>>(), amount,
    ).ok()?;
    Some(Instruction {
        program_id: Pubkey { bytes: ix.program_id.to_bytes() },
        accounts: ix.accounts.iter().map(|m| AccountMeta { pubkey: Pubkey { bytes: m.pubkey.to_bytes() }, is_signer: m.is_signer, is_writable: m.is_writable }).collect(),
        data: ix.data,
    })
}

/// The body of the request that asks the metadata registry for a new
/// metadata record.
pub uninterp spec fn create_metadata_data(
    name: Seq<char>,
    symbol: Seq<char>,
    uri: Seq<char>,
    creators: Option<Seq<(Seq<u8>, bool, u8)>>,
    seller_fee_basis_points: u16,
    is_mutable: bool,
) -> Seq<u8>;

/// `metaplex_token_metadata::instruction::create_metadata_accounts`: a
/// request to `program_id` on the metadata record (writable), the mint, the
/// mint authority (signer), the payer (signer, writable), the update
/// authority, the account-creation service and the rent record. Its body is a
/// function of the texts, the creators, the fee and the mutability flag.
/// The crate cannot write a text or a list longer than 32 bits can count.
#[verifier::external_body]
pub(crate) fn create_metadata_accounts(
    program_id: &Pubkey,
    metadata: &Pubkey,
    mint: &Pubkey,
    mint_authority: &Pubkey,
    payer: &Pubkey,
    update_authority: &Pubkey,
    name: String,
    symbol: String,
    uri: String,
    creator_list: &Vec<Creator>,
    seller_fee_basis_points: u16,
    update_authority_is_signer: bool,
    is_mutable: bool,
) -> (ix: Instruction)
    requires
        text_fits(name@),
        text_fits(symbol@),
        text_fits(uri@),
        creator_list@.len() <= u32::MAX,
    ensures
        ix@.program_id == program_id@,
        ix@.accounts == seq![
            writable(metadata@, false),
            readonly(mint@, false),
            readonly(mint_authority@, true),
            writable(payer@, true),
            readonly(update_authority@, update_authority_is_signer),
            readonly(SYSTEM_PROGRAM_ID@, false),
            readonly(RENT_SYSVAR_ID@, false),
        ],
        ix@.data == create_metadata_data(
            name@,
            symbol@,
            uri@,
            Some(creators_view(creator_list@)),
            seller_fee_basis_points,
            is_mutable,
        ),
{
    let ix = metaplex_token_metadata::instruction::create_metadata_accounts(
        program_id.bytes.into(), metadata.bytes.into(), mint.bytes.into(), mint_authority.bytes.into(),
        payer.bytes.into(), update_authority.bytes.into(), name, symbol, uri,
        Some(creator_list.iter().map(|c| state::Creator { address: c.address.bytes.into(), verified: c.verified, share: c.share }).collect()),
        seller_fee_basis_points, update_authority_is_signer, is_mutable,
    );
    Instruction {
        program_id: Pubkey { bytes: ix.program_id.to_bytes() },
        accounts: ix.accounts.iter().map(|m| AccountMeta { pubkey: Pubkey { bytes: m.pubkey.to_bytes() }, is_signer: m.is_signer, is_writable: m.is_writable }).collect(),
        data: ix.data,
    }
}

/// `metaplex_token_metadata::instruction::sign_metadata`: a request to
/// `program_id` on the metadata record (writable) and the creator who
/// countersigns it (signer). Its body is the tag of the operation, the eighth
/// of the registry's.
#[verifier::external_body]
pub(crate) fn sign_metadata(program_id: &Pubkey, metadata: &Pubkey, creator: &Pubkey) -> (ix:
    Instruction)
    ensures
        ix@.program_id == program_id@,
        ix@.accounts == seq![writable(metadata@, false), readonly(creator@, true)],
        ix@.data == seq![7u8],
{
    let ix = metaplex_token_metadata::instruction::sign_metadata(
        program_id.bytes.into(),
        metadata.bytes.into(),
        creator.bytes.into(),
    );
    Instruction {
        program_id: Pubkey { bytes: ix.program_id.to_bytes() },
        accounts: ix.accounts.iter().map(|m| AccountMeta { pubkey: Pubkey { bytes: m.pubkey.to_bytes() }, is_signer: m.is_signer, is_writable: m.is_writable }).collect(),
        data: ix.data,
    }
}

/// The body of the request that asks the metadata registry for an edition
/// record of which at most `max_supply` copies can be made.
pub uninterp spec fn create_master_edition_data(max_supply: Option<u64>) -> Seq<u8>;

/// `metaplex_token_metadata::instruction::create_master_edition`: a request
/// to `program_id` on the edition record and the mint (both writable), the
/// update authority and the mint authority (both signers), the payer (signer,
/// writable), the metadata record, the token ledger, the account-creation
/// service and the rent record. Its body is a function of the supply cap.
#[verifier::external_body]
pub(crate) fn create_master_edition(
    program_id: &Pubkey,
    edition: &Pubkey,
    mint: &Pubkey,
    update_authority: &Pubkey,
    mint_authority: &Pubkey,
    metadata: &Pubkey,
    payer: &Pubkey,
    max_supply: Option<u64>,
) -> (ix: Instruction)
    ensures
        ix@.program_id == program_id@,
        ix@.accounts == seq![
            writable(edition@, false),
            writable(mint@, false),
            readonly(update_authority@, true),
            readonly(mint_authority@, true),
            writable(payer@, true),
            readonly(metadata@, false),
            readonly(TOKEN_PROGRAM_ID@, false),
            readonly(SYSTEM_PROGRAM_ID@, false),
            readonly(RENT_SYSVAR_ID@, false),
        ],
        ix@.data == create_master_edition_data(max_supply),
{
    let ix = metaplex_token_metadata::instruction::create_master_edition(
        program_id.bytes.into(), edition.bytes.into(), mint.bytes.into(),
        update_authority.bytes.into(), mint_authority.bytes.into(), metadata.bytes.into(),
        payer.bytes.into(), max_supply,
    );
    Instruction {
        program_id: Pubkey { bytes: ix.program_id.to_bytes() },
        accounts: ix.accounts.iter().map(|m| AccountMeta { pubkey: Pubkey { bytes: m.pubkey.to_bytes() }, is_signer: m.is_signer, is_writable: m.is_writable }).collect(),
        data: ix.data,
    }
}

} // verus!
