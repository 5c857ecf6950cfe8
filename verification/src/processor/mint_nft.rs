//! The mint of an asset: its token type with a supply of one, the account
//! that holds that one unit, its metadata with the split of the revenue, and
//! the edition record that makes it the only copy.

use crate::account::{
    accounts_view, append_steps, keys_view, plan_view, readonly, seeds_view, steps_view, writable,
    AccountInfo, AccountInfoView, CreateAccount, CreateAccountView, Instruction, InstructionView,
    Invocation, InvocationView, Step, StepView,
};
use crate::collaborators::{
    create_master_edition, create_master_edition_data, create_metadata_accounts,
    create_metadata_data, initialize_account, initialize_mint, initialize_mint_data, mint_to,
    mint_to_accounts, sign_metadata,
};
use crate::error::ProgramError;
use crate::instruction::{MintNftArgs, MintNftArgsView};
use crate::pubkey::{
    Pubkey, METADATA_PROGRAM_ID, RENT_SYSVAR_ID, SYSTEM_PROGRAM_ID, TOKEN_PROGRAM_ID,
};
use crate::state::{creators_view, Creator, MeepSettings, SettingsView};
use crate::utils::{
    assert_authority, assert_secondary_creator, get_settings_checked, spec_assert_authority,
    spec_assert_secondary_creator, spec_get_settings_checked, Pda,
};
use vstd::bytes::spec_u64_to_le_bytes;
use vstd::pervasive::unreached;
use vstd::prelude::*;

verus! {

/// Number of bytes of a mint descriptor of the token ledger.
pub const MINT_LEN: u64 = 82;

/// Number of bytes of a holding account of the token ledger.
pub const ACCOUNT_LEN: u64 = 165;

/// Who shares the revenue of a minted asset.
#[derive(Clone, Copy, Debug, PartialEq, Eq)]
pub enum CreatorSplit {
    /// The funding identity alone.
    Single,
    /// The authority and the secondary creator of a settings record, in the
    /// proportion it gives. The secondary creator countersigns the metadata.
    Split { secondary_creator: Pubkey, settings: MeepSettings },
}

/// A way to share the revenue, as contracts speak of it.
pub ghost enum CreatorSplitView {
    Single,
    Split { secondary_creator: Seq<u8>, settings: SettingsView },
}

impl View for CreatorSplit {
    type V = CreatorSplitView;

    open spec fn view(&self) -> CreatorSplitView {
        match self {
            CreatorSplit::Single => CreatorSplitView::Single,
            CreatorSplit::Split { secondary_creator, settings } => CreatorSplitView::Split {
                secondary_creator: secondary_creator@,
                settings: settings@,
            },
        }
    }
}

impl CreatorSplitView {
    /// Whether the settings that give the split, if any, are a settings record.
    pub open spec fn wf(self) -> bool {
        self matches CreatorSplitView::Split { settings, .. } ==> settings.wf()
    }

    /// The creator list of the metadata record, each entry as its identity,
    /// whether it is verified when the record is created, and its share.
    pub open spec fn spec_creators(self, authority: Seq<u8>) -> Seq<(Seq<u8>, bool, u8)> {
        match self {
            CreatorSplitView::Single => seq![(authority, true, 100u8)],
            CreatorSplitView::Split { settings, .. } => seq![
                (settings.authority, true, settings.primary_wallet_percentage),
                (
                    settings.secondary_creator,
                    false,
                    (100 - settings.primary_wallet_percentage) as u8,
                ),
            ],
        }
    }
}

impl CreatorSplit {
    /// The creator list of the metadata record of an asset funded by
    /// `authority`.
    pub fn creators(&self, authority: &Pubkey) -> (list: Vec<Creator>)
        requires
            self@.wf(),
        ensures
            creators_view(list@) == self@.spec_creators(authority@),
            list@.len() <= 2,
    {
        let list = match self {
            CreatorSplit::Single => {
                vec![Creator { address: *authority, verified: true, share: 100 }]
            },
            CreatorSplit::Split { settings, .. } => {
                let primary_creator = Creator {
                    address: settings.authority,
                    share: settings.primary_wallet_percentage,
                    verified: true,
                };
                let secondary_creator = Creator {
                    address: settings.secondary_creator,
                    share: 100 - settings.primary_wallet_percentage,
                    verified: false,
                };
                vec![primary_creator, secondary_creator]
            },
        };
        assert(creators_view(list@) =~= self@.spec_creators(authority@));
        list
    }
}

/// A call that no derived address signs.
pub open spec fn spec_call(instruction: InstructionView, account_keys: Seq<Seq<u8>>) -> StepView {
    StepView::Invoke(InvocationView { instruction, account_keys, signer_seeds: Seq::empty() })
}

/// The steps that make `mint` a token type without decimals, with
/// `authority` as its mint authority.
pub open spec fn spec_prepare_mint_account(
    authority: Seq<u8>,
    mint: Seq<u8>,
    system_program: Seq<u8>,
    token_program: Seq<u8>,
    rent_program: Seq<u8>,
) -> Seq<StepView> {
    seq![
        StepView::CreateAccount(
            CreateAccountView {
                payer: authority,
                account: mint,
                space: MINT_LEN,
                owner: TOKEN_PROGRAM_ID@,
                rent: rent_program,
                account_keys: seq![authority, mint, system_program],
                signer_seeds: Seq::empty(),
            },
        ),
        spec_call(
            InstructionView {
                program_id: TOKEN_PROGRAM_ID@,
                accounts: seq![writable(mint, false), readonly(RENT_SYSVAR_ID@, false)],
                data: initialize_mint_data(authority, None, 0),
            },
            seq![mint, authority, token_program, rent_program],
        ),
    ]
}

/// The steps that create the account `token_account`, bind it to `mint`
/// under the ownership of `authority`, and mint one unit into it.
pub open spec fn spec_prepare_token_account(
    authority: Seq<u8>,
    token_account: Seq<u8>,
    mint: Seq<u8>,
    system_program: Seq<u8>,
    token_program: Seq<u8>,
    rent_program: Seq<u8>,
) -> Seq<StepView> {
    seq![
        StepView::CreateAccount(
            CreateAccountView {
                payer: authority,
                account: token_account,
                space: ACCOUNT_LEN,
                owner: TOKEN_PROGRAM_ID@,
                rent: rent_program,
                account_keys: seq![authority, token_account, system_program],
                signer_seeds: Seq::empty(),
            },
        ),
        spec_call(
            InstructionView {
                program_id: TOKEN_PROGRAM_ID@,
                accounts: seq![
                    writable(token_account, false),
                    readonly(mint, false),
                    readonly(authority, false),
                    readonly(RENT_SYSVAR_ID@, false),
                ],
                data: seq![1u8],
            },
            seq![authority, token_account, mint, token_program, rent_program],
        ),
        spec_call(
            InstructionView {
                program_id: TOKEN_PROGRAM_ID@,
                accounts: mint_to_accounts(mint, token_account, authority, seq![authority]),
                data: seq![7u8] + spec_u64_to_le_bytes(1),
            },
            seq![authority, token_account, mint, token_program],
        ),
    ]
}

/// The steps that create the metadata record of `mint` at `metadata`, and
/// have the secondary creator countersign it where there is one.
pub open spec fn spec_init_metadata_at(
    metadata: Seq<u8>,
    authority: Seq<u8>,
    split: CreatorSplitView,
    mint: Seq<u8>,
    token_metadata: Seq<u8>,
    system_program: Seq<u8>,
    rent_program: Seq<u8>,
    metaplex_program: Seq<u8>,
    mint_args: MintNftArgsView,
) -> Seq<StepView> {
    let create = InstructionView {
        program_id: METADATA_PROGRAM_ID@,
        accounts: seq![
            writable(metadata, false),
            readonly(mint, false),
            readonly(authority, true),
            writable(authority, true),
            readonly(authority, true),
            readonly(SYSTEM_PROGRAM_ID@, false),
            readonly(RENT_SYSVAR_ID@, false),
        ],
        data: create_metadata_data(
            mint_args.token_name,
            mint_args.token_symbol,
            mint_args.uri,
            Some(split.spec_creators(authority)),
            mint_args.seller_fee_basis_points,
            false,
        ),
    };
    match split {
        CreatorSplitView::Single => seq![
            spec_call(
                create,
                seq![
                    authority,
                    token_metadata,
                    mint,
                    system_program,
                    rent_program,
                    metaplex_program,
                ],
            ),
        ],
        CreatorSplitView::Split { secondary_creator, .. } => seq![
            spec_call(
                create,
                seq![
                    authority,
                    secondary_creator,
                    token_metadata,
                    mint,
                    system_program,
                    rent_program,
                    metaplex_program,
                ],
            ),
            spec_call(
                InstructionView {
                    program_id: METADATA_PROGRAM_ID@,
                    accounts: seq![writable(metadata, false), readonly(secondary_creator, true)],
                    data: seq![7u8],
                },
                seq![token_metadata, secondary_creator, metaplex_program],
            ),
        ],
    }
}

/// The steps that create the metadata record of `mint` at its canonical
/// address.
pub open spec fn spec_init_metadata(
    authority: Seq<u8>,
    split: CreatorSplitView,
    mint: Seq<u8>,
    token_metadata: Seq<u8>,
    system_program: Seq<u8>,
    rent_program: Seq<u8>,
    metaplex_program: Seq<u8>,
    mint_args: MintNftArgsView,
) -> Result<Seq<StepView>, ProgramError> {
    match Pda::spec_metadata_pubkey(mint) {
        None => Err(ProgramError::InvalidSeeds),
        Some(metadata) => Ok(
            spec_init_metadata_at(
                metadata,
                authority,
                split,
                mint,
                token_metadata,
                system_program,
                rent_program,
                metaplex_program,
                mint_args,
            ),
        ),
    }
}

/// The step that creates the edition record of `mint` at `edition`: it caps
/// the number of copies at none.
pub open spec fn spec_init_master_edition_at(
    edition: Seq<u8>,
    authority: Seq<u8>,
    mint: Seq<u8>,
    token_metadata: Seq<u8>,
    master_edition: Seq<u8>,
    system_program: Seq<u8>,
    rent_program: Seq<u8>,
    metaplex_program: Seq<u8>,
) -> Seq<StepView> {
    seq![
        spec_call(
            InstructionView {
                program_id: METADATA_PROGRAM_ID@,
                accounts: seq![
                    writable(edition, false),
                    writable(mint, false),
                    readonly(authority, true),
                    readonly(authority, true),
                    writable(authority, true),
                    readonly(token_metadata, false),
                    readonly(TOKEN_PROGRAM_ID@, false),
                    readonly(SYSTEM_PROGRAM_ID@, false),
                    readonly(RENT_SYSVAR_ID@, false),
                ],
                data: create_master_edition_data(Some(0u64)),
            },
            seq![
                authority,
                mint,
                token_metadata,
                master_edition,
                system_program,
                metaplex_program,
                rent_program,
            ],
        ),
    ]
}

/// The step that creates the edition record of `mint` at its canonical
/// address.
pub open spec fn spec_init_master_edition(
    authority: Seq<u8>,
    mint: Seq<u8>,
    token_metadata: Seq<u8>,
    master_edition: Seq<u8>,
    system_program: Seq<u8>,
    rent_program: Seq<u8>,
    metaplex_program: Seq<u8>,
) -> Result<Seq<StepView>, ProgramError> {
    match Pda::spec_master_edition_pubkey(mint) {
        None => Err(ProgramError::InvalidSeeds),
        Some(edition) => Ok(
            spec_init_master_edition_at(
                edition,
                authority,
                mint,
                token_metadata,
                master_edition,
                system_program,
                rent_program,
                metaplex_program,
            ),
        ),
    }
}

/// A call that no derived address signs.
fn call(instruction: Instruction, account_keys: Vec<Pubkey>) -> (step: Step)
    ensures
        step@ == spec_call(instruction@, keys_view(account_keys@)),
{
    let step = Step::Invoke(Invocation { instruction, account_keys, signer_seeds: Vec::new() });
    assert(seeds_view(Seq::<Vec<u8>>::empty()) =~= Seq::<Seq<u8>>::empty());
    step
}

/// Step one of a mint: create the mint descriptor and make it a token type
/// without decimals, with the authority as its mint authority.
pub fn prepare_mint_account(
    authority_info: &AccountInfo,
    mint_info: &AccountInfo,
    system_program: &AccountInfo,
    token_program: &AccountInfo,
    rent_program: &AccountInfo,
) -> (steps: Vec<Step>)
    ensures
        steps_view(steps@) == spec_prepare_mint_account(
            authority_info@.key,
            mint_info@.key,
            system_program@.key,
            token_program@.key,
            rent_program@.key,
        ),
{
    let token_ledger = Pubkey::new_from_array(TOKEN_PROGRAM_ID);
    let create_keys = vec![authority_info.key, mint_info.key, system_program.key];
    assert(keys_view(create_keys@) =~= seq![
        authority_info@.key,
        mint_info@.key,
        system_program@.key,
    ]);
    let create = Step::CreateAccount(
        CreateAccount {
            payer: authority_info.key,
            account: mint_info.key,
            space: MINT_LEN,
            owner: token_ledger,
            rent: rent_program.key,
            account_keys: create_keys,
            signer_seeds: Vec::new(),
        },
    );
    assert(seeds_view(Seq::<Vec<u8>>::empty()) =~= Seq::<Seq<u8>>::empty());
    let init_keys = vec![mint_info.key, authority_info.key, token_program.key, rent_program.key];
    assert(keys_view(init_keys@) =~= seq![
        mint_info@.key,
        authority_info@.key,
        token_program@.key,
        rent_program@.key,
    ]);
    let init = match initialize_mint(&token_ledger, &mint_info.key, &authority_info.key, None, 0) {
        Some(instruction) => call(instruction, init_keys),
        None => unreached(),
    };
    let steps = vec![create, init];
    assert(steps_view(steps@) =~= spec_prepare_mint_account(
        authority_info@.key,
        mint_info@.key,
        system_program@.key,
        token_program@.key,
        rent_program@.key,
    ));
    steps
}

/// Step two of a mint: create the holding account, bind it to the mint
/// under the ownership of the authority, and mint exactly one unit into it.
pub fn prepare_token_account(
    authority_info: &AccountInfo,
    token_account_info: &AccountInfo,
    mint_info: &AccountInfo,
    system_program: &AccountInfo,
    token_program: &AccountInfo,
    rent_program: &AccountInfo,
) -> (steps: Vec<Step>)
    ensures
        steps_view(steps@) == spec_prepare_token_account(
            authority_info@.key,
            token_account_info@.key,
            mint_info@.key,
            system_program@.key,
            token_program@.key,
            rent_program@.key,
        ),
{
    let token_ledger = Pubkey::new_from_array(TOKEN_PROGRAM_ID);
    let authority = authority_info.key;
    let token_account = token_account_info.key;
    let mint = mint_info.key;
    let create_keys = vec![authority, token_account, system_program.key];
    assert(keys_view(create_keys@) =~= seq![authority@, token_account@, system_program@.key]);
    let create = Step::CreateAccount(
        CreateAccount {
            payer: authority,
            account: token_account,
            space: ACCOUNT_LEN,
            owner: token_ledger,
            rent: rent_program.key,
            account_keys: create_keys,
            signer_seeds: Vec::new(),
        },
    );
    assert(seeds_view(Seq::<Vec<u8>>::empty()) =~= Seq::<Seq<u8>>::empty());
    let init_keys = vec![authority, token_account, mint, token_program.key, rent_program.key];
    assert(keys_view(init_keys@) =~= seq![
        authority@,
        token_account@,
        mint@,
        token_program@.key,
        rent_program@.key,
    ]);
    let init = match initialize_account(&token_ledger, &token_account, &mint, &authority) {
        Some(instruction) => call(instruction, init_keys),
        None => unreached(),
    };
    let signers = vec![authority];
    assert(keys_view(signers@) =~= seq![authority@]);
    let mint_keys = vec![authority, token_account, mint, token_program.key];
    assert(keys_view(mint_keys@) =~= seq![authority@, token_account@, mint@, token_program@.key]);
    let mint_one = match mint_to(&token_ledger, &mint, &token_account, &authority, &signers, 1) {
        Some(instruction) => call(instruction, mint_keys),
        None => unreached(),
    };
    let steps = vec![create, init, mint_one];
    assert(steps_view(steps@) =~= spec_prepare_token_account(
        authority@,
        token_account@,
        mint@,
        system_program@.key,
        token_program@.key,
        rent_program@.key,
    ));
    steps
}

/// Step three of a mint, and step four where the revenue is split: create
/// the metadata record at its canonical address, immutable, with the creator
/// list that `split` gives; then have the secondary creator countersign it.
/// Fails with `InvalidSeeds` in the event that the address cannot be derived.
pub fn init_metadata(
    authority_info: &AccountInfo,
    split: &CreatorSplit,
    mint_info: &AccountInfo,
    token_metadata_info: &AccountInfo,
    system_program: &AccountInfo,
    rent_program: &AccountInfo,
    metaplex_program: &AccountInfo,
    mint_args: MintNftArgs,
) -> (planned: Result<Vec<Step>, ProgramError>)
    requires
        split@.wf(),
        mint_args@.encodable(),
    ensures
        plan_view(planned) == spec_init_metadata(
            authority_info@.key,
            split@,
            mint_info@.key,
            token_metadata_info@.key,
            system_program@.key,
            rent_program@.key,
            metaplex_program@.key,
            mint_args@,
        ),
{
    let registry = Pubkey::new_from_array(METADATA_PROGRAM_ID);
    let authority = authority_info.key;
    let mint = mint_info.key;
    let metadata_pubkey = match Pda::metadata_pubkey(&mint) {
        Some(address) => address,
        None => { return Err(ProgramError::InvalidSeeds); },
    };
    let creators = split.creators(&authority);
    let ghost args = mint_args@;
    let create = create_metadata_accounts(
        &registry,
        &metadata_pubkey,
        &mint,
        &authority,
        &authority,
        &authority,
        mint_args.token_name,
        mint_args.token_symbol,
        mint_args.uri,
        &creators,
        mint_args.seller_fee_basis_points,
        true,
        false,
    );
    let steps = match split {
        CreatorSplit::Single => {
            let keys = vec![
                authority,
                token_metadata_info.key,
                mint,
                system_program.key,
                rent_program.key,
                metaplex_program.key,
            ];
            assert(keys_view(keys@) =~= seq![
                authority@,
                token_metadata_info@.key,
                mint@,
                system_program@.key,
                rent_program@.key,
                metaplex_program@.key,
            ]);
            vec![call(create, keys)]
        },
        CreatorSplit::Split { secondary_creator, .. } => {
            let keys = vec![
                authority,
                *secondary_creator,
                token_metadata_info.key,
                mint,
                system_program.key,
                rent_program.key,
                metaplex_program.key,
            ];
            assert(keys_view(keys@) =~= seq![
                authority@,
                secondary_creator@,
                token_metadata_info@.key,
                mint@,
                system_program@.key,
                rent_program@.key,
                metaplex_program@.key,
            ]);
            let sign_keys = vec![token_metadata_info.key, *secondary_creator, metaplex_program.key];
            assert(keys_view(sign_keys@) =~= seq![
                token_metadata_info@.key,
                secondary_creator@,
                metaplex_program@.key,
            ]);
            let sign = sign_metadata(&registry, &metadata_pubkey, secondary_creator);
            vec![call(create, keys), call(sign, sign_keys)]
        },
    };
    assert(steps_view(steps@) =~= spec_init_metadata_at(
        metadata_pubkey@,
        authority@,
        split@,
        mint@,
        token_metadata_info@.key,
        system_program@.key,
        rent_program@.key,
        metaplex_program@.key,
        args,
    ));
    Ok(steps)
}

/// Step five of a mint: create the edition record at its canonical address,
/// with the number of copies capped at none. Fails with `InvalidSeeds` in the
/// event that the address cannot be derived.
pub fn init_master_edition(
    authority_info: &AccountInfo,
    mint_info: &AccountInfo,
    token_metadata_info: &AccountInfo,
    master_edition_info: &AccountInfo,
    system_program: &AccountInfo,
    rent_program: &AccountInfo,
    metaplex_program: &AccountInfo,
) -> (planned: Result<Vec<Step>, ProgramError>)
    ensures
        plan_view(planned) == spec_init_master_edition(
            authority_info@.key,
            mint_info@.key,
            token_metadata_info@.key,
            master_edition_info@.key,
            system_program@.key,
            rent_program@.key,
            metaplex_program@.key,
        ),
{
    let registry = Pubkey::new_from_array(METADATA_PROGRAM_ID);
    let authority = authority_info.key;
    let mint = mint_info.key;
    let edition_pubkey = match Pda::master_edition_pubkey(&mint) {
        Some(address) => address,
        None => { return Err(ProgramError::InvalidSeeds); },
    };
    let create = create_master_edition(
        &registry,
        &edition_pubkey,
        &mint,
        &authority,
        &authority,
        &token_metadata_info.key,
        &authority,
        Some(0),
    );
    let keys = vec![
        authority,
        mint,
        token_metadata_info.key,
        master_edition_info.key,
        system_program.key,
        metaplex_program.key,
        rent_program.key,
    ];
    assert(keys_view(keys@) =~= seq![
        authority@,
        mint@,
        token_metadata_info@.key,
        master_edition_info@.key,
        system_program@.key,
        metaplex_program@.key,
        rent_program@.key,
    ]);
    let steps = vec![call(create, keys)];
    assert(steps_view(steps@) =~= spec_init_master_edition_at(
        edition_pubkey@,
        authority@,
        mint@,
        token_metadata_info@.key,
        master_edition_info@.key,
        system_program@.key,
        rent_program@.key,
        metaplex_program@.key,
    ));
    Ok(steps)
}

/// The five steps of a mint, in order: mint descriptor, holding account with
/// its one unit, metadata record, countersignature where the revenue is
/// split, edition record.
pub open spec fn spec_mint_pipeline(
    authority: Seq<u8>,
    split: CreatorSplitView,
    mint: Seq<u8>,
    token_account: Seq<u8>,
    token_metadata: Seq<u8>,
    master_edition: Seq<u8>,
    system_program: Seq<u8>,
    token_program: Seq<u8>,
    rent_program: Seq<u8>,
    metaplex_program: Seq<u8>,
    mint_args: MintNftArgsView,
) -> Result<Seq<StepView>, ProgramError> {
    match spec_init_metadata(
        authority,
        split,
        mint,
        token_metadata,
        system_program,
        rent_program,
        metaplex_program,
        mint_args,
    ) {
        Err(e) => Err(e),
        Ok(metadata_steps) => match spec_init_master_edition(
            authority,
            mint,
            token_metadata,
            master_edition,
            system_program,
            rent_program,
            metaplex_program,
        ) {
            Err(e) => Err(e),
            Ok(edition_steps) => Ok(
                spec_prepare_mint_account(
                    authority,
                    mint,
                    system_program,
                    token_program,
                    rent_program,
                ) + spec_prepare_token_account(
                    authority,
                    token_account,
                    mint,
                    system_program,
                    token_program,
                    rent_program,
                ) + metadata_steps + edition_steps,
            ),
        },
    }
}

/// Plans a mint: the steps that create the asset of `mint_info` for the
/// authority, with its revenue shared as `split` says. Nothing is planned
/// in the event that a canonical address cannot be derived.
pub fn mint_pipeline(
    authority_info: &AccountInfo,
    split: &CreatorSplit,
    mint_info: &AccountInfo,
    token_account_info: &AccountInfo,
    token_metadata_info: &AccountInfo,
    master_edition_info: &AccountInfo,
    system_program: &AccountInfo,
    token_program: &AccountInfo,
    rent_program: &AccountInfo,
    metaplex_program: &AccountInfo,
    mint_args: MintNftArgs,
) -> (planned: Result<Vec<Step>, ProgramError>)
    requires
        split@.wf(),
        mint_args@.encodable(),
    ensures
        plan_view(planned) == spec_mint_pipeline(
            authority_info@.key,
            split@,
            mint_info@.key,
            token_account_info@.key,
            token_metadata_info@.key,
            master_edition_info@.key,
            system_program@.key,
            token_program@.key,
            rent_program@.key,
            metaplex_program@.key,
            mint_args@,
        ),
{
    let metadata_steps = match init_metadata(
        authority_info,
        split,
        mint_info,
        token_metadata_info,
        system_program,
        rent_program,
        metaplex_program,
        mint_args,
    ) {
        Ok(steps) => steps,
        Err(e) => { return Err(e); },
    };
    let edition_steps = match init_master_edition(
        authority_info,
        mint_info,
        token_metadata_info,
        master_edition_info,
        system_program,
        rent_program,
        metaplex_program,
    ) {
        Ok(steps) => steps,
        Err(e) => { return Err(e); },
    };
    let mut steps = prepare_mint_account(
        authority_info,
        mint_info,
        system_program,
        token_program,
        rent_program,
    );
    append_steps(
        &mut steps,
        prepare_token_account(
            authority_info,
            token_account_info,
            mint_info,
            system_program,
            token_program,
            rent_program,
        ),
    );
    append_steps(&mut steps, metadata_steps);
    append_steps(&mut steps, edition_steps);
    Ok(steps)
}

/// What a mint request on `accounts` leads to.
pub open spec fn spec_process_mint(
    program_id: Seq<u8>,
    accounts: Seq<AccountInfoView>,
    mint_args: MintNftArgsView,
) -> Result<Seq<StepView>, ProgramError> {
    if accounts.len() < 11 {
        Err(ProgramError::NotEnoughAccountKeys)
    } else {
        match spec_get_settings_checked(
            program_id,
            accounts[0].key,
            accounts[2].key,
            accounts[2].data,
        ) {
            Err(e) => Err(e),
            Ok(settings) => match spec_assert_authority(
                settings,
                accounts[0].key,
                accounts[0].is_signer,
            ) {
                Err(e) => Err(e),
                Ok(_) => match spec_assert_secondary_creator(settings, accounts[1].key) {
                    Err(e) => Err(e),
                    Ok(_) => if !accounts[1].is_signer {
                        Err(ProgramError::MissingRequiredSignature)
                    } else {
                        spec_mint_pipeline(
                            accounts[0].key,
                            CreatorSplitView::Split {
                                secondary_creator: accounts[1].key,
                                settings,
                            },
                            accounts[3].key,
                            accounts[4].key,
                            accounts[5].key,
                            accounts[6].key,
                            accounts[7].key,
                            accounts[8].key,
                            accounts[9].key,
                            accounts[10].key,
                            mint_args,
                        )
                    },
                },
            },
        }
    }
}

/// Plans the mint operation on the accounts of a request: the authority,
/// the secondary creator, the settings record, the mint, the token account,
/// the metadata record, the edition record, the account-creation service,
/// the token ledger, the rent record and the metadata registry, in this order.
///
/// Nothing is planned unless the settings record is the one of the authority,
/// the authority signed, the secondary creator is the one of the record, and
/// it signed too, as its countersignature of the metadata needs.
pub fn process_mint(
    program_id: &Pubkey,
    accounts: &[AccountInfo],
    mint_args: MintNftArgs,
) -> (planned: Result<Vec<Step>, ProgramError>)
    requires
        mint_args@.encodable(),
    ensures
        plan_view(planned) == spec_process_mint(program_id@, accounts_view(accounts@), mint_args@),
{
    if accounts.len() < 11 {
        return Err(ProgramError::NotEnoughAccountKeys);
    }
    let authority_info = &accounts[0];
    let secondary_creator_info = &accounts[1];
    let settings_info = &accounts[2];
    let mint_info = &accounts[3];
    let token_account_info = &accounts[4];
    let token_metadata_info = &accounts[5];
    let master_edition_info = &accounts[6];
    let system_program = &accounts[7];
    let token_program = &accounts[8];
    let rent_program = &accounts[9];
    let metaplex_program = &accounts[10];

    let settings = match get_settings_checked(program_id, authority_info, settings_info) {
        Ok(settings) => settings,
        Err(e) => { return Err(e); },
    };
    match assert_authority(&settings, authority_info) {
        Ok(_) => {},
        Err(e) => { return Err(e); },
    }
    match assert_secondary_creator(&settings, secondary_creator_info) {
        Ok(_) => {},
        Err(e) => { return Err(e); },
    }
    if !secondary_creator_info.is_signer {
        return Err(ProgramError::MissingRequiredSignature);
    }
    proof {
        SettingsView::lemma_bytes_of_from_bytes(settings_info@.data);
    }
    let split = CreatorSplit::Split { secondary_creator: secondary_creator_info.key, settings };
    mint_pipeline(
        authority_info,
        &split,
        mint_info,
        token_account_info,
        token_metadata_info,
        master_edition_info,
        system_program,
        token_program,
        rent_program,
        metaplex_program,
        mint_args,
    )
}

/// Where the revenue is split, the creator list has two entries whose shares
/// sum to 100: first the authority of the settings, verified, with the
/// primary share; then the secondary creator, another identity, not yet
/// verified, with the rest.
pub proof fn lemma_split_creators(
    secondary_creator: Pubkey,
    settings: MeepSettings,
    authority: Pubkey,
)
    requires
        settings@.wf(),
    ensures
        ({
            let creators = (CreatorSplit::Split { secondary_creator, settings })@.spec_creators(
                authority@,
            );
            &&& creators.len() == 2
            &&& creators[0] == (settings.authority@, true, settings.primary_wallet_percentage)
            &&& creators[1].0 == settings.secondary_creator@
            &&& creators[1].1 == false
            &&& creators[1].2 == 100 - settings.primary_wallet_percentage
            &&& creators[0].2 + creators[1].2 == 100
            &&& creators[0].0 != creators[1].0
        }),
{
}

/// Where the revenue is not split, the creator list has one entry: the
/// funding identity, verified, with a share of 100.
pub proof fn lemma_single_creator(authority: Pubkey)
    ensures
        CreatorSplit::Single@.spec_creators(authority@) == seq![(authority@, true, 100u8)],
{
}

/// Every plan of a mint begins with the creation of the mint descriptor at
/// the mint of the request, and ends with the creation of an edition record
/// whose cap on copies is none. A mint that has been used before therefore
/// fails at its first step, before any metadata or edition is asked for.
pub proof fn lemma_pipeline_order(
    authority_info: AccountInfo,
    split: CreatorSplit,
    mint_info: AccountInfo,
    token_account_info: AccountInfo,
    token_metadata_info: AccountInfo,
    master_edition_info: AccountInfo,
    system_program: AccountInfo,
    token_program: AccountInfo,
    rent_program: AccountInfo,
    metaplex_program: AccountInfo,
    mint_args: MintNftArgs,
)
    requires
        spec_mint_pipeline(
            authority_info@.key,
            split@,
            mint_info@.key,
            token_account_info@.key,
            token_metadata_info@.key,
            master_edition_info@.key,
            system_program@.key,
            token_program@.key,
            rent_program@.key,
            metaplex_program@.key,
            mint_args@,
        ) is Ok,
    ensures
        ({
            let steps = spec_mint_pipeline(
                authority_info@.key,
                split@,
                mint_info@.key,
                token_account_info@.key,
                token_metadata_info@.key,
                master_edition_info@.key,
                system_program@.key,
                token_program@.key,
                rent_program@.key,
                metaplex_program@.key,
                mint_args@,
            ).unwrap();
            &&& steps.len() == if split is Single { 7int } else { 8int }
            &&& steps[0] matches StepView::CreateAccount(create) && create.account == mint_info@.key
            &&& steps[1] is Invoke
            &&& steps[2] matches StepView::CreateAccount(create) && create.account
                == token_account_info@.key
            &&& steps[3] is Invoke
            &&& steps[4] is Invoke
            &&& steps[5] matches StepView::Invoke(call) && call.instruction.data
                == create_metadata_data(
                mint_args@.token_name,
                mint_args@.token_symbol,
                mint_args@.uri,
                Some(split@.spec_creators(authority_info@.key)),
                mint_args@.seller_fee_basis_points,
                false,
            )
            &&& steps.last() matches StepView::Invoke(call) && call.instruction.data
                == create_master_edition_data(Some(0u64))
        }),
{
}

/// A mint request that is accepted asks the metadata registry for a creator
/// list of two: the authority that funds the mint, verified, with the share
/// that its settings record gives it, and the secondary creator with the
/// rest, who is then asked to countersign.
pub proof fn lemma_mint_outcome(
    program_id: Pubkey,
    accounts: Seq<AccountInfo>,
    mint_args: MintNftArgs,
)
    requires
        spec_process_mint(program_id@, accounts_view(accounts), mint_args@) is Ok,
    ensures
        ({
            let steps = spec_process_mint(
                program_id@,
                accounts_view(accounts),
                mint_args@,
            ).unwrap();
            let settings = SettingsView::spec_from_bytes(accounts[2].data@).unwrap();
            let share = settings.primary_wallet_percentage;
            &&& share <= 100
            &&& accounts[0].key@ != accounts[1].key@
            &&& steps.len() == 8
            &&& steps[5] matches StepView::Invoke(call) && call.instruction.data
                == create_metadata_data(
                mint_args@.token_name,
                mint_args@.token_symbol,
                mint_args@.uri,
                Some(
                    seq![
                        (accounts[0].key@, true, share),
                        (accounts[1].key@, false, (100 - share) as u8),
                    ],
                ),
                mint_args@.seller_fee_basis_points,
                false,
            )
            &&& steps[6] matches StepView::Invoke(call) && call.instruction.accounts[1] == readonly(
                accounts[1].key@,
                true,
            )
            &&& steps[7] matches StepView::Invoke(call) && call.instruction.data
                == create_master_edition_data(Some(0u64))
        }),
{
    SettingsView::lemma_bytes_of_from_bytes(accounts[2].data@);
}

/// No mint is planned unless the authority and the secondary creator both
/// signed the request, the settings record lies at the canonical address of
/// the authority, and it names the two as its parties.
pub proof fn lemma_mint_is_authorized(
    program_id: Pubkey,
    accounts: Seq<AccountInfo>,
    mint_args: MintNftArgs,
)
    requires
        spec_process_mint(program_id@, accounts_view(accounts), mint_args@) is Ok,
    ensures
        accounts.len() >= 11,
        accounts[0].is_signer,
        accounts[1].is_signer,
        Pda::spec_settings_pubkey_with_bump(program_id@, accounts[0].key@) matches Some(
            (address, _),
        ) && accounts[2].key@ == address,
        SettingsView::spec_from_bytes(accounts[2].data@) matches Some(settings) && {
            &&& settings.wf()
            &&& settings.authority == accounts[0].key@
            &&& settings.secondary_creator == accounts[1].key@
        },
{
    SettingsView::lemma_bytes_of_from_bytes(accounts[2].data@);
}

/// The steps of a mint let four identities sign and no other: the authority,
/// the secondary creator, the mint and the token account. They may change
/// what these hold but for the secondary creator, and the metadata and edition
/// records at their canonical addresses, and nothing else: not the settings.
pub proof fn lemma_mint_privileges(
    program_id: Pubkey,
    accounts: Seq<AccountInfo>,
    mint_args: MintNftArgs,
)
    requires
        spec_process_mint(program_id@, accounts_view(accounts), mint_args@) is Ok,
    ensures
        ({
            let steps = spec_process_mint(
                program_id@,
                accounts_view(accounts),
                mint_args@,
            ).unwrap();
            &&& forall|i: int, key: Seq<u8>|
                0 <= i < steps.len() && #[trigger] steps[i].lets_sign(key) ==> {
                    ||| key == accounts[0].key@
                    ||| key == accounts[1].key@
                    ||| key == accounts[3].key@
                    ||| key == accounts[4].key@
                }
            &&& forall|i: int, key: Seq<u8>|
                0 <= i < steps.len() && #[trigger] steps[i].may_change(key) ==> {
                    ||| key == accounts[0].key@
                    ||| key == accounts[3].key@
                    ||| key == accounts[4].key@
                    ||| Some(key) == Pda::spec_metadata_pubkey(accounts[3].key@)
                    ||| Some(key) == Pda::spec_master_edition_pubkey(accounts[3].key@)
                }
        }),
{
    SettingsView::lemma_bytes_of_from_bytes(accounts[2].data@);
    let steps = spec_process_mint(program_id@, accounts_view(accounts), mint_args@).unwrap();
    assert(steps.len() == 8);
    assert forall|i: int, key: Seq<u8>|
        0 <= i < steps.len() && #[trigger] steps[i].lets_sign(key) implies {
        ||| key == accounts[0].key@
        ||| key == accounts[1].key@
        ||| key == accounts[3].key@
        ||| key == accounts[4].key@
    } by {
        match steps[i] {
            StepView::Invoke(invocation) => {
                let metas = invocation.instruction.accounts;
                let j = choose|j: int|
                    0 <= j < metas.len() && #[trigger] metas[j].pubkey == key && metas[j].is_signer;
                assert(0 <= j < metas.len() && metas[j].pubkey == key);
            },
            _ => {},
        }
    }
    assert forall|i: int, key: Seq<u8>|
        0 <= i < steps.len() && #[trigger] steps[i].may_change(key) implies {
        ||| key == accounts[0].key@
        ||| key == accounts[3].key@
        ||| key == accounts[4].key@
        ||| Some(key) == Pda::spec_metadata_pubkey(accounts[3].key@)
        ||| Some(key) == Pda::spec_master_edition_pubkey(accounts[3].key@)
    } by {
        match steps[i] {
            StepView::Invoke(invocation) => {
                let metas = invocation.instruction.accounts;
                let j = choose|j: int|
                    0 <= j < metas.len() && #[trigger] metas[j].pubkey == key
                        && metas[j].is_writable;
                assert(0 <= j < metas.len() && metas[j].pubkey == key);
            },
            _ => {},
        }
    }
}

} // verus!
