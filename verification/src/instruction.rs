//! The operations of the program, the layout of the requests that ask for
//! them, and the requests themselves, as a client sends them.

use crate::encoding::{
    lemma_bytes_of_parse_text, lemma_parse_text_of_bytes, read_text, read_u16, read_u64,
    spec_parse_text, spec_text_bytes, text_fits, write_text, write_u16, write_u64,
};
use vstd::bytes::{
    lemma_auto_spec_u16_to_from_le_bytes, lemma_auto_spec_u64_to_from_le_bytes,
    spec_u16_from_le_bytes, spec_u16_to_le_bytes, spec_u64_from_le_bytes, spec_u64_to_le_bytes,
};
use crate::account::{readonly, writable, AccountMeta, Instruction, InstructionView};
use crate::pubkey::{
    Pubkey, METADATA_PROGRAM_ID, RENT_SYSVAR_ID, SYSTEM_PROGRAM_ID, TOKEN_PROGRAM_ID,
};
use crate::utils::Pda;
use vstd::prelude::*;
use vstd::slice::slice_subrange;

verus! {

/// The replaceable part of a settings record.
#[derive(Clone, Copy, Debug, PartialEq, Eq, Structural)]
pub struct SettingsArgs {
    /// Share of the primary wallet, in percent: 0 to 100.
    pub primary_wallet_percentage: u8,
    pub minimum_price: u64,
}

impl SettingsArgs {
    /// The arguments as a request carries them: the share, then the price.
    pub open spec fn spec_bytes(self) -> Seq<u8> {
        seq![self.primary_wallet_percentage] + spec_u64_to_le_bytes(self.minimum_price)
    }

    /// The arguments that `data` carries, if it is exactly as long as they are.
    pub open spec fn spec_from_bytes(data: Seq<u8>) -> Option<SettingsArgs> {
        if data.len() == 9 {
            Some(
                SettingsArgs {
                    primary_wallet_percentage: data[0],
                    minimum_price: spec_u64_from_le_bytes(data.subrange(1, 9)),
                },
            )
        } else {
            None
        }
    }
}

/// What a mint request says of the asset.
#[derive(Clone, Debug, PartialEq, Eq)]
pub struct MintNftArgs {
    pub seller_fee_basis_points: u16,
    pub token_name: String,
    pub token_symbol: String,
    pub uri: String,
}

/// The arguments of a mint request, as contracts speak of them.
pub ghost struct MintNftArgsView {
    pub seller_fee_basis_points: u16,
    pub token_name: Seq<char>,
    pub token_symbol: Seq<char>,
    pub uri: Seq<char>,
}

impl View for MintNftArgs {
    type V = MintNftArgsView;

    open spec fn view(&self) -> MintNftArgsView {
        MintNftArgsView {
            seller_fee_basis_points: self.seller_fee_basis_points,
            token_name: self.token_name@,
            token_symbol: self.token_symbol@,
            uri: self.uri@,
        }
    }
}

impl MintNftArgsView {
    /// Whether each text is short enough for its length to be written down.
    pub open spec fn encodable(self) -> bool {
        &&& text_fits(self.token_name)
        &&& text_fits(self.token_symbol)
        &&& text_fits(self.uri)
    }

    /// The arguments as a request carries them: the fee, then the name, the
    /// symbol and the address of the description, each as a text field.
    pub open spec fn spec_bytes(self) -> Seq<u8> {
        spec_u16_to_le_bytes(self.seller_fee_basis_points) + spec_text_bytes(self.token_name)
            + spec_text_bytes(self.token_symbol) + spec_text_bytes(self.uri)
    }

    /// The arguments that `data` carries, if it carries them and nothing more.
    pub open spec fn spec_from_bytes(data: Seq<u8>) -> Option<MintNftArgsView> {
        if data.len() < 2 {
            None
        } else {
            match spec_parse_text(data.subrange(2, data.len() as int)) {
                None => None,
                Some((token_name, after_name)) => match spec_parse_text(after_name) {
                    None => None,
                    Some((token_symbol, after_symbol)) => match spec_parse_text(after_symbol) {
                        None => None,
                        Some((uri, rest)) => if rest.len() == 0 {
                            Some(
                                MintNftArgsView {
                                    seller_fee_basis_points: spec_u16_from_le_bytes(
                                        data.subrange(0, 2),
                                    ),
                                    token_name,
                                    token_symbol,
                                    uri,
                                },
                            )
                        } else {
                            None
                        },
                    },
                },
            }
        }
    }
}

/// The operations of the program, each with its arguments.
///
/// On the accounts of a request, by position:
///
/// `InitializeMeep`: the authority (signer, writable), the secondary creator
/// (signer), the settings record (writable), the account-creation service,
/// the rent record.
///
/// `UpdateSettings`: the authority (signer), the settings record (writable).
///
/// `MintNft`: the authority (signer, writable), the secondary creator
/// (signer), the settings record, the mint (signer, writable, fresh), the
/// token account (signer, writable, fresh), the metadata record (writable),
/// the edition record (writable), the account-creation service, the token
/// ledger, the rent record, the metadata registry.
#[derive(Clone, Debug, PartialEq, Eq)]
pub enum MeepInstructions {
    InitializeMeep(SettingsArgs),
    UpdateSettings(SettingsArgs),
    MintNft(MintNftArgs),
}

/// An operation with its arguments, as contracts speak of it.
pub ghost enum MeepInstructionsView {
    InitializeMeep(SettingsArgs),
    UpdateSettings(SettingsArgs),
    MintNft(MintNftArgsView),
}

impl View for MeepInstructions {
    type V = MeepInstructionsView;

    open spec fn view(&self) -> MeepInstructionsView {
        match self {
            MeepInstructions::InitializeMeep(args) => MeepInstructionsView::InitializeMeep(*args),
            MeepInstructions::UpdateSettings(args) => MeepInstructionsView::UpdateSettings(*args),
            MeepInstructions::MintNft(args) => MeepInstructionsView::MintNft(args@),
        }
    }
}

impl MeepInstructionsView {
    /// Whether a request can carry the arguments of the operation.
    pub open spec fn encodable(self) -> bool {
        self matches MeepInstructionsView::MintNft(args) ==> args.encodable()
    }

    /// The body of a request for this operation: its tag, then its arguments.
    pub open spec fn spec_bytes(self) -> Seq<u8> {
        match self {
            MeepInstructionsView::InitializeMeep(args) => seq![0u8] + args.spec_bytes(),
            MeepInstructionsView::UpdateSettings(args) => seq![1u8] + args.spec_bytes(),
            MeepInstructionsView::MintNft(args) => seq![2u8] + args.spec_bytes(),
        }
    }

    /// The operation that the body `data` asks for, if it asks for one.
    pub open spec fn spec_from_bytes(data: Seq<u8>) -> Option<MeepInstructionsView> {
        if data.len() == 0 {
            None
        } else {
            let body = data.subrange(1, data.len() as int);
            if data[0] == 0 {
                match SettingsArgs::spec_from_bytes(body) {
                    Some(args) => Some(MeepInstructionsView::InitializeMeep(args)),
                    None => None,
                }
            } else if data[0] == 1 {
                match SettingsArgs::spec_from_bytes(body) {
                    Some(args) => Some(MeepInstructionsView::UpdateSettings(args)),
                    None => None,
                }
            } else if data[0] == 2 {
                match MintNftArgsView::spec_from_bytes(body) {
                    Some(args) => Some(MeepInstructionsView::MintNft(args)),
                    None => None,
                }
            } else {
                None
            }
        }
    }

    /// A request body that was written for an operation asks for that
    /// operation, with the same arguments.
    pub proof fn lemma_from_bytes_of_bytes(self)
        requires
            self.encodable(),
        ensures
            Self::spec_from_bytes(self.spec_bytes()) == Some(self),
    {
        lemma_auto_spec_u16_to_from_le_bytes();
        lemma_auto_spec_u64_to_from_le_bytes();
        let data = self.spec_bytes();
        let body = data.subrange(1, data.len() as int);
        match self {
            MeepInstructionsView::InitializeMeep(args) => {
                assert(body =~= args.spec_bytes());
                assert(body.subrange(1, 9) =~= spec_u64_to_le_bytes(args.minimum_price));
            },
            MeepInstructionsView::UpdateSettings(args) => {
                assert(body =~= args.spec_bytes());
                assert(body.subrange(1, 9) =~= spec_u64_to_le_bytes(args.minimum_price));
            },
            MeepInstructionsView::MintNft(args) => {
                assert(body =~= args.spec_bytes());
                let symbol_on = spec_text_bytes(args.token_symbol) + spec_text_bytes(args.uri);
                let uri_on = spec_text_bytes(args.uri);
                assert(body.subrange(0, 2) =~= spec_u16_to_le_bytes(args.seller_fee_basis_points));
                assert(body.subrange(2, body.len() as int) =~= spec_text_bytes(args.token_name)
                    + symbol_on);
                lemma_parse_text_of_bytes(args.token_name, symbol_on);
                lemma_parse_text_of_bytes(args.token_symbol, uri_on);
                assert(uri_on =~= spec_text_bytes(args.uri) + Seq::<u8>::empty());
                lemma_parse_text_of_bytes(args.uri, Seq::<u8>::empty());
            },
        }
    }

    /// Two operations with the same request body are the same operation, with
    /// the same arguments.
    pub proof fn lemma_bytes_injective(self, other: MeepInstructionsView)
        requires
            self.encodable(),
            other.encodable(),
            self.spec_bytes() == other.spec_bytes(),
        ensures
            self == other,
    {
        self.lemma_from_bytes_of_bytes();
        other.lemma_from_bytes_of_bytes();
    }

    /// A body that asks for an operation is the body written for that
    /// operation.
    pub proof fn lemma_bytes_of_from_bytes(data: Seq<u8>)
        requires
            Self::spec_from_bytes(data) is Some,
        ensures
            Self::spec_from_bytes(data).unwrap().encodable(),
            Self::spec_from_bytes(data).unwrap().spec_bytes() == data,
    {
        lemma_auto_spec_u16_to_from_le_bytes();
        lemma_auto_spec_u64_to_from_le_bytes();
        let body = data.subrange(1, data.len() as int);
        assert(data =~= seq![data[0]] + body);
        match Self::spec_from_bytes(data).unwrap() {
            MeepInstructionsView::InitializeMeep(args) => {
                assert(body =~= args.spec_bytes());
            },
            MeepInstructionsView::UpdateSettings(args) => {
                assert(body =~= args.spec_bytes());
            },
            MeepInstructionsView::MintNft(args) => {
                let texts = body.subrange(2, body.len() as int);
                lemma_bytes_of_parse_text(texts);
                let after_name = spec_parse_text(texts).unwrap().1;
                lemma_bytes_of_parse_text(after_name);
                let after_symbol = spec_parse_text(after_name).unwrap().1;
                lemma_bytes_of_parse_text(after_symbol);
                assert(spec_parse_text(after_symbol).unwrap().1 =~= Seq::<u8>::empty());
                assert(body =~= body.subrange(0, 2) + texts);
                assert(body =~= args.spec_bytes());
            },
        }
    }
}

impl SettingsArgs {
    fn write(&self, out: &mut Vec<u8>)
        ensures
            final(out)@ == old(out)@ + self.spec_bytes(),
    {
        out.push(self.primary_wallet_percentage);
        write_u64(out, self.minimum_price);
        assert(out@ =~= old(out)@ + self.spec_bytes());
    }

    fn read(body: &[u8]) -> (args: Option<SettingsArgs>)
        ensures
            args == Self::spec_from_bytes(body@),
    {
        if body.len() != 9 {
            return None;
        }
        let minimum_price = read_u64(body, 1).unwrap();
        Some(SettingsArgs { primary_wallet_percentage: body[0], minimum_price })
    }
}

impl MintNftArgs {
    /// Whether each text is short enough for its length to be written down.
    pub fn is_encodable(&self) -> (fits: bool)
        ensures
            fits == self@.encodable(),
    {
        self.token_name.as_str().as_bytes().len() <= 0xffff_ffff
            && self.token_symbol.as_str().as_bytes().len() <= 0xffff_ffff
            && self.uri.as_str().as_bytes().len() <= 0xffff_ffff
    }

    fn write(&self, out: &mut Vec<u8>)
        requires
            self@.encodable(),
        ensures
            final(out)@ == old(out)@ + self@.spec_bytes(),
    {
        write_u16(out, self.seller_fee_basis_points);
        write_text(out, self.token_name.as_str());
        write_text(out, self.token_symbol.as_str());
        write_text(out, self.uri.as_str());
        assert(out@ =~= old(out)@ + self@.spec_bytes());
    }

    fn read(body: &[u8]) -> (args: Option<MintNftArgs>)
        ensures
            match args {
                Some(a) => MintNftArgsView::spec_from_bytes(body@) == Some(a@),
                None => MintNftArgsView::spec_from_bytes(body@) is None,
            },
    {
        let seller_fee_basis_points = match read_u16(body, 0) {
            Some(fee) => fee,
            None => { return None; },
        };
        let (token_name, at_symbol) = match read_text(body, 2) {
            Some(found) => found,
            None => { return None; },
        };
        let (token_symbol, at_uri) = match read_text(body, at_symbol) {
            Some(found) => found,
            None => { return None; },
        };
        let (uri, end) = match read_text(body, at_uri) {
            Some(found) => found,
            None => { return None; },
        };
        if end != body.len() {
            return None;
        }
        Some(MintNftArgs { seller_fee_basis_points, token_name, token_symbol, uri })
    }
}

impl MeepInstructions {
    /// The body of a request for this operation.
    pub fn try_to_vec(&self) -> (data: Vec<u8>)
        requires
            self@.encodable(),
        ensures
            data@ == self@.spec_bytes(),
    {
        let mut data: Vec<u8> = Vec::new();
        match self {
            MeepInstructions::InitializeMeep(args) => {
                data.push(0);
                args.write(&mut data);
            },
            MeepInstructions::UpdateSettings(args) => {
                data.push(1);
                args.write(&mut data);
            },
            MeepInstructions::MintNft(args) => {
                data.push(2);
                args.write(&mut data);
            },
        }
        assert(data@ =~= self@.spec_bytes());
        data
    }

    /// The operation that the body `data` asks for. There is none where the
    /// tag is unknown, the arguments are cut short or malformed, or bytes are
    /// left over.
    pub fn try_from_slice(data: &[u8]) -> (instruction: Option<MeepInstructions>)
        ensures
            match instruction {
                Some(i) => MeepInstructionsView::spec_from_bytes(data@) == Some(i@),
                None => MeepInstructionsView::spec_from_bytes(data@) is None,
            },
    {
        if data.len() == 0 {
            return None;
        }
        let body = slice_subrange(data, 1, data.len());
        let tag = data[0];
        if tag == 0 {
            match SettingsArgs::read(body) {
                Some(args) => Some(MeepInstructions::InitializeMeep(args)),
                None => None,
            }
        } else if tag == 1 {
            match SettingsArgs::read(body) {
                Some(args) => Some(MeepInstructions::UpdateSettings(args)),
                None => None,
            }
        } else if tag == 2 {
            match MintNftArgs::read(body) {
                Some(args) => Some(MeepInstructions::MintNft(args)),
                None => None,
            }
        } else {
            None
        }
    }
}

impl MeepInstructionsView {
    /// The request that asks the program `program_id` to initialize the
    /// settings record of `authority`.
    pub open spec fn spec_initialize_meep(
        program_id: Seq<u8>,
        authority: Seq<u8>,
        secondary_creator: Seq<u8>,
        args: SettingsArgs,
    ) -> Option<InstructionView> {
        match Pda::spec_settings_pubkey_with_bump(program_id, authority) {
            None => None,
            Some((settings, _)) => Some(
                InstructionView {
                    program_id,
                    accounts: seq![
                        writable(authority, true),
                        readonly(secondary_creator, true),
                        writable(settings, false),
                        readonly(SYSTEM_PROGRAM_ID@, false),
                        readonly(RENT_SYSVAR_ID@, false),
                    ],
                    data: MeepInstructionsView::InitializeMeep(args).spec_bytes(),
                },
            ),
        }
    }

    /// The request that asks the program `program_id` to update the settings
    /// record of `authority`.
    pub open spec fn spec_update_settings(
        program_id: Seq<u8>,
        authority: Seq<u8>,
        args: SettingsArgs,
    ) -> Option<InstructionView> {
        match Pda::spec_settings_pubkey_with_bump(program_id, authority) {
            None => None,
            Some((settings, _)) => Some(
                InstructionView {
                    program_id,
                    accounts: seq![readonly(authority, true), writable(settings, false)],
                    data: MeepInstructionsView::UpdateSettings(args).spec_bytes(),
                },
            ),
        }
    }

    /// The request that asks the program `program_id` to mint the asset of
    /// `mint` into `token_account`.
    pub open spec fn spec_mint_nft(
        program_id: Seq<u8>,
        authority: Seq<u8>,
        secondary_creator: Seq<u8>,
        mint: Seq<u8>,
        token_account: Seq<u8>,
        mint_args: MintNftArgsView,
    ) -> Option<InstructionView> {
        match (
            Pda::spec_metadata_pubkey(mint),
            Pda::spec_master_edition_pubkey(mint),
            Pda::spec_settings_pubkey_with_bump(program_id, authority),
        ) {
            (Some(metadata), Some(edition), Some((settings, _))) => Some(
                InstructionView {
                    program_id,
                    accounts: seq![
                        writable(authority, true),
                        readonly(secondary_creator, true),
                        readonly(settings, false),
                        writable(mint, true),
                        writable(token_account, true),
                        writable(metadata, false),
                        writable(edition, false),
                        readonly(SYSTEM_PROGRAM_ID@, false),
                        readonly(TOKEN_PROGRAM_ID@, false),
                        readonly(RENT_SYSVAR_ID@, false),
                        readonly(METADATA_PROGRAM_ID@, false),
                    ],
                    data: MeepInstructionsView::MintNft(mint_args).spec_bytes(),
                },
            ),
            _ => None,
        }
    }
}

impl MeepInstructions {
    /// The request that asks the program `program_id` to initialize the
    /// settings record of `authority`. There is none in the event that the
    /// address of the record cannot be derived.
    pub fn initialize_meep(
        program_id: &Pubkey,
        authority: &Pubkey,
        secondary_creator: &Pubkey,
        args: &SettingsArgs,
    ) -> (request: Option<Instruction>)
        ensures
            match request {
                Some(ix) => Some(ix@),
                None => None,
            } == MeepInstructionsView::spec_initialize_meep(
                program_id@,
                authority@,
                secondary_creator@,
                *args,
            ),
    {
        let settings_pubkey = match Pda::settings_pubkey_with_bump(program_id, authority) {
            Some((address, _)) => address,
            None => { return None; },
        };
        let accounts = vec![
            AccountMeta::new(*authority, true),
            AccountMeta::new_readonly(*secondary_creator, true),
            AccountMeta::new(settings_pubkey, false),
            AccountMeta::new_readonly(Pubkey::new_from_array(SYSTEM_PROGRAM_ID), false),
            AccountMeta::new_readonly(Pubkey::new_from_array(RENT_SYSVAR_ID), false),
        ];
        let data = MeepInstructions::InitializeMeep(*args).try_to_vec();
        let request = Instruction { program_id: *program_id, accounts, data };
        assert(request@.accounts =~= MeepInstructionsView::spec_initialize_meep(
            program_id@,
            authority@,
            secondary_creator@,
            *args,
        ).unwrap().accounts);
        Some(request)
    }

    /// The request that asks the program `program_id` to update the settings
    /// record of `authority`. There is none in the event that the address of
    /// the record cannot be derived.
    pub fn update_settings(
        program_id: &Pubkey,
        authority: &Pubkey,
        args: &SettingsArgs,
    ) -> (request: Option<Instruction>)
        ensures
            match request {
                Some(ix) => Some(ix@),
                None => None,
            } == MeepInstructionsView::spec_update_settings(program_id@, authority@, *args),
    {
        let settings_pubkey = match Pda::settings_pubkey_with_bump(program_id, authority) {
            Some((address, _)) => address,
            None => { return None; },
        };
        let accounts = vec![
            AccountMeta::new_readonly(*authority, true),
            AccountMeta::new(settings_pubkey, false),
        ];
        let data = MeepInstructions::UpdateSettings(*args).try_to_vec();
        let request = Instruction { program_id: *program_id, accounts, data };
        assert(request@.accounts =~= MeepInstructionsView::spec_update_settings(
            program_id@,
            authority@,
            *args,
        ).unwrap().accounts);
        Some(request)
    }

    /// The request that asks the program `program_id` to mint the asset of
    /// `mint` into `token_account`. There is none in the event that one of
    /// the three derived addresses it names cannot be derived.
    pub fn mint_nft(
        program_id: &Pubkey,
        authority: &Pubkey,
        secondary_creator: &Pubkey,
        mint: &Pubkey,
        token_account: &Pubkey,
        mint_args: &MintNftArgs,
    ) -> (request: Option<Instruction>)
        requires
            mint_args@.encodable(),
        ensures
            match request {
                Some(ix) => Some(ix@),
                None => None,
            } == MeepInstructionsView::spec_mint_nft(
                program_id@,
                authority@,
                secondary_creator@,
                mint@,
                token_account@,
                mint_args@,
            ),
    {
        let metadata = match Pda::metadata_pubkey(mint) {
            Some(address) => address,
            None => { return None; },
        };
        let edition = match Pda::master_edition_pubkey(mint) {
            Some(address) => address,
            None => { return None; },
        };
        let settings = match Pda::settings_pubkey_with_bump(program_id, authority) {
            Some((address, _)) => address,
            None => { return None; },
        };
        let accounts = vec![
            AccountMeta::new(*authority, true),
            AccountMeta::new_readonly(*secondary_creator, true),
            AccountMeta::new_readonly(settings, false),
            AccountMeta::new(*mint, true),
            AccountMeta::new(*token_account, true),
            AccountMeta::new(metadata, false),
            AccountMeta::new(edition, false),
            AccountMeta::new_readonly(Pubkey::new_from_array(SYSTEM_PROGRAM_ID), false),
            AccountMeta::new_readonly(Pubkey::new_from_array(TOKEN_PROGRAM_ID), false),
            AccountMeta::new_readonly(Pubkey::new_from_array(RENT_SYSVAR_ID), false),
            AccountMeta::new_readonly(Pubkey::new_from_array(METADATA_PROGRAM_ID), false),
        ];
        let mut data: Vec<u8> = Vec::new();
        data.push(2);
        mint_args.write(&mut data);
        let request = Instruction { program_id: *program_id, accounts, data };
        assert(request@.accounts =~= MeepInstructionsView::spec_mint_nft(
            program_id@,
            authority@,
            secondary_creator@,
            mint@,
            token_account@,
            mint_args@,
        ).unwrap().accounts);
        assert(request@.data =~= MeepInstructionsView::MintNft(mint_args@).spec_bytes());
        Some(request)
    }
}

} // verus!
