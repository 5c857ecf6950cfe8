use meep::account::{AccountInfo, AccountMeta, Instruction, Invocation, Step};
use meep::error::{MeepError, ProgramError};
use meep::instruction::{MeepInstructions, MintNftArgs, SettingsArgs};
use meep::processor::process_instruction;
use meep::pubkey::Pubkey;
use meep::state::{MeepSettings, NounsSettings};
use meep::utils::Pda;
use metaplex_token_metadata::state::{MasterEditionV2, Metadata, MAX_MASTER_EDITION_LEN, MAX_METADATA_LEN};
use solana_program::account_info::AccountInfo as LedgerAccountInfo;
use solana_program::program_pack::Pack;
use solana_program::pubkey::Pubkey as Address;
use solana_program::rent::Rent;
use solana_program::system_instruction::SystemInstruction;
use solana_program::sysvar::Sysvar;
use std::collections::{HashMap, HashSet};

// A ledger in memory that runs the steps of an operation as one transaction:
// the account-creation service is played by this file, the token ledger and
// the metadata registry by their own processors.

#[derive(Clone, Default)]
struct Record {
    lamports: u64,
    data: Vec<u8>,
    owner: Address,
    executable: bool,
}

#[derive(Clone)]
struct Ledger {
    records: HashMap<Address, Record>,
    program_id: Pubkey,
    seed: u64,
}

fn address(key: &Pubkey) -> Address {
    Address::new_from_array(key.bytes)
}

impl Ledger {
    fn new() -> Ledger {
        let mut records = HashMap::new();
        let mut rent = Vec::new();
        rent.extend_from_slice(&3480u64.to_le_bytes());
        rent.extend_from_slice(&2.0f64.to_le_bytes());
        rent.push(50);
        records.insert(
            solana_program::sysvar::rent::ID,
            Record { lamports: 1, data: rent, owner: solana_program::sysvar::ID, executable: false },
        );
        for program in [solana_program::system_program::ID, spl_token::ID, metaplex_token_metadata::ID] {
            let record = Record { lamports: 1, data: Vec::new(), owner: Address::default(), executable: true };
            records.insert(program, record);
        }
        Ledger { records, program_id: Pubkey::new_from_array(meep::ID), seed: 0x2545_f491_4f6c_dd1d }
    }

    fn random(&mut self) -> u64 {
        self.seed ^= self.seed << 13;
        self.seed ^= self.seed >> 7;
        self.seed ^= self.seed << 17;
        self.seed
    }

    fn range(&mut self, low: u64, high: u64) -> u64 {
        low + self.random() % (high - low + 1)
    }

    fn keypair(&mut self) -> Pubkey {
        let mut bytes = [0u8; 32];
        for chunk in bytes.chunks_mut(8) {
            chunk.copy_from_slice(&self.random().to_le_bytes());
        }
        Pubkey::new_from_array(bytes)
    }

    fn random_settings(&mut self) -> SettingsArgs {
        SettingsArgs {
            primary_wallet_percentage: self.range(0, 100) as u8,
            minimum_price: self.range(0, 1_000_000_000),
        }
    }

    fn random_mint_args(&mut self) -> MintNftArgs {
        MintNftArgs {
            seller_fee_basis_points: self.range(0, 10000) as u16,
            token_name: format!("Token_name_{}", self.range(1, 100)),
            token_symbol: format!("TS_{}", self.range(1, 100)),
            uri: format!("https://test.com/{}", self.range(1, 100)),
        }
    }

    fn airdrop(&mut self, wallet: &Pubkey, lamports: u64) {
        self.records.entry(address(wallet)).or_default().lamports = lamports;
    }

    fn get_balance(&self, wallet: &Pubkey) -> u64 {
        self.records.get(&address(wallet)).map(|r| r.lamports).unwrap_or(0)
    }

    fn data(&self, key: &Pubkey) -> Vec<u8> {
        self.records.get(&address(key)).map(|r| r.data.clone()).unwrap_or_default()
    }

    fn in_use(&self, key: &Pubkey) -> bool {
        self.records.get(&address(key)).map(|r| r.lamports > 0 || !r.data.is_empty()).unwrap_or(false)
    }

    // Runs a request as one transaction: all of its steps, or none.
    fn submit(&mut self, request: &Instruction, signers: &[Pubkey]) -> Result<(), String> {
        let signed: HashSet<Address> = signers.iter().map(address).collect();
        let mut accounts = Vec::new();
        for meta in request.accounts.iter() {
            if meta.is_signer && !signed.contains(&address(&meta.pubkey)) {
                return Err("a signature is missing from the transaction".to_string());
            }
            accounts.push(AccountInfo {
                key: meta.pubkey,
                is_signer: signed.contains(&address(&meta.pubkey)),
                data: self.data(&meta.pubkey),
            });
        }
        let steps = process_instruction(&request.program_id, &accounts, &request.data)
            .map_err(|e| format!("{:?}", e))?;
        let named: HashSet<Address> = request.accounts.iter().map(|m| address(&m.pubkey)).collect();
        let mut draft = self.clone();
        for step in steps {
            draft.run(step, &request.program_id, &signed, &named)?;
        }
        *self = draft;
        Ok(())
    }

    fn run(
        &mut self,
        step: Step,
        program: &Pubkey,
        signed: &HashSet<Address>,
        named: &HashSet<Address>,
    ) -> Result<(), String> {
        match step {
            Step::CreateAccount(create) => {
                let rent = self.rent(&create.rent)?;
                let lamports = rent.minimum_balance(create.space as usize);
                self.invoke(create.invocation(lamports), program, signed, named)
            }
            Step::Invoke(call) => self.invoke(call, program, signed, named),
            Step::Store { account, data } => {
                let record = self.records.get_mut(&address(&account)).ok_or("no such account")?;
                if record.owner != address(program) || record.data.len() < data.len() {
                    return Err("the record cannot be written".to_string());
                }
                record.data[..data.len()].copy_from_slice(&data);
                Ok(())
            }
        }
    }

    fn rent(&mut self, key: &Pubkey) -> Result<Rent, String> {
        let key = address(key);
        let mut record = self.records.get(&key).cloned().unwrap_or_default();
        let info = LedgerAccountInfo::new(
            &key,
            false,
            false,
            &mut record.lamports,
            &mut record.data,
            &record.owner,
            false,
            0,
        );
        Rent::from_account_info(&info).map_err(|e| format!("{:?}", e))
    }

    // A call of the program into a collaborator, with the checks that the
    // ledger makes on it: every account of the instruction was handed along,
    // or is a program that the request names; and no account signs that
    // neither signed the transaction nor is derived from the seeds of the call.
    fn invoke(
        &mut self,
        call: Invocation,
        program: &Pubkey,
        signed: &HashSet<Address>,
        named: &HashSet<Address>,
    ) -> Result<(), String> {
        let mut signed = signed.clone();
        if !call.signer_seeds.is_empty() {
            let seeds: Vec<&[u8]> = call.signer_seeds.iter().map(|s| s.as_slice()).collect();
            let derived = Address::create_program_address(&seeds, &address(program))
                .map_err(|e| format!("{:?}", e))?;
            signed.insert(derived);
        }
        let instruction = call.instruction;
        if !named.contains(&address(&instruction.program_id)) {
            return Err("the program that is called is not named by the request".to_string());
        }
        for key in call.account_keys.iter() {
            if !named.contains(&address(key)) {
                return Err("an account is handed along that the request does not name".to_string());
            }
        }
        for meta in instruction.accounts.iter() {
            let key = address(&meta.pubkey);
            let program = named.contains(&key) && self.records.get(&key).map_or(false, |r| r.executable);
            if !program && !call.account_keys.contains(&meta.pubkey) {
                return Err(format!("account {:?} was not handed along", meta.pubkey));
            }
            if meta.is_signer && !signed.contains(&address(&meta.pubkey)) {
                return Err("MissingRequiredSignature".to_string());
            }
        }
        let callee = address(&instruction.program_id);
        if callee == solana_program::system_program::ID {
            self.create_account(&instruction)
        } else if callee == spl_token::ID {
            self.process(&instruction, 0)
        } else if callee == metaplex_token_metadata::ID {
            match instruction.data[0] {
                0 => self.process(&instruction, MAX_METADATA_LEN),
                10 => self.process(&instruction, MAX_MASTER_EDITION_LEN),
                _ => self.process(&instruction, 0),
            }
        } else {
            Err("no such program".to_string())
        }
    }

    fn create_account(&mut self, instruction: &Instruction) -> Result<(), String> {
        let (lamports, space, owner) =
            match solana_program::program_utils::limited_deserialize(&instruction.data, 1232) {
                Ok(SystemInstruction::CreateAccount { lamports, space, owner }) => (lamports, space, owner),
                _ => return Err("not an account creation".to_string()),
            };
        let payer = instruction.accounts[0].pubkey;
        let account = instruction.accounts[1].pubkey;
        if self.in_use(&account) {
            return Err("the account is already in use".to_string());
        }
        if self.get_balance(&payer) < lamports {
            return Err("insufficient funds".to_string());
        }
        self.records.get_mut(&address(&payer)).unwrap().lamports -= lamports;
        let record = Record { lamports, data: vec![0; space as usize], owner, executable: false };
        self.records.insert(address(&account), record);
        Ok(())
    }

    // Runs the processor of the collaborator on the accounts of the
    // instruction. The registry allocates its own records while it runs;
    // here the first account is laid out for it beforehand, of `allocate` bytes.
    fn process(&mut self, instruction: &Instruction, allocate: usize) -> Result<(), String> {
        let callee = address(&instruction.program_id);
        if allocate > 0 {
            let first = instruction.accounts[0].pubkey;
            if self.in_use(&first) {
                return Err("the account is already in use".to_string());
            }
            let lamports = Rent::default().minimum_balance(allocate);
            let record = Record { lamports, data: vec![0; allocate], owner: callee, executable: false };
            self.records.insert(address(&first), record);
        }
        let mut taken: Vec<(Address, Record)> = Vec::new();
        for meta in instruction.accounts.iter() {
            let key = address(&meta.pubkey);
            if !taken.iter().any(|(k, _)| *k == key) {
                taken.push((key, self.records.remove(&key).unwrap_or_default()));
            }
        }
        let flags = |key: &Address| {
            let metas = instruction.accounts.iter().filter(|m| address(&m.pubkey) == *key);
            metas.fold((false, false), |(s, w), m| (s || m.is_signer, w || m.is_writable))
        };
        let result = {
            let mut unique: Vec<LedgerAccountInfo> = Vec::new();
            for entry in taken.iter_mut() {
                let (key, record) = entry;
                let (is_signer, is_writable) = flags(key);
                unique.push(LedgerAccountInfo::new(
                    key,
                    is_signer,
                    is_writable,
                    &mut record.lamports,
                    &mut record.data,
                    &record.owner,
                    false,
                    0,
                ));
            }
            let ordered: Vec<LedgerAccountInfo> = instruction
                .accounts
                .iter()
                .map(|m| unique.iter().find(|i| *i.key == address(&m.pubkey)).unwrap().clone())
                .collect();
            let ordered: &[LedgerAccountInfo] = Box::leak(ordered.into_boxed_slice());
            let callee: &Address = Box::leak(Box::new(callee));
            if *callee == spl_token::ID {
                spl_token::processor::Processor::process(callee, ordered, &instruction.data)
            } else {
                metaplex_token_metadata::processor::process_instruction(callee, ordered, &instruction.data)
            }
        };
        for (key, record) in taken {
            self.records.insert(key, record);
        }
        result.map_err(|e| format!("{:?}", e))
    }

    fn initialize_meep(&mut self, authority: &Pubkey, secondary_creator: &Pubkey, args: &SettingsArgs) -> Result<(), String> {
        let program_id = self.program_id;
        let ix = MeepInstructions::initialize_meep(&program_id, authority, secondary_creator, args).unwrap();
        self.submit(&ix, &[*authority, *secondary_creator])
    }

    fn update_settings(&mut self, authority: &Pubkey, settings: &SettingsArgs) -> Result<(), String> {
        let program_id = self.program_id;
        let ix = MeepInstructions::update_settings(&program_id, authority, settings).unwrap();
        self.submit(&ix, &[*authority])
    }

    fn mint_nft(
        &mut self,
        authority: &Pubkey,
        secondary_creator: &Pubkey,
        mint: &Pubkey,
        token_account: &Pubkey,
        mint_args: &MintNftArgs,
    ) -> Result<(), String> {
        let program_id = self.program_id;
        let ix = MeepInstructions::mint_nft(&program_id, authority, secondary_creator, mint, token_account, mint_args)
            .unwrap();
        self.submit(&ix, &[*authority, *secondary_creator, *mint, *token_account])
    }

    fn get_settings(&self, authority: &Pubkey) -> MeepSettings {
        let settings_pubkey = Pda::settings_pubkey_with_bump(&self.program_id, authority).unwrap().0;
        NounsSettings::try_from_slice(&self.data(&settings_pubkey)).unwrap()
    }

    fn get_metadata(&self, mint: &Pubkey) -> Metadata {
        let metadata_pubkey = Pda::metadata_pubkey(mint).unwrap();
        let mut metadata: Metadata =
            solana_program::borsh::try_from_slice_unchecked(&self.data(&metadata_pubkey)).unwrap();
        let zero = char::from(0);
        metadata.data.name = metadata.data.name.trim_end_matches(zero).to_string();
        metadata.data.symbol = metadata.data.symbol.trim_end_matches(zero).to_string();
        metadata.data.uri = metadata.data.uri.trim_end_matches(zero).to_string();
        metadata
    }

    fn get_master_edition(&self, mint: &Pubkey) -> MasterEditionV2 {
        let edition_pubkey = Pda::master_edition_pubkey(mint).unwrap();
        solana_program::borsh::try_from_slice_unchecked(&self.data(&edition_pubkey)).unwrap()
    }
}

#[test]
fn initialization() {
    let mut client = Ledger::new();

    for _ in 0..10 {
        let authority = client.keypair();
        let secondary_creator = client.keypair();
        let args = client.random_settings();

        let lamports = 1_000_000_000;
        client.airdrop(&authority, lamports);

        client.initialize_meep(&authority, &secondary_creator, &args).unwrap();

        let another_secondary_creator = client.keypair();
        let another_args = client.random_settings();

        // double initialization
        assert!(client
            .initialize_meep(&authority, &another_secondary_creator, &another_args)
            .is_err());

        let settings = client.get_settings(&authority);
        assert_eq!(settings.authority, authority);
        assert_eq!(settings.secondary_creator, secondary_creator);
        assert_eq!(settings.primary_wallet_percentage, args.primary_wallet_percentage);
        assert_eq!(settings.minimum_price, args.minimum_price);
    }
}

#[test]
fn update_test() {
    let mut client = Ledger::new();

    for _ in 0..10 {
        let authority = client.keypair();
        let secondary_creator = client.keypair();
        let settings = client.random_settings();

        let lamports = 1_000_000_000;
        client.airdrop(&authority, lamports);

        assert!(client.update_settings(&authority, &settings).is_err());

        client.initialize_meep(&authority, &secondary_creator, &settings).unwrap();

        let new_settings = client.random_settings();

        client.update_settings(&authority, &new_settings).unwrap();

        let on_chain_settings = client.get_settings(&authority);

        assert_eq!(on_chain_settings.authority, authority);
        assert_eq!(on_chain_settings.secondary_creator, secondary_creator);
        assert_eq!(on_chain_settings.minimum_price, new_settings.minimum_price);
        assert_eq!(on_chain_settings.primary_wallet_percentage, new_settings.primary_wallet_percentage);
    }
}

#[test]
fn mint_token() {
    let mut client = Ledger::new();
    let lamports = 1_000_000_000;

    for i in 1..=10 {
        let authority = client.keypair();
        let secondary_creator = client.keypair();
        let mint = client.keypair();
        let token = client.keypair();
        let initialize_args = client.random_settings();
        let mint_args = client.random_mint_args();

        println!("Mint {}: {:?}", i, mint);

        client.airdrop(&authority, lamports);

        let authority_initial_balance = client.get_balance(&authority);

        client.initialize_meep(&authority, &secondary_creator, &initialize_args).unwrap();

        let authority_balance = client.get_balance(&authority);

        client.mint_nft(&authority, &secondary_creator, &mint, &token, &mint_args).unwrap();

        println!(
            "Initialization cost for authority: {} lamports",
            authority_initial_balance - authority_balance
        );
        println!(
            "Minting cost for authority: {} lamports",
            authority_balance - client.get_balance(&authority)
        );

        let metadata = client.get_metadata(&mint);
        assert_eq!(metadata.mint, address(&mint));
        assert_eq!(metadata.update_authority, address(&authority));
        assert_eq!(metadata.primary_sale_happened, false);
        assert_eq!(metadata.is_mutable, false);

        let data = metadata.data;
        let creators = data.creators.unwrap();
        assert_eq!(data.name, mint_args.token_name);
        assert_eq!(data.symbol, mint_args.token_symbol);
        assert_eq!(data.uri, mint_args.uri);
        assert_eq!(data.seller_fee_basis_points, mint_args.seller_fee_basis_points);

        assert_eq!(creators.len(), 2);
        assert_eq!(creators[0].address, address(&authority));
        assert_eq!(creators[0].verified, true);
        assert_eq!(creators[0].share, initialize_args.primary_wallet_percentage);

        assert_eq!(creators[1].address, address(&secondary_creator));
        assert_eq!(creators[1].verified, true);
        assert_eq!(creators[1].share, 100 - initialize_args.primary_wallet_percentage);

        let edition = client.get_master_edition(&mint);
        assert_eq!(edition.supply, 0);
        assert_eq!(edition.max_supply, Some(0));
    }
}

#[test]
fn seventy_thirty_example() {
    let mut client = Ledger::new();
    let a = client.keypair();
    let b = client.keypair();
    let mint = client.keypair();
    let token = client.keypair();
    client.airdrop(&a, 1_000_000_000);
    let args = SettingsArgs { primary_wallet_percentage: 70, minimum_price: 5_000_000 };
    client.initialize_meep(&a, &b, &args).unwrap();
    assert_eq!(
        client.get_settings(&a),
        NounsSettings { authority: a, secondary_creator: b, primary_wallet_percentage: 70, minimum_price: 5_000_000 }
    );
    let mint_args = client.random_mint_args();
    client.mint_nft(&a, &b, &mint, &token, &mint_args).unwrap();

    let creators = client.get_metadata(&mint).data.creators.unwrap();
    assert_eq!(creators.len(), 2);
    assert_eq!((creators[0].address, creators[0].share, creators[0].verified), (address(&a), 70, true));
    assert_eq!((creators[1].address, creators[1].share, creators[1].verified), (address(&b), 30, true));

    let minted = spl_token::state::Mint::unpack(&client.data(&mint)).unwrap();
    assert_eq!(minted.supply, 1);
    assert_eq!(minted.decimals, 0);
    let holding = spl_token::state::Account::unpack(&client.data(&token)).unwrap();
    assert_eq!(holding.amount, 1);
    assert_eq!(holding.mint, address(&mint));
    assert_eq!(holding.owner, address(&a));
}

#[test]
fn every_share_from_0_to_100_initializes_and_mints() {
    for share in [0u8, 1, 50, 99, 100] {
        let mut client = Ledger::new();
        let authority = client.keypair();
        let secondary_creator = client.keypair();
        let mint = client.keypair();
        let token = client.keypair();
        client.airdrop(&authority, 1_000_000_000);
        let args = SettingsArgs { primary_wallet_percentage: share, minimum_price: 1 };
        client.initialize_meep(&authority, &secondary_creator, &args).unwrap();
        let mint_args = client.random_mint_args();
        client.mint_nft(&authority, &secondary_creator, &mint, &token, &mint_args).unwrap();
        let creators = client.get_metadata(&mint).data.creators.unwrap();
        assert_eq!(creators[0].share, share);
        assert_eq!(creators[1].share, 100 - share);
        assert_eq!(creators[0].share as u32 + creators[1].share as u32, 100);
    }
}

#[test]
fn a_used_mint_fails_the_whole_second_mint() {
    let mut client = Ledger::new();
    let authority = client.keypair();
    let secondary_creator = client.keypair();
    let mint = client.keypair();
    let token = client.keypair();
    client.airdrop(&authority, 1_000_000_000);
    let args = client.random_settings();
    client.initialize_meep(&authority, &secondary_creator, &args).unwrap();
    let mint_args = client.random_mint_args();
    client.mint_nft(&authority, &secondary_creator, &mint, &token, &mint_args).unwrap();

    let before = client.clone();
    let other_token = client.keypair();
    let other_args = client.random_mint_args();
    let again = client.mint_nft(&authority, &secondary_creator, &mint, &other_token, &other_args);
    assert_eq!(again, Err("the account is already in use".to_string()));
    assert!(!client.in_use(&other_token));
    assert_eq!(client.get_balance(&authority), before.get_balance(&authority));
    assert_eq!(client.records.len(), before.records.len());
    assert_eq!(client.get_metadata(&mint).data.name, mint_args.token_name);
}

#[test]
fn a_mint_that_fails_midway_leaves_nothing_behind() {
    let mut client = Ledger::new();
    let authority = client.keypair();
    let secondary_creator = client.keypair();
    let mint = client.keypair();
    let token = client.keypair();
    client.airdrop(&authority, 1_000_000_000);
    let args = client.random_settings();
    client.initialize_meep(&authority, &secondary_creator, &args).unwrap();
    let mint_args = client.random_mint_args();
    client.mint_nft(&authority, &secondary_creator, &mint, &token, &mint_args).unwrap();

    // A fresh mint with the holding account of the first: the third step fails.
    let fresh_mint = client.keypair();
    let balance = client.get_balance(&authority);
    let again = client.mint_nft(&authority, &secondary_creator, &fresh_mint, &token, &mint_args);
    assert!(again.is_err());
    assert!(!client.in_use(&fresh_mint));
    assert!(!client.in_use(&Pda::metadata_pubkey(&fresh_mint).unwrap()));
    assert!(!client.in_use(&Pda::master_edition_pubkey(&fresh_mint).unwrap()));
    assert_eq!(client.get_balance(&authority), balance);
}

#[test]
fn a_mint_needs_initialized_settings() {
    let mut client = Ledger::new();
    let authority = client.keypair();
    let secondary_creator = client.keypair();
    let mint = client.keypair();
    let token = client.keypair();
    client.airdrop(&authority, 1_000_000_000);
    let mint_args = client.random_mint_args();
    let refused = client.mint_nft(&authority, &secondary_creator, &mint, &token, &mint_args);
    assert_eq!(refused, Err(format!("{:?}", ProgramError::Custom(MeepError::WrongSettingsAccount))));
    assert!(!client.in_use(&mint));
}

#[test]
fn a_mint_needs_the_secondary_creator_of_the_settings() {
    let mut client = Ledger::new();
    let authority = client.keypair();
    let secondary_creator = client.keypair();
    let stranger = client.keypair();
    let mint = client.keypair();
    let token = client.keypair();
    client.airdrop(&authority, 1_000_000_000);
    let args = client.random_settings();
    client.initialize_meep(&authority, &secondary_creator, &args).unwrap();
    let mint_args = client.random_mint_args();
    let refused = client.mint_nft(&authority, &stranger, &mint, &token, &mint_args);
    assert_eq!(refused, Err(format!("{:?}", ProgramError::Custom(MeepError::WrongSecondaryCreator))));
    assert!(!client.in_use(&mint));
}

#[test]
fn an_update_by_a_stranger_does_not_reach_the_settings() {
    let mut client = Ledger::new();
    let authority = client.keypair();
    let secondary_creator = client.keypair();
    let stranger = client.keypair();
    client.airdrop(&authority, 1_000_000_000);
    let args = SettingsArgs { primary_wallet_percentage: 40, minimum_price: 9 };
    client.initialize_meep(&authority, &secondary_creator, &args).unwrap();

    // The stranger names the record of the authority as its own.
    let program_id = client.program_id;
    let settings = Pda::settings_pubkey_with_bump(&program_id, &authority).unwrap().0;
    let new_args = SettingsArgs { primary_wallet_percentage: 1, minimum_price: 1 };
    let mut request = MeepInstructions::update_settings(&program_id, &stranger, &new_args).unwrap();
    request.accounts[1] = AccountMeta::new(settings, false);
    let refused = client.submit(&request, &[stranger]);
    assert_eq!(refused, Err(format!("{:?}", ProgramError::Custom(MeepError::WrongSettingsAccount))));
    assert_eq!(client.get_settings(&authority).primary_wallet_percentage, 40);
    assert_eq!(client.get_settings(&authority).minimum_price, 9);
}

#[test]
fn an_initialization_without_funds_leaves_nothing_behind() {
    let mut client = Ledger::new();
    let authority = client.keypair();
    let secondary_creator = client.keypair();
    client.airdrop(&authority, 10);
    let args = client.random_settings();
    assert_eq!(
        client.initialize_meep(&authority, &secondary_creator, &args),
        Err("insufficient funds".to_string())
    );
    let program_id = client.program_id;
    assert!(!client.in_use(&Pda::settings_pubkey_with_bump(&program_id, &authority).unwrap().0));
    assert_eq!(client.get_balance(&authority), 10);
}
