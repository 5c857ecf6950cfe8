//! The values that pass between the program and its host: what the program
//! reads of the accounts of a request, and the steps it plans in return.

use crate::collaborators::{create_account, create_account_data};
use crate::error::ProgramError;
use crate::pubkey::{Pubkey, SYSTEM_PROGRAM_ID};
use vstd::prelude::*;

verus! {

/// What an operation reads of one account named by a request: its identity,
/// whether that identity signed the transaction, and the bytes it stores.
#[derive(Clone, Debug, PartialEq, Eq)]
pub struct AccountInfo {
    pub key: Pubkey,
    pub is_signer: bool,
    pub data: Vec<u8>,
}

/// An account of a request, as contracts speak of it.
pub ghost struct AccountInfoView {
    pub key: Seq<u8>,
    pub is_signer: bool,
    pub data: Seq<u8>,
}

impl View for AccountInfo {
    type V = AccountInfoView;

    open spec fn view(&self) -> AccountInfoView {
        AccountInfoView { key: self.key@, is_signer: self.is_signer, data: self.data@ }
    }
}

/// The views of the accounts of a request, in order.
pub open spec fn accounts_view(accounts: Seq<AccountInfo>) -> Seq<AccountInfoView> {
    accounts.map_values(|a: AccountInfo| a@)
}

/// One account in the account list of an instruction, with the privileges
/// the instruction claims on it.
#[derive(Clone, Copy, Debug, PartialEq, Eq)]
pub struct AccountMeta {
    pub pubkey: Pubkey,
    pub is_signer: bool,
    pub is_writable: bool,
}

/// An entry of an account list, as contracts speak of it.
pub ghost struct AccountMetaView {
    pub pubkey: Seq<u8>,
    pub is_signer: bool,
    pub is_writable: bool,
}

impl View for AccountMeta {
    type V = AccountMetaView;

    open spec fn view(&self) -> AccountMetaView {
        AccountMetaView {
            pubkey: self.pubkey@,
            is_signer: self.is_signer,
            is_writable: self.is_writable,
        }
    }
}

/// An account that the instruction may change.
pub open spec fn writable(pubkey: Seq<u8>, is_signer: bool) -> AccountMetaView {
    AccountMetaView { pubkey, is_signer, is_writable: true }
}

/// An account that the instruction only reads.
pub open spec fn readonly(pubkey: Seq<u8>, is_signer: bool) -> AccountMetaView {
    AccountMetaView { pubkey, is_signer, is_writable: false }
}

impl AccountMeta {
    /// An account that the instruction may change.
    pub fn new(pubkey: Pubkey, is_signer: bool) -> (meta: AccountMeta)
        ensures
            meta@ == writable(pubkey@, is_signer),
    {
        AccountMeta { pubkey, is_signer, is_writable: true }
    }

    /// An account that the instruction only reads.
    pub fn new_readonly(pubkey: Pubkey, is_signer: bool) -> (meta: AccountMeta)
        ensures
            meta@ == readonly(pubkey@, is_signer),
    {
        AccountMeta { pubkey, is_signer, is_writable: false }
    }
}

/// The views of a list of account entries, in order.
pub open spec fn metas_view(metas: Seq<AccountMeta>) -> Seq<AccountMetaView> {
    metas.map_values(|m: AccountMeta| m@)
}

/// The views of a list of identities, in order.
pub open spec fn keys_view(keys: Seq<Pubkey>) -> Seq<Seq<u8>> {
    keys.map_values(|k: Pubkey| k@)
}

/// The contents of a list of byte strings, in order.
pub open spec fn seeds_view(seeds: Seq<Vec<u8>>) -> Seq<Seq<u8>> {
    seeds.map_values(|s: Vec<u8>| s@)
}

/// A request to one program: which program, on which accounts, with what body.
#[derive(Clone, Debug, PartialEq, Eq)]
pub struct Instruction {
    pub program_id: Pubkey,
    pub accounts: Vec<AccountMeta>,
    pub data: Vec<u8>,
}

/// An instruction, as contracts speak of it.
pub ghost struct InstructionView {
    pub program_id: Seq<u8>,
    pub accounts: Seq<AccountMetaView>,
    pub data: Seq<u8>,
}

impl View for Instruction {
    type V = InstructionView;

    open spec fn view(&self) -> InstructionView {
        InstructionView {
            program_id: self.program_id@,
            accounts: metas_view(self.accounts@),
            data: self.data@,
        }
    }
}

/// One call into a collaborator: the instruction, the accounts of the request
/// that are handed along with it, and the seeds of the derived address that
/// signs it (empty where none does).
#[derive(Clone, Debug, PartialEq, Eq)]
pub struct Invocation {
    pub instruction: Instruction,
    pub account_keys: Vec<Pubkey>,
    pub signer_seeds: Vec<Vec<u8>>,
}

/// A call into a collaborator, as contracts speak of it.
pub ghost struct InvocationView {
    pub instruction: InstructionView,
    pub account_keys: Seq<Seq<u8>>,
    pub signer_seeds: Seq<Seq<u8>>,
}

impl View for Invocation {
    type V = InvocationView;

    open spec fn view(&self) -> InvocationView {
        InvocationView {
            instruction: self.instruction@,
            account_keys: keys_view(self.account_keys@),
            signer_seeds: seeds_view(self.signer_seeds@),
        }
    }
}

/// The creation of an account of `space` bytes, owned by `owner` and funded
/// by `payer` with the least deposit that exempts that size from rent. The
/// deposit is not known before the rent record, found in the account `rent`, is
/// read: whoever runs the step reads it and asks for the invocation then.
#[derive(Clone, Debug, PartialEq, Eq)]
pub struct CreateAccount {
    pub payer: Pubkey,
    pub account: Pubkey,
    pub space: u64,
    pub owner: Pubkey,
    pub rent: Pubkey,
    pub account_keys: Vec<Pubkey>,
    pub signer_seeds: Vec<Vec<u8>>,
}

/// The creation of an account, as contracts speak of it.
pub ghost struct CreateAccountView {
    pub payer: Seq<u8>,
    pub account: Seq<u8>,
    pub space: u64,
    pub owner: Seq<u8>,
    pub rent: Seq<u8>,
    pub account_keys: Seq<Seq<u8>>,
    pub signer_seeds: Seq<Seq<u8>>,
}

impl View for CreateAccount {
    type V = CreateAccountView;

    open spec fn view(&self) -> CreateAccountView {
        CreateAccountView {
            payer: self.payer@,
            account: self.account@,
            space: self.space,
            owner: self.owner@,
            rent: self.rent@,
            account_keys: keys_view(self.account_keys@),
            signer_seeds: seeds_view(self.signer_seeds@),
        }
    }
}

impl CreateAccountView {
    /// The call that creates the account with a deposit of `lamports`.
    pub open spec fn spec_invocation(self, lamports: u64) -> InvocationView {
        InvocationView {
            instruction: InstructionView {
                program_id: SYSTEM_PROGRAM_ID@,
                accounts: seq![writable(self.payer, true), writable(self.account, true)],
                data: create_account_data(lamports, self.space, self.owner),
            },
            account_keys: self.account_keys,
            signer_seeds: self.signer_seeds,
        }
    }
}

impl CreateAccount {
    /// The call into the account-creation service that performs this step
    /// with a deposit of `lamports`.
    pub fn invocation(self, lamports: u64) -> (call: Invocation)
        ensures
            call@ == self@.spec_invocation(lamports),
    {
        let instruction = create_account(
            &self.payer,
            &self.account,
            lamports,
            self.space,
            &self.owner,
        );
        Invocation {
            instruction,
            account_keys: self.account_keys,
            signer_seeds: self.signer_seeds,
        }
    }
}

/// One step of an operation. The steps of an operation are run in order
/// within one transaction, which fails as a whole when any step fails.
#[derive(Clone, Debug, PartialEq, Eq)]
pub enum Step {
    /// Create an account through the account-creation service.
    CreateAccount(CreateAccount),
    /// Call a collaborator.
    Invoke(Invocation),
    /// Write `data` at the start of what the account `account` stores.
    Store { account: Pubkey, data: Vec<u8> },
}

/// A step of an operation, as contracts speak of it.
pub ghost enum StepView {
    CreateAccount(CreateAccountView),
    Invoke(InvocationView),
    Store { account: Seq<u8>, data: Seq<u8> },
}

impl View for Step {
    type V = StepView;

    open spec fn view(&self) -> StepView {
        match self {
            Step::CreateAccount(create) => StepView::CreateAccount(create@),
            Step::Invoke(call) => StepView::Invoke(call@),
            Step::Store { account, data } => StepView::Store { account: account@, data: data@ },
        }
    }
}

impl StepView {
    /// Whether the step lets the identity `key` sign a call into a
    /// collaborator.
    pub open spec fn lets_sign(self, key: Seq<u8>) -> bool {
        match self {
            StepView::CreateAccount(create) => key == create.payer || key == create.account,
            StepView::Invoke(call) => exists|j: int|
                0 <= j < call.instruction.accounts.len()
                    && #[trigger] call.instruction.accounts[j].pubkey == key
                    && call.instruction.accounts[j].is_signer,
            StepView::Store { .. } => false,
        }
    }

    /// Whether the step may change what the account `key` holds.
    pub open spec fn may_change(self, key: Seq<u8>) -> bool {
        match self {
            StepView::CreateAccount(create) => key == create.payer || key == create.account,
            StepView::Invoke(call) => exists|j: int|
                0 <= j < call.instruction.accounts.len()
                    && #[trigger] call.instruction.accounts[j].pubkey == key
                    && call.instruction.accounts[j].is_writable,
            StepView::Store { account, .. } => key == account,
        }
    }
}

/// The views of a list of steps, in order.
pub open spec fn steps_view(steps: Seq<Step>) -> Seq<StepView> {
    steps.map_values(|s: Step| s@)
}

/// The view of what planning an operation gave: the views of its steps, or
/// the reason why there are none.
pub open spec fn plan_view(planned: Result<Vec<Step>, ProgramError>) -> Result<
    Seq<StepView>,
    ProgramError,
> {
    match planned {
        Ok(steps) => Ok(steps_view(steps@)),
        Err(e) => Err(e),
    }
}

/// Appends the steps `more` to `steps`.
pub fn append_steps(steps: &mut Vec<Step>, more: Vec<Step>)
    ensures
        steps_view(final(steps)@) == steps_view(old(steps)@) + steps_view(more@),
{
    let ghost added = more@;
    let mut rest = more;
    steps.append(&mut rest);
    assert(steps_view(steps@) =~= steps_view(old(steps)@) + steps_view(added));
}

} // verus!
