//! The swap-instructions payload in its two shapes: the wire shape the
//! service returns, and the public shape handed to callers.
use vstd::prelude::*;

use crate::response::{decode_sent, sent_fits, sent_result, ApiError, ResponseBody};

verus! {

/// A 32-byte account address.
#[derive(Clone, Copy, Debug, PartialEq, Eq)]
pub struct Pubkey(pub [u8; 32]);

/// An account that an instruction reads or writes.
#[derive(Clone, Copy, Debug, PartialEq, Eq)]
pub struct AccountMeta {
    pub pubkey: Pubkey,
    pub is_signer: bool,
    pub is_writable: bool,
}

/// A program invocation: the program, its accounts in order, and its
/// instruction data.
#[derive(Debug, PartialEq, Eq)]
pub struct Instruction {
    pub program_id: Pubkey,
    pub accounts: Vec<AccountMeta>,
    pub data: Vec<u8>,
}

/// The instructions that carry out a swap, in the order in which they run.
#[derive(Debug, PartialEq, Eq)]
pub struct SwapInstructionsResponse {
    pub token_ledger_instruction: Option<Instruction>,
    pub compute_budget_instructions: Vec<Instruction>,
    pub setup_instructions: Vec<Instruction>,
    pub swap_instruction: Instruction,
    pub cleanup_instruction: Option<Instruction>,
    pub address_lookup_table_addresses: Vec<Pubkey>,
}

/// An account as the wire shape gives it.
#[derive(Clone, Copy, Debug, PartialEq, Eq)]
pub struct AccountMetaInternal {
    pub pubkey: Pubkey,
    pub is_signer: bool,
    pub is_writable: bool,
}

/// An address as the wire shape gives it.
#[derive(Clone, Copy, Debug, PartialEq, Eq)]
pub struct PubkeyInternal(pub Pubkey);

/// An instruction as the wire shape gives it.
#[derive(Debug, PartialEq, Eq)]
pub struct InstructionInternal {
    pub program_id: Pubkey,
    pub accounts: Vec<AccountMetaInternal>,
    pub data: Vec<u8>,
}

/// The swap-instructions payload as the service sends it.
#[derive(Debug, PartialEq, Eq)]
pub struct SwapInstructionsResponseInternal {
    pub token_ledger_instruction: Option<InstructionInternal>,
    pub compute_budget_instructions: Vec<InstructionInternal>,
    pub setup_instructions: Vec<InstructionInternal>,
    pub swap_instruction: InstructionInternal,
    pub cleanup_instruction: Option<InstructionInternal>,
    pub address_lookup_table_addresses: Vec<PubkeyInternal>,
}

/// What an instruction means, whichever shape holds it.
pub struct InstructionModel {
    pub program_id: Pubkey,
    pub accounts: Seq<AccountMeta>,
    pub data: Seq<u8>,
}

/// What a swap-instructions payload means, whichever shape holds it.
pub struct SwapInstructionsModel {
    pub token_ledger_instruction: Option<InstructionModel>,
    pub compute_budget_instructions: Seq<InstructionModel>,
    pub setup_instructions: Seq<InstructionModel>,
    pub swap_instruction: InstructionModel,
    pub cleanup_instruction: Option<InstructionModel>,
    pub address_lookup_table_addresses: Seq<Pubkey>,
}

pub open spec fn account_model(a: AccountMetaInternal) -> AccountMeta {
    AccountMeta { pubkey: a.pubkey, is_signer: a.is_signer, is_writable: a.is_writable }
}

pub open spec fn option_model<I: View>(o: Option<I>) -> Option<I::V> {
    match o {
        Some(i) => Some(i@),
        None => None,
    }
}

pub open spec fn seq_model<I: View>(s: Seq<I>) -> Seq<I::V> {
    s.map_values(|i: I| i@)
}

impl View for Instruction {
    type V = InstructionModel;

    open spec fn view(&self) -> InstructionModel {
        InstructionModel { program_id: self.program_id, accounts: self.accounts@, data: self.data@ }
    }
}

impl View for InstructionInternal {
    type V = InstructionModel;

    open spec fn view(&self) -> InstructionModel {
        InstructionModel {
            program_id: self.program_id,
            accounts: self.accounts@.map_values(|a: AccountMetaInternal| account_model(a)),
            data: self.data@,
        }
    }
}

impl View for SwapInstructionsResponse {
    type V = SwapInstructionsModel;

    open spec fn view(&self) -> SwapInstructionsModel {
        SwapInstructionsModel {
            token_ledger_instruction: option_model(self.token_ledger_instruction),
            compute_budget_instructions: seq_model(self.compute_budget_instructions@),
            setup_instructions: seq_model(self.setup_instructions@),
            swap_instruction: self.swap_instruction@,
            cleanup_instruction: option_model(self.cleanup_instruction),
            address_lookup_table_addresses: self.address_lookup_table_addresses@,
        }
    }
}

impl View for SwapInstructionsResponseInternal {
    type V = SwapInstructionsModel;

    open spec fn view(&self) -> SwapInstructionsModel {
        SwapInstructionsModel {
            token_ledger_instruction: option_model(self.token_ledger_instruction),
            compute_budget_instructions: seq_model(self.compute_budget_instructions@),
            setup_instructions: seq_model(self.setup_instructions@),
            swap_instruction: self.swap_instruction@,
            cleanup_instruction: option_model(self.cleanup_instruction),
            address_lookup_table_addresses: self.address_lookup_table_addresses@.map_values(
                |p: PubkeyInternal| p.0,
            ),
        }
    }
}

fn convert_accounts(accounts: Vec<AccountMetaInternal>) -> (r: Vec<AccountMeta>)
    ensures
        r@ == accounts@.map_values(|a: AccountMetaInternal| account_model(a)),
{
    let mut out: Vec<AccountMeta> = Vec::new();
    let mut i: usize = 0;
    while i < accounts.len()
        invariant
            i <= accounts@.len(),
            out@.len() == i,
            forall|j: int| 0 <= j < i ==> out@[j] == account_model(#[trigger] accounts@[j]),
        decreases accounts@.len() - i,
    {
        let a = accounts[i];
        out.push(AccountMeta { pubkey: a.pubkey, is_signer: a.is_signer, is_writable: a.is_writable });
        i = i + 1;
    }
    assert(out@ =~= accounts@.map_values(|a: AccountMetaInternal| account_model(a)));
    out
}

impl Instruction {
    /// The public shape of an instruction: every field kept.
    pub fn from_internal(value: InstructionInternal) -> (r: Self)
        ensures
            r@ == value@,
    {
        let InstructionInternal { program_id, accounts, data } = value;
        Instruction { program_id, accounts: convert_accounts(accounts), data }
    }
}

fn convert_option(value: Option<InstructionInternal>) -> (r: Option<Instruction>)
    ensures
        option_model(r) == option_model(value),
{
    match value {
        Some(i) => Some(Instruction::from_internal(i)),
        None => None,
    }
}

fn convert_instructions(value: Vec<InstructionInternal>) -> (r: Vec<Instruction>)
    ensures
        seq_model(r@) == seq_model(value@),
{
    let ghost original = value@;
    let mut rest = value;
    let mut out: Vec<Instruction> = Vec::new();
    while rest.len() > 0
        invariant
            out@.len() + rest@.len() == original.len(),
            rest@ == original.subrange(out@.len() as int, original.len() as int),
            forall|j: int| 0 <= j < out@.len() ==> (#[trigger] out@[j])@ == original[j]@,
        decreases rest@.len(),
    {
        let i = rest.remove(0);
        out.push(Instruction::from_internal(i));
    }
    assert(seq_model(out@) =~= seq_model(original));
    out
}

fn convert_addresses(value: Vec<PubkeyInternal>) -> (r: Vec<Pubkey>)
    ensures
        r@ == value@.map_values(|p: PubkeyInternal| p.0),
{
    let mut out: Vec<Pubkey> = Vec::new();
    let mut i: usize = 0;
    while i < value.len()
        invariant
            i <= value@.len(),
            out@.len() == i,
            forall|j: int| 0 <= j < i ==> out@[j] == (#[trigger] value@[j]).0,
        decreases value@.len() - i,
    {
        out.push(value[i].0);
        i = i + 1;
    }
    assert(out@ =~= value@.map_values(|p: PubkeyInternal| p.0));
    out
}

impl SwapInstructionsResponse {
    /// The public shape of the payload: every instruction and address of the
    /// wire shape, in the same places and the same order.
    pub fn from_internal(value: SwapInstructionsResponseInternal) -> (r: Self)
        ensures
            r@ == value@,
    {
        let SwapInstructionsResponseInternal {
            token_ledger_instruction,
            compute_budget_instructions,
            setup_instructions,
            swap_instruction,
            cleanup_instruction,
            address_lookup_table_addresses,
        } = value;
        SwapInstructionsResponse {
            token_ledger_instruction: convert_option(token_ledger_instruction),
            compute_budget_instructions: convert_instructions(compute_budget_instructions),
            setup_instructions: convert_instructions(setup_instructions),
            swap_instruction: Instruction::from_internal(swap_instruction),
            cleanup_instruction: convert_option(cleanup_instruction),
            address_lookup_table_addresses: convert_addresses(address_lookup_table_addresses),
        }
    }
}

/// The conversion loses nothing: two wire payloads whose public shapes
/// mean the same meant the same themselves.
pub proof fn lemma_conversion_lossless(
    a: SwapInstructionsResponseInternal,
    b: SwapInstructionsResponseInternal,
    ra: SwapInstructionsResponse,
    rb: SwapInstructionsResponse,
)
    requires
        ra@ == a@,
        rb@ == b@,
        ra@ == rb@,
    ensures
        a@ == b@,
{
}

/// The last step of the swap-instructions operation: the exchange's
/// result for the wire shape, turned into the public shape.
pub fn decode_swap_instructions(
    sent: Result<(u16, ResponseBody<SwapInstructionsResponseInternal>), String>,
) -> (r: Result<SwapInstructionsResponse, ApiError>)
    requires
        sent_fits(sent),
    ensures
        match sent_result(sent) {
            Ok(v) => r matches Ok(p) && p@ == v@,
            Err(e) => r == Err::<SwapInstructionsResponse, ApiError>(e),
        },
{
    match decode_sent(sent) {
        Ok(v) => Ok(SwapInstructionsResponse::from_internal(v)),
        Err(e) => Err(e),
    }
}

/// The address held in a byte string, where it is exactly 32 bytes long.
pub fn pubkey_from_bytes(b: Vec<u8>) -> (r: Option<Pubkey>)
    ensures
        r is Some <==> b@.len() == 32,
        r matches Some(p) ==> p.0@ == b@,
{
    if b.len() != 32 {
        return None;
    }
    let mut bytes = [0u8; 32];
    let mut i: usize = 0;
    while i < 32
        invariant
            b@.len() == 32,
            i <= 32,
            forall|j: int| 0 <= j < i ==> bytes@[j] == b@[j],
        decreases 32 - i,
    {
        bytes[i] = b[i];
        i = i + 1;
    }
    assert(bytes@ =~= b@);
    Some(Pubkey(bytes))
}

} // verus!
