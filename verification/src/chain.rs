//! Trusted boundary to the ledger SDK: the compute-budget directive
//! constructors, versioned-message compilation and signing. Each item
//! here wraps exactly one SDK call; everything around them is verified.

use vstd::prelude::*;
use solana_sdk::address_lookup_table::AddressLookupTableAccount;
use solana_sdk::instruction::AccountMeta;
use solana_sdk::instruction::Instruction;
use solana_sdk::message::v0::Message;
use solana_sdk::message::VersionedMessage;
use solana_sdk::pubkey::Pubkey;
use solana_sdk::signer::keypair::Keypair;
use solana_sdk::signer::Signer;
use solana_sdk::transaction::VersionedTransaction;

verus! {

#[verifier::external_type_specification]
#[verifier::external_body]
pub struct ExPubkey(Pubkey);

#[verifier::external_type_specification]
pub struct ExAccountMeta(AccountMeta);

#[verifier::external_type_specification]
pub struct ExInstruction(Instruction);

#[verifier::external_type_specification]
#[verifier::external_body]
pub struct ExHash(solana_sdk::hash::Hash);

#[verifier::external_type_specification]
#[verifier::external_body]
pub struct ExMessage(Message);

#[verifier::external_type_specification]
#[verifier::external_body]
pub struct ExVersionedTransaction(VersionedTransaction);

#[verifier::external_type_specification]
#[verifier::external_body]
pub struct ExKeypair(Keypair);

#[verifier::external_type_specification]
#[verifier::external_body]
pub struct ExAddressLookupTableAccount(AddressLookupTableAccount);

/// A `u32` as four little-endian bytes.
pub open spec fn u32_le(x: u32) -> Seq<u8> {
    seq![
        (x & 0xff) as u8,
        ((x >> 8) & 0xff) as u8,
        ((x >> 16) & 0xff) as u8,
        ((x >> 24) & 0xff) as u8,
    ]
}

/// A `u64` as eight little-endian bytes.
pub open spec fn u64_le(x: u64) -> Seq<u8> {
    seq![
        (x & 0xff) as u8,
        ((x >> 8) & 0xff) as u8,
        ((x >> 16) & 0xff) as u8,
        ((x >> 24) & 0xff) as u8,
        ((x >> 32) & 0xff) as u8,
        ((x >> 40) & 0xff) as u8,
        ((x >> 48) & 0xff) as u8,
        ((x >> 56) & 0xff) as u8,
    ]
}

/// Serialized form of the compute-unit-limit directive: the
/// compute-budget program's tag byte for that directive, then the limit.
pub open spec fn limit_directive_data(limit: u32) -> Seq<u8> {
    seq![2u8] + u32_le(limit)
}

/// Cap of every length-prefixed list in the compiled wire format: such
/// a list is length-prefixed with at most this many entries.
pub const WIRE_FIELD_MAX: usize = 65535;

/// The instruction list stays within the wire format's field caps, so
/// that no list the compiled message copies from it can outgrow its
/// length prefix.
pub open spec fn within_wire_limits(ixs: Seq<Instruction>) -> bool {
    &&& ixs.len() <= WIRE_FIELD_MAX
    &&& forall|i: int|
        0 <= i < ixs.len() ==> (#[trigger] ixs[i]).data@.len() <= WIRE_FIELD_MAX && ixs[
            i
        ].accounts@.len() <= WIRE_FIELD_MAX
}

/// Whether the wire format can serialize this message: every
/// length-prefixed field holds at most `WIRE_FIELD_MAX` entries.
pub uninterp spec fn serializable(message: Message) -> bool;

/// The compute-budget program's key, in byte form.
pub open spec fn compute_budget_key_bytes() -> Seq<u8> {
    seq![
        3u8, 6u8, 70u8, 111u8, 229u8, 33u8, 23u8, 50u8, 255u8, 236u8, 173u8, 186u8, 114u8,
        195u8, 155u8, 231u8, 188u8, 140u8, 229u8, 187u8, 197u8, 247u8, 18u8, 107u8, 44u8,
        67u8, 155u8, 58u8, 64u8, 0u8, 0u8, 0u8,
    ]
}

/// What `Pubkey::to_bytes` returns: the byte form of an account key,
/// a function of the key alone.
pub uninterp spec fn pubkey_bytes(key: Pubkey) -> Seq<u8>;

/// What `ComputeBudgetInstruction::set_compute_unit_limit` returns for a
/// given limit: the constructor is a pure function of its argument.
pub uninterp spec fn limit_directive_of(limit: u32) -> Instruction;

/// What `ComputeBudgetInstruction::set_compute_unit_price` returns for a
/// given price: the constructor is a pure function of its argument.
pub uninterp spec fn price_directive_of(price: u64) -> Instruction;

/// What `Signer::pubkey` returns for a keypair: the public key is a
/// function of the key material alone.
pub uninterp spec fn pubkey_of(payer: Keypair) -> Pubkey;

/// What `v0::Message::try_compile` returns (with its error rendered as
/// text): compilation is deterministic in the payer, the instruction
/// list, the lookup tables and the blockhash.
pub uninterp spec fn compile_of(
    payer: Pubkey,
    instructions: Seq<Instruction>,
    lookup_tables: Seq<AddressLookupTableAccount>,
    recent_blockhash: solana_sdk::hash::Hash,
) -> Result<Message, String>;

/// What `VersionedTransaction::try_new` returns for one payer signer
/// (with its error rendered as text): ed25519 signing is deterministic
/// in the message and the key material.
pub uninterp spec fn sign_of(message: Message, payer: Keypair) -> Result<
    VersionedTransaction,
    String,
>;

/// The instruction list of one update transaction, as compiled: the two
/// fee directives, then the payload.
pub open spec fn update_instruction_list(
    cu_limit: u32,
    cu_price: u64,
    payload: Instruction,
) -> Seq<Instruction> {
    seq![limit_directive_of(cu_limit), price_directive_of(cu_price), payload]
}

/// Serialized form of the compute-unit-price directive: the
/// compute-budget program's tag byte for that directive, then the price.
pub open spec fn price_directive_data(price: u64) -> Seq<u8> {
    seq![3u8] + u64_le(price)
}

/// Relies on `ComputeBudgetInstruction::set_compute_unit_limit`: an
/// instruction for the compute-budget program with no accounts whose
/// data is the tag byte `2` followed by the limit in little-endian; a
/// pure constructor, so its result carries the directive's name.
#[verifier::external_body]
fn cu_limit_ix(limit: u32) -> (r: Instruction)
    ensures
        r == limit_directive_of(limit),
        r.data@ == limit_directive_data(limit),
        r.accounts@ == Seq::<AccountMeta>::empty(),
        pubkey_bytes(r.program_id) == compute_budget_key_bytes(),
{
    solana_sdk::compute_budget::ComputeBudgetInstruction::set_compute_unit_limit(limit)
}

/// Relies on `ComputeBudgetInstruction::set_compute_unit_price`: an
/// instruction for the compute-budget program with no accounts whose
/// data is the tag byte `3` followed by the price in little-endian; a
/// pure constructor, so its result carries the directive's name.
#[verifier::external_body]
fn cu_price_ix(price: u64) -> (r: Instruction)
    ensures
        r == price_directive_of(price),
        r.data@ == price_directive_data(price),
        r.accounts@ == Seq::<AccountMeta>::empty(),
        pubkey_bytes(r.program_id) == compute_budget_key_bytes(),
{
    solana_sdk::compute_budget::ComputeBudgetInstruction::set_compute_unit_price(price)
}

/// The instruction list of one update transaction: the compute-unit
/// limit directive, the priority-fee directive, then the payload, in
/// that fixed order, so the fee engine accounts for the whole
/// transaction before executing it.
pub fn build_update_instructions(cu_limit: u32, cu_price: u64, payload: Instruction) -> (v: Vec<
    Instruction,
>)
    ensures
        v@ == update_instruction_list(cu_limit, cu_price, payload),
        v@.len() == 3,
        v@[0].data@ == limit_directive_data(cu_limit),
        v@[0].accounts@ == Seq::<AccountMeta>::empty(),
        pubkey_bytes(v@[0].program_id) == compute_budget_key_bytes(),
        v@[1].data@ == price_directive_data(cu_price),
        v@[1].accounts@ == Seq::<AccountMeta>::empty(),
        pubkey_bytes(v@[1].program_id) == compute_budget_key_bytes(),
        v@[2] == payload,
{
    let mut v: Vec<Instruction> = Vec::new();
    v.push(cu_limit_ix(cu_limit));
    v.push(cu_price_ix(cu_price));
    v.push(payload);
    v
}

/// Relies on `Signer::pubkey` of `Keypair`: the public key of the payer
/// identity, a function of the key material alone.
#[verifier::external_body]
pub(crate) fn payer_pubkey(payer: &Keypair) -> (r: Pubkey)
    ensures
        r == pubkey_of(*payer),
{
    payer.pubkey()
}

/// Relies on `v0::Message::try_compile`: compiles the instruction list
/// against the lookup tables into one versioned message, and fails when
/// the combined set cannot fit a single message. The call is
/// deterministic in its arguments (keys are ordered through an ordered
/// map), so its result carries a name. Compilation caps account keys
/// and table-lookup indices at one-byte values, and copies each
/// instruction's data and account-index list as they come; so when the
/// instruction list is within the wire caps, every length-prefixed
/// field of the compiled message is too, and the message serializes.
#[verifier::external_body]
pub(crate) fn compile_message(
    payer: &Pubkey,
    instructions: &Vec<Instruction>,
    lookup_tables: &Vec<AddressLookupTableAccount>,
    recent_blockhash: solana_sdk::hash::Hash,
) -> (r: Result<Message, String>)
    ensures
        r == compile_of(*payer, instructions@, lookup_tables@, recent_blockhash),
        r matches Ok(m) ==> (within_wire_limits(instructions@) ==> serializable(m)),
{
    match Message::try_compile(
        payer,
        instructions.as_slice(),
        lookup_tables.as_slice(),
        recent_blockhash,
    ) {
        Ok(m) => Ok(m),
        Err(e) => Err(format!("{e}")),
    }
}

/// Relies on `VersionedTransaction::try_new` with the payer as the sole
/// signer: signs the compiled message, and fails when the payer identity
/// cannot produce a valid signature for it. Signing is deterministic in
/// the message and the key material, so its result carries a name.
/// `try_new` serializes the message first and panics, instead of
/// returning, when any length-prefixed field of the wire format exceeds
/// `WIRE_FIELD_MAX` entries; the `requires` leaves such messages out,
/// and callers get them only from `compile_message` under its
/// wire-limit clause.
#[verifier::external_body]
pub(crate) fn sign_message(message: Message, payer: &Keypair) -> (r: Result<
    VersionedTransaction,
    String,
>)
    requires
        serializable(message),
    ensures
        r == sign_of(message, *payer),
{
    match VersionedTransaction::try_new(VersionedMessage::V0(message), &[payer]) {
        Ok(t) => Ok(t),
        Err(e) => Err(format!("{e}")),
    }
}

/// Relies on `VersionedTransaction`'s derived `Clone`: a field-for-field
/// copy of the signed transaction.
#[verifier::external_body]
pub(crate) fn clone_tx(tx: &VersionedTransaction) -> (r: VersionedTransaction)
    ensures
        r == *tx,
{
    tx.clone()
}

} // verus!
