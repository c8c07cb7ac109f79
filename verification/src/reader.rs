//! The introspection reader: pure reads over the shared introspection
//! account's bytes. The buffer's serialization format is owned by the host
//! runtime, so the record deserializer is called in the runtime's own crate
//! and its result is given a name; the header fields whose layout the
//! runtime's source states in a line are specified exactly.
use crate::model::{ErrorKind, Identifier, Instruction, InstructionView};
use vstd::prelude::*;

verus! {

/// What the runtime's deserializer yields for the record stored at `index`
/// within the introspection buffer `buffer`: `Some` of the record exactly when
/// the stored bytes parse at that index, `None` when they do not. A function
/// of the bytes and the index alone.
pub uninterp spec fn instruction_record_at(buffer: Seq<u8>, index: int) -> Option<InstructionView>;

/// The instruction count of the enclosing transaction, stored little-endian
/// in the buffer's two leading bytes.
pub open spec fn leading_record_count(buffer: Seq<u8>) -> int
    recommends
        buffer.len() >= 2,
{
    buffer[0] as int + 256 * (buffer[1] as int)
}

/// The currently executing instruction's index, stored little-endian in the
/// buffer's two trailing bytes.
pub open spec fn stored_current_index(buffer: Seq<u8>) -> int
    recommends
        buffer.len() >= 2,
{
    buffer[buffer.len() - 2] as int + 256 * (buffer[buffer.len() - 1] as int)
}

/// Relies on solana_program::sysvar::instructions::load_instruction_at: it
/// deserializes the record stored at `index` from the sysvar bytes alone, it
/// never panics, and it rejects any `index` at or beyond the instruction
/// count held in the two leading bytes (or a buffer too short to hold that
/// count). Its result is named by [`instruction_record_at`].
#[verifier::external_body]
#[allow(deprecated)]
fn sysvar_instruction_at(buffer: &Vec<u8>, index: usize) -> (r: Result<Instruction, ErrorKind>)
    ensures
        (r matches Ok(record) ==> instruction_record_at(buffer@, index as int) == Some(
            record@,
        )),
        (r matches Err(e) ==> e == ErrorKind::MalformedData && instruction_record_at(
            buffer@,
            index as int,
        ) is None),
        buffer@.len() < 2 ==> r is Err,
        buffer@.len() >= 2 && index as int >= leading_record_count(buffer@) ==> r is Err,
{
    match solana_program::sysvar::instructions::load_instruction_at(index, buffer.as_slice()) {
        Ok(ix) => {
            let to_ref = |m: &solana_program::instruction::AccountMeta| crate::model::AccountRef {
                key: Identifier { bytes: m.pubkey.to_bytes().to_vec() },
                is_signer: m.is_signer,
                is_writable: m.is_writable,
            };
            let accounts = ix.accounts.iter().map(to_ref).collect();
            let program_id = Identifier { bytes: ix.program_id.to_bytes().to_vec() };
            Ok(Instruction { program_id, accounts, data: ix.data })
        },
        Err(_) => Err(ErrorKind::MalformedData),
    }
}

/// Relies on solana_program::sysvar::instructions::load_current_index: it
/// returns the little-endian value of the buffer's two trailing bytes. It
/// panics on a buffer shorter than two bytes, so those are excluded.
#[verifier::external_body]
#[allow(deprecated)]
fn sysvar_current_index(buffer: &Vec<u8>) -> (r: u16)
    requires
        buffer@.len() >= 2,
    ensures
        r as int == stored_current_index(buffer@),
{
    solana_program::sysvar::instructions::load_current_index(buffer.as_slice())
}

/// Deserializes and returns the instruction record stored at `index` within
/// the introspection buffer. Fails with `MalformedData` exactly when the
/// stored bytes cannot be parsed at that index; in particular an index at or
/// beyond the transaction's instruction count always fails.
pub fn load_instruction_at(buffer: &Vec<u8>, index: usize) -> (r: Result<Instruction, ErrorKind>)
    ensures
        (r matches Ok(record) ==> instruction_record_at(buffer@, index as int) == Some(
            record@,
        )),
        (r matches Err(e) ==> e == ErrorKind::MalformedData && instruction_record_at(
            buffer@,
            index as int,
        ) is None),
        buffer@.len() >= 2 && index as int >= leading_record_count(buffer@) ==> r == Err::<
            Instruction,
            ErrorKind,
        >(ErrorKind::MalformedData),
        buffer@.len() < 2 ==> r == Err::<Instruction, ErrorKind>(ErrorKind::MalformedData),
{
    sysvar_instruction_at(buffer, index)
}

/// Reads the zero-based position, within the enclosing transaction, of the
/// instruction frame presently executing. Fails with `MalformedData` exactly
/// when the buffer is shorter than the minimum header length.
pub fn load_current_index(buffer: &Vec<u8>) -> (r: Result<u16, ErrorKind>)
    ensures
        buffer@.len() >= 2 ==> (r matches Ok(i) && i as int == stored_current_index(buffer@)),
        buffer@.len() < 2 ==> r == Err::<u16, ErrorKind>(ErrorKind::MalformedData),
{
    if buffer.len() < 2 {
        Err(ErrorKind::MalformedData)
    } else {
        Ok(sysvar_current_index(buffer))
    }
}

/// Reading the introspection buffer is deterministic: byte-identical buffers
/// questioned at the same index hold byte-identical instruction records. The
/// record is a function of the buffer's bytes and the index alone, so two
/// reads can never disagree.
pub proof fn lemma_reader_deterministic(b1: Seq<u8>, b2: Seq<u8>, index: int)
    requires
        b1 == b2,
    ensures
        instruction_record_at(b1, index) == instruction_record_at(b2, index),
{
}

} // verus!
