//! The verification routine and the recursive self-invocation trigger: the
//! entrypoint-level logic that validates a call frame, cross-checks the
//! caller-declared position against the runtime-reported one, and on the
//! two-byte input shape asks the runtime to re-enter this same program one
//! call level deeper.
use crate::model::{AccountRef, ErrorKind, Identifier, Instruction, InstructionView, LiveAccount};
use crate::reader::{
    instruction_record_at, load_current_index, load_instruction_at, stored_current_index,
};
use solana_program::account_info::AccountInfo;
use solana_program::instruction::AccountMeta;
use solana_program::instruction::Instruction as RuntimeInstruction;
use solana_program::program::invoke;
use solana_program::pubkey::Pubkey;
use vstd::prelude::*;

verus! {

/// The bytes of the runtime's reserved introspection-account identifier,
/// spelled "Sysvar1nstructions1111111111111111111111111" in the runtime's
/// base-58 alphabet.
pub open spec fn introspection_id() -> Seq<u8> {
    seq![
        6u8, 167u8, 213u8, 23u8, 24u8, 123u8, 209u8, 102u8, 53u8, 218u8, 212u8, 4u8, 85u8, 253u8,
        194u8, 192u8, 193u8, 36u8, 198u8, 143u8, 33u8, 86u8, 117u8, 165u8, 219u8, 186u8, 203u8,
        95u8, 8u8, 0u8, 0u8, 0u8,
    ]
}

/// The designated introspection account's identity as a value.
pub fn introspection_identifier() -> (r: Identifier)
    ensures
        r@ == introspection_id(),
        r.wf(),
{
    let bytes: Vec<u8> = vec![
        6u8, 167u8, 213u8, 23u8, 24u8, 123u8, 209u8, 102u8, 53u8, 218u8, 212u8, 4u8, 85u8, 253u8,
        194u8, 192u8, 193u8, 36u8, 198u8, 143u8, 33u8, 86u8, 117u8, 165u8, 219u8, 186u8, 203u8,
        95u8, 8u8, 0u8, 0u8, 0u8,
    ];
    proof {
        assert(bytes@ =~= introspection_id());
    }
    Identifier { bytes }
}

/// What one successfully verified frame establishes: the instruction record
/// fetched at the caller-requested index, and the runtime-reported position
/// of the frame presently executing.
pub struct FrameReport {
    pub fetched: Instruction,
    pub current_index: u16,
}

/// The whole validation cascade of one call frame, as one mathematical
/// function from the frame's inputs to its outcome. The checks run in the
/// order given: non-empty input, designated first account, readable buffer
/// header, parseable record at the requested index, present claimed-index
/// byte, and agreement of the claimed position with the runtime-reported one.
pub open spec fn frame_check(accounts: Seq<LiveAccount>, data: Seq<u8>) -> Result<
    (InstructionView, int),
    ErrorKind,
> {
    if data.len() == 0 {
        Err(ErrorKind::InvalidInput)
    } else if accounts.len() == 0 || accounts[0].key@ != introspection_id() {
        Err(ErrorKind::AssertionFailed)
    } else if accounts[0].data@.len() < 2 {
        Err(ErrorKind::InvalidInput)
    } else {
        match instruction_record_at(accounts[0].data@, data[0] as int) {
            Option::None => Err(ErrorKind::MalformedData),
            Option::Some(record) => if data.len() < 2 {
                Err(ErrorKind::InvalidInput)
            } else if stored_current_index(accounts[0].data@) != data[1] as int {
                Err(ErrorKind::AssertionFailed)
            } else {
                Ok((record, stored_current_index(accounts[0].data@)))
            },
        }
    }
}

/// Validates one call frame: checks the inputs, fetches the instruction
/// record that `instruction_data[0]` requests from the introspection buffer,
/// and asserts that the position claimed in `instruction_data[1]` equals the
/// position the runtime reports as currently executing. Returns exactly the
/// outcome that [`frame_check`] assigns to the inputs.
pub fn verify_frame(accounts: &Vec<LiveAccount>, instruction_data: &Vec<u8>) -> (r: Result<
    FrameReport,
    ErrorKind,
>)
    ensures
        (r matches Ok(rep) ==> frame_check(accounts@, instruction_data@) == Ok::<
            (InstructionView, int),
            ErrorKind,
        >((rep.fetched@, rep.current_index as int))),
        (r matches Err(e) ==> frame_check(accounts@, instruction_data@) == Err::<
            (InstructionView, int),
            ErrorKind,
        >(e)),
{
    if instruction_data.len() == 0 {
        return Err(ErrorKind::InvalidInput);
    }
    if accounts.len() == 0 {
        return Err(ErrorKind::AssertionFailed);
    }
    let first = &accounts[0];
    let designated = introspection_identifier();
    if !first.key.same_as(&designated) {
        return Err(ErrorKind::AssertionFailed);
    }
    if first.data.len() < 2 {
        return Err(ErrorKind::InvalidInput);
    }
    let target_index: usize = instruction_data[0] as usize;
    let fetched = match load_instruction_at(&first.data, target_index) {
        Ok(record) => record,
        Err(_) => {
            return Err(ErrorKind::MalformedData);
        },
    };
    if instruction_data.len() < 2 {
        return Err(ErrorKind::InvalidInput);
    }
    let current_index = match load_current_index(&first.data) {
        Ok(i) => i,
        Err(e) => {
            return Err(e);
        },
    };
    let claimed_index: u16 = instruction_data[1] as u16;
    if current_index != claimed_index {
        return Err(ErrorKind::AssertionFailed);
    }
    Ok(FrameReport { fetched, current_index })
}

/// Builds the nested self-invocation: the same two data bytes with the depth
/// marker appended, addressed to this program's own identity, touching
/// exactly one account, the introspection account, read-only and non-signer.
pub fn build_nested_instruction(program_id: &Identifier, instruction_data: &Vec<u8>) -> (r:
    Instruction)
    requires
        instruction_data@.len() == 2,
    ensures
        r@.program_id == program_id@,
        r@.data == instruction_data@.push(1u8),
        r@.accounts.len() == 1,
        r@.accounts[0].key == introspection_id(),
        !r@.accounts[0].is_signer,
        !r@.accounts[0].is_writable,
{
    let mut data: Vec<u8> = Vec::new();
    data.push(instruction_data[0]);
    data.push(instruction_data[1]);
    data.push(1u8);
    let mut accounts: Vec<AccountRef> = Vec::new();
    accounts.push(
        AccountRef { key: introspection_identifier(), is_signer: false, is_writable: false },
    );
    let built = Instruction { program_id: program_id.clone(), accounts, data };
    proof {
        assert(built@.data =~= instruction_data@.push(1u8));
    }
    built
}

/// The runtime's fixed numeric code for its rejected-account-data failure, as
/// solana_program::program_error assigns the built-in failure kinds their
/// codes.
pub const UNREADABLE_ACCOUNT_DATA_CODE: u64 = 0x4_0000_0000;

/// Relies on solana_program::program::invoke: it asks the runtime to execute
/// `ix` as a nested cross-program call, handing the nested frame the live
/// introspection account, and it surfaces the runtime's numeric error code on
/// failure. The runtime alone decides the outcome, so nothing is promised of
/// it.
#[verifier::external_body]
fn invoke_nested(ix: &Instruction, introspection_account: &LiveAccount) -> (r: Result<(), u64>)
    requires
        ix@.program_id.len() == 32,
        forall|i: int| 0 <= i < ix@.accounts.len() ==> ix@.accounts[i].key.len() == 32,
{
    let key = solana_program::sysvar::instructions::id();
    let owner = solana_program::sysvar::id();
    let mut lamports: u64 = 0;
    let mut data = introspection_account.data.clone();
    let info = AccountInfo::new(&key, false, false, &mut lamports, &mut data, &owner, false, 0);
    let to_meta = |a: &AccountRef| AccountMeta {
        pubkey: Pubkey::try_from(a.key.bytes.as_slice()).unwrap(),
        is_signer: a.is_signer,
        is_writable: a.is_writable,
    };
    let metas = ix.accounts.iter().map(to_meta).collect();
    let program_id = Pubkey::try_from(ix.program_id.bytes.as_slice()).unwrap();
    invoke(&RuntimeInstruction { program_id, accounts: metas, data: ix.data.clone() }, &[info])
        .map_err(u64::from)
}

/// Classifies a nested call's failure code: a rejection for unreadable or
/// malformed account data is surfaced as `InvalidInput`, every other failure
/// of the nested execution as the fatal `AssertionFailed`.
fn error_kind_of_code(code: u64) -> (r: ErrorKind)
    ensures
        r == (if code == UNREADABLE_ACCOUNT_DATA_CODE {
            ErrorKind::InvalidInput
        } else {
            ErrorKind::AssertionFailed
        }),
{
    if code == UNREADABLE_ACCOUNT_DATA_CODE {
        ErrorKind::InvalidInput
    } else {
        ErrorKind::AssertionFailed
    }
}

/// The entry-level routine: verifies the frame as [`verify_frame`] does, and
/// when `instruction_data` is exactly the two bytes of the outer input shape,
/// additionally asks the runtime to re-enter this program through the nested
/// self-invocation of [`build_nested_instruction`].
///
/// The outcome is exactly [`frame_check`]'s whenever that is a failure or no
/// nesting is due; on the nested shape the runtime decides the nested call,
/// so the routine then passes its failure through unchanged and cannot owe
/// success.
pub fn process(
    program_id: &Identifier,
    accounts: &Vec<LiveAccount>,
    instruction_data: &Vec<u8>,
) -> (r: Result<(), ErrorKind>)
    requires
        program_id.wf(),
    ensures
        (frame_check(accounts@, instruction_data@) matches Err(e) ==> r == Err::<(), ErrorKind>(
            e,
        )),
        frame_check(accounts@, instruction_data@) is Ok && instruction_data@.len() != 2 ==> r
            == Ok::<(), ErrorKind>(()),
        r is Ok ==> frame_check(accounts@, instruction_data@) is Ok,
        (r matches Err(e) ==> (frame_check(accounts@, instruction_data@) is Ok ==> (
        instruction_data@.len() == 2 && (e == ErrorKind::InvalidInput || e
            == ErrorKind::AssertionFailed)))),
{
    match verify_frame(accounts, instruction_data) {
        Ok(_) => {},
        Err(e) => {
            return Err(e);
        },
    }
    if instruction_data.len() == 2 {
        let nested = build_nested_instruction(program_id, instruction_data);
        proof {
            assert(nested@.accounts[0].key.len() == 32);
        }
        match invoke_nested(&nested, &accounts[0]) {
            Ok(_) => {},
            Err(code) => {
                return Err(error_kind_of_code(code));
            },
        }
    }
    Ok(())
}

/// A frame that identifies itself truthfully succeeds: whenever the
/// instruction presently executing sits at position `n`, its data encodes
/// `[n, n]`, its first account is the designated introspection account, and
/// the buffer holds a parseable record at `n`, the validation cascade comes
/// out successful and reports position `n`.
pub proof fn lemma_self_identifying_frame_succeeds(
    accounts: Seq<LiveAccount>,
    data: Seq<u8>,
    n: u8,
)
    requires
        data == seq![n, n],
        accounts.len() > 0,
        accounts[0].key@ == introspection_id(),
        accounts[0].data@.len() >= 2,
        instruction_record_at(accounts[0].data@, n as int) is Some,
        stored_current_index(accounts[0].data@) == n as int,
    ensures
        frame_check(accounts, data) matches Ok(rep) && rep.1 == n as int,
{
    assert(data.len() == 2);
    assert(data[0] == n && data[1] == n);
}

/// A claimed position that differs from the runtime-reported one is a fatal
/// consistency violation: however well-formed everything else is, the
/// validation cascade fails with `AssertionFailed`.
pub proof fn lemma_claimed_index_mismatch_fails(accounts: Seq<LiveAccount>, data: Seq<u8>)
    requires
        data.len() >= 2,
        accounts.len() > 0,
        accounts[0].key@ == introspection_id(),
        accounts[0].data@.len() >= 2,
        instruction_record_at(accounts[0].data@, data[0] as int) is Some,
        stored_current_index(accounts[0].data@) != data[1] as int,
    ensures
        frame_check(accounts, data) == Err::<(InstructionView, int), ErrorKind>(
            ErrorKind::AssertionFailed,
        ),
{
}

/// A frame whose first account is not the designated introspection account
/// (or that carries no account at all) fails with `AssertionFailed`, as long
/// as the emptiness check before it did not already reject the input.
pub proof fn lemma_foreign_first_account_fails(accounts: Seq<LiveAccount>, data: Seq<u8>)
    requires
        data.len() > 0,
        accounts.len() == 0 || accounts[0].key@ != introspection_id(),
    ensures
        frame_check(accounts, data) == Err::<(InstructionView, int), ErrorKind>(
            ErrorKind::AssertionFailed,
        ),
{
}

/// Empty instruction data is rejected with `InvalidInput` before anything
/// else is looked at.
pub proof fn lemma_empty_input_fails(accounts: Seq<LiveAccount>, data: Seq<u8>)
    requires
        data.len() == 0,
    ensures
        frame_check(accounts, data) == Err::<(InstructionView, int), ErrorKind>(
            ErrorKind::InvalidInput,
        ),
{
}

} // verus!

