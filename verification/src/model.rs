//! The data model: identities, instructions, account references, the live
//! accounts handed in by the runtime, and the failure kinds.
use vstd::prelude::*;

verus! {

/// Every way the verification routine can fail.
#[derive(Clone, Copy, Debug, PartialEq, Eq, Structural)]
pub enum ErrorKind {
    /// Malformed or insufficient caller-supplied bytes: empty instruction
    /// data, a missing claimed-index byte, or an undersized introspection
    /// account.
    InvalidInput,
    /// The introspection buffer cannot be parsed at the requested index, or
    /// its header is unreadable.
    MalformedData,
    /// A consistency violation between claimed and runtime-reported state; a
    /// fatal condition that must abort the whole enclosing transaction.
    AssertionFailed,
}

/// The 32-byte identity of a program or account.
#[derive(Debug)]
pub struct Identifier {
    pub bytes: Vec<u8>,
}

impl View for Identifier {
    type V = Seq<u8>;

    open spec fn view(&self) -> Seq<u8> {
        self.bytes@
    }
}

impl Identifier {
    /// An identifier is exactly 32 bytes long.
    pub open spec fn wf(&self) -> bool {
        self.bytes@.len() == 32
    }

    /// Byte-for-byte equality of two identities.
    pub fn same_as(&self, other: &Identifier) -> (r: bool)
        ensures
            r == (self@ == other@),
    {
        if self.bytes.len() != other.bytes.len() {
            return false;
        }
        let n = self.bytes.len();
        let mut i: usize = 0;
        while i < n
            invariant
                n == self.bytes@.len(),
                n == other.bytes@.len(),
                i <= n,
                forall|j: int| 0 <= j < i ==> self.bytes@[j] == other.bytes@[j],
            decreases n - i,
        {
            if self.bytes[i] != other.bytes[i] {
                return false;
            }
            i = i + 1;
        }
        proof {
            assert(self@ =~= other@);
        }
        true
    }
}

impl Clone for Identifier {
    fn clone(&self) -> (r: Self)
        ensures
            r@ == self@,
    {
        let bytes = self.bytes.clone();
        proof {
            assert(bytes@ =~= self.bytes@);
        }
        Identifier { bytes }
    }
}

/// The mathematical value of an [`AccountRef`].
pub ghost struct AccountRefView {
    pub key: Seq<u8>,
    pub is_signer: bool,
    pub is_writable: bool,
}

/// One account that an instruction touches; always embedded in an
/// [`Instruction`].
#[derive(Debug)]
pub struct AccountRef {
    pub key: Identifier,
    pub is_signer: bool,
    pub is_writable: bool,
}

impl View for AccountRef {
    type V = AccountRefView;

    open spec fn view(&self) -> AccountRefView {
        AccountRefView { key: self.key@, is_signer: self.is_signer, is_writable: self.is_writable }
    }
}

/// The mathematical value of an [`Instruction`].
pub ghost struct InstructionView {
    pub program_id: Seq<u8>,
    pub accounts: Seq<AccountRefView>,
    pub data: Seq<u8>,
}

/// One step of a transaction: a target program, the accounts it touches, and
/// an opaque data payload. Immutable once constructed.
#[derive(Debug)]
pub struct Instruction {
    pub program_id: Identifier,
    pub accounts: Vec<AccountRef>,
    pub data: Vec<u8>,
}

impl View for Instruction {
    type V = InstructionView;

    open spec fn view(&self) -> InstructionView {
        InstructionView {
            program_id: self.program_id@,
            accounts: Seq::new(self.accounts@.len(), |i: int| self.accounts@[i]@),
            data: self.data@,
        }
    }
}

/// An account as the runtime hands it to one call frame: its reference
/// together with its live data.
#[derive(Debug)]
pub struct LiveAccount {
    pub key: Identifier,
    pub is_signer: bool,
    pub is_writable: bool,
    pub data: Vec<u8>,
}

} // verus!
