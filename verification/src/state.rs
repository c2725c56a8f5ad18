use vstd::prelude::*;

verus! {

broadcast use vstd::array::group_array_axioms;

/// A 32-byte account address, the form in which the host hands identities
/// to the ledger.
#[derive(Clone, Copy, Debug)]
pub struct Identity {
    pub bytes: [u8; 32],
}

impl Identity {
    pub fn new(bytes: [u8; 32]) -> (r: Identity)
        ensures
            r.bytes == bytes,
    {
        Identity { bytes }
    }
}

impl PartialEq for Identity {
    fn eq(&self, other: &Identity) -> (r: bool) {
        let mut i: usize = 0;
        while i < 32
            invariant
                i <= 32,
                forall|j: int| 0 <= j < i ==> self.bytes[j] == other.bytes[j],
            decreases 32 - i,
        {
            if self.bytes[i] != other.bytes[i] {
                return false;
            }
            i += 1;
        }
        proof {
            assert(self.bytes =~= other.bytes);
        }
        true
    }
}

impl vstd::std_specs::cmp::PartialEqSpecImpl for Identity {
    open spec fn obeys_eq_spec() -> bool {
        true
    }

    open spec fn eq_spec(&self, other: &Identity) -> bool {
        self.bytes == other.bytes
    }
}

/// A token type's issuance record: decimal precision, the identity allowed
/// to mint further supply (none means the supply is fixed for good), and the
/// running total issued.
#[derive(Clone, Copy, Debug)]
pub struct Mint {
    pub decimals: u8,
    pub mint_authority: Option<Identity>,
    pub supply: u64,
}

/// One owner's balance for one mint.
#[derive(Clone, Copy, Debug)]
pub struct TokenAccount {
    pub mint: Identity,
    pub owner: Identity,
    pub amount: u64,
}

/// A caller-supplied account reference: its address, whether its controlling
/// identity signed the current call, its balance in lamports, and the buffer
/// that holds its serialized record.
#[derive(Clone, Debug)]
pub struct AccountRef {
    pub key: Identity,
    pub is_signer: bool,
    pub lamports: u64,
    pub data: Vec<u8>,
}

/// Everything but the record buffer is left alone by every handler.
pub open spec fn frame_ok(pre: AccountRef, post: AccountRef) -> bool {
    &&& post.key == pre.key
    &&& post.is_signer == pre.is_signer
    &&& post.lamports == pre.lamports
}

/// The account reference came through the call untouched.
pub open spec fn acc_unchanged(pre: AccountRef, post: AccountRef) -> bool {
    &&& frame_ok(pre, post)
    &&& post.data@ == pre.data@
}

/// The single error classification a failed call reports.
#[derive(Clone, Copy, Debug, PartialEq, Eq, Structural)]
pub enum TokenError {
    /// Bad discriminant tag or truncated operand.
    MalformedInstruction,
    /// A required attester did not sign.
    MissingSignature,
    /// Wrong or absent minting authority.
    AuthorityMismatch,
    /// An account's mint differs from the expected mint.
    MintMismatch,
    /// A transfer was initiated by an identity that does not own the source.
    OwnershipMismatch,
    /// The source balance cannot cover the transfer.
    InsufficientBalance,
    /// The mint slot's backing storage fails the rent-exemption predicate.
    NotRentExempt,
    /// A record or oracle buffer could not be decoded, or could not take a
    /// record back.
    RecordDecodeFailure,
    /// A balance or supply increment would wrap around.
    ArithmeticOverflow,
}

} // verus!
