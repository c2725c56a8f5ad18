//! The three operation handlers and the dispatcher.  Each handler's whole
//! behaviour — which error comes on which input, and which buffers hold
//! which record afterwards — is fixed by an outcome spec function over the
//! pre-call state.

use crate::codec::{
    account_bytes_of, account_of, load_account, load_mint, min_balance_of, mint_bytes_of,
    mint_of, rent_minimum_balance, store_account, store_mint, MINT_RECORD_LEN,
    RENT_RECORD_LEN, THRESHOLD_ONE_BITS, THRESHOLD_TWO_BITS,
};
use crate::instruction::{decode_spec, TokenInstruction};
use crate::state::{
    acc_unchanged, frame_ok, AccountRef, Identity, Mint, TokenAccount, TokenError,
};
use vstd::prelude::*;

verus! {

/// The address under which the host publishes the rent oracle: the base58
/// form `SysvarRent111111111111111111111111111111111`, decoded.
pub const RENT_ORACLE_ID: [u8; 32] = [
    6, 167, 213, 23, 25, 44, 92, 81, 33, 140, 201, 76, 61, 74, 241, 127, 88, 218, 238, 8,
    155, 161, 253, 68, 227, 219, 217, 138, 0, 0, 0, 0,
];

/// The rental rate stored in the oracle record's first eight bytes.
pub open spec fn oracle_rate(data: Seq<u8>) -> u64 {
    vstd::bytes::spec_u64_from_le_bytes(data.subrange(0, 8))
}

/// The exemption-threshold bits stored in the oracle record's next eight
/// bytes.
pub open spec fn oracle_threshold(data: Seq<u8>) -> u64 {
    vstd::bytes::spec_u64_from_le_bytes(data.subrange(8, 16))
}

/// The oracle verdict InitializeMint consults.  Where the oracle's
/// parameters name neither precomputed threshold and would overflow its
/// fallback computation, the computation is skipped and the slot treated as
/// not exempt.
pub open spec fn oracle_min_balance(rate: u64, threshold: u64, data_len: int) -> Option<u64> {
    if threshold == THRESHOLD_ONE_BITS || threshold == THRESHOLD_TWO_BITS || (128 + data_len)
        * rate <= u64::MAX {
        min_balance_of(rate, threshold, data_len)
    } else {
        None
    }
}

/// The mint a successful InitializeMint constructs: the given precision,
/// the signing authority as sole minting authority, and no supply yet.
pub open spec fn fresh_mint(decimals: u8, authority: Identity) -> Mint {
    Mint { decimals, mint_authority: Some(authority), supply: 0 }
}

/// What InitializeMint decides once the oracle's minimum balance is known:
/// the authority must have signed, the mint slot must be exactly one record
/// long, and the slot's backing storage must cover the minimum balance.
pub open spec fn apply_initialize_mint_outcome(
    mint_acc: AccountRef,
    authority: AccountRef,
    decimals: u8,
    min_balance: Option<u64>,
) -> Result<Mint, TokenError> {
    if !authority.is_signer {
        Err(TokenError::MissingSignature)
    } else if mint_acc.data@.len() != MINT_RECORD_LEN {
        Err(TokenError::RecordDecodeFailure)
    } else if !(match min_balance {
        Some(m) => mint_acc.lamports >= m,
        None => false,
    }) {
        Err(TokenError::NotRentExempt)
    } else {
        Ok(fresh_mint(decimals, authority.key))
    }
}

/// Relates the mint slot before and after an InitializeMint step to its
/// outcome.  The rent check runs only after the record is written, so a
/// `NotRentExempt` failure still leaves the fresh record in the slot — the
/// one departure from all-or-nothing, kept as the source behaviour has it.
pub open spec fn apply_initialize_mint_post(
    pre_mint: AccountRef,
    post_mint: AccountRef,
    authority: AccountRef,
    decimals: u8,
    min_balance: Option<u64>,
    r: Result<(), TokenError>,
) -> bool {
    &&& frame_ok(pre_mint, post_mint)
    &&& match apply_initialize_mint_outcome(pre_mint, authority, decimals, min_balance) {
        Ok(m) => r is Ok && post_mint.data@ == mint_bytes_of(m),
        Err(e) => {
            &&& r == Err::<(), TokenError>(e)
            &&& if e is NotRentExempt {
                post_mint.data@ == mint_bytes_of(fresh_mint(decimals, authority.key))
            } else {
                post_mint.data@ == pre_mint.data@
            }
        },
    }
}

/// The InitializeMint step with the oracle's verdict handed in as a plain
/// value, so that every branch below is fixed by this function's contract
/// alone.
pub fn apply_initialize_mint(
    mint_acc: &mut AccountRef,
    authority: &AccountRef,
    decimals: u8,
    min_balance: Option<u64>,
) -> (r: Result<(), TokenError>)
    ensures
        apply_initialize_mint_post(
            *old(mint_acc),
            *final(mint_acc),
            *authority,
            decimals,
            min_balance,
            r,
        ),
{
    if !authority.is_signer {
        return Err(TokenError::MissingSignature);
    }
    let mint = Mint {
        decimals,
        mint_authority: Some(authority.key),
        supply: 0,
    };
    match store_mint(&mint, &mut mint_acc.data) {
        Ok(()) => (),
        Err(_) => {
            return Err(TokenError::RecordDecodeFailure);
        },
    }
    let exempt = match min_balance {
        Some(m) => mint_acc.lamports >= m,
        None => false,
    };
    if !exempt {
        return Err(TokenError::NotRentExempt);
    }
    Ok(())
}

/// What InitializeMint decides from the full pre-call state.  The oracle
/// reference is consulted first: a wrong oracle address or a short oracle
/// record fails before the signature is even looked at, as the source had
/// it.
pub open spec fn initialize_mint_outcome(
    mint_acc: AccountRef,
    authority: AccountRef,
    rent_oracle: AccountRef,
    decimals: u8,
) -> Result<Mint, TokenError> {
    if rent_oracle.key.bytes != RENT_ORACLE_ID || rent_oracle.data@.len() < RENT_RECORD_LEN {
        Err(TokenError::RecordDecodeFailure)
    } else {
        apply_initialize_mint_outcome(
            mint_acc,
            authority,
            decimals,
            oracle_min_balance(
                oracle_rate(rent_oracle.data@),
                oracle_threshold(rent_oracle.data@),
                mint_acc.data@.len() as int,
            ),
        )
    }
}

/// Relates the mint slot before and after InitializeMint to its outcome.
pub open spec fn initialize_mint_post(
    pre_mint: AccountRef,
    post_mint: AccountRef,
    authority: AccountRef,
    rent_oracle: AccountRef,
    decimals: u8,
    r: Result<(), TokenError>,
) -> bool {
    &&& frame_ok(pre_mint, post_mint)
    &&& match initialize_mint_outcome(pre_mint, authority, rent_oracle, decimals) {
        Ok(m) => r is Ok && post_mint.data@ == mint_bytes_of(m),
        Err(e) => {
            &&& r == Err::<(), TokenError>(e)
            &&& if e is NotRentExempt {
                post_mint.data@ == mint_bytes_of(fresh_mint(decimals, authority.key))
            } else {
                post_mint.data@ == pre_mint.data@
            }
        },
    }
}

/// Create a mint: write a fresh record with the given precision and the
/// signing authority into the mint slot, then check the slot's storage
/// against the rent oracle.
pub fn initialize_mint(
    mint_acc: &mut AccountRef,
    authority: &AccountRef,
    rent_oracle: &AccountRef,
    decimals: u8,
) -> (r: Result<(), TokenError>)
    ensures
        initialize_mint_post(
            *old(mint_acc),
            *final(mint_acc),
            *authority,
            *rent_oracle,
            decimals,
            r,
        ),
{
    let oracle_id = Identity::new(RENT_ORACLE_ID);
    if !(rent_oracle.key == oracle_id) {
        return Err(TokenError::RecordDecodeFailure);
    }
    if rent_oracle.data.len() < RENT_RECORD_LEN {
        return Err(TokenError::RecordDecodeFailure);
    }
    let rate = vstd::bytes::u64_from_le_bytes(
        vstd::slice::slice_subrange(rent_oracle.data.as_slice(), 0, 8),
    );
    let threshold = vstd::bytes::u64_from_le_bytes(
        vstd::slice::slice_subrange(rent_oracle.data.as_slice(), 8, 16),
    );
    let burn = *vstd::slice::slice_index_get(rent_oracle.data.as_slice(), 16);
    let mint_len = mint_acc.data.len();
    let computable = threshold == THRESHOLD_ONE_BITS || threshold == THRESHOLD_TWO_BITS
        || (match (mint_len as u64).checked_add(128) {
        Some(b) => b.checked_mul(rate).is_some(),
        None => false,
    });
    let min_balance = if computable {
        rent_minimum_balance(rate, threshold, burn, mint_len)
    } else {
        None
    };
    apply_initialize_mint(mint_acc, authority, decimals, min_balance)
}

/// What MintTokens decides from the pre-call state: the authority must have
/// signed and match the mint record's minting authority, the destination
/// must belong to this mint, and neither the destination balance nor the
/// supply may wrap.
pub open spec fn mint_tokens_outcome(
    mint_acc: AccountRef,
    dest_acc: AccountRef,
    authority: AccountRef,
    amount: u64,
) -> Result<(Mint, TokenAccount), TokenError> {
    if !authority.is_signer {
        Err(TokenError::MissingSignature)
    } else {
        match mint_of(mint_acc.data@) {
            None => Err(TokenError::RecordDecodeFailure),
            Some(m) => {
                if m.mint_authority != Some(authority.key) {
                    Err(TokenError::AuthorityMismatch)
                } else {
                    match account_of(dest_acc.data@) {
                        None => Err(TokenError::RecordDecodeFailure),
                        Some(d) => {
                            if d.mint != mint_acc.key {
                                Err(TokenError::MintMismatch)
                            } else if d.amount + amount > u64::MAX {
                                Err(TokenError::ArithmeticOverflow)
                            } else if m.supply + amount > u64::MAX {
                                Err(TokenError::ArithmeticOverflow)
                            } else {
                                Ok(
                                    (
                                        Mint {
                                            decimals: m.decimals,
                                            mint_authority: m.mint_authority,
                                            supply: (m.supply + amount) as u64,
                                        },
                                        TokenAccount {
                                            mint: d.mint,
                                            owner: d.owner,
                                            amount: (d.amount + amount) as u64,
                                        },
                                    ),
                                )
                            }
                        },
                    }
                }
            },
        }
    }
}

/// Relates both touched slots before and after MintTokens to its outcome:
/// on success both records are rewritten together, on any failure neither
/// changes.
pub open spec fn mint_tokens_post(
    pre_mint: AccountRef,
    post_mint: AccountRef,
    pre_dest: AccountRef,
    post_dest: AccountRef,
    authority: AccountRef,
    amount: u64,
    r: Result<(), TokenError>,
) -> bool {
    &&& frame_ok(pre_mint, post_mint)
    &&& frame_ok(pre_dest, post_dest)
    &&& match mint_tokens_outcome(pre_mint, pre_dest, authority, amount) {
        Ok(pair) => {
            &&& r is Ok
            &&& post_mint.data@ == mint_bytes_of(pair.0)
            &&& post_dest.data@ == account_bytes_of(pair.1)
        },
        Err(e) => {
            &&& r == Err::<(), TokenError>(e)
            &&& post_mint.data@ == pre_mint.data@
            &&& post_dest.data@ == pre_dest.data@
        },
    }
}

/// Mint new supply: credit the destination and the mint's running total by
/// the same amount, atomically.
pub fn mint_tokens(
    mint_acc: &mut AccountRef,
    destination_acc: &mut AccountRef,
    authority: &AccountRef,
    amount: u64,
) -> (r: Result<(), TokenError>)
    ensures
        mint_tokens_post(
            *old(mint_acc),
            *final(mint_acc),
            *old(destination_acc),
            *final(destination_acc),
            *authority,
            amount,
            r,
        ),
{
    if !authority.is_signer {
        return Err(TokenError::MissingSignature);
    }
    let mint = match load_mint(&mint_acc.data) {
        Ok(m) => m,
        Err(_) => {
            return Err(TokenError::RecordDecodeFailure);
        },
    };
    let authority_ok = match mint.mint_authority {
        Some(id) => id == authority.key,
        None => false,
    };
    if !authority_ok {
        return Err(TokenError::AuthorityMismatch);
    }
    let destination = match load_account(&destination_acc.data) {
        Ok(d) => d,
        Err(_) => {
            return Err(TokenError::RecordDecodeFailure);
        },
    };
    if !(destination.mint == mint_acc.key) {
        return Err(TokenError::MintMismatch);
    }
    let new_amount = match destination.amount.checked_add(amount) {
        Some(v) => v,
        None => {
            return Err(TokenError::ArithmeticOverflow);
        },
    };
    let new_supply = match mint.supply.checked_add(amount) {
        Some(v) => v,
        None => {
            return Err(TokenError::ArithmeticOverflow);
        },
    };
    let new_mint = Mint {
        decimals: mint.decimals,
        mint_authority: mint.mint_authority,
        supply: new_supply,
    };
    let new_destination = TokenAccount {
        mint: destination.mint,
        owner: destination.owner,
        amount: new_amount,
    };
    match store_mint(&new_mint, &mut mint_acc.data) {
        Ok(()) => (),
        Err(_) => {
            return Err(TokenError::RecordDecodeFailure);
        },
    }
    match store_account(&new_destination, &mut destination_acc.data) {
        Ok(()) => (),
        Err(_) => {
            return Err(TokenError::RecordDecodeFailure);
        },
    }
    Ok(())
}

/// What TransferTokens decides from the pre-call state: the owner must have
/// signed and own the source, both accounts must share a mint, the source
/// balance must cover the amount, and the destination balance may not wrap.
pub open spec fn transfer_tokens_outcome(
    source_acc: AccountRef,
    dest_acc: AccountRef,
    owner: AccountRef,
    amount: u64,
) -> Result<(TokenAccount, TokenAccount), TokenError> {
    if !owner.is_signer {
        Err(TokenError::MissingSignature)
    } else {
        match account_of(source_acc.data@) {
            None => Err(TokenError::RecordDecodeFailure),
            Some(s) => {
                match account_of(dest_acc.data@) {
                    None => Err(TokenError::RecordDecodeFailure),
                    Some(d) => {
                        if s.mint != d.mint {
                            Err(TokenError::MintMismatch)
                        } else if s.owner != owner.key {
                            Err(TokenError::OwnershipMismatch)
                        } else if s.amount < amount {
                            Err(TokenError::InsufficientBalance)
                        } else if d.amount + amount > u64::MAX {
                            Err(TokenError::ArithmeticOverflow)
                        } else {
                            Ok(
                                (
                                    TokenAccount {
                                        mint: s.mint,
                                        owner: s.owner,
                                        amount: (s.amount - amount) as u64,
                                    },
                                    TokenAccount {
                                        mint: d.mint,
                                        owner: d.owner,
                                        amount: (d.amount + amount) as u64,
                                    },
                                ),
                            )
                        }
                    },
                }
            },
        }
    }
}

/// Relates both touched slots before and after TransferTokens to its
/// outcome: debit and credit land together or not at all.
pub open spec fn transfer_tokens_post(
    pre_source: AccountRef,
    post_source: AccountRef,
    pre_dest: AccountRef,
    post_dest: AccountRef,
    owner: AccountRef,
    amount: u64,
    r: Result<(), TokenError>,
) -> bool {
    &&& frame_ok(pre_source, post_source)
    &&& frame_ok(pre_dest, post_dest)
    &&& match transfer_tokens_outcome(pre_source, pre_dest, owner, amount) {
        Ok(pair) => {
            &&& r is Ok
            &&& post_source.data@ == account_bytes_of(pair.0)
            &&& post_dest.data@ == account_bytes_of(pair.1)
        },
        Err(e) => {
            &&& r == Err::<(), TokenError>(e)
            &&& post_source.data@ == pre_source.data@
            &&& post_dest.data@ == pre_dest.data@
        },
    }
}

/// Move existing supply: debit the source and credit the destination by the
/// same amount, atomically.
pub fn transfer_tokens(
    source_acc: &mut AccountRef,
    destination_acc: &mut AccountRef,
    owner: &AccountRef,
    amount: u64,
) -> (r: Result<(), TokenError>)
    ensures
        transfer_tokens_post(
            *old(source_acc),
            *final(source_acc),
            *old(destination_acc),
            *final(destination_acc),
            *owner,
            amount,
            r,
        ),
{
    if !owner.is_signer {
        return Err(TokenError::MissingSignature);
    }
    let source = match load_account(&source_acc.data) {
        Ok(s) => s,
        Err(_) => {
            return Err(TokenError::RecordDecodeFailure);
        },
    };
    let destination = match load_account(&destination_acc.data) {
        Ok(d) => d,
        Err(_) => {
            return Err(TokenError::RecordDecodeFailure);
        },
    };
    if !(source.mint == destination.mint) {
        return Err(TokenError::MintMismatch);
    }
    if !(source.owner == owner.key) {
        return Err(TokenError::OwnershipMismatch);
    }
    if source.amount < amount {
        return Err(TokenError::InsufficientBalance);
    }
    let new_dest_amount = match destination.amount.checked_add(amount) {
        Some(v) => v,
        None => {
            return Err(TokenError::ArithmeticOverflow);
        },
    };
    let new_source = TokenAccount {
        mint: source.mint,
        owner: source.owner,
        amount: source.amount - amount,
    };
    let new_destination = TokenAccount {
        mint: destination.mint,
        owner: destination.owner,
        amount: new_dest_amount,
    };
    match store_account(&new_source, &mut source_acc.data) {
        Ok(()) => (),
        Err(_) => {
            return Err(TokenError::RecordDecodeFailure);
        },
    }
    match store_account(&new_destination, &mut destination_acc.data) {
        Ok(()) => (),
        Err(_) => {
            return Err(TokenError::RecordDecodeFailure);
        },
    }
    Ok(())
}

/// Relates the three account references before and after one dispatch call
/// to the decoded operation's outcome.  A decode failure short-circuits
/// before any account is read, so everything is left unchanged.
pub open spec fn process_post(
    pre: Seq<AccountRef>,
    post: Seq<AccountRef>,
    input: Seq<u8>,
    r: Result<(), TokenError>,
) -> bool
    recommends
        pre.len() == 3,
{
    &&& post.len() == 3
    &&& match decode_spec(input) {
        Err(e) => {
            &&& r == Err::<(), TokenError>(e)
            &&& acc_unchanged(pre[0], post[0])
            &&& acc_unchanged(pre[1], post[1])
            &&& acc_unchanged(pre[2], post[2])
        },
        Ok(TokenInstruction::InitializeMint { decimals }) => {
            &&& initialize_mint_post(pre[0], post[0], pre[1], pre[2], decimals, r)
            &&& acc_unchanged(pre[1], post[1])
            &&& acc_unchanged(pre[2], post[2])
        },
        Ok(TokenInstruction::MintTokens { amount }) => {
            &&& mint_tokens_post(pre[0], post[0], pre[1], post[1], pre[2], amount, r)
            &&& acc_unchanged(pre[2], post[2])
        },
        Ok(TokenInstruction::TransferTokens { amount }) => {
            &&& transfer_tokens_post(pre[0], post[0], pre[1], post[1], pre[2], amount, r)
            &&& acc_unchanged(pre[2], post[2])
        },
    }
}

/// One dispatch call: decode the payload, route the three positional
/// account references to the operation's handler, and report one error
/// classification on failure.
pub fn process_instruction(
    accounts: &mut Vec<AccountRef>,
    instruction_data: &[u8],
) -> (r: Result<(), TokenError>)
    requires
        old(accounts)@.len() == 3,
    ensures
        process_post(old(accounts)@, final(accounts)@, instruction_data@, r),
{
    let instruction = match TokenInstruction::unpack(instruction_data) {
        Ok(i) => i,
        Err(e) => {
            return Err(e);
        },
    };
    let mut a2 = accounts.pop().unwrap();
    let mut a1 = accounts.pop().unwrap();
    let mut a0 = accounts.pop().unwrap();
    let r = match instruction {
        TokenInstruction::InitializeMint { decimals } => initialize_mint(
            &mut a0,
            &a1,
            &a2,
            decimals,
        ),
        TokenInstruction::MintTokens { amount } => mint_tokens(&mut a0, &mut a1, &a2, amount),
        TokenInstruction::TransferTokens { amount } => transfer_tokens(
            &mut a0,
            &mut a1,
            &a2,
            amount,
        ),
    };
    accounts.push(a0);
    accounts.push(a1);
    accounts.push(a2);
    r
}

} // verus!
