//! The ledger's guarantees, stated once over the handlers' outcome and
//! post-state relations and proved from what the handlers' contracts say.

use crate::codec::{account_bytes_of, account_of, mint_bytes_of, mint_of};
use crate::processor::{
    initialize_mint_outcome, mint_tokens_post, process_post, transfer_tokens_post,
};
use crate::state::{acc_unchanged, AccountRef, Mint, TokenAccount, TokenError};
use vstd::prelude::*;

verus! {

/// Every InitializeMint call that succeeds was signed by the authority, and
/// the mint it leaves behind carries the requested precision, that
/// authority as sole minting authority, and no supply.
pub proof fn lemma_initialize_mint_fresh(
    mint_acc: AccountRef,
    authority: AccountRef,
    rent_oracle: AccountRef,
    decimals: u8,
)
    requires
        initialize_mint_outcome(mint_acc, authority, rent_oracle, decimals) is Ok,
    ensures
        authority.is_signer,
        initialize_mint_outcome(mint_acc, authority, rent_oracle, decimals)->Ok_0 == (Mint {
            decimals,
            mint_authority: Some(authority.key),
            supply: 0,
        }),
{
}

/// A MintTokens call whose signing authority is not the mint record's
/// minting authority — or whose mint record has none — fails with
/// `AuthorityMismatch` and leaves both records byte-for-byte unchanged.
pub proof fn lemma_mint_tokens_authority_gate(
    pre_mint: AccountRef,
    post_mint: AccountRef,
    pre_dest: AccountRef,
    post_dest: AccountRef,
    authority: AccountRef,
    amount: u64,
    r: Result<(), TokenError>,
    m: Mint,
)
    requires
        mint_tokens_post(pre_mint, post_mint, pre_dest, post_dest, authority, amount, r),
        authority.is_signer,
        mint_of(pre_mint.data@) == Some(m),
        m.mint_authority != Some(authority.key),
    ensures
        r == Err::<(), TokenError>(TokenError::AuthorityMismatch),
        post_mint.data@ == pre_mint.data@,
        post_dest.data@ == pre_dest.data@,
{
}

/// A MintTokens call that succeeds grew the supply and the destination
/// balance by exactly the minted amount, atomically: both slots hold the
/// updated records, everything else in them unchanged.
pub proof fn lemma_mint_tokens_success(
    pre_mint: AccountRef,
    post_mint: AccountRef,
    pre_dest: AccountRef,
    post_dest: AccountRef,
    authority: AccountRef,
    amount: u64,
    r: Result<(), TokenError>,
)
    requires
        mint_tokens_post(pre_mint, post_mint, pre_dest, post_dest, authority, amount, r),
        r is Ok,
    ensures
        mint_of(pre_mint.data@) is Some,
        account_of(pre_dest.data@) is Some,
        ({
            let m = mint_of(pre_mint.data@).unwrap();
            let d = account_of(pre_dest.data@).unwrap();
            &&& m.supply + amount <= u64::MAX
            &&& d.amount + amount <= u64::MAX
            &&& post_mint.data@ == mint_bytes_of(
                Mint {
                    decimals: m.decimals,
                    mint_authority: m.mint_authority,
                    supply: (m.supply + amount) as u64,
                },
            )
            &&& post_dest.data@ == account_bytes_of(
                TokenAccount { mint: d.mint, owner: d.owner, amount: (d.amount + amount) as u64 },
            )
        }),
{
}

/// A TransferTokens call that asks for more than the source holds fails
/// with `InsufficientBalance` and leaves both accounts byte-for-byte
/// unchanged — no partial transfer.
pub proof fn lemma_transfer_insufficient_balance(
    pre_source: AccountRef,
    post_source: AccountRef,
    pre_dest: AccountRef,
    post_dest: AccountRef,
    owner: AccountRef,
    amount: u64,
    r: Result<(), TokenError>,
    s: TokenAccount,
    d: TokenAccount,
)
    requires
        transfer_tokens_post(pre_source, post_source, pre_dest, post_dest, owner, amount, r),
        owner.is_signer,
        account_of(pre_source.data@) == Some(s),
        account_of(pre_dest.data@) == Some(d),
        s.mint == d.mint,
        s.owner == owner.key,
        s.amount < amount,
    ensures
        r == Err::<(), TokenError>(TokenError::InsufficientBalance),
        post_source.data@ == pre_source.data@,
        post_dest.data@ == pre_dest.data@,
{
}

/// A TransferTokens call that succeeds debited the source and credited the
/// destination by exactly the transferred amount, conserving their combined
/// balance.
pub proof fn lemma_transfer_conserves_total(
    pre_source: AccountRef,
    post_source: AccountRef,
    pre_dest: AccountRef,
    post_dest: AccountRef,
    owner: AccountRef,
    amount: u64,
    r: Result<(), TokenError>,
)
    requires
        transfer_tokens_post(pre_source, post_source, pre_dest, post_dest, owner, amount, r),
        r is Ok,
    ensures
        account_of(pre_source.data@) is Some,
        account_of(pre_dest.data@) is Some,
        ({
            let s = account_of(pre_source.data@).unwrap();
            let d = account_of(pre_dest.data@).unwrap();
            &&& amount <= s.amount
            &&& d.amount + amount <= u64::MAX
            &&& post_source.data@ == account_bytes_of(
                TokenAccount { mint: s.mint, owner: s.owner, amount: (s.amount - amount) as u64 },
            )
            &&& post_dest.data@ == account_bytes_of(
                TokenAccount { mint: d.mint, owner: d.owner, amount: (d.amount + amount) as u64 },
            )
            &&& (s.amount - amount) + (d.amount + amount) == s.amount + d.amount
        }),
{
}

/// A payload carrying the MintTokens tag with an operand shorter than
/// eight bytes is rejected as `MalformedInstruction`, and a dispatch call
/// handed it changes no account reference anywhere.
pub proof fn lemma_short_mint_operand_rejected(
    pre: Seq<AccountRef>,
    post: Seq<AccountRef>,
    input: Seq<u8>,
    r: Result<(), TokenError>,
)
    requires
        process_post(pre, post, input, r),
        pre.len() == 3,
        input.len() >= 1,
        input[0] == 1,
        input.len() < 9,
    ensures
        r == Err::<(), TokenError>(TokenError::MalformedInstruction),
        acc_unchanged(pre[0], post[0]),
        acc_unchanged(pre[1], post[1]),
        acc_unchanged(pre[2], post[2]),
{
}

} // verus!
