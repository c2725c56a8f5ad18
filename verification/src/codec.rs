//! The opaque record codec: the outside serialize/deserialize contract for
//! mint and token-account records, and the rent oracle's minimum-balance
//! computation.  Each trusted item's doc comment names the outside function
//! it relies on.

use crate::state::{Identity, Mint, TokenAccount};
use solana_program::program_error::ProgramError;
use solana_program::program_option::COption;
use solana_program::program_pack::Pack;
use vstd::prelude::*;

verus! {

/// The outside codec's error type.  Opaque: every failure of it is mapped
/// to `TokenError::RecordDecodeFailure` before the ledger reasons about it.
#[verifier::external_type_specification]
#[verifier::external_body]
pub struct ExProgramError(ProgramError);

/// Byte length of a serialized mint record (`spl_token::state::Mint::LEN`).
pub const MINT_RECORD_LEN: usize = 82;

/// Byte length of a serialized token-account record
/// (`spl_token::state::Account::LEN`).
pub const TOKEN_RECORD_LEN: usize = 165;

/// Byte length of a serialized rent-oracle record (`solana_rent::SIZE`).
pub const RENT_RECORD_LEN: usize = 17;

/// The record, if any, that the codec reads out of a mint slot's bytes.
pub uninterp spec fn mint_of(data: Seq<u8>) -> Option<Mint>;

/// The bytes the codec produces for a mint record.
pub uninterp spec fn mint_bytes_of(m: Mint) -> Seq<u8>;

/// The record, if any, that the codec reads out of a token-account slot's
/// bytes.
pub uninterp spec fn account_of(data: Seq<u8>) -> Option<TokenAccount>;

/// The bytes the codec produces for a token-account record.
pub uninterp spec fn account_bytes_of(a: TokenAccount) -> Seq<u8>;

/// The minimum rent-exempt balance the oracle computes from its rate, its
/// threshold bits and a record size, or nothing when those parameters are
/// out of the range the oracle accepts.
pub uninterp spec fn min_balance_of(
    lamports_per_byte: u64,
    threshold_bits: u64,
    data_len: int,
) -> Option<u64>;

/// Relies on `spl_token::state::Mint::unpack` (via `Pack`): the result is a
/// function of the input bytes alone, and decoding succeeds only on a
/// buffer of exactly the record length.
#[verifier::external_body]
pub(crate) fn load_mint(data: &Vec<u8>) -> (r: Result<Mint, ProgramError>)
    ensures
        r is Ok <==> mint_of(data@) is Some,
        r is Ok ==> r->Ok_0 == mint_of(data@).unwrap(),
        r is Ok ==> data@.len() == MINT_RECORD_LEN,
{
    let m = spl_token::state::Mint::unpack(data.as_slice())?;
    Ok(Mint {
        decimals: m.decimals,
        mint_authority: match m.mint_authority {
            COption::Some(pk) => Some(Identity { bytes: pk.to_bytes() }),
            COption::None => None,
        },
        supply: m.supply,
    })
}

/// Relies on `spl_token::state::Mint::pack` (via `Pack`): it refuses any
/// buffer not exactly one record long, before writing anything.  Packing
/// goes into a zeroed buffer first — `pack` leaves the key bytes of an
/// absent authority as they were — so that the bytes stored are a function
/// of the record alone.
#[verifier::external_body]
pub(crate) fn store_mint(m: &Mint, data: &mut Vec<u8>) -> (r: Result<(), ProgramError>)
    ensures
        r is Ok <==> old(data)@.len() == MINT_RECORD_LEN,
        r is Ok ==> final(data)@ == mint_bytes_of(*m) && final(data)@.len() == old(data)@.len(),
        r is Err ==> final(data)@ == old(data)@,
{
    let record = spl_token::state::Mint {
        mint_authority: match m.mint_authority {
            Some(id) => COption::Some(id.bytes.into()),
            None => COption::None,
        },
        supply: m.supply,
        decimals: m.decimals,
        is_initialized: true,
        freeze_authority: COption::None,
    };
    let mut fresh = vec![0u8; spl_token::state::Mint::LEN];
    spl_token::state::Mint::pack(record, fresh.as_mut_slice())?;
    spl_token::state::Mint::pack(record, data.as_mut_slice())?;
    data.copy_from_slice(fresh.as_slice());
    Ok(())
}

/// Relies on `spl_token::state::Account::unpack` (via `Pack`): the result
/// is a function of the input bytes alone, and decoding succeeds only on a
/// buffer of exactly the record length.
#[verifier::external_body]
pub(crate) fn load_account(data: &Vec<u8>) -> (r: Result<TokenAccount, ProgramError>)
    ensures
        r is Ok <==> account_of(data@) is Some,
        r is Ok ==> r->Ok_0 == account_of(data@).unwrap(),
        r is Ok ==> data@.len() == TOKEN_RECORD_LEN,
{
    let a = spl_token::state::Account::unpack(data.as_slice())?;
    Ok(TokenAccount {
        mint: Identity { bytes: a.mint.to_bytes() },
        owner: Identity { bytes: a.owner.to_bytes() },
        amount: a.amount,
    })
}

/// Relies on `spl_token::state::Account::pack` (via `Pack`): it refuses
/// any buffer not exactly one record long, before writing anything.
/// Packing goes into a zeroed buffer first — `pack` leaves the body bytes
/// of absent options as they were — so that the bytes stored are a
/// function of the record alone.
#[verifier::external_body]
pub(crate) fn store_account(a: &TokenAccount, data: &mut Vec<u8>) -> (r: Result<
    (),
    ProgramError,
>)
    ensures
        r is Ok <==> old(data)@.len() == TOKEN_RECORD_LEN,
        r is Ok ==> final(data)@ == account_bytes_of(*a) && final(data)@.len() == old(data)@.len(),
        r is Err ==> final(data)@ == old(data)@,
{
    let record = spl_token::state::Account {
        mint: a.mint.bytes.into(),
        owner: a.owner.bytes.into(),
        amount: a.amount,
        delegate: COption::None,
        state: spl_token::state::AccountState::Initialized,
        is_native: COption::None,
        delegated_amount: 0,
        close_authority: COption::None,
    };
    let mut fresh = vec![0u8; spl_token::state::Account::LEN];
    spl_token::state::Account::pack(record, fresh.as_mut_slice())?;
    spl_token::state::Account::pack(record, data.as_mut_slice())?;
    data.copy_from_slice(fresh.as_slice());
    Ok(())
}

/// `f64` bit pattern of an exemption threshold of one, which the oracle
/// computes without its fallback path.
pub const THRESHOLD_ONE_BITS: u64 = 0x3FF0_0000_0000_0000;

/// `f64` bit pattern of an exemption threshold of two, which the oracle
/// computes without its fallback path.
pub const THRESHOLD_TWO_BITS: u64 = 0x4000_0000_0000_0000;

/// Relies on `solana_program::rent::Rent::try_minimum_balance`: the minimum
/// balance is computed from the rental rate, the exemption-threshold bits
/// and the record size alone (never from the burn percent), and the call
/// returns `None` instead of failing on out-of-range parameters.  Its
/// fallback for other threshold bits multiplies rate and size unchecked, so
/// inputs on which that product wraps are kept out.
#[allow(deprecated)]
#[verifier::external_body]
pub(crate) fn rent_minimum_balance(
    lamports_per_byte: u64,
    threshold_bits: u64,
    burn_percent: u8,
    data_len: usize,
) -> (r: Option<u64>)
    requires
        threshold_bits == THRESHOLD_ONE_BITS || threshold_bits == THRESHOLD_TWO_BITS || (128
            + data_len) * lamports_per_byte <= u64::MAX,
    ensures
        r == min_balance_of(lamports_per_byte, threshold_bits, data_len as int),
{
    let rent = solana_program::rent::Rent {
        lamports_per_byte,
        exemption_threshold: threshold_bits.to_le_bytes(),
        burn_percent,
    };
    rent.try_minimum_balance(data_len)
}

} // verus!
