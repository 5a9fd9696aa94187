use vstd::prelude::*;

verus! {

/// Clock drift tolerated (in seconds) when validating creation timestamps.
pub const TIME_DRIFT_ALLOWED_SECS: i64 = 120;

/// Byte offset of the Token-2022 account-type byte within account data.
pub const TOKEN_2022_ACCOUNT_DISCRIMINATOR_OFFSET: usize = 165;

/// Token-2022 account-type byte of a mint.
pub const TOKEN_2022_MINT_DISCRIMINATOR: u8 = 1;

/// Token-2022 account-type byte of a token account.
pub const TOKEN_2022_TOKEN_ACCOUNT_DISCRIMINATOR: u8 = 2;

/// Byte offset of the mint address in a token account.
pub const TOKEN_ACCOUNT_MINT_OFFSET: usize = 0;

/// One past the end of the mint address in a token account.
pub const TOKEN_ACCOUNT_MINT_END: usize = 32;

/// Byte offset of the owner address in a token account.
pub const TOKEN_ACCOUNT_OWNER_OFFSET: usize = 32;

/// One past the end of the owner address in a token account.
pub const TOKEN_ACCOUNT_OWNER_END: usize = 64;

/// Byte offset of the delegate `COption` tag in a token account.
pub const TOKEN_ACCOUNT_DELEGATE_TAG_OFFSET: usize = 72;

/// Byte offset of the delegate address (after its 4-byte tag).
pub const TOKEN_ACCOUNT_DELEGATE_OFFSET: usize = 76;

/// One past the end of the delegate address.
pub const TOKEN_ACCOUNT_DELEGATE_END: usize = 108;

/// Byte offset of the `is_initialized` flag of a base mint.
pub const MINT_IS_INITIALIZED_OFFSET: usize = 45;

/// Seconds per hour; plan periods are given in hours.
pub const SECS_PER_HOUR: u64 = 3600;

/// `t - TIME_DRIFT_ALLOWED_SECS`, saturated at `i64::MIN`.
pub open spec fn drift_floor(t: i64) -> int {
    if t - TIME_DRIFT_ALLOWED_SECS < i64::MIN {
        i64::MIN as int
    } else {
        t - TIME_DRIFT_ALLOWED_SECS
    }
}

/// The earliest timestamp still accepted as "not in the past" at time `t`.
pub fn drift_floor_of(t: i64) -> (f: i64)
    ensures
        f == drift_floor(t),
{
    if t < i64::MIN + TIME_DRIFT_ALLOWED_SECS {
        i64::MIN
    } else {
        t - TIME_DRIFT_ALLOWED_SECS
    }
}

} // verus!
