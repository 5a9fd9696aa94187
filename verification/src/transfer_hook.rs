//! Reading a Token-2022 mint's transfer-hook extension from its TLV area, and
//! the account checks of the forwarding `TransferChecked` call.

use vstd::prelude::*;
use crate::pda::{extra_account_metas_seeds, find_extra_account_metas_pda, spec_find_program_address};

use crate::address::{zero_address, Address};
use crate::errors::SubscriptionsError;

verus! {

/// Index of the account-type byte of a Token-2022 mint; the TLV area follows it.
pub const ACCOUNT_TYPE_INDEX: usize = 165;

/// Start of the TLV area within mint data.
pub const TLV_START_INDEX: usize = 166;

/// Length of a TLV entry header: a 2-byte type and a 2-byte length.
pub const TLV_HEADER_LEN: usize = 4;

/// Length of the TLV type field.
pub const TLV_TYPE_LEN: usize = 2;

/// Extension type of the transfer-hook extension.
pub const EXTENSION_TYPE_TRANSFER_HOOK: u16 = 14;

/// Length of the transfer-hook extension value: authority (32) then program id (32).
pub const TRANSFER_HOOK_EXTENSION_LEN: usize = 64;

/// Offset of the hook program id within the extension value.
pub const TRANSFER_HOOK_PROGRAM_ID_OFFSET: usize = 32;

/// At most this many hook accounts may be forwarded (4 base accounts + 60 fit the CPI bound).
pub const MAX_TRANSFER_HOOK_REMAINING_ACCOUNTS: usize = 60;

/// Instruction discriminator of Token-2022 `TransferChecked`.
pub const TRANSFER_CHECKED_DISCRIMINATOR: u8 = 12;

/// Little-endian value of the two bytes at `i`.
pub open spec fn le_u16_at(data: Seq<u8>, i: int) -> int {
    data[i] as int + 256 * (data[i + 1] as int)
}

/// The value of the first TLV entry of type `target` at or after `offset`, or
/// `None` when the used TLV data ends first (fewer than two bytes left, or a
/// zero type). A truncated header or an entry running past the end is an error.
pub open spec fn tlv_find(data: Seq<u8>, target: u16, offset: int) -> Result<
    Option<Seq<u8>>,
    SubscriptionsError,
>
    decreases data.len() - offset,
{
    if offset < 0 || offset >= data.len() {
        Ok(None)
    } else if data.len() - offset < 2 {
        Ok(None)
    } else if le_u16_at(data, offset) == 0 {
        Ok(None)
    } else if data.len() - offset < 4 {
        Err(SubscriptionsError::InvalidToken2022MintAccountData)
    } else {
        let value_start = offset + 4;
        let value_end = value_start + le_u16_at(data, offset + 2);
        if value_end > data.len() {
            Err(SubscriptionsError::InvalidToken2022MintAccountData)
        } else if le_u16_at(data, offset) == target as int {
            Ok(Some(data.subrange(value_start, value_end)))
        } else {
            tlv_find(data, target, value_end)
        }
    }
}

fn read_u16_le(data: &[u8], i: usize) -> (v: u16)
    requires
        i + 1 < data@.len(),
    ensures
        v as int == le_u16_at(data@, i as int),
{
    let lo: u16 = data[i] as u16;
    let hi: u16 = data[i + 1] as u16;
    lo + hi * 256
}

/// Walks the TLV entries of `tlv_data` and returns the value of the first
/// entry of type `target`.
pub fn find_extension_value(tlv_data: &[u8], target: u16) -> (r: Result<
    Option<&[u8]>,
    SubscriptionsError,
>)
    ensures
        match r {
            Ok(Some(v)) => tlv_find(tlv_data@, target, 0) == Ok::<
                Option<Seq<u8>>,
                SubscriptionsError,
            >(Some(v@)),
            Ok(None) => tlv_find(tlv_data@, target, 0) == Ok::<
                Option<Seq<u8>>,
                SubscriptionsError,
            >(None),
            Err(e) => tlv_find(tlv_data@, target, 0) == Err::<Option<Seq<u8>>, SubscriptionsError>(
                e,
            ),
        },
{
    let len = tlv_data.len();
    let mut offset: usize = 0;
    while offset < len
        invariant
            len == tlv_data@.len(),
            offset <= len,
            tlv_find(tlv_data@, target, 0) == tlv_find(tlv_data@, target, offset as int),
        decreases len - offset,
    {
        if len - offset < TLV_TYPE_LEN {
            return Ok(None);
        }
        let ext_type = read_u16_le(tlv_data, offset);
        if ext_type == 0 {
            return Ok(None);
        }
        if len - offset < TLV_HEADER_LEN {
            return Err(SubscriptionsError::InvalidToken2022MintAccountData);
        }
        let length: usize = read_u16_le(tlv_data, offset + 2) as usize;
        let value_start: usize = offset + TLV_HEADER_LEN;
        if length > len - value_start {
            return Err(SubscriptionsError::InvalidToken2022MintAccountData);
        }
        let value_end: usize = value_start + length;
        if ext_type == target {
            let v = vstd::slice::slice_subrange(tlv_data, value_start, value_end);
            return Ok(Some(v));
        }
        offset = value_end;
    }
    Ok(None)
}

/// Offset of the TLV entry that follows the one at `o`.
pub open spec fn tlv_next(data: Seq<u8>, o: int) -> int {
    o + 4 + le_u16_at(data, o + 2)
}

/// Offset of the `n`-th TLV entry of the walk that starts at `o`.
pub open spec fn tlv_walk(data: Seq<u8>, o: int, n: nat) -> int
    decreases n,
{
    if n == 0 {
        o
    } else {
        tlv_walk(data, tlv_next(data, o), (n - 1) as nat)
    }
}

/// Whether the walk steps over the entry at `o` while looking for `target`:
/// a whole entry of a nonzero type other than `target` that fits in `data`.
pub open spec fn tlv_passes(data: Seq<u8>, target: u16, o: int) -> bool {
    &&& 0 <= o
    &&& o + 4 <= data.len()
    &&& le_u16_at(data, o) != 0
    &&& le_u16_at(data, o) != target as int
    &&& tlv_next(data, o) <= data.len()
}

/// What the search reports at the entry at `o` where the walk stops.
pub open spec fn tlv_stop(data: Seq<u8>, target: u16, o: int, r: Result<Option<Seq<u8>>, SubscriptionsError>) -> bool {
    match r {
        Ok(Some(v)) => {
            &&& o + 4 <= data.len()
            &&& le_u16_at(data, o) == target as int
            &&& tlv_next(data, o) <= data.len()
            &&& v == data.subrange(o + 4, tlv_next(data, o))
        },
        Ok(None) => o >= data.len() || data.len() - o < 2 || le_u16_at(data, o) == 0,
        Err(e) => {
            &&& e == SubscriptionsError::InvalidToken2022MintAccountData
            &&& data.len() - o >= 2
            &&& le_u16_at(data, o) != 0
            &&& (data.len() - o < 4 || tlv_next(data, o) > data.len())
        },
    }
}

proof fn lemma_tlv_walk_from(data: Seq<u8>, target: u16, o: int) -> (k: nat)
    requires
        0 <= o,
    ensures
        forall|i: nat| i < k ==> tlv_passes(data, target, #[trigger] tlv_walk(data, o, i)),
        tlv_stop(data, target, tlv_walk(data, o, k), tlv_find(data, target, o)),
    decreases data.len() - o,
{
    if o >= data.len() || data.len() - o < 2 || le_u16_at(data, o) == 0 || data.len() - o < 4 || tlv_next(data, o)
        > data.len() || le_u16_at(data, o) == target as int {
        0
    } else {
        let next = tlv_next(data, o);
        let k1 = lemma_tlv_walk_from(data, target, next);
        assert forall|i: nat| i < k1 + 1 implies tlv_passes(data, target, #[trigger] tlv_walk(data, o, i)) by {
            if i > 0 {
                assert(tlv_walk(data, o, i) == tlv_walk(data, next, (i - 1) as nat));
            }
        }
        assert(tlv_walk(data, o, k1 + 1) == tlv_walk(data, next, k1));
        k1 + 1
    }
}

/// The TLV search walks the entries from offset 0, each starting where the
/// previous one ends, and stops at the first entry of type `target`: every
/// entry the walk passes (the first `k`) is whole and of another nonzero
/// type; a found value is the bytes of the `k`-th entry; no value means the
/// walk ran out of data or reached a zero type first; an error means the
/// `k`-th entry has a nonzero type but a cut-off header or a value past the
/// end.
pub proof fn law_tlv_first_match(data: Seq<u8>, target: u16) -> (k: nat)
    ensures
        forall|i: nat| i < k ==> tlv_passes(data, target, #[trigger] tlv_walk(data, 0, i)),
        tlv_stop(data, target, tlv_walk(data, 0, k), tlv_find(data, target, 0)),
{
    lemma_tlv_walk_from(data, target, 0)
}

/// Whether every byte of `s` is zero.
pub open spec fn all_zero(s: Seq<u8>) -> bool {
    forall|i: int| 0 <= i < s.len() ==> s[i] == 0
}

/// The active transfer-hook program of a mint: `None` for a mint without the
/// Token-2022 TLV area, without the extension, or whose hook program id is
/// all zero; an error for malformed TLV data or a hook value of the wrong size.
pub open spec fn hook_program_id_outcome(mint_data: Seq<u8>) -> Result<
    Option<Seq<u8>>,
    SubscriptionsError,
> {
    if mint_data.len() <= ACCOUNT_TYPE_INDEX {
        Ok(None)
    } else {
        match tlv_find(
            mint_data.subrange(TLV_START_INDEX as int, mint_data.len() as int),
            EXTENSION_TYPE_TRANSFER_HOOK,
            0,
        ) {
            Err(e) => Err(e),
            Ok(None) => Ok(None),
            Ok(Some(value)) => if value.len() != TRANSFER_HOOK_EXTENSION_LEN {
                Err(SubscriptionsError::InvalidToken2022MintAccountData)
            } else if all_zero(value.subrange(32, 64)) {
                Ok(None)
            } else {
                Ok(Some(value.subrange(32, 64)))
            },
        }
    }
}

/// Active transfer hook program for a mint, or `None` when absent or `program_id` is unset.
pub fn mint_transfer_hook_program_id(mint_data: &[u8]) -> (r: Result<
    Option<Address>,
    SubscriptionsError,
>)
    ensures
        match r {
            Ok(Some(a)) => hook_program_id_outcome(mint_data@) == Ok::<
                Option<Seq<u8>>,
                SubscriptionsError,
            >(Some(a@)),
            Ok(None) => hook_program_id_outcome(mint_data@) == Ok::<
                Option<Seq<u8>>,
                SubscriptionsError,
            >(None),
            Err(e) => hook_program_id_outcome(mint_data@) == Err::<
                Option<Seq<u8>>,
                SubscriptionsError,
            >(e),
        },
{
    if mint_data.len() <= ACCOUNT_TYPE_INDEX {
        return Ok(None);
    }
    let tlv = vstd::slice::slice_subrange(mint_data, TLV_START_INDEX, mint_data.len());
    let value = match find_extension_value(tlv, EXTENSION_TYPE_TRANSFER_HOOK) {
        Err(e) => return Err(e),
        Ok(None) => return Ok(None),
        Ok(Some(v)) => v,
    };
    if value.len() != TRANSFER_HOOK_EXTENSION_LEN {
        return Err(SubscriptionsError::InvalidToken2022MintAccountData);
    }
    let mut bytes = [0u8; 32];
    let mut i: usize = 0;
    while i < 32
        invariant
            value@.len() == 64,
            i <= 32,
            bytes@.len() == 32,
            forall|j: int| 0 <= j < i ==> bytes@[j] == value@[32 + j],
        decreases 32 - i,
    {
        bytes[i] = value[TRANSFER_HOOK_PROGRAM_ID_OFFSET + i];
        i = i + 1;
    }
    let ghost pid = value@.subrange(32, 64);
    assert(bytes@ =~= pid);
    let program_id = Address::new_from_array(bytes);
    if program_id.is_zero() {
        assert(all_zero(pid)) by {
            assert forall|j: int| 0 <= j < pid.len() implies pid[j] == 0 by {
                assert(program_id@[j] == zero_address()[j]);
            }
        }
        return Ok(None);
    }
    assert(!all_zero(pid)) by {
        if all_zero(pid) {
            assert(program_id@ =~= zero_address());
        }
    }
    Ok(Some(program_id))
}

/// Checks the hook accounts forwarded to `TransferChecked`: at most
/// [`MAX_TRANSFER_HOOK_REMAINING_ACCOUNTS`] of them, and the hook's
/// validation account among them.
pub fn check_hook_accounts(remaining: &Vec<Address>, validation_account: &Address) -> (r: Result<
    (),
    SubscriptionsError,
>)
    ensures
        r == (if remaining@.len() > MAX_TRANSFER_HOOK_REMAINING_ACCOUNTS {
            Err(SubscriptionsError::TransferHookTooManyAccounts)
        } else if !(exists|i: int|
            0 <= i < remaining@.len() && (#[trigger] remaining@[i])@ == validation_account@) {
            Err(SubscriptionsError::TransferHookValidationAccountMissing)
        } else {
            Ok(())
        }),
{
    if remaining.len() > MAX_TRANSFER_HOOK_REMAINING_ACCOUNTS {
        return Err(SubscriptionsError::TransferHookTooManyAccounts);
    }
    let mut i: usize = 0;
    while i < remaining.len()
        invariant
            i <= remaining@.len(),
            remaining@.len() <= MAX_TRANSFER_HOOK_REMAINING_ACCOUNTS,
            forall|j: int| 0 <= j < i ==> (#[trigger] remaining@[j])@ != validation_account@,
        decreases remaining@.len() - i,
    {
        if remaining[i].equals(validation_account) {
            assert(remaining@[i as int]@ == validation_account@);
            return Ok(());
        }
        i = i + 1;
    }
    Err(SubscriptionsError::TransferHookValidationAccountMissing)
}

/// Instruction data of `TransferChecked`: discriminator, amount (little
/// endian) and decimals.
pub open spec fn transfer_checked_data_spec(amount: u64, decimals: u8) -> Seq<u8> {
    seq![TRANSFER_CHECKED_DISCRIMINATOR].add(vstd::bytes::spec_u64_to_le_bytes(amount)).push(
        decimals,
    )
}

/// Builds the `TransferChecked` instruction data.
pub fn transfer_checked_data(amount: u64, decimals: u8) -> (data: Vec<u8>)
    ensures
        data@ == transfer_checked_data_spec(amount, decimals),
{
    let mut data: Vec<u8> = Vec::new();
    data.push(TRANSFER_CHECKED_DISCRIMINATOR);
    let amount_bytes = vstd::bytes::u64_to_le_bytes(amount);
    let mut i: usize = 0;
    while i < amount_bytes.len()
        invariant
            i <= amount_bytes@.len(),
            data@ == seq![TRANSFER_CHECKED_DISCRIMINATOR].add(amount_bytes@.subrange(0, i as int)),
        decreases amount_bytes@.len() - i,
    {
        data.push(amount_bytes[i]);
        assert(amount_bytes@.subrange(0, i + 1) =~= amount_bytes@.subrange(0, i as int).push(
            amount_bytes@[i as int],
        ));
        i = i + 1;
    }
    assert(amount_bytes@.subrange(0, amount_bytes@.len() as int) =~= amount_bytes@);
    data.push(decimals);
    data
}

/// The verdict of forwarding a delegated transfer through `TransferChecked`
/// to a mint with an active hook program: at most
/// [`MAX_TRANSFER_HOOK_REMAINING_ACCOUNTS`] forwarded accounts, among them
/// the hook's validation account for the mint; gives the instruction data.
pub open spec fn transfer_checked_with_hook_verdict(
    remaining: Seq<Address>,
    mint: Seq<u8>,
    hook_program: Seq<u8>,
    amount: u64,
    decimals: u8,
) -> Result<Seq<u8>, SubscriptionsError> {
    let pda = spec_find_program_address(extra_account_metas_seeds(mint), hook_program);
    if remaining.len() > MAX_TRANSFER_HOOK_REMAINING_ACCOUNTS {
        Err(SubscriptionsError::TransferHookTooManyAccounts)
    } else if pda is None || !(exists|i: int|
        0 <= i < remaining.len() && (#[trigger] remaining[i])@ == pda.unwrap().0) {
        Err(SubscriptionsError::TransferHookValidationAccountMissing)
    } else {
        Ok(transfer_checked_data_spec(amount, decimals))
    }
}

/// Checks the accounts forwarded to a hooked `TransferChecked` and builds
/// its instruction data (see [`transfer_checked_with_hook_verdict`]).
pub fn transfer_checked_with_hook(
    remaining: &Vec<Address>,
    mint: &Address,
    hook_program: &Address,
    amount: u64,
    decimals: u8,
) -> (r: Result<Vec<u8>, SubscriptionsError>)
    ensures
        match r {
            Ok(data) => transfer_checked_with_hook_verdict(remaining@, mint@, hook_program@, amount, decimals)
                == Ok::<Seq<u8>, SubscriptionsError>(data@),
            Err(e) => transfer_checked_with_hook_verdict(remaining@, mint@, hook_program@, amount, decimals)
                == Err::<Seq<u8>, SubscriptionsError>(e),
        },
{
    if remaining.len() > MAX_TRANSFER_HOOK_REMAINING_ACCOUNTS {
        return Err(SubscriptionsError::TransferHookTooManyAccounts);
    }
    let validation = match find_extra_account_metas_pda(mint, hook_program) {
        Some((a, _)) => a,
        None => {
            return Err(SubscriptionsError::TransferHookValidationAccountMissing);
        },
    };
    check_hook_accounts(remaining, &validation)?;
    Ok(transfer_checked_data(amount, decimals))
}

/// Offset of a mint's `decimals` byte.
pub const MINT_DECIMALS_OFFSET: usize = 44;

/// A delegated transfer routed through the mint's transfer hook: a
/// Token-2022 `TransferChecked` with `data`, whose four base accounts
/// (source, mint, destination, authority) are followed by `forwarded`.
pub struct HookForwarding {
    /// The mint's active hook program.
    pub hook_program: Address,
    /// The `TransferChecked` instruction data.
    pub data: Vec<u8>,
    /// The hook accounts forwarded after the base accounts, in order.
    pub forwarded: Vec<Address>,
}

/// How a delegated transfer of `amount` of the mint at `mint` (data
/// `mint_data`) is made, with `remaining` the hook accounts supplied:
/// `None` for a plain transfer when the mint has no active hook; otherwise
/// the hook program and the `TransferChecked` data (with the mint's
/// decimals), once the forwarded accounts pass
/// [`transfer_checked_with_hook_verdict`].
pub open spec fn transfer_route_verdict(mint: Seq<u8>, mint_data: Seq<u8>, remaining: Seq<Address>, amount: u64) -> Result<
    Option<(Seq<u8>, Seq<u8>)>,
    SubscriptionsError,
> {
    match hook_program_id_outcome(mint_data) {
        Err(e) => Err(e),
        Ok(None) => Ok(None),
        Ok(Some(hook)) => match transfer_checked_with_hook_verdict(
            remaining,
            mint,
            hook,
            amount,
            mint_data[MINT_DECIMALS_OFFSET as int],
        ) {
            Err(e) => Err(e),
            Ok(data) => Ok(Some((hook, data))),
        },
    }
}

/// The view of a routing decision: the hook program and instruction data.
pub open spec fn route_view(route: Option<HookForwarding>) -> Option<(Seq<u8>, Seq<u8>)> {
    match route {
        None => None,
        Some(h) => Some((h.hook_program@, h.data@)),
    }
}

/// Decides how a delegated transfer is made (see [`transfer_route_verdict`]);
/// a hooked transfer forwards exactly the `remaining` accounts.
pub fn route_delegated_transfer(mint: &Address, mint_data: &[u8], remaining: &Vec<Address>, amount: u64) -> (r:
    Result<Option<HookForwarding>, SubscriptionsError>)
    ensures
        match r {
            Ok(route) => {
                &&& transfer_route_verdict(mint@, mint_data@, remaining@, amount) == Ok::<
                    Option<(Seq<u8>, Seq<u8>)>,
                    SubscriptionsError,
                >(route_view(route))
                &&& route matches Some(h) ==> h.forwarded@ == remaining@
            },
            Err(e) => transfer_route_verdict(mint@, mint_data@, remaining@, amount) == Err::<
                Option<(Seq<u8>, Seq<u8>)>,
                SubscriptionsError,
            >(e),
        },
{
    let hook = match mint_transfer_hook_program_id(mint_data)? {
        None => {
            return Ok(None);
        },
        Some(h) => h,
    };
    let decimals = mint_data[MINT_DECIMALS_OFFSET];
    let data = transfer_checked_with_hook(remaining, mint, &hook, amount, decimals)?;
    let mut forwarded: Vec<Address> = Vec::new();
    let mut i: usize = 0;
    while i < remaining.len()
        invariant
            i <= remaining@.len(),
            forwarded@ == remaining@.subrange(0, i as int),
        decreases remaining@.len() - i,
    {
        forwarded.push(remaining[i]);
        i = i + 1;
        assert(forwarded@ =~= remaining@.subrange(0, i as int));
    }
    assert(remaining@.subrange(0, remaining@.len() as int) =~= remaining@);
    Ok(Some(HookForwarding { hook_program: hook, data, forwarded }))
}

} // verus!
