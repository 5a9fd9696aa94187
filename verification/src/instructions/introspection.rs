//! What the transaction's earlier top-level instructions tell about a
//! SubscriptionAuthority.

use vstd::prelude::*;

use crate::address::Address;
use crate::pda::{program_id, program_id_bytes};

verus! {

/// The first byte of instruction data that marks `InitSubscriptionAuthority`.
pub const INIT_AUTHORITY_DISCRIMINATOR: u8 = 0;

/// Index of the owner among an `InitSubscriptionAuthority`'s accounts.
pub const INIT_OWNER_ACCOUNT_INDEX: usize = 0;

/// Index of the created authority among its accounts.
pub const INIT_AUTHORITY_ACCOUNT_INDEX: usize = 1;

/// A top-level instruction of the transaction, as the instructions sysvar
/// records it.
pub struct TopLevelInstruction {
    /// The invoked program.
    pub program_id: Address,
    /// The instruction data.
    pub data: Vec<u8>,
    /// The addresses of its accounts, in order.
    pub accounts: Vec<Address>,
}

/// Whether the instruction creates `authority_pda` for `expected_owner`
/// through this program's `InitSubscriptionAuthority`: `None` when it is
/// such an instruction but lacks the two accounts.
pub open spec fn creates_authority(ins: TopLevelInstruction, authority_pda: Seq<u8>, expected_owner: Seq<u8>) -> Option<
    bool,
> {
    if ins.program_id@ != program_id_bytes() || ins.data@.len() == 0 || ins.data@[0]
        != INIT_AUTHORITY_DISCRIMINATOR {
        Some(false)
    } else if ins.accounts@.len() < 2 {
        None
    } else {
        Some(ins.accounts@[1]@ == authority_pda && ins.accounts@[0]@ == expected_owner)
    }
}

/// Scans the instructions from `i` up to `current`: `Some(true)` at the
/// first that creates the authority, `None` at the first malformed init
/// before it, `Some(false)` when none does.
pub open spec fn inited_from(
    instructions: Seq<TopLevelInstruction>,
    i: int,
    current: int,
    authority_pda: Seq<u8>,
    expected_owner: Seq<u8>,
) -> Option<bool>
    decreases current - i,
{
    if i >= current {
        Some(false)
    } else {
        match creates_authority(instructions[i], authority_pda, expected_owner) {
            None => None,
            Some(true) => Some(true),
            Some(false) => inited_from(instructions, i + 1, current, authority_pda, expected_owner),
        }
    }
}

fn creates(ins: &TopLevelInstruction, authority_pda: &Address, expected_owner: &Address) -> (r: Option<bool>)
    ensures
        r == creates_authority(*ins, authority_pda@, expected_owner@),
{
    if !ins.program_id.equals(&program_id()) || ins.data.len() == 0 || ins.data[0]
        != INIT_AUTHORITY_DISCRIMINATOR {
        return Some(false);
    }
    if ins.accounts.len() < 2 {
        return None;
    }
    Some(
        ins.accounts[INIT_AUTHORITY_ACCOUNT_INDEX].equals(authority_pda)
            && ins.accounts[INIT_OWNER_ACCOUNT_INDEX].equals(expected_owner),
    )
}

/// Whether an `InitSubscriptionAuthority` earlier in the transaction than
/// `current_index` creates `authority_pda` for `expected_owner`; `None`
/// when an earlier init instruction lacks its accounts.
pub fn subscription_authority_inited_in_tx(
    instructions: &[TopLevelInstruction],
    current_index: usize,
    authority_pda: &Address,
    expected_owner: &Address,
) -> (r: Option<bool>)
    requires
        current_index <= instructions@.len(),
    ensures
        r == inited_from(instructions@, 0, current_index as int, authority_pda@, expected_owner@),
{
    let mut i: usize = 0;
    while i < current_index
        invariant
            i <= current_index <= instructions@.len(),
            inited_from(instructions@, 0, current_index as int, authority_pda@, expected_owner@)
                == inited_from(instructions@, i as int, current_index as int, authority_pda@, expected_owner@),
        decreases current_index - i,
    {
        match creates(&instructions[i], authority_pda, expected_owner) {
            None => {
                return None;
            },
            Some(true) => {
                return Some(true);
            },
            Some(false) => {},
        }
        i = i + 1;
    }
    Some(false)
}

proof fn lemma_first_decisive(
    instructions: Seq<TopLevelInstruction>,
    i: int,
    current: int,
    authority_pda: Seq<u8>,
    expected_owner: Seq<u8>,
) -> (k: int)
    requires
        0 <= i <= current <= instructions.len(),
    ensures
        i <= k <= current,
        forall|j: int|
            i <= j < k ==> #[trigger] creates_authority(instructions[j], authority_pda, expected_owner) == Some(
                false,
            ),
        k < current ==> creates_authority(instructions[k], authority_pda, expected_owner) != Some(false)
            && inited_from(instructions, i, current, authority_pda, expected_owner) == creates_authority(
            instructions[k],
            authority_pda,
            expected_owner,
        ),
        k == current ==> inited_from(instructions, i, current, authority_pda, expected_owner) == Some(false),
    decreases current - i,
{
    if i >= current {
        i
    } else if creates_authority(instructions[i], authority_pda, expected_owner) != Some(false) {
        i
    } else {
        lemma_first_decisive(instructions, i + 1, current, authority_pda, expected_owner)
    }
}

/// The scan of the earlier instructions answers from the first one that
/// decides: it reports a creation exactly when some earlier instruction
/// creates the authority for the owner and every instruction before that one
/// is unrelated; it reports none exactly when every earlier instruction is
/// unrelated; and it fails exactly when a malformed init comes first.
pub proof fn law_inited_in_tx_first_decisive(
    instructions: Seq<TopLevelInstruction>,
    current: int,
    authority_pda: Seq<u8>,
    expected_owner: Seq<u8>,
)
    requires
        0 <= current <= instructions.len(),
    ensures
        inited_from(instructions, 0, current, authority_pda, expected_owner) == Some(true) <==> exists|i: int|
            0 <= i < current && #[trigger] creates_authority(instructions[i], authority_pda, expected_owner) == Some(
                true,
            ) && forall|j: int|
                0 <= j < i ==> #[trigger] creates_authority(instructions[j], authority_pda, expected_owner)
                    == Some(false),
        inited_from(instructions, 0, current, authority_pda, expected_owner) == Some(false) <==> forall|j: int|
            0 <= j < current ==> #[trigger] creates_authority(instructions[j], authority_pda, expected_owner)
                == Some(false),
        inited_from(instructions, 0, current, authority_pda, expected_owner) is None <==> exists|i: int|
            0 <= i < current && #[trigger] creates_authority(instructions[i], authority_pda, expected_owner)
                is None && forall|j: int|
                0 <= j < i ==> #[trigger] creates_authority(instructions[j], authority_pda, expected_owner)
                    == Some(false),
{
    let k = lemma_first_decisive(instructions, 0, current, authority_pda, expected_owner);
    let r = inited_from(instructions, 0, current, authority_pda, expected_owner);
    assert forall|i: int|
        0 <= i < current && creates_authority(instructions[i], authority_pda, expected_owner) != Some(false)
            && (forall|j: int|
            0 <= j < i ==> #[trigger] creates_authority(instructions[j], authority_pda, expected_owner) == Some(
                false,
            )) implies i == k by {
        if i < k {
            assert(creates_authority(instructions[i], authority_pda, expected_owner) == Some(false));
        } else if k < i {
            assert(creates_authority(instructions[k], authority_pda, expected_owner) == Some(false));
        }
    }
    if k < current {
        assert(creates_authority(instructions[k], authority_pda, expected_owner) != Some(false));
    }
}

} // verus!
