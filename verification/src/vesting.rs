//! The vesting ledger: what a buyer bought in a round and has yet to claim.
use vstd::prelude::*;
use crate::state::Pubkey;

verus! {

/// Seconds that must pass after a purchase before it can be claimed: five
/// minutes.
pub const VESTING_DELAY: i64 = 300;

/// Bytes that a stored ledger starts with: an 8-byte tag, the owner's 32
/// bytes and a 4-byte count of purchases.
pub const LEDGER_HEADER_SIZE: usize = 44;

/// Bytes that one stored purchase takes: amount, start time, round, flag.
pub const PURCHASE_SIZE: usize = 18;

/// Number of purchases that a ledger can hold.
pub const MAX_PURCHASES: usize = 94;

/// One purchase. Once recorded, only `claimed` changes, and only from
/// `false` to `true`.
#[derive(Clone, Copy, Debug, PartialEq, Eq, Structural)]
pub struct Purchase {
    /// Tokens owed to the buyer.
    pub amount: u64,
    /// When the purchase was made; the vesting delay counts from here.
    pub start_time: i64,
    /// The round it was made in.
    pub round: u8,
    /// Whether the tokens have been paid out.
    pub claimed: bool,
}

impl Purchase {
    /// Whether the vesting delay has elapsed at time `now`.
    pub open spec fn vested_at(&self, now: i64) -> bool {
        now >= self.start_time + VESTING_DELAY
    }

    /// Decides [`Purchase::vested_at`]. The sum is taken in a wider type, so
    /// a start time near the end of the range is no special case.
    pub fn is_vested(&self, now: i64) -> (vested: bool)
        ensures
            vested == self.vested_at(now),
    {
        now as i128 >= self.start_time as i128 + VESTING_DELAY as i128
    }
}

/// The ledger of one buyer for one round: the purchases in the order in which
/// they were made.
#[derive(Clone, Debug, PartialEq, Eq)]
pub struct Vesting {
    /// The buyer.
    pub owner: Pubkey,
    /// The purchases; new ones are appended.
    pub purchases: Vec<Purchase>,
}

/// What a [`Vesting`] holds, as a mathematical value.
pub struct VestingView {
    pub owner: Pubkey,
    pub purchases: Seq<Purchase>,
}

impl View for Vesting {
    type V = VestingView;

    open spec fn view(&self) -> VestingView {
        VestingView { owner: self.owner, purchases: self.purchases@ }
    }
}

impl Vesting {
    /// Bytes set aside for a stored ledger, not counting its 8-byte tag.
    pub const MAX_SIZE: usize = 1740;

    /// A ledger without an owner and without purchases, as storage hands it
    /// out before the first purchase.
    pub fn empty() -> (ledger: Vesting)
        ensures
            ledger.owner.is_zero(),
            ledger@.purchases == Seq::<Purchase>::empty(),
            ledger.wf(),
    {
        Vesting { owner: Pubkey::zeroed(), purchases: Vec::new() }
    }

    /// The invariant of the ledger: it holds no more purchases than fit.
    pub open spec fn wf(&self) -> bool {
        self@.purchases.len() <= MAX_PURCHASES
    }

    /// Whether the ledger has room for one more purchase.
    pub open spec fn has_room(&self) -> bool {
        self@.purchases.len() < MAX_PURCHASES
    }

    /// Decides [`Vesting::has_room`].
    pub fn can_record(&self) -> (room: bool)
        ensures
            room == self.has_room(),
    {
        self.purchases.len() < MAX_PURCHASES
    }
}

/// [`MAX_PURCHASES`] is the largest number of purchases that fit into the
/// bytes set aside for a ledger.
pub proof fn lemma_max_purchases_fit()
    ensures
        LEDGER_HEADER_SIZE + MAX_PURCHASES * PURCHASE_SIZE <= 8 + Vesting::MAX_SIZE,
        LEDGER_HEADER_SIZE + (MAX_PURCHASES + 1) * PURCHASE_SIZE > 8 + Vesting::MAX_SIZE,
{
}

} // verus!
