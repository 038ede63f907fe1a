//! The records of the sale: identities, prices, rounds and the sale state.
use vstd::prelude::*;
use vstd::std_specs::cmp::PartialEqSpecImpl;

verus! {

/// Number of rounds of the sale. Their indices are `0`, `1` and `2`.
pub const ROUND_COUNT: usize = 3;

/// Index of the last round.
pub const LAST_ROUND: u8 = 2;

/// Length of a round's window in seconds: one day.
pub const ROUND_DURATION: i64 = 86400;

/// Share of the total supply that goes to each pool, in percent.
pub const POOL_PERCENT: u64 = 50;

/// Share of the public pool's allotment that the first round gets, in
/// percent.
pub const FIRST_ROUND_PERCENT: u64 = 60;

/// Share of the public pool's allotment that each later round gets, in
/// percent.
pub const LATER_ROUND_PERCENT: u64 = 20;

/// The price 0.002 as a binary64 bit pattern.
pub const FIRST_ROUND_PRICE_BITS: u64 = 0x3F60_624D_D2F1_A9FC;

/// The price 0.003 as a binary64 bit pattern.
pub const SECOND_ROUND_PRICE_BITS: u64 = 0x3F68_9374_BC6A_7EFA;

/// The price 0.004 as a binary64 bit pattern.
pub const THIRD_ROUND_PRICE_BITS: u64 = 0x3F70_624D_D2F1_A9FC;

/// An identity on the ledger: the 32 bytes of a public key.
#[derive(Clone, Copy, Debug, Eq)]
pub struct Pubkey {
    pub bytes: [u8; 32],
}

impl PartialEq for Pubkey {
    fn eq(&self, other: &Self) -> (same: bool) {
        let mut i: usize = 0;
        while i < 32
            invariant
                i <= 32,
                forall|j: int| 0 <= j < i ==> self.bytes[j] == other.bytes[j],
            decreases 32 - i,
        {
            if self.bytes[i] != other.bytes[i] {
                return false;
            }
            i = i + 1;
        }
        assert(self.bytes =~= other.bytes);
        true
    }
}

impl PartialEqSpecImpl for Pubkey {
    open spec fn obeys_eq_spec() -> bool {
        true
    }

    open spec fn eq_spec(&self, other: &Self) -> bool {
        *self == *other
    }
}

impl Pubkey {
    /// The identity whose bytes are all zero.
    pub fn zeroed() -> (key: Pubkey)
        ensures
            key.is_zero(),
    {
        Pubkey { bytes: [0u8; 32] }
    }

    /// Whether all bytes are zero.
    pub open spec fn is_zero(&self) -> bool {
        forall|i: int| 0 <= i < 32 ==> self.bytes[i] == 0
    }
}

/// What one unit of the token on sale costs in units of the payment token,
/// held as the bit pattern of an IEEE 754 binary64 number. A price such as
/// 0.002 has no exact binary form; the pattern keeps the number that stands
/// for it, and [`crate::pricing`] computes with that number.
#[derive(Clone, Copy, Debug, PartialEq, Eq, Structural)]
pub struct Price {
    pub bits: u64,
}

/// One round of the sale.
#[derive(Clone, Copy, Debug, PartialEq, Eq, Structural)]
pub struct Round {
    /// Whether purchases are accepted.
    pub active: bool,
    /// Price of one sale unit.
    pub price: Price,
    /// What is left to sell.
    pub balance: u64,
    /// What has been sold.
    pub tokens_sold: u64,
    /// Start of the window, in seconds.
    pub start_time: i64,
    /// End of the window, in seconds; the window includes it.
    pub end_time: i64,
}

impl Round {
    /// A round that has never been set up.
    pub fn zeroed() -> (round: Round)
        ensures
            round == Round::blank(),
    {
        Round {
            active: false,
            price: Price { bits: 0 },
            balance: 0,
            tokens_sold: 0,
            start_time: 0,
            end_time: 0,
        }
    }

    /// The value of [`Round::zeroed`].
    pub open spec fn blank() -> Round {
        Round {
            active: false,
            price: Price { bits: 0 },
            balance: 0,
            tokens_sold: 0,
            start_time: 0,
            end_time: 0,
        }
    }

    /// Whether the round takes a purchase at time `now`.
    pub open spec fn open_at(&self, now: i64) -> bool {
        self.active && now <= self.end_time
    }
}

/// The state of the sale: one record, created once and passed to every
/// operation.
#[derive(Clone, Copy, Debug, PartialEq, Eq)]
pub struct State {
    /// The administrator.
    pub admin: Pubkey,
    /// The token accepted as payment.
    pub payment_mint: Pubkey,
    /// The token on sale.
    pub mint: Pubkey,
    /// Running total of the public pool.
    pub pub_supply: u64,
    /// Running total of the reserve pool.
    pub reserve_supply: u64,
    /// The rounds, by index.
    pub rounds: [Round; 3],
    /// The round that was started last, if any was.
    pub current_active_phase: Option<u8>,
    /// Unsold tokens of the last round that went back to the administrator.
    pub admin_remaining_tokens: u64,
}

impl State {
    /// A record as storage hands it out, before [`crate::initialize`].
    pub fn zeroed() -> (state: State)
        ensures
            state.is_blank(),
            state.wf(),
    {
        let key = Pubkey::zeroed();
        let round = Round::zeroed();
        State {
            admin: key,
            payment_mint: key,
            mint: key,
            pub_supply: 0,
            reserve_supply: 0,
            rounds: [round, round, round],
            current_active_phase: None,
            admin_remaining_tokens: 0,
        }
    }

    /// Whether the record is as [`State::zeroed`] makes it: every byte and
    /// counter zero, no round set up, none started.
    pub open spec fn is_blank(&self) -> bool {
        &&& self.admin.is_zero()
        &&& self.payment_mint.is_zero()
        &&& self.mint.is_zero()
        &&& self.pub_supply == 0
        &&& self.reserve_supply == 0
        &&& forall|i: int| 0 <= i < 3 ==> self.rounds[i] == Round::blank()
        &&& self.current_active_phase is None
        &&& self.admin_remaining_tokens == 0
    }

    /// Sum of what the three rounds have left to sell.
    pub open spec fn unsold(&self) -> int {
        self.rounds[0].balance + self.rounds[1].balance + self.rounds[2].balance
    }

    /// What the public pool's total and the rounds hold together. Starting a
    /// round moves tokens between the two and leaves this sum as it is.
    pub open spec fn public_tokens(&self) -> int {
        self.pub_supply + self.unsold()
    }

    /// Whether round `i` is the only one that may be active.
    pub open spec fn only_active(&self, i: int) -> bool {
        forall|j: int| 0 <= j < 3 && j != i ==> !(#[trigger] self.rounds[j]).active
    }

    /// The invariant of the state.
    ///
    /// - The marker of the round started last names a round.
    /// - A round is active only if the marker names it, so at most one is.
    /// - No round has sold and left more than fits the counters.
    /// - The public pool's total and the unsold balances fit the counter
    ///   together, and so do the reclaimed tokens and what the last round
    ///   has left.
    pub open spec fn wf(&self) -> bool {
        &&& match self.current_active_phase {
            Some(current) => current < 3 && self.only_active(current as int),
            None => self.only_active(-1),
        }
        &&& forall|i: int|
            0 <= i < 3 ==> (#[trigger] self.rounds[i]).balance + self.rounds[i].tokens_sold
                <= u64::MAX
        &&& self.public_tokens() <= u64::MAX
        &&& self.admin_remaining_tokens + self.rounds[2].balance <= u64::MAX
    }

    /// Checks the invariant.
    pub fn is_wf(&self) -> (ok: bool)
        ensures
            ok == self.wf(),
    {
        let marker_ok = match self.current_active_phase {
            Some(current) => current < 3 && self.no_other_active(current),
            None => self.no_other_active(u8::MAX),
        };
        let mut sold_ok = true;
        let mut i: usize = 0;
        while i < 3
            invariant
                i <= 3,
                sold_ok == forall|j: int|
                    0 <= j < i ==> (#[trigger] self.rounds[j]).balance + self.rounds[j].tokens_sold
                        <= u64::MAX,
            decreases 3 - i,
        {
            if self.rounds[i].tokens_sold > u64::MAX - self.rounds[i].balance {
                sold_ok = false;
            }
            i = i + 1;
        }
        let total: u128 = self.pub_supply as u128 + self.rounds[0].balance as u128
            + self.rounds[1].balance as u128 + self.rounds[2].balance as u128;
        let reclaimed_ok = self.admin_remaining_tokens <= u64::MAX - self.rounds[2].balance;
        marker_ok && sold_ok && total <= u64::MAX as u128 && reclaimed_ok
    }

    /// Whether every round but `keep` is inactive; with `keep` out of range,
    /// whether all are.
    fn no_other_active(&self, keep: u8) -> (ok: bool)
        ensures
            ok == self.only_active(if keep < 3 { keep as int } else { -1 }),
    {
        let mut i: usize = 0;
        while i < 3
            invariant
                i <= 3,
                forall|j: int| 0 <= j < i && j != keep ==> !(#[trigger] self.rounds[j]).active,
            decreases 3 - i,
        {
            if i != keep as usize && self.rounds[i].active {
                return false;
            }
            i = i + 1;
        }
        true
    }
}

/// The record behind a pool's delegated authority.
#[derive(Clone, Copy, Debug, PartialEq, Eq, Structural)]
pub struct Balance {
    pub balance: u64,
}

} // verus!
