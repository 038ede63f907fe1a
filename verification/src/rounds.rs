//! Moving the sale from one round to the next.
use vstd::prelude::*;
use vstd::array::spec_array_update;
use crate::accounts::StartRound;
use crate::error::CustomError;
use crate::state::{Pubkey, Round, State, ROUND_COUNT, ROUND_DURATION};

verus! {

impl State {
    /// The state with `round` in place of round `index`.
    pub open spec fn with_round(self, index: int, round: Round) -> State {
        State { rounds: spec_array_update(self.rounds, index, round), ..self }
    }

    /// Why `caller` may not start `round`, if anything stands against it:
    /// the caller is not the administrator, there is no such round, or the
    /// round does not come after the one started last.
    pub open spec fn start_round_refusal(self, caller: Pubkey, round: u8) -> Option<CustomError> {
        if caller != self.admin {
            Some(CustomError::Unauthorized)
        } else if round >= ROUND_COUNT {
            Some(CustomError::InvalidRound)
        } else if self.current_active_phase is Some && round <= self.current_active_phase->0 {
            Some(CustomError::InvalidRoundOrder)
        } else {
            None
        }
    }

    /// The state after the round started last, if there is one, has been
    /// closed at time `now`: the round is inactive and ends at `now`, and
    /// what it had left to sell has moved to the public pool's total.
    pub open spec fn current_closed(self, now: i64) -> State {
        match self.current_active_phase {
            Some(current) => State {
                pub_supply: (self.pub_supply + self.rounds[current as int].balance) as u64,
                ..self.with_round(
                    current as int,
                    Round {
                        active: false,
                        end_time: now,
                        balance: 0,
                        ..self.rounds[current as int]
                    },
                )
            },
            None => self,
        }
    }

    /// The state after `round` has been started at time `now`: the round
    /// started before it is closed, `round` is active from `now` for
    /// [`ROUND_DURATION`] seconds and is the round started last.
    pub open spec fn round_started(self, round: u8, now: i64) -> State {
        let closed = self.current_closed(now);
        State {
            current_active_phase: Some(round),
            ..closed.with_round(
                round as int,
                Round {
                    active: true,
                    start_time: now,
                    end_time: (now + ROUND_DURATION) as i64,
                    ..closed.rounds[round as int]
                },
            )
        }
    }
}

/// Starts `round` at time `now`, closing the round that was started before.
///
/// Only the administrator may do so, the round must exist, and it must come
/// after the round started last; the first round to be started can be any.
/// The closed round's unsold balance goes to the public pool's total. The
/// new round is open from `now` for one day. The end of its window must fit
/// the clock's range.
pub fn start_round(ctx: &mut StartRound, round: u8, now: i64) -> (result: Result<
    (),
    CustomError,
>)
    requires
        old(ctx).state.wf(),
        now + ROUND_DURATION <= i64::MAX,
    ensures
        match result {
            Ok(()) => {
                &&& old(ctx).state.start_round_refusal(old(ctx).admin, round) is None
                &&& final(ctx).state == old(ctx).state.round_started(round, now)
                &&& final(ctx).state.rounds[round as int].active
                &&& final(ctx).state.only_active(round as int)
                &&& final(ctx).state.public_tokens() == old(ctx).state.public_tokens()
            },
            Err(error) => {
                &&& old(ctx).state.start_round_refusal(old(ctx).admin, round) == Some(error)
                &&& final(ctx).state == old(ctx).state
            },
        },
        final(ctx).admin == old(ctx).admin,
        final(ctx).state.wf(),
{
    if ctx.admin != ctx.state.admin {
        return Err(CustomError::Unauthorized);
    }
    if round as usize >= ROUND_COUNT {
        return Err(CustomError::InvalidRound);
    }
    if let Some(current) = ctx.state.current_active_phase {
        if round <= current {
            return Err(CustomError::InvalidRoundOrder);
        }
        let unsold = ctx.state.rounds[current as usize].balance;
        ctx.state.rounds[current as usize].active = false;
        ctx.state.rounds[current as usize].end_time = now;
        ctx.state.rounds[current as usize].balance = 0;
        ctx.state.pub_supply = ctx.state.pub_supply + unsold;
    }
    ctx.state.rounds[round as usize].active = true;
    ctx.state.rounds[round as usize].start_time = now;
    ctx.state.rounds[round as usize].end_time = now + ROUND_DURATION;
    ctx.state.current_active_phase = Some(round);
    proof {
        assert(ctx.state.rounds =~= old(ctx).state.round_started(round, now).rounds);
    }
    Ok(())
}

} // verus!
