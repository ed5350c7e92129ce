use crate::error::HealthcareError;
use vstd::prelude::*;

verus! {

/// Largest encrypted gradient accepted, in bytes.
pub const MAX_GRADIENT_LEN: usize = 4096;

/// Bookkeeping of federated-learning rounds.
#[derive(Clone, Copy, Debug, PartialEq, Eq, Structural)]
pub struct FederatedLearningState {
    pub round_number: u64,
    pub last_update: i64,
    pub participant_count: u32,
}

impl FederatedLearningState {
    /// The state before any submission: round zero, no participant.
    pub fn new() -> (r: FederatedLearningState)
        ensures
            r.round_number == 0,
            r.last_update == 0,
            r.participant_count == 0,
    {
        FederatedLearningState { round_number: 0, last_update: 0, participant_count: 0 }
    }
}

/// The state that `submit_model_update` works on: the round state, the
/// submitting agent and the current time.
#[derive(Clone, Copy, Debug)]
pub struct SubmitModelUpdate {
    pub fl_state: FederatedLearningState,
    pub agent: [u8; 32],
    pub now: i64,
}

/// Accepts one participant's encrypted gradient for a round. The gradient is
/// opaque and only its size is checked. Rounds never go back: a round number
/// below the recorded one is refused, the same round may take more
/// participants.
pub fn submit_model_update(ctx: &mut SubmitModelUpdate, encrypted_gradient: Vec<u8>, round_number: u64) -> (r: Result<(), HealthcareError>)
    requires
        old(ctx).fl_state.participant_count < u32::MAX,
    ensures
        encrypted_gradient@.len() > MAX_GRADIENT_LEN ==> r == Err::<(), HealthcareError>(HealthcareError::GradientTooLarge),
        encrypted_gradient@.len() <= MAX_GRADIENT_LEN && round_number < old(ctx).fl_state.round_number
            ==> r == Err::<(), HealthcareError>(HealthcareError::StaleRound),
        encrypted_gradient@.len() <= MAX_GRADIENT_LEN && round_number >= old(ctx).fl_state.round_number
            ==> r is Ok,
        r is Err ==> *final(ctx) == *old(ctx),
        r is Ok ==> final(ctx).fl_state == (FederatedLearningState {
            round_number,
            last_update: old(ctx).now,
            participant_count: (old(ctx).fl_state.participant_count + 1) as u32,
        }),
        final(ctx).agent == old(ctx).agent,
        final(ctx).now == old(ctx).now,
{
    if encrypted_gradient.len() > MAX_GRADIENT_LEN {
        return Err(HealthcareError::GradientTooLarge);
    }
    if round_number < ctx.fl_state.round_number {
        return Err(HealthcareError::StaleRound);
    }
    ctx.fl_state = FederatedLearningState {
        round_number,
        last_update: ctx.now,
        participant_count: ctx.fl_state.participant_count + 1,
    };
    Ok(())
}

} // verus!
