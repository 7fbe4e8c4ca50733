//! What the rules of the mining loop guarantee.
use vstd::prelude::*;

use crate::miner::{has_room, valid};
use crate::pow::{
    first_solution, law_search_finds_first, law_search_windows_chain, lemma_nonce_at, nonce_at,
    solves,
};
use crate::retry::{
    first_waits, law_retry_returns_first_success, law_retry_returns_last_error, law_waits_double,
    trials,
};
use crate::rules::{
    advanced, attempts_for, batch_len, block_of, fits, flush_mark, probe_due, transition,
    EffectView, Engine, EventView, MinerView, Phase, Request, Round, CPU_BATCH, EPOCH_BLOCKS,
};
use crate::telegram::{error_text, push_request, solution_text, ApiRequestView};
use crate::text::decimal;

verus! {

/// What a round answers.
pub struct Work {
    pub challenge: Seq<u8>,
    pub difficulty: Seq<u8>,
}

/// What a step works on.
pub open spec fn work_of(m: MinerView, event: EventView) -> Option<Work> {
    match (m.phase, event) {
        (Phase::Probe(round), _) | (Phase::Gpu(round), _) | (Phase::Yield(round), _) => Some(
            Work { challenge: round.challenge@, difficulty: round.difficulty@ },
        ),
        (Phase::Found { round, .. }, _) => Some(
            Work { challenge: round.challenge@, difficulty: round.difficulty@ },
        ),
        (Phase::Difficulty { epoch, challenge }, EventView::Difficulty(Ok(difficulty))) => Some(
            Work { challenge: challenge@, difficulty: difficulty@ },
        ),
        _ => None,
    }
}

/// A nonce that the CPU found, and that is about to be submitted, answers the challenge.
pub open spec fn sound(m: MinerView) -> bool {
    m.phase matches Phase::Found { round, nonce } ==> solves(
        round.challenge@,
        round.difficulty@,
        nonce,
    )
}

/// Whatever a step takes to be found answers the challenge of its round at the difficulty of
/// that round.
pub proof fn law_found_nonce_solves(m: MinerView, event: EventView, stopping: bool, seed: u64)
    requires
        valid(m),
        fits(m.phase, event),
    ensures
        sound(transition(m, event, stopping, seed).miner),
{
    if m.engine == Engine::Cpu && batch_ran(m, event, stopping) {
        lemma_cpu_batch(m, event, stopping, seed);
        let round = batch_round(m, event, seed);
        lemma_first_solves(
            round.challenge@,
            round.difficulty@,
            round.cursor,
            CPU_BATCH as nat,
        );
    } else {
        lemma_no_cpu_batch(m, event, stopping, seed);
    }
}

/// What a search returns answers the challenge.
proof fn lemma_first_solves(challenge: Seq<u8>, difficulty: Seq<u8>, start: u64, count: nat)
    ensures
        first_solution(challenge, difficulty, start, count) matches Some(nonce) ==> solves(
            challenge,
            difficulty,
            nonce,
        ),
{
    law_search_finds_first(challenge, difficulty, start, count);
}

/// The round that a batch on the CPU belongs to.
spec fn batch_round(m: MinerView, event: EventView, seed: u64) -> Round {
    match (m.phase, event) {
        (Phase::Difficulty { epoch, challenge }, EventView::Difficulty(Ok(difficulty))) => Round {
            epoch,
            challenge,
            difficulty,
            cursor: seed,
            batches: 0,
        },
        _ => round_in(m.phase)->0,
    }
}

/// Where a step with a batch on the CPU leads.
#[verifier::spinoff_prover]
proof fn lemma_cpu_batch(m: MinerView, event: EventView, stopping: bool, seed: u64)
    requires
        fits(m.phase, event),
        m.engine == Engine::Cpu,
        batch_ran(m, event, stopping),
    ensures
        ({
            let round = batch_round(m, event, seed);
            let step = transition(m, event, stopping, seed);
            &&& work_of(m, event) == Some(
                Work { challenge: round.challenge@, difficulty: round.difficulty@ },
            )
            &&& round.cursor == cpu_start(m.phase, seed)
            &&& step.miner.priority_wei == m.priority_wei
            &&& step.miner.max_fee_wei == m.max_fee_wei
            &&& match first_solution(
                round.challenge@,
                round.difficulty@,
                round.cursor,
                CPU_BATCH as nat,
            ) {
                Some(nonce) => step.request is Check && step.miner.phase == (Phase::Found {
                    round,
                    nonce,
                }),
                None => step.request is Yield && step.miner.phase == Phase::Yield(
                    advanced(m, round),
                ),
            }
        }),
{
}

/// Where a step without a batch on the CPU leads.
#[verifier::spinoff_prover]
proof fn lemma_no_cpu_batch(m: MinerView, event: EventView, stopping: bool, seed: u64)
    requires
        valid(m),
        fits(m.phase, event),
        m.engine == Engine::Cpu ==> !batch_ran(m, event, stopping),
    ensures
        ({
            let step = transition(m, event, stopping, seed);
            &&& step.miner.phase !is Found
            &&& m.engine == Engine::Cpu ==> {
                &&& round_in(step.miner.phase) is Some ==> round_in(step.miner.phase) == round_in(
                    m.phase,
                )
                &&& step.request matches Request::Submit { nonce, .. } ==> m.phase
                    matches Phase::Found { nonce: found, .. } && found == nonce
            }
        }),
{
}

/// A step submits a nonce only if the nonce answers the challenge at the difficulty that the
/// step works on, and with the fees that are configured.
pub open spec fn submits_well(m: MinerView, input: Input) -> bool {
    let step = transition(m, input.event, input.stopping, input.seed);
    step.request matches Request::Submit { nonce, priority_wei, max_fee_wei } ==> {
        &&& work_of(m, input.event) matches Some(work) && solves(
            work.challenge,
            work.difficulty,
            nonce,
        )
        &&& priority_wei == m.priority_wei
        &&& max_fee_wei == m.max_fee_wei
        &&& step.miner.phase == (Phase::Submit { nonce })
    }
}

/// A nonce is submitted only if it answers the challenge at the difficulty that the round
/// works on, whatever the GPU reports, and with the fees that are configured.
pub proof fn law_submitted_nonce_solves(m: MinerView, input: Input)
    requires
        sound(m),
        fits(m.phase, input.event),
    ensures
        submits_well(m, input),
{
}

/// Every step of a run submits well.
pub open spec fn run_submits_well(m: MinerView, inputs: Seq<Input>) -> bool
    decreases inputs.len(),
{
    inputs.len() > 0 ==> {
        &&& submits_well(m, inputs[0])
        &&& run_submits_well(after(m, inputs[0]), inputs.skip(1))
    }
}

/// Over a whole run, whatever happens outside, only nonces that answer their challenge are
/// submitted.
pub proof fn law_run_submits_solutions(m: MinerView, inputs: Seq<Input>)
    requires
        valid(m),
        m.phase !is Found,
        can_run(m, inputs),
    ensures
        run_submits_well(m, inputs),
{
    lemma_sound_run(m, inputs);
}

/// A run from a sound state submits well.
proof fn lemma_sound_run(m: MinerView, inputs: Seq<Input>)
    requires
        valid(m),
        sound(m),
        can_run(m, inputs),
    ensures
        run_submits_well(m, inputs),
    decreases inputs.len(),
{
    if inputs.len() > 0 {
        let first = inputs[0];
        law_submitted_nonce_solves(m, first);
        law_found_nonce_solves(m, first.event, first.stopping, first.seed);
        law_states_stay_valid(m, first.event, first.stopping, first.seed);
        lemma_sound_run(after(m, first), inputs.skip(1));
    }
}

/// The hashes that a list of effects hands to the counters.
pub open spec fn reported(effects: Seq<EffectView>) -> nat
    decreases effects.len(),
{
    if effects.len() == 0 {
        0
    } else {
        reported(effects.drop_last()) + match effects.last() {
            EffectView::Rate(n) => n as nat,
            _ => 0,
        }
    }
}

/// A step goes on to the next batch of a round: at the start of a round or after a batch,
/// unless the program stops or the epoch is to be looked at first; and after a look at the
/// epoch, unless it has changed.
pub open spec fn goes_on(m: MinerView, event: EventView, stopping: bool) -> bool {
    match (m.phase, event) {
        (Phase::Difficulty { .. }, EventView::Difficulty(Ok(_))) => !stopping,
        (Phase::Yield(round), _) => !stopping && !probe_due(round),
        (Phase::Probe(round), EventView::Probe(number)) => number is None || number->0
            / EPOCH_BLOCKS == round.epoch,
        _ => false,
    }
}

/// A batch has run by the end of a step and had not before it: a batch on the GPU has run
/// when its outcome comes, and a batch on the CPU runs within a step.
pub open spec fn batch_ran(m: MinerView, event: EventView, stopping: bool) -> bool {
    match m.engine {
        Engine::Gpu => event is Gpu,
        Engine::Cpu => goes_on(m, event, stopping),
    }
}

/// The nonces that are tried by the end of a step and were not before it.
pub open spec fn tried(m: MinerView, event: EventView, stopping: bool) -> nat {
    if batch_ran(m, event, stopping) {
        batch_len(m) as nat
    } else {
        0
    }
}

/// No hash is lost and none is counted twice: what a step hands to the counters and what
/// stays pending is what was pending before and what the step tried.
#[verifier::rlimit(40)]
pub proof fn law_every_hash_is_counted_once(
    m: MinerView,
    event: EventView,
    stopping: bool,
    seed: u64,
)
    requires
        valid(m),
        fits(m.phase, event),
        has_room(m),
    ensures
        ({
            let step = transition(m, event, stopping, seed);
            reported(step.effects) + step.miner.pending == m.pending + tried(m, event, stopping)
        }),
{
    let step = transition(m, event, stopping, seed);
    lemma_reported_short(step.effects);
    let before = m.pending + tried(m, event, stopping);
    match m.phase {
        Phase::Gpu(_) => {
            assert(before == m.pending + m.batch_size <= u64::MAX);
            assert(reported(step.effects) + step.miner.pending == before);
        },
        Phase::Yield(_) => {
            assert(reported(step.effects) + step.miner.pending == before);
        },
        Phase::Probe(_) => {
            assert(m.engine == Engine::Cpu ==> m.pending + CPU_BATCH <= u64::MAX);
            assert(reported(step.effects) + step.miner.pending == before);
        },
        _ => {
            assert(reported(step.effects) + step.miner.pending == before);
        },
    }
}

/// The hashes in a list of at most three effects.
proof fn lemma_reported_short(effects: Seq<EffectView>)
    ensures
        effects.len() == 0 ==> reported(effects) == 0,
        effects.len() == 1 ==> reported(effects) == rate_of(effects[0]),
        effects.len() == 2 ==> reported(effects) == rate_of(effects[0]) + rate_of(effects[1]),
        effects.len() == 3 ==> reported(effects) == rate_of(effects[0]) + rate_of(effects[1])
            + rate_of(effects[2]),
{
    reveal_with_fuel(reported, 4);
}

/// The hashes that one effect hands to the counters.
spec fn rate_of(effect: EffectView) -> nat {
    match effect {
        EffectView::Rate(n) => n as nat,
        _ => 0,
    }
}

/// What a step is given.
pub struct Input {
    pub event: EventView,
    pub stopping: bool,
    pub seed: u64,
}

/// The state after a step.
pub open spec fn after(m: MinerView, input: Input) -> MinerView {
    transition(m, input.event, input.stopping, input.seed).miner
}

/// The machine can take every step of a run.
pub open spec fn can_run(m: MinerView, inputs: Seq<Input>) -> bool
    decreases inputs.len(),
{
    inputs.len() > 0 ==> {
        &&& fits(m.phase, inputs[0].event)
        &&& has_room(m)
        &&& can_run(after(m, inputs[0]), inputs.skip(1))
    }
}

/// The state after a run.
pub open spec fn end_of(m: MinerView, inputs: Seq<Input>) -> MinerView
    decreases inputs.len(),
{
    if inputs.len() == 0 {
        m
    } else {
        end_of(after(m, inputs[0]), inputs.skip(1))
    }
}

/// The hashes that a run hands to the counters.
pub open spec fn reported_by(m: MinerView, inputs: Seq<Input>) -> nat
    decreases inputs.len(),
{
    if inputs.len() == 0 {
        0
    } else {
        let first = inputs[0];
        reported(transition(m, first.event, first.stopping, first.seed).effects) + reported_by(
            after(m, first),
            inputs.skip(1),
        )
    }
}

/// The nonces that a run tries.
pub open spec fn tried_by(m: MinerView, inputs: Seq<Input>) -> nat
    decreases inputs.len(),
{
    if inputs.len() == 0 {
        0
    } else {
        let first = inputs[0];
        tried(m, first.event, first.stopping) + tried_by(after(m, first), inputs.skip(1))
    }
}

/// Every step leads from a valid state to a valid state.
#[verifier::rlimit(40)]
pub proof fn law_states_stay_valid(m: MinerView, event: EventView, stopping: bool, seed: u64)
    requires
        valid(m),
        fits(m.phase, event),
        has_room(m),
    ensures
        valid(transition(m, event, stopping, seed).miner),
{
}

/// Over a whole run no hash is lost and none is counted twice: when the machine has ended,
/// the counters know of exactly the nonces that were tried, and of those that were pending.
pub proof fn law_run_counts_every_hash(m: MinerView, inputs: Seq<Input>)
    requires
        valid(m),
        can_run(m, inputs),
    ensures
        valid(end_of(m, inputs)),
        reported_by(m, inputs) + end_of(m, inputs).pending == m.pending + tried_by(m, inputs),
        end_of(m, inputs).phase is Stopped ==> reported_by(m, inputs) == m.pending + tried_by(
            m,
            inputs,
        ),
    decreases inputs.len(),
{
    if inputs.len() > 0 {
        let first = inputs[0];
        law_states_stay_valid(m, first.event, first.stopping, first.seed);
        law_every_hash_is_counted_once(m, first.event, first.stopping, first.seed);
        law_run_counts_every_hash(after(m, first), inputs.skip(1));
    }
}

/// The hashes between two updates of the counters fit in 64 bits.
pub open spec fn within_limits(m: MinerView) -> bool {
    match m.engine {
        Engine::Gpu => flush_mark(m.batch_size) <= u64::MAX,
        Engine::Cpu => flush_mark(m.batch_size) + CPU_BATCH <= u64::MAX + 1,
    }
}

/// Fewer than four batches of the configured size are pending when a batch is about to run.
pub open spec fn light(m: MinerView) -> bool {
    m.phase is Gpu || m.phase is Probe ==> match m.engine {
        Engine::Gpu => {
            ||| m.pending == 0
            ||| m.pending == m.batch_size
            ||| m.pending == 2 * m.batch_size
            ||| m.pending == 3 * m.batch_size
        },
        Engine::Cpu => m.pending == 0 || m.pending < flush_mark(m.batch_size),
    }
}

/// The batches of the round that a step may add to can be counted.
pub open spec fn batches_fit(phase: Phase) -> bool {
    round_in(phase) matches Some(round) ==> round.batches < u64::MAX
}

/// Within the limits on the batch size there is always room for the hashes of one more batch.
#[verifier::rlimit(40)]
pub proof fn law_limits_leave_room(m: MinerView, event: EventView, stopping: bool, seed: u64)
    requires
        valid(m),
        fits(m.phase, event),
        within_limits(m),
        light(m),
        batches_fit(m.phase),
    ensures
        has_room(m),
        light(transition(m, event, stopping, seed).miner),
        within_limits(transition(m, event, stopping, seed).miner),
{
}

/// How many more steps a machine takes at most once the program is about to stop.
pub open spec fn steps_left(phase: Phase) -> nat {
    match phase {
        Phase::Stopped => 0,
        Phase::Genesis | Phase::Gpu(_) | Phase::Yield(_) | Phase::Found { .. } | Phase::Idle
        | Phase::Pause => 1,
        Phase::Probe(_) | Phase::Receipt { .. } | Phase::Difficulty { .. } => 2,
        Phase::Challenge { .. } | Phase::Submit { .. } => 3,
        Phase::Block => 4,
    }
}

/// Once the program is about to stop, no nonce is submitted any more, and every step brings
/// the machine closer to its end: it ends after four steps at most.
pub proof fn law_stopping_ends_soon(m: MinerView, event: EventView, seed: u64)
    requires
        fits(m.phase, event),
    ensures
        transition(m, event, true, seed).request !is Submit,
        steps_left(transition(m, event, true, seed).miner.phase) < steps_left(m.phase),
        steps_left(m.phase) <= 4,
{
}

/// The machine ends exactly when it asks to, and then every hash has been counted.
pub proof fn law_end_leaves_nothing(m: MinerView, event: EventView, stopping: bool, seed: u64)
    requires
        valid(m),
        fits(m.phase, event),
    ensures
        ({
            let step = transition(m, event, stopping, seed);
            &&& step.request is Stop <==> step.miner.phase is Stopped
            &&& step.request is Stop ==> step.miner.pending == 0
        }),
{
}

/// While the program runs on, the machine ends only because the genesis is not complete.
pub proof fn law_only_genesis_ends_mining(m: MinerView, event: EventView, seed: u64)
    requires
        fits(m.phase, event),
    ensures
        transition(m, event, false, seed).request is Stop <==> event == EventView::Genesis(
            Ok(false),
        ),
{
}

/// The round that a phase is in.
pub open spec fn round_in(phase: Phase) -> Option<Round> {
    match phase {
        Phase::Probe(round) | Phase::Gpu(round) | Phase::Yield(round) => Some(round),
        _ => None,
    }
}

/// Within a round the challenge, the difficulty and the epoch stay as they are, and the
/// nonces are tried window by window: a round goes on exactly one batch further when a batch
/// has run, and else where it stood.
pub proof fn law_round_moves_by_batches(
    m: MinerView,
    event: EventView,
    stopping: bool,
    seed: u64,
)
    requires
        valid(m),
        fits(m.phase, event),
        round_in(m.phase) is Some,
        round_in(transition(m, event, stopping, seed).miner.phase) is Some,
    ensures
        ({
            let before = round_in(m.phase)->0;
            let after = round_in(transition(m, event, stopping, seed).miner.phase)->0;
            after == if batch_ran(m, event, stopping) {
                advanced(m, before)
            } else {
                before
            }
        }),
{
}

/// The nonce at which the batch of a step on the CPU starts.
pub open spec fn cpu_start(phase: Phase, seed: u64) -> u64 {
    match round_in(phase) {
        Some(round) => round.cursor,
        None => seed,
    }
}

/// A batch on the CPU passes over no nonce that answers the challenge: the first one in its
/// window is found, and the round goes on exactly when there is none. What is found is
/// submitted unless the program stops, which is looked at after the batch.
pub proof fn law_cpu_takes_first_solution(m: MinerView, event: EventView, stopping: bool, seed: u64)
    requires
        valid(m),
        fits(m.phase, event),
        m.engine == Engine::Cpu,
        batch_ran(m, event, stopping),
    ensures
        work_of(m, event) is Some,
        ({
            let work = work_of(m, event)->0;
            let step = transition(m, event, stopping, seed);
            match first_solution(
                work.challenge,
                work.difficulty,
                cpu_start(m.phase, seed),
                CPU_BATCH as nat,
            ) {
                Some(nonce) => {
                    &&& step.request is Check
                    &&& step.miner.phase matches Phase::Found { nonce: found, .. } && found
                        == nonce
                    &&& work_of(step.miner, EventView::Checked) == work_of(m, event)
                    &&& transition(step.miner, EventView::Checked, false, seed).request == (
                    Request::Submit {
                        nonce,
                        priority_wei: m.priority_wei,
                        max_fee_wei: m.max_fee_wei,
                    })
                    &&& transition(step.miner, EventView::Checked, true, seed).request is Stop
                },
                None => step.request is Yield && step.miner.phase is Yield,
            }
        }),
{
}

/// The nonces that so many batches on the CPU try.
pub open spec fn covered(batches: u64) -> nat {
    (batches * 4096) as nat
}

/// A round on the CPU that started at `origin` stands right behind the nonces that its batches
/// have tried, and none of those answers the challenge.
pub open spec fn searched(round: Round, origin: u64) -> bool {
    &&& round.cursor == nonce_at(origin, covered(round.batches))
    &&& first_solution(
        round.challenge@,
        round.difficulty@,
        origin,
        covered(round.batches),
    ) is None
}

/// What is known of the nonces from `origin` on: those that the batches of a round have tried
/// are searched, and a nonce that was found is the first that answers the challenge.
pub open spec fn known_from(phase: Phase, origin: u64) -> bool {
    match phase {
        Phase::Probe(round) | Phase::Gpu(round) | Phase::Yield(round) => searched(round, origin),
        Phase::Found { round, nonce } => first_solution(
            round.challenge@,
            round.difficulty@,
            origin,
            covered(round.batches) + 4096,
        ) == Some(nonce),
        _ => true,
    }
}

/// A round on the CPU misses nothing: in all of its steps the nonces from its start to where
/// it stands have been tried without success, so the nonce that it submits is the first,
/// counted from its start, that answers the challenge.
#[verifier::rlimit(40)]
pub proof fn law_cpu_round_misses_nothing(
    m: MinerView,
    event: EventView,
    stopping: bool,
    seed: u64,
    origin: u64,
)
    requires
        valid(m),
        fits(m.phase, event),
        has_room(m),
        m.engine == Engine::Cpu,
        known_from(m.phase, origin),
        m.phase is Difficulty ==> origin == seed,
    ensures
        ({
            let step = transition(m, event, stopping, seed);
            &&& known_from(step.miner.phase, origin)
            &&& step.request matches Request::Submit { nonce, .. } ==> {
                &&& work_of(m, event) is Some
                &&& exists|n: nat|
                    #[trigger] first_solution(
                        work_of(m, event)->0.challenge,
                        work_of(m, event)->0.difficulty,
                        origin,
                        n,
                    ) == Some(nonce)
            }
        }),
{
    if batch_ran(m, event, stopping) {
        lemma_cpu_batch(m, event, stopping, seed);
        let round = batch_round(m, event, seed);
        let tried_before = covered(round.batches);
        assert(round.cursor == nonce_at(origin, tried_before));
        law_search_windows_chain(
            round.challenge@,
            round.difficulty@,
            origin,
            tried_before,
            CPU_BATCH as nat,
        );
        lemma_nonce_at(origin, tried_before, CPU_BATCH as nat);
        assert(round.batches < u64::MAX);
        assert(tried_before + CPU_BATCH == covered((round.batches + 1) as u64));
    } else {
        lemma_no_cpu_batch(m, event, stopping, seed);
        if let Phase::Found { round, nonce } = m.phase {
            let work = work_of(m, event)->0;
            assert(work.challenge == round.challenge@ && work.difficulty == round.difficulty@);
            assert(first_solution(
                work.challenge,
                work.difficulty,
                origin,
                covered(round.batches) + 4096,
            ) == Some(nonce));
        }
    }
}

/// A round ends when the chain has moved to another epoch: no further batch of it runs, and
/// unless the program stops the next round begins.
pub proof fn law_new_epoch_ends_round(
    m: MinerView,
    round: Round,
    number: u64,
    stopping: bool,
    seed: u64,
)
    requires
        m.phase == Phase::Probe(round),
        number / EPOCH_BLOCKS != round.epoch,
    ensures
        ({
            let step = transition(m, EventView::Probe(Some(number)), stopping, seed);
            if stopping {
                step.request is Stop
            } else {
                step.request is BlockNumber
            }
        }),
{
}

/// The epoch is looked at only after a multiple of thirty-two batches of a round, and after
/// such a multiple no batch runs, on either engine, before it has been looked at.
#[verifier::rlimit(40)]
pub proof fn law_epoch_is_probed_regularly(
    m: MinerView,
    event: EventView,
    stopping: bool,
    seed: u64,
)
    requires
        valid(m),
        fits(m.phase, event),
    ensures
        ({
            let step = transition(m, event, stopping, seed);
            &&& step.request is Probe <==> step.miner.phase is Probe
            &&& step.miner.phase matches Phase::Probe(round) ==> probe_due(round)
            &&& (m.phase !is Probe) ==> (step.miner.phase matches Phase::Gpu(round)
                ==> !probe_due(round))
            &&& m.phase matches Phase::Yield(round) ==> (tried(m, event, stopping) > 0
                ==> !probe_due(round))
        }),
{
}

/// How often a list of effects counts a solution.
pub open spec fn solved_in(effects: Seq<EffectView>) -> nat
    decreases effects.len(),
{
    if effects.len() == 0 {
        0
    } else {
        solved_in(effects.drop_last()) + (if effects.last() is Solved {
            1nat
        } else {
            0
        })
    }
}

/// The requests to the bot interface in a list of effects, in order.
pub open spec fn notices_in(effects: Seq<EffectView>) -> Seq<ApiRequestView>
    decreases effects.len(),
{
    if effects.len() == 0 {
        Seq::empty()
    } else {
        match effects.last() {
            EffectView::Notify(request) => notices_in(effects.drop_last()).push(request),
            _ => notices_in(effects.drop_last()),
        }
    }
}

/// A transaction that succeeded.
pub open spec fn succeeded(event: EventView) -> bool {
    event matches EventView::Receipt(Ok(receipt)) && receipt.status
}

/// What the chat is to be told about an event, where it is to be told anything. A solution is
/// told with the nonce that was submitted and the transaction that was sent.
pub open spec fn news(m: MinerView, event: EventView) -> Option<Seq<char>> {
    match event {
        EventView::Genesis(Ok(false)) => Some(
            error_text(m.label, "Genesis not complete — mining closed"@),
        ),
        EventView::Sent(Err(e)) => Some(error_text(m.label, "TX send: "@ + e)),
        EventView::Receipt(Ok(receipt)) => if receipt.status {
            Some(
                solution_text(
                    m.label,
                    decimal(m.phase->Receipt_nonce as nat),
                    m.tx_hash,
                    block_of(receipt),
                ),
            )
        } else {
            Some(error_text(m.label, "Transaction reverted"@))
        },
        EventView::Receipt(Err(e)) => Some(error_text(m.label, "Receipt: "@ + e)),
        _ => None,
    }
}

/// The notices that are due about an event.
pub open spec fn due(m: MinerView, event: EventView) -> Seq<ApiRequestView> {
    match news(m, event) {
        Some(text) => seq![push_request(m.token, m.chat_id, text)],
        None => Seq::empty(),
    }
}

/// A solution is counted exactly once when the receipt of its transaction says that it
/// succeeded, and else never; and the chat is told exactly the news, once.
#[verifier::spinoff_prover]
#[verifier::rlimit(40)]
pub proof fn law_solution_is_a_success(m: MinerView, event: EventView, stopping: bool, seed: u64)
    requires
        fits(m.phase, event),
    ensures
        ({
            let effects = transition(m, event, stopping, seed).effects;
            &&& solved_in(effects) == (if succeeded(event) {
                1nat
            } else {
                0
            })
            &&& notices_in(effects) == due(m, event)
        }),
{
    let effects = transition(m, event, stopping, seed).effects;
    match event {
        EventView::Genesis(_) | EventView::Sent(_) | EventView::Receipt(_) => {
            lemma_short_news(effects);
        },
        _ => {
            assert forall|i: int| 0 <= i < effects.len() implies !(effects[i] is Solved) && !(
            effects[i] is Notify) by {
                lemma_no_news(m, event, stopping, seed, i);
            }
            lemma_silent(effects);
        },
    }
}

/// Every notice goes to the configured chat, through the bot's own token.
pub proof fn law_notices_go_to_chat(
    m: MinerView,
    event: EventView,
    stopping: bool,
    seed: u64,
    i: int,
)
    requires
        fits(m.phase, event),
        0 <= i < notices_in(transition(m, event, stopping, seed).effects).len(),
    ensures
        exists|text: Seq<char>|
            notices_in(transition(m, event, stopping, seed).effects)[i] == #[trigger] push_request(
                m.token,
                m.chat_id,
                text,
            ),
{
    law_solution_is_a_success(m, event, stopping, seed);
}

/// The news in a list of at most three effects.
proof fn lemma_short_news(effects: Seq<EffectView>)
    requires
        1 <= effects.len() <= 3,
    ensures
        effects.len() == 1 ==> solved_in(effects) == solved_by_one(effects[0]) && notices_in(effects)
            == notices_of(effects[0]),
        effects.len() == 2 ==> solved_in(effects) == solved_by_one(effects[0]) + solved_by_one(
            effects[1],
        ) && notices_in(effects) == notices_of(effects[0]) + notices_of(effects[1]),
        effects.len() == 3 ==> solved_in(effects) == solved_by_one(effects[0]) + solved_by_one(
            effects[1],
        ) + solved_by_one(effects[2]) && notices_in(effects) == notices_of(effects[0])
            + notices_of(effects[1]) + notices_of(effects[2]),
    decreases effects.len(),
{
    let init = effects.drop_last();
    if init.len() > 0 {
        lemma_short_news(init);
    } else {
        assert(solved_in(init) == 0);
        assert(notices_in(init) =~= Seq::empty());
    }
    assert(notices_in(effects) =~= notices_in(init) + notices_of(effects.last()));
    assert(Seq::<ApiRequestView>::empty() + notices_of(effects.last()) =~= notices_of(
        effects.last(),
    ));
}

/// How often one effect counts a solution.
spec fn solved_by_one(effect: EffectView) -> nat {
    if effect is Solved {
        1
    } else {
        0
    }
}

/// The requests to the bot interface in one effect.
spec fn notices_of(effect: EffectView) -> Seq<ApiRequestView> {
    match effect {
        EffectView::Notify(request) => seq![request],
        _ => Seq::empty(),
    }
}

/// Effects without news hold none.
proof fn lemma_silent(effects: Seq<EffectView>)
    requires
        forall|i: int|
            0 <= i < effects.len() ==> !(#[trigger] effects[i] is Solved) && !(effects[i] is Notify),
    ensures
        solved_in(effects) == 0,
        notices_in(effects) == Seq::<ApiRequestView>::empty(),
    decreases effects.len(),
{
    if effects.len() > 0 {
        let init = effects.drop_last();
        assert forall|i: int| 0 <= i < init.len() implies !(#[trigger] init[i] is Solved) && !(
        init[i] is Notify) by {
            assert(init[i] == effects[i]);
        }
        lemma_silent(init);
    }
}

/// Only the answer on the genesis and the fate of a transaction bring news.
#[verifier::spinoff_prover]
#[verifier::rlimit(40)]
proof fn lemma_no_news(m: MinerView, event: EventView, stopping: bool, seed: u64, i: int)
    requires
        fits(m.phase, event),
        event !is Genesis,
        event !is Sent,
        event !is Receipt,
        0 <= i < transition(m, event, stopping, seed).effects.len(),
    ensures
        transition(m, event, stopping, seed).effects[i] !is Notify,
        transition(m, event, stopping, seed).effects[i] !is Solved,
{
}

/// How many transactions are under way: one that is being sent or waits for its receipt.
pub open spec fn under_way(m: MinerView) -> nat {
    if m.phase is Submit || m.phase is Receipt {
        1
    } else {
        0
    }
}

/// The transactions that a run asks to have submitted.
pub open spec fn submitted_by(m: MinerView, inputs: Seq<Input>) -> nat
    decreases inputs.len(),
{
    if inputs.len() == 0 {
        0
    } else {
        let first = inputs[0];
        let step = transition(m, first.event, first.stopping, first.seed);
        (if step.request is Submit {
            1nat
        } else {
            0
        }) + submitted_by(step.miner, inputs.skip(1))
    }
}

/// How often a run counts a solution.
pub open spec fn solved_by(m: MinerView, inputs: Seq<Input>) -> nat
    decreases inputs.len(),
{
    if inputs.len() == 0 {
        0
    } else {
        let first = inputs[0];
        let step = transition(m, first.event, first.stopping, first.seed);
        solved_in(step.effects) + solved_by(step.miner, inputs.skip(1))
    }
}

/// The requests to the bot interface that a run makes, in order.
pub open spec fn notices_by(m: MinerView, inputs: Seq<Input>) -> Seq<ApiRequestView>
    decreases inputs.len(),
{
    if inputs.len() == 0 {
        Seq::empty()
    } else {
        let first = inputs[0];
        let step = transition(m, first.event, first.stopping, first.seed);
        notices_in(step.effects) + notices_by(step.miner, inputs.skip(1))
    }
}

/// The notices that are due over a run, in order.
pub open spec fn due_by(m: MinerView, inputs: Seq<Input>) -> Seq<ApiRequestView>
    decreases inputs.len(),
{
    if inputs.len() == 0 {
        Seq::empty()
    } else {
        due(m, inputs[0].event) + due_by(after(m, inputs[0]), inputs.skip(1))
    }
}

/// The transactions of a run that succeeded.
pub open spec fn successes(inputs: Seq<Input>) -> nat
    decreases inputs.len(),
{
    if inputs.len() == 0 {
        0
    } else {
        (if succeeded(inputs[0].event) {
            1nat
        } else {
            0
        }) + successes(inputs.skip(1))
    }
}

/// The transactions of a run that were not sent, failed or were lost.
pub open spec fn losses(inputs: Seq<Input>) -> nat
    decreases inputs.len(),
{
    if inputs.len() == 0 {
        0
    } else {
        (if lost_transaction(inputs[0].event) {
            1nat
        } else {
            0
        }) + losses(inputs.skip(1))
    }
}

/// Over a whole run every transaction is accounted for: each one that was submitted has
/// succeeded, is lost or is still under way; the solutions counted are those that succeeded;
/// and the chat is told of each exactly once, in order, and of nothing else but a genesis
/// that is not complete.
pub proof fn law_run_accounts_for_transactions(m: MinerView, inputs: Seq<Input>)
    requires
        can_run(m, inputs),
    ensures
        under_way(m) + submitted_by(m, inputs) == successes(inputs) + losses(inputs) + under_way(
            end_of(m, inputs),
        ),
        solved_by(m, inputs) == successes(inputs),
        notices_by(m, inputs) == due_by(m, inputs),
    decreases inputs.len(),
{
    if inputs.len() > 0 {
        let first = inputs[0];
        law_solution_is_a_success(m, first.event, first.stopping, first.seed);
        lemma_one_at_a_time(m, first);
        law_run_accounts_for_transactions(after(m, first), inputs.skip(1));
    }
}

/// A step settles at most the one transaction that is under way.
proof fn lemma_one_at_a_time(m: MinerView, input: Input)
    requires
        fits(m.phase, input.event),
    ensures
        ({
            let step = transition(m, input.event, input.stopping, input.seed);
            under_way(m) + (if step.request is Submit {
                1nat
            } else {
                0
            }) == (if succeeded(input.event) {
                1nat
            } else {
                0
            }) + (if lost_transaction(input.event) {
                1nat
            } else {
                0
            }) + under_way(step.miner)
        }),
{
}

/// No step changes who mines, with what, or what it pays.
pub proof fn law_account_stays_the_same(m: MinerView, event: EventView, stopping: bool, seed: u64)
    ensures
        transition(m, event, stopping, seed).miner == (MinerView {
            pending: transition(m, event, stopping, seed).miner.pending,
            tx_hash: transition(m, event, stopping, seed).miner.tx_hash,
            phase: transition(m, event, stopping, seed).miner.phase,
            ..m
        }),
{
}

/// A transaction that was not sent, failed or was lost.
pub open spec fn lost_transaction(event: EventView) -> bool {
    match event {
        EventView::Sent(sent) => sent is Err,
        EventView::Receipt(Ok(receipt)) => !receipt.status,
        EventView::Receipt(Err(_)) => true,
        _ => false,
    }
}

/// A failed call to the chain never ends mining: the machine pauses five seconds and begins
/// the round anew, and a transaction that was not sent, failed or was lost is reported, on
/// the console and to the chat, before the next round begins.
pub proof fn law_failures_do_not_end_mining(m: MinerView, event: EventView, seed: u64)
    requires
        fits(m.phase, event),
    ensures
        ({
            let request = transition(m, event, false, seed).request;
            let effects = transition(m, event, false, seed).effects;
            let next = transition(m, event, false, seed).miner;
            &&& (event matches EventView::Block(Err(_))) ==> request == (Request::Pause { secs: 5 })
            &&& (event matches EventView::Challenge(Err(_))) ==> request == (Request::Pause {
                secs: 5,
            })
            &&& (event matches EventView::Difficulty(Err(_))) ==> request == (Request::Pause {
                secs: 5,
            })
            &&& event is Resumed ==> request is BlockNumber
            &&& (event matches EventView::Sent(Err(_))) || event is Receipt ==> {
                &&& request is Check
                &&& transition(next, EventView::Checked, false, seed).request is BlockNumber
            }
            &&& lost_transaction(event) ==> {
                &&& effects.len() == 2
                &&& effects[0] is Warn
                &&& effects[1] is Notify
            }
        }),
{
}

/// What a request is answered by.
pub open spec fn answers(request: Request, event: EventView) -> bool {
    match request {
        Request::Genesis => event is Genesis,
        Request::BlockNumber => event is Block,
        Request::Challenge => event is Challenge,
        Request::Difficulty => event is Difficulty,
        Request::Probe => event is Probe,
        Request::GpuBatch { .. } => event is Gpu,
        Request::Yield => event is Yielded,
        Request::Check => event is Checked,
        Request::Submit { .. } => event is Sent,
        Request::Receipt => event is Receipt,
        Request::Pause { .. } => event is Resumed,
        Request::Stop => false,
    }
}

/// The machine never gets stuck: whatever answers the request of a step is what the machine
/// is waiting for after it.
pub proof fn law_answers_fit(
    m: MinerView,
    event: EventView,
    stopping: bool,
    seed: u64,
    answer: EventView,
)
    requires
        valid(m),
        fits(m.phase, event),
    ensures
        ({
            let step = transition(m, event, stopping, seed);
            answers(step.request, answer) <==> fits(step.miner.phase, answer)
        }),
{
}

/// A call to the chain that keeps failing is made three times, with waits of one and two
/// seconds in between, when it opens a round or looks at the genesis, and once, without any
/// wait, when it looks at the block number in the middle of a round; the last error decides.
/// A call that succeeds is not made again.
pub proof fn law_chain_calls_are_retried<T>(
    request: Request,
    outcomes: Seq<Result<T, Seq<char>>>,
    end: nat,
)
    requires
        end < attempts_for(request) == outcomes.len(),
        outcomes[end as int] is Ok || end + 1 == attempts_for(request),
        forall|i: int| 0 <= i < end ==> (#[trigger] outcomes[i]) is Err,
    ensures
        ({
            let t = trials(attempts_for(request) as nat, outcomes);
            &&& t.result == outcomes[end as int]
            &&& t.calls == end + 1
            &&& t.waits == seq![1nat, 2nat].take(end as int)
        }),
        request is Genesis || request is BlockNumber || request is Challenge
            || request is Difficulty ==> attempts_for(request) == 3,
        request is Probe ==> attempts_for(request) == 1,
{
    let retries = attempts_for(request) as nat;
    if outcomes[end as int] is Ok {
        law_retry_returns_first_success(retries, outcomes, end);
    } else {
        assert forall|i: int| 0 <= i < retries implies (#[trigger] outcomes[i]) is Err by {
            if i < end {
                assert(outcomes[i] is Err);
            }
        }
        law_retry_returns_last_error(retries, outcomes);
    }
    law_waits_double(0);
    assert(first_waits(end) =~= seq![1nat, 2nat].take(end as int));
}

} // verus!
