//! What each step of the mining loop does, event by event, in plain values.
use vstd::prelude::*;

use crate::miner::{has_room, valid};
use crate::pow::{first_solution, solves};
use crate::rules::{
    close_round, cpu_batch_done, fits, gpu_batch_done, transition, EffectView, Engine, EventView,
    GpuOutcomeView, MinerView, Phase, Receipt, Request, Round,
};
use crate::telegram::{error_text, push_request, solution_text};
use crate::text::decimal;

verus! {

/// The answer on the genesis: a complete genesis, or none that could be had, opens the first
/// round unless the program stops; an incomplete one ends the machine and is told to the chat.
pub proof fn law_genesis_step(
    m: MinerView,
    answer: Result<bool, Seq<char>>,
    stopping: bool,
    seed: u64,
)
    requires
        m.phase is Genesis,
    ensures
        ({
            let step = transition(m, EventView::Genesis(answer), stopping, seed);
            let ready = EffectView::Print(
                "✅ "@ + "["@ + m.label + "] "@ + "Ready | "@ + m.address,
            );
            match answer {
                Ok(true) => step.effects == seq![ready],
                Ok(false) => step.effects == seq![
                    EffectView::Warn(
                        "❌ "@ + "["@ + m.label + "] "@ + "Genesis not complete"@ + ""@,
                    ),
                    EffectView::Notify(
                        push_request(
                            m.token,
                            m.chat_id,
                            error_text(m.label, "Genesis not complete — mining closed"@),
                        ),
                    ),
                ],
                Err(e) => step.effects == seq![
                    EffectView::Warn(
                        "⚠️ "@ + "["@ + m.label + "] "@ + "genesisComplete: "@ + e,
                    ),
                    ready,
                ],
            }
        }),
        ({
            let step = transition(m, EventView::Genesis(answer), stopping, seed);
            if stopping || answer == Ok::<bool, Seq<char>>(false) {
                &&& step.request == Request::Stop
                &&& step.miner == (MinerView { phase: Phase::Stopped, ..m })
            } else {
                &&& step.request == Request::BlockNumber
                &&& step.miner == (MinerView { phase: Phase::Block, ..m })
            }
        }),
{
}

/// A round opens with the block number, which gives the epoch of a hundred blocks, then the
/// challenge, then the difficulty; whichever cannot be had is reported, and the machine pauses
/// five seconds.
pub proof fn law_opening_steps(
    m: MinerView,
    number: u64,
    epoch: u64,
    challenge: [u8; 32],
    e: Seq<char>,
    stopping: bool,
    seed: u64,
)
    ensures
        m.phase is Block ==> {
            let step = transition(m, EventView::Block(Ok(number)), stopping, seed);
            let failed = transition(m, EventView::Block(Err(e)), stopping, seed);
            &&& step.request == Request::Challenge
            &&& step.effects.len() == 0
            &&& step.miner.phase matches Phase::Challenge { epoch: of } && of * 100 <= number
                && number < of * 100 + 100
            &&& step.miner == (MinerView { phase: step.miner.phase, ..m })
            &&& failed.request == (Request::Pause { secs: 5 })
            &&& failed.effects == seq![
                EffectView::Warn("❌ "@ + "["@ + m.label + "] "@ + "block_number: "@ + e),
            ]
            &&& failed.miner == (MinerView { phase: Phase::Pause, ..m })
        },
        m.phase == (Phase::Challenge { epoch }) ==> {
            let step = transition(m, EventView::Challenge(Ok(challenge)), stopping, seed);
            let failed = transition(m, EventView::Challenge(Err(e)), stopping, seed);
            &&& step.request == Request::Difficulty
            &&& step.effects.len() == 0
            &&& step.miner == (MinerView { phase: Phase::Difficulty { epoch, challenge }, ..m })
            &&& failed.request == (Request::Pause { secs: 5 })
            &&& failed.effects == seq![
                EffectView::Warn("❌ "@ + "["@ + m.label + "] "@ + "getChallenge: "@ + e),
            ]
            &&& failed.miner == (MinerView { phase: Phase::Pause, ..m })
        },
        m.phase == (Phase::Difficulty { epoch, challenge }) ==> {
            let failed = transition(m, EventView::Difficulty(Err(e)), stopping, seed);
            &&& failed.request == (Request::Pause { secs: 5 })
            &&& failed.effects == seq![
                EffectView::Warn("❌ "@ + "["@ + m.label + "] "@ + "difficulty: "@ + e),
            ]
            &&& failed.miner == (MinerView { phase: Phase::Pause, ..m })
        },
{
}

/// After a pause, and after the report on a transaction, the next round opens unless the
/// program stops.
pub proof fn law_next_round_step(m: MinerView, event: EventView, stopping: bool, seed: u64)
    requires
        (m.phase is Pause && event is Resumed) || (m.phase is Idle && event is Checked),
    ensures
        ({
            let step = transition(m, event, stopping, seed);
            &&& step.effects.len() == 0
            &&& if stopping {
                &&& step.request == Request::Stop
                &&& step.miner == (MinerView { phase: Phase::Stopped, ..m })
            } else {
                &&& step.request == Request::BlockNumber
                &&& step.miner == (MinerView { phase: Phase::Block, ..m })
            }
        }),
{
}

/// Once the difficulty is known the first batch starts at the seed, on the challenge and the
/// difficulty that the chain gave: the GPU is asked for it, the CPU tries its nonces.
pub proof fn law_first_batch_step(
    m: MinerView,
    epoch: u64,
    challenge: [u8; 32],
    difficulty: [u8; 32],
    stopping: bool,
    seed: u64,
)
    requires
        m.phase == (Phase::Difficulty { epoch, challenge }),
        m.pending == 0,
    ensures
        ({
            let step = transition(m, EventView::Difficulty(Ok(difficulty)), stopping, seed);
            let told = EffectView::Print(
                "⛏️  "@ + "["@ + m.label + "] "@ + "epoch="@ + decimal(epoch as nat),
            );
            let round = Round { epoch, challenge, difficulty, cursor: seed, batches: 0 };
            if stopping {
                &&& step.effects == seq![told]
                &&& step.request == Request::Stop
                &&& step.miner == (MinerView { phase: Phase::Stopped, ..m })
            } else if m.engine == Engine::Gpu {
                &&& step.effects == seq![told]
                &&& step.request == (Request::GpuBatch { challenge, difficulty, start: seed })
                &&& step.miner == (MinerView { phase: Phase::Gpu(round), ..m })
            } else {
                match first_solution(challenge@, difficulty@, seed, 4096) {
                    Some(nonce) => {
                        &&& step.effects == seq![told, EffectView::Rate(4096)]
                        &&& step.request == Request::Check
                        &&& step.miner == (MinerView { phase: Phase::Found { round, nonce }, ..m })
                    },
                    None => {
                        &&& step.effects == seq![told]
                        &&& step.request == Request::Yield
                        &&& step.miner == (MinerView {
                            pending: 4096,
                            phase: Phase::Yield(
                                Round {
                                    cursor: ((seed + 4096) % 0x1_0000_0000_0000_0000) as u64,
                                    batches: 1,
                                    ..round
                                },
                            ),
                            ..m
                        })
                    },
                }
            }
        }),
{
}

/// A round goes on with its next batch, on its own challenge and difficulty, where its cursor
/// stands: the GPU is asked for it, the CPU tries its 4096 nonces and moves the cursor behind
/// them. `told` is what is reported before, and `pending` the hashes that wait to be counted.
pub open spec fn goes_to_next_batch(
    m: MinerView,
    event: EventView,
    stopping: bool,
    seed: u64,
    told: Seq<EffectView>,
    pending: int,
    round: Round,
) -> bool {
    let step = transition(m, event, stopping, seed);
    match m.engine {
        Engine::Gpu => {
            &&& step.effects == told
            &&& step.request == (Request::GpuBatch {
                challenge: round.challenge,
                difficulty: round.difficulty,
                start: round.cursor,
            })
            &&& step.miner == (MinerView {
                pending: pending as u64,
                phase: Phase::Gpu(round),
                ..m
            })
        },
        Engine::Cpu => match first_solution(
            round.challenge@,
            round.difficulty@,
            round.cursor,
            4096,
        ) {
            Some(nonce) => {
                &&& step.effects == told.push(EffectView::Rate((pending + 4096) as u64))
                &&& step.request == Request::Check
                &&& step.miner == (MinerView {
                    pending: 0,
                    phase: Phase::Found { round, nonce },
                    ..m
                })
            },
            None => {
                &&& step.effects == told
                &&& step.request == Request::Yield
                &&& step.miner == (MinerView {
                    pending: (pending + 4096) as u64,
                    phase: Phase::Yield(
                        Round {
                            cursor: ((round.cursor + 4096) % 0x1_0000_0000_0000_0000) as u64,
                            batches: (round.batches + 1) as u64,
                            ..round
                        },
                    ),
                    ..m
                })
            },
        },
    }
}

/// The block number in the middle of a round: one of another hundred blocks ends the round, and
/// with it the challenge; one of the same hundred, or none that could be had, does not.
#[verifier::spinoff_prover]
#[verifier::rlimit(40)]
pub proof fn law_probe_step(
    m: MinerView,
    round: Round,
    number: Option<u64>,
    stopping: bool,
    seed: u64,
)
    requires
        m.phase == Phase::Probe(round),
        has_room(m),
    ensures
        ({
            let step = transition(m, EventView::Probe(number), stopping, seed);
            let moved = number matches Some(n) && (n < round.epoch * 100 || n >= round.epoch * 100
                + 100);
            if moved {
                &&& step.effects == seq![
                    EffectView::Print(
                        "🔄 "@ + "["@ + m.label + "] "@ + "epoch changed, restarting"@ + ""@,
                    ),
                ] + (if m.pending > 0 {
                    seq![EffectView::Rate(m.pending)]
                } else {
                    Seq::empty()
                })
                &&& step.request == (if stopping {
                    Request::Stop
                } else {
                    Request::BlockNumber
                })
                &&& step.miner == (MinerView {
                    pending: 0,
                    phase: if stopping {
                        Phase::Stopped
                    } else {
                        Phase::Block
                    },
                    ..m
                })
            } else {
                goes_to_next_batch(
                    m,
                    EventView::Probe(number),
                    stopping,
                    seed,
                    Seq::empty(),
                    m.pending as int,
                    round,
                )
            }
        }),
{
}

/// What follows a batch without success. Hashes are counted once four batches of the
/// configured size are pending. A program that stops counts the rest and ends. Else the block
/// number is asked for after every multiple of thirty-two batches, and no batch runs before the
/// answer; after any other number of batches the next one runs at once.
pub open spec fn goes_on_after(
    m: MinerView,
    event: EventView,
    stopping: bool,
    seed: u64,
    told: Seq<EffectView>,
    pending: int,
    round: Round,
) -> bool {
    let step = transition(m, event, stopping, seed);
    let full = pending >= 4 * m.batch_size;
    let left = if full {
        0
    } else {
        pending
    };
    let counted = if full {
        told.push(EffectView::Rate(pending as u64))
    } else {
        told
    };
    if stopping {
        &&& step.effects == (if left > 0 {
            counted.push(EffectView::Rate(left as u64))
        } else {
            counted
        })
        &&& step.request == Request::Stop
        &&& step.miner == (MinerView { pending: 0, phase: Phase::Stopped, ..m })
    } else if round.batches > 0 && round.batches % 32 == 0 {
        &&& step.effects == counted
        &&& step.request == Request::Probe
        &&& step.miner == (MinerView { pending: left as u64, phase: Phase::Probe(round), ..m })
    } else {
        goes_to_next_batch(m, event, stopping, seed, counted, left, round)
    }
}

/// After a batch on the CPU without success.
#[verifier::spinoff_prover]
#[verifier::rlimit(40)]
pub proof fn law_yield_step(m: MinerView, round: Round, stopping: bool, seed: u64)
    requires
        valid(m),
        m.phase == Phase::Yield(round),
        has_room(m),
    ensures
        goes_on_after(
            m,
            EventView::Yielded,
            stopping,
            seed,
            Seq::empty(),
            m.pending as int,
            round,
        ),
{
}

/// A nonce from the GPU that answers the challenge of the round at its difficulty is submitted,
/// that nonce and no other, with the fees that are configured, in whichever batch it is found,
/// unless the program stops.
#[verifier::spinoff_prover]
#[verifier::rlimit(40)]
pub proof fn law_gpu_solution_is_submitted(
    m: MinerView,
    round: Round,
    nonce: u64,
    stopping: bool,
    seed: u64,
)
    requires
        valid(m),
        m.phase == Phase::Gpu(round),
        has_room(m),
        solves(round.challenge@, round.difficulty@, nonce),
    ensures
        ({
            let step = transition(
                m,
                EventView::Gpu(GpuOutcomeView::Found(nonce)),
                stopping,
                seed,
            );
            let counted = if m.pending + m.batch_size > 0 {
                seq![EffectView::Rate((m.pending + m.batch_size) as u64)]
            } else {
                Seq::empty()
            };
            if stopping {
                &&& step.effects == counted
                &&& step.request == Request::Stop
                &&& step.miner == (MinerView { pending: 0, phase: Phase::Stopped, ..m })
            } else {
                &&& step.effects == counted.push(
                    EffectView::Print(
                        "🎉 "@ + "["@ + m.label + "] "@ + "Found nonce="@ + decimal(nonce as nat),
                    ),
                )
                &&& step.request == (Request::Submit {
                    nonce,
                    priority_wei: m.priority_wei,
                    max_fee_wei: m.max_fee_wei,
                })
                &&& step.miner == (MinerView { pending: 0, phase: Phase::Submit { nonce }, ..m })
            }
        }),
{
}

/// Any other outcome of the GPU moves the round one batch on: a nonce that does not answer the
/// challenge and a failure are reported, and neither ends the round.
#[verifier::spinoff_prover]
#[verifier::rlimit(60)]
pub proof fn law_gpu_round_goes_on(
    m: MinerView,
    round: Round,
    outcome: GpuOutcomeView,
    stopping: bool,
    seed: u64,
)
    requires
        valid(m),
        m.phase == Phase::Gpu(round),
        has_room(m),
        outcome matches GpuOutcomeView::Found(n) ==> !solves(
            round.challenge@,
            round.difficulty@,
            n,
        ),
    ensures
        goes_on_after(
            m,
            EventView::Gpu(outcome),
            stopping,
            seed,
            match outcome {
                GpuOutcomeView::Found(n) => seq![
                    EffectView::Warn(
                        "⚠️ "@ + "["@ + m.label + "] "@ + "GPU error: CPU check rejects nonce="@
                            + decimal(n as nat),
                    ),
                ],
                GpuOutcomeView::Empty => Seq::empty(),
                GpuOutcomeView::Failed(e) => seq![
                    EffectView::Warn("⚠️ "@ + "["@ + m.label + "] "@ + "GPU error: "@ + e),
                ],
                GpuOutcomeView::Lost(e) => seq![
                    EffectView::Warn("⚠️ "@ + "["@ + m.label + "] "@ + "spawn_blocking: "@ + e),
                ],
            },
            m.pending + m.batch_size,
            Round {
                cursor: ((round.cursor + m.batch_size) % 0x1_0000_0000_0000_0000) as u64,
                batches: (round.batches + 1) as u64,
                ..round
            },
        ),
{
}

/// A nonce that the CPU found is submitted, that nonce and no other, with the fees that are
/// configured, unless the program stops.
pub proof fn law_found_step(m: MinerView, round: Round, nonce: u64, stopping: bool, seed: u64)
    requires
        m.phase == (Phase::Found { round, nonce }),
        m.pending == 0,
    ensures
        ({
            let step = transition(m, EventView::Checked, stopping, seed);
            if stopping {
                &&& step.effects.len() == 0
                &&& step.request == Request::Stop
                &&& step.miner == (MinerView { phase: Phase::Stopped, ..m })
            } else {
                &&& step.effects == seq![
                    EffectView::Print(
                        "🎉 "@ + "["@ + m.label + "] "@ + "Found nonce="@ + decimal(nonce as nat),
                    ),
                ]
                &&& step.request == (Request::Submit {
                    nonce,
                    priority_wei: m.priority_wei,
                    max_fee_wei: m.max_fee_wei,
                })
                &&& step.miner == (MinerView { phase: Phase::Submit { nonce }, ..m })
            }
        }),
{
}

/// A transaction that was sent is remembered by its hash, whatever was sent before, together
/// with the nonce that it submits; one that was not sent is reported.
pub proof fn law_sent_step(
    m: MinerView,
    nonce: u64,
    tx_hash: Seq<char>,
    e: Seq<char>,
    stopping: bool,
    seed: u64,
)
    requires
        m.phase == (Phase::Submit { nonce }),
    ensures
        ({
            let sent = transition(m, EventView::Sent(Ok(tx_hash)), stopping, seed);
            let failed = transition(m, EventView::Sent(Err(e)), stopping, seed);
            &&& sent.effects == seq![
                EffectView::Print("📋 "@ + "["@ + m.label + "] "@ + "TX: "@ + tx_hash),
            ]
            &&& sent.request == Request::Receipt
            &&& sent.miner == (MinerView { tx_hash, phase: Phase::Receipt { nonce }, ..m })
            &&& failed.effects == seq![
                EffectView::Warn("❌ "@ + "["@ + m.label + "] "@ + "send: "@ + e),
                EffectView::Notify(
                    push_request(m.token, m.chat_id, error_text(m.label, "TX send: "@ + e)),
                ),
            ]
            &&& failed.request == Request::Check
            &&& failed.miner == (MinerView { phase: Phase::Idle, ..m })
        }),
{
}

/// The receipt decides on the transaction that was sent last: the chat is told of its own hash
/// and of the nonce that it submitted, a success counts one solution, and anything else counts
/// none and is reported as an error. The machine goes on either way.
pub proof fn law_receipt_step(
    m: MinerView,
    nonce: u64,
    tx_hash: Seq<char>,
    receipt: Receipt,
    e: Seq<char>,
    stopping: bool,
    stopping_then: bool,
    seed: u64,
)
    requires
        m.phase == (Phase::Submit { nonce }),
    ensures
        ({
            let sent = transition(m, EventView::Sent(Ok(tx_hash)), stopping, seed).miner;
            let came = transition(sent, EventView::Receipt(Ok(receipt)), stopping_then, seed);
            let lost = transition(sent, EventView::Receipt(Err(e)), stopping_then, seed);
            let block = if receipt.block is Some {
                receipt.block->0
            } else {
                0
            };
            &&& receipt.status ==> came.effects == seq![
                EffectView::Print(
                    "✅ "@ + "["@ + m.label + "] "@ + "Confirmed block "@ + decimal(block as nat),
                ),
                EffectView::Solved,
                EffectView::Notify(
                    push_request(
                        m.token,
                        m.chat_id,
                        solution_text(m.label, decimal(nonce as nat), tx_hash, block),
                    ),
                ),
            ]
            &&& !receipt.status ==> came.effects == seq![
                EffectView::Warn("❌ "@ + "["@ + m.label + "] "@ + "TX reverted"@ + ""@),
                EffectView::Notify(
                    push_request(
                        m.token,
                        m.chat_id,
                        error_text(m.label, "Transaction reverted"@),
                    ),
                ),
            ]
            &&& came.request == Request::Check
            &&& came.miner == (MinerView { phase: Phase::Idle, ..sent })
            &&& lost.effects == seq![
                EffectView::Warn("❌ "@ + "["@ + m.label + "] "@ + "receipt: "@ + e),
                EffectView::Notify(
                    push_request(m.token, m.chat_id, error_text(m.label, "Receipt: "@ + e)),
                ),
            ]
            &&& lost.request == Request::Check
            &&& lost.miner == (MinerView { phase: Phase::Idle, ..sent })
        }),
{
}

/// The receipt of a transaction is handled alike whatever the machine was like before it was
/// sent, apart from the account and the transaction itself.
pub proof fn law_receipt_depends_on_own_transaction(
    one: MinerView,
    other: MinerView,
    nonce: u64,
    answer: Result<Receipt, Seq<char>>,
    stopping: bool,
    seed: u64,
)
    requires
        one.phase == (Phase::Receipt { nonce }),
        other.phase == (Phase::Receipt { nonce }),
        one.token == other.token,
        one.chat_id == other.chat_id,
        one.label == other.label,
        one.tx_hash == other.tx_hash,
    ensures
        transition(one, EventView::Receipt(answer), stopping, seed).effects == transition(
            other,
            EventView::Receipt(answer),
            stopping,
            seed,
        ).effects,
{
}

/// The end of a round, from whatever state: what is pending is counted once, and what was found
/// is submitted unless the program stops.
pub proof fn law_round_end(
    m: MinerView,
    fx: Seq<EffectView>,
    found: Option<u64>,
    stopping: bool,
)
    ensures
        ({
            let step = close_round(m, fx, found, stopping);
            let counted = if m.pending > 0 {
                fx.push(EffectView::Rate(m.pending))
            } else {
                fx
            };
            if stopping {
                &&& step.effects == counted
                &&& step.request == Request::Stop
                &&& step.miner == (MinerView { pending: 0, phase: Phase::Stopped, ..m })
            } else if found is None {
                &&& step.effects == counted
                &&& step.request == Request::BlockNumber
                &&& step.miner == (MinerView { pending: 0, phase: Phase::Block, ..m })
            } else {
                let nonce = found->0;
                &&& step.effects == counted.push(
                    EffectView::Print(
                        "🎉 "@ + "["@ + m.label + "] "@ + "Found nonce="@ + decimal(nonce as nat),
                    ),
                )
                &&& step.request == (Request::Submit {
                    nonce,
                    priority_wei: m.priority_wei,
                    max_fee_wei: m.max_fee_wei,
                })
                &&& step.miner == (MinerView { pending: 0, phase: Phase::Submit { nonce }, ..m })
            }
        }),
{
}

/// The end of a batch on the CPU, from whatever state: its 4096 hashes are pending or counted,
/// and what was found is kept as it is.
pub proof fn law_cpu_batch_end(
    m: MinerView,
    fx: Seq<EffectView>,
    round: Round,
    found: Option<u64>,
)
    requires
        m.engine == Engine::Cpu,
        m.pending + 4096 <= u64::MAX,
        round.batches < u64::MAX,
    ensures
        ({
            let step = cpu_batch_done(m, fx, round, found);
            if let Some(nonce) = found {
                &&& step.effects == fx.push(EffectView::Rate((m.pending + 4096) as u64))
                &&& step.request == Request::Check
                &&& step.miner == (MinerView {
                    pending: 0,
                    phase: Phase::Found { round, nonce },
                    ..m
                })
            } else {
                &&& step.effects == fx
                &&& step.request == Request::Yield
                &&& step.miner == (MinerView {
                    pending: (m.pending + 4096) as u64,
                    phase: Phase::Yield(
                        Round {
                            cursor: ((round.cursor + 4096) % 0x1_0000_0000_0000_0000) as u64,
                            batches: (round.batches + 1) as u64,
                            ..round
                        },
                    ),
                    ..m
                })
            }
        }),
{
}

/// Each phase waits for its own event and for no other; a machine that has stopped waits for
/// none.
pub proof fn law_phases_and_events(phase: Phase, event: EventView)
    ensures
        fits(phase, event) <==> {
            ||| phase is Genesis && event is Genesis
            ||| phase is Block && event is Block
            ||| phase is Challenge && event is Challenge
            ||| phase is Difficulty && event is Difficulty
            ||| phase is Probe && event is Probe
            ||| phase is Gpu && event is Gpu
            ||| phase is Yield && event is Yielded
            ||| phase is Found && event is Checked
            ||| phase is Submit && event is Sent
            ||| phase is Receipt && event is Receipt
            ||| phase is Idle && event is Checked
            ||| phase is Pause && event is Resumed
        },
{
}

/// Only the numbers of 64 bits limit a machine: while no count would pass them there is room
/// for the next step.
pub proof fn law_only_numbers_limit(m: MinerView, round: Round)
    requires
        m.phase == Phase::Gpu(round) || m.phase == Phase::Probe(round) || m.phase == Phase::Yield(
            round,
        ) ==> {
            &&& round.batches < u64::MAX
            &&& 4 * m.batch_size <= u64::MAX
            &&& m.engine == Engine::Gpu ==> m.pending + m.batch_size <= u64::MAX
            &&& m.engine == Engine::Cpu ==> m.pending + 4096 <= u64::MAX
        },
        m.phase is Gpu ==> m.engine == Engine::Gpu,
        m.phase is Yield ==> m.engine == Engine::Cpu,
        m.phase is Gpu || m.phase is Probe || m.phase is Yield ==> m.phase == Phase::Gpu(round)
            || m.phase == Phase::Probe(round) || m.phase == Phase::Yield(round),
    ensures
        has_room(m),
{
}

/// Thirty-two times `k`.
pub open spec fn times_32(k: int) -> int {
    32 * k
}

/// After 32, 64, 96 and so on batches of a round, however many, a program that runs on asks for
/// the block number and runs no batch, on the CPU as on the GPU; after any other number of
/// batches it does not ask.
pub proof fn law_epoch_is_due_every_32_batches(
    m: MinerView,
    round: Round,
    outcome: GpuOutcomeView,
    seed: u64,
)
    requires
        valid(m),
        has_room(m),
        outcome matches GpuOutcomeView::Found(n) ==> !solves(
            round.challenge@,
            round.difficulty@,
            n,
        ),
    ensures
        m.phase == Phase::Yield(round) ==> {
            let step = transition(m, EventView::Yielded, false, seed);
            if exists|k: int| k > 0 && round.batches == #[trigger] times_32(k) {
                step.request == Request::Probe && step.miner.phase == Phase::Probe(round)
            } else {
                step.request !is Probe && step.miner.phase !is Probe
            }
        },
        m.phase == Phase::Gpu(round) ==> {
            let step = transition(m, EventView::Gpu(outcome), false, seed);
            if exists|k: int| k > 0 && round.batches + 1 == #[trigger] times_32(k) {
                &&& step.request == Request::Probe
                &&& step.miner.phase matches Phase::Probe(next) && next.batches == round.batches
                    + 1 && next.epoch == round.epoch && next.challenge == round.challenge
                    && next.difficulty == round.difficulty
            } else {
                step.request !is Probe && step.miner.phase !is Probe
            }
        },
{
    let on_cpu = round.batches / 32;
    let on_gpu = (round.batches + 1) / 32;
    assert(round.batches % 32 == 0 ==> round.batches == times_32(on_cpu as int));
    assert((round.batches + 1) % 32 == 0 ==> round.batches + 1 == times_32(on_gpu as int));
    if m.phase == Phase::Yield(round) {
        law_yield_step(m, round, false, seed);
    }
    if m.phase == Phase::Gpu(round) {
        law_gpu_round_goes_on(m, round, outcome, false, seed);
    }
}

/// The end of a batch on the GPU that found a nonce, from whatever state and after whatever
/// reports: the hashes are counted, and that nonce is submitted unless the program stops.
pub proof fn law_gpu_batch_end(
    m: MinerView,
    fx: Seq<EffectView>,
    round: Round,
    nonce: u64,
    stopping: bool,
)
    requires
        m.engine == Engine::Gpu,
        m.pending + m.batch_size <= u64::MAX,
    ensures
        ({
            let step = gpu_batch_done(m, fx, round, Some(nonce), stopping);
            let counted = if m.pending + m.batch_size > 0 {
                fx.push(EffectView::Rate((m.pending + m.batch_size) as u64))
            } else {
                fx
            };
            if stopping {
                &&& step.effects == counted
                &&& step.request == Request::Stop
                &&& step.miner == (MinerView { pending: 0, phase: Phase::Stopped, ..m })
            } else {
                &&& step.effects == counted.push(
                    EffectView::Print(
                        "🎉 "@ + "["@ + m.label + "] "@ + "Found nonce="@ + decimal(nonce as nat),
                    ),
                )
                &&& step.request == (Request::Submit {
                    nonce,
                    priority_wei: m.priority_wei,
                    max_fee_wei: m.max_fee_wei,
                })
                &&& step.miner == (MinerView { pending: 0, phase: Phase::Submit { nonce }, ..m })
            }
        }),
{
}

} // verus!
