//! The rules of the mining loop of one account: for each state of the machine and each thing
//! that can happen outside, the next state, what to report and what to do next.
//!
//! A round fetches the epoch, the challenge and the difficulty, starts at a random nonce and
//! tries batch after batch until a nonce answers the challenge, the epoch changes or the
//! program stops. A nonce that was found is submitted, and the next round begins.
use vstd::prelude::*;

use crate::pow::{first_solution, nonce_at, solves};
use crate::telegram::{error_text, push_request, solution_text, ApiRequest, ApiRequestView};
use crate::text::decimal;

verus! {

/// The number of blocks in an epoch.
pub const EPOCH_BLOCKS: u64 = 100;

/// The number of nonces that the CPU tries at a time.
pub const CPU_BATCH: u64 = 4096;

/// The epoch is looked at again after so many batches.
pub const PROBE_BATCHES: u64 = 32;

/// The pause after a call to the chain that failed for good, in seconds.
pub const PAUSE_SECS: u64 = 5;

/// How often a call to the chain that opens a round is tried.
pub const RPC_RETRIES: u32 = 3;

/// What tries the nonces.
#[derive(Clone, Copy, Debug, PartialEq, Eq, Structural)]
pub enum Engine {
    Gpu,
    Cpu,
}

/// A round in progress: what it answers, the nonce that comes next and the batches so far.
#[derive(Clone, Copy, Debug)]
pub struct Round {
    pub epoch: u64,
    pub challenge: [u8; 32],
    pub difficulty: [u8; 32],
    pub cursor: u64,
    pub batches: u64,
}

/// What the machine is waiting for.
#[derive(Clone, Copy, Debug)]
pub enum Phase {
    /// Whether the genesis is complete.
    Genesis,
    /// The block number, at the start of a round.
    Block,
    /// The challenge.
    Challenge { epoch: u64 },
    /// The difficulty.
    Difficulty { epoch: u64, challenge: [u8; 32] },
    /// The block number, in the middle of a round.
    Probe(Round),
    /// The outcome of a batch on the GPU.
    Gpu(Round),
    /// Its turn, after a batch on the CPU.
    Yield(Round),
    /// A look at whether the program stops, after the batch of `round` on the CPU that found
    /// `nonce`.
    Found { round: Round, nonce: u64 },
    /// The hash of the transaction that submits a nonce.
    Submit { nonce: u64 },
    /// The receipt of that transaction.
    Receipt { nonce: u64 },
    /// A look at whether the program stops, once a transaction has been reported on.
    Idle,
    /// The end of a pause.
    Pause,
    /// Nothing any more.
    Stopped,
}

/// How a batch on the GPU ended.
#[derive(Debug)]
pub enum GpuOutcome {
    /// The GPU reports this nonce.
    Found(u64),
    /// No nonce of the batch answers the challenge.
    Empty,
    /// The GPU failed.
    Failed(String),
    /// The task that ran the GPU failed.
    Lost(String),
}

/// What a receipt says: whether the transaction succeeded, and in which block.
#[derive(Clone, Copy, Debug)]
pub struct Receipt {
    pub status: bool,
    pub block: Option<u64>,
}

/// What happened outside.
#[derive(Debug)]
pub enum Event {
    Genesis(Result<bool, String>),
    Block(Result<u64, String>),
    Challenge(Result<[u8; 32], String>),
    Difficulty(Result<[u8; 32], String>),
    /// The block number, where it could be had.
    Probe(Option<u64>),
    Gpu(GpuOutcome),
    Yielded,
    Checked,
    /// The hash of the transaction.
    Sent(Result<String, String>),
    Receipt(Result<Receipt, String>),
    Resumed,
}

/// What to do next outside; each is answered by the event of the same name.
#[derive(Clone, Copy, Debug)]
pub enum Request {
    /// Ask whether the genesis is complete, with retries.
    Genesis,
    /// Ask for the block number, with retries.
    BlockNumber,
    /// Ask for the account's challenge, with retries.
    Challenge,
    /// Ask for the difficulty, with retries.
    Difficulty,
    /// Ask for the block number once.
    Probe,
    /// Run a batch on the GPU.
    GpuBatch { challenge: [u8; 32], difficulty: [u8; 32], start: u64 },
    /// Let other tasks run.
    Yield,
    /// Look, after all that was to be reported, whether the program is about to stop.
    Check,
    /// Submit the nonce.
    Submit { nonce: u64, priority_wei: u128, max_fee_wei: u128 },
    /// Wait for one confirmation of the transaction.
    Receipt,
    /// Pause for so many seconds.
    Pause { secs: u64 },
    /// End the loop.
    Stop,
}

/// How often what a request asks for is tried at most: the calls to the chain that open a round
/// or look at the genesis are tried again, everything else is done once.
pub open spec fn attempts_for(request: Request) -> u32 {
    match request {
        Request::Genesis
        | Request::BlockNumber
        | Request::Challenge
        | Request::Difficulty => RPC_RETRIES,
        _ => 1,
    }
}

impl Request {
    /// How often what the request asks for is tried at most.
    pub fn attempts(&self) -> (r: u32)
        ensures
            r == attempts_for(*self),
    {
        match self {
            Request::Genesis
            | Request::BlockNumber
            | Request::Challenge
            | Request::Difficulty => RPC_RETRIES,
            _ => 1,
        }
    }
}

/// What to report.
#[derive(Debug)]
pub enum Effect {
    /// A line for the standard output.
    Print(String),
    /// A line for the standard error.
    Warn(String),
    /// A request to the bot interface.
    Notify(ApiRequest),
    /// So many hashes for the account's counters.
    Rate(u64),
    /// A confirmed solution for the account's counters.
    Solved,
}

/// What an [`Effect`] stands for.
pub enum EffectView {
    Print(Seq<char>),
    Warn(Seq<char>),
    Notify(ApiRequestView),
    Rate(u64),
    Solved,
}

impl View for Effect {
    type V = EffectView;

    open spec fn view(&self) -> EffectView {
        match self {
            Effect::Print(s) => EffectView::Print(s@),
            Effect::Warn(s) => EffectView::Warn(s@),
            Effect::Notify(request) => EffectView::Notify(request@),
            Effect::Rate(n) => EffectView::Rate(*n),
            Effect::Solved => EffectView::Solved,
        }
    }
}

/// What a list of effects stands for.
pub open spec fn effects_view(effects: Seq<Effect>) -> Seq<EffectView> {
    effects.map_values(|e: Effect| e@)
}

/// What a [`GpuOutcome`] stands for.
pub enum GpuOutcomeView {
    Found(u64),
    Empty,
    Failed(Seq<char>),
    Lost(Seq<char>),
}

/// What an [`Event`] stands for.
pub enum EventView {
    Genesis(Result<bool, Seq<char>>),
    Block(Result<u64, Seq<char>>),
    Challenge(Result<[u8; 32], Seq<char>>),
    Difficulty(Result<[u8; 32], Seq<char>>),
    Probe(Option<u64>),
    Gpu(GpuOutcomeView),
    Yielded,
    Checked,
    Sent(Result<Seq<char>, Seq<char>>),
    Receipt(Result<Receipt, Seq<char>>),
    Resumed,
}

/// A result whose error is taken by the text it holds.
pub open spec fn with_text<T>(r: Result<T, String>) -> Result<T, Seq<char>> {
    match r {
        Ok(v) => Ok(v),
        Err(e) => Err(e@),
    }
}

impl View for Event {
    type V = EventView;

    open spec fn view(&self) -> EventView {
        match self {
            Event::Genesis(r) => EventView::Genesis(with_text(*r)),
            Event::Block(r) => EventView::Block(with_text(*r)),
            Event::Challenge(r) => EventView::Challenge(with_text(*r)),
            Event::Difficulty(r) => EventView::Difficulty(with_text(*r)),
            Event::Probe(n) => EventView::Probe(*n),
            Event::Gpu(outcome) => EventView::Gpu(
                match outcome {
                    GpuOutcome::Found(n) => GpuOutcomeView::Found(*n),
                    GpuOutcome::Empty => GpuOutcomeView::Empty,
                    GpuOutcome::Failed(e) => GpuOutcomeView::Failed(e@),
                    GpuOutcome::Lost(e) => GpuOutcomeView::Lost(e@),
                },
            ),
            Event::Yielded => EventView::Yielded,
            Event::Checked => EventView::Checked,
            Event::Sent(r) => EventView::Sent(
                match r {
                    Ok(s) => Ok(s@),
                    Err(e) => Err(e@),
                },
            ),
            Event::Receipt(r) => EventView::Receipt(with_text(*r)),
            Event::Resumed => EventView::Resumed,
        }
    }
}

/// The state of the machine.
pub struct MinerView {
    pub token: Seq<char>,
    pub chat_id: Seq<char>,
    pub label: Seq<char>,
    pub address: Seq<char>,
    pub engine: Engine,
    pub batch_size: u64,
    pub priority_wei: u128,
    pub max_fee_wei: u128,
    /// Hashes that the counters do not know of yet.
    pub pending: u64,
    /// The hash of the transaction that was sent last.
    pub tx_hash: Seq<char>,
    pub phase: Phase,
}

/// The outcome of a step.
pub struct StepView {
    pub miner: MinerView,
    pub effects: Seq<EffectView>,
    pub request: Request,
}

/// What to report, in order, and what to do then.
#[derive(Debug)]
pub struct Step {
    pub effects: Vec<Effect>,
    pub request: Request,
}

// ---- Lines and notices ----

/// A line about an account.
pub open spec fn tagged(
    mark: Seq<char>,
    label: Seq<char>,
    what: Seq<char>,
    detail: Seq<char>,
) -> Seq<char> {
    mark + "["@ + label + "] "@ + what + detail
}

/// The notice of an error to the configured chat.
pub open spec fn error_notice(m: MinerView, error: Seq<char>) -> EffectView {
    EffectView::Notify(push_request(m.token, m.chat_id, error_text(m.label, error)))
}

// ---- The rules ----

/// The nonces in one batch.
pub open spec fn batch_len(m: MinerView) -> u64 {
    match m.engine {
        Engine::Gpu => m.batch_size,
        Engine::Cpu => CPU_BATCH,
    }
}

/// The start of a round.
pub open spec fn next_round(m: MinerView, fx: Seq<EffectView>, stopping: bool) -> StepView {
    if stopping {
        StepView {
            miner: MinerView { phase: Phase::Stopped, ..m },
            effects: fx,
            request: Request::Stop,
        }
    } else {
        StepView {
            miner: MinerView { phase: Phase::Block, ..m },
            effects: fx,
            request: Request::BlockNumber,
        }
    }
}

/// A pause, before the next round begins.
pub open spec fn pause(m: MinerView, fx: Seq<EffectView>) -> StepView {
    StepView {
        miner: MinerView { phase: Phase::Pause, ..m },
        effects: fx,
        request: Request::Pause { secs: PAUSE_SECS },
    }
}

/// A look at whether the program stops, before the next round begins.
pub open spec fn idle(m: MinerView, fx: Seq<EffectView>) -> StepView {
    StepView {
        miner: MinerView { phase: Phase::Idle, ..m },
        effects: fx,
        request: Request::Check,
    }
}

/// Hashes that are still to be counted are counted.
pub open spec fn counted(m: MinerView, fx: Seq<EffectView>) -> Seq<EffectView> {
    if m.pending > 0 {
        fx.push(EffectView::Rate(m.pending))
    } else {
        fx
    }
}

/// The end of a round: hashes that are still to be counted are counted, and a nonce that
/// was found is submitted unless the program stops.
pub open spec fn close_round(
    m: MinerView,
    fx: Seq<EffectView>,
    found: Option<u64>,
    stopping: bool,
) -> StepView {
    let settled = MinerView { pending: 0, ..m };
    match found {
        Some(nonce) if !stopping => StepView {
            miner: MinerView { phase: Phase::Submit { nonce }, ..settled },
            effects: counted(m, fx).push(
                EffectView::Print(
                    tagged("🎉 "@, m.label, "Found nonce="@, decimal(nonce as nat)),
                ),
            ),
            request: Request::Submit {
                nonce,
                priority_wei: m.priority_wei,
                max_fee_wei: m.max_fee_wei,
            },
        },
        _ => next_round(settled, counted(m, fx), stopping),
    }
}

/// The round after one more batch.
pub open spec fn advanced(m: MinerView, round: Round) -> Round {
    Round {
        cursor: nonce_at(round.cursor, batch_len(m) as nat),
        batches: (round.batches + 1) as u64,
        ..round
    }
}

/// The machine after one more batch, before the counters know of it.
pub open spec fn hashed(m: MinerView) -> MinerView {
    MinerView { pending: (m.pending + batch_len(m)) as u64, ..m }
}

/// The end of a batch on the CPU. A batch takes time: whether the program stops is looked at
/// again before a nonce that it found is submitted.
pub open spec fn cpu_batch_done(
    m: MinerView,
    fx: Seq<EffectView>,
    round: Round,
    found: Option<u64>,
) -> StepView {
    match found {
        Some(nonce) => StepView {
            miner: MinerView { pending: 0, phase: Phase::Found { round, nonce }, ..m },
            effects: counted(hashed(m), fx),
            request: Request::Check,
        },
        None => StepView {
            miner: MinerView { phase: Phase::Yield(advanced(m, round)), ..hashed(m) },
            effects: fx,
            request: Request::Yield,
        },
    }
}

/// The epoch is due to be looked at again.
pub open spec fn probe_due(round: Round) -> bool {
    round.batches > 0 && round.batches % PROBE_BATCHES == 0
}

/// The next batch.
pub open spec fn run_batch(m: MinerView, fx: Seq<EffectView>, round: Round) -> StepView {
    match m.engine {
        Engine::Gpu => StepView {
            miner: MinerView { phase: Phase::Gpu(round), ..m },
            effects: fx,
            request: Request::GpuBatch {
                challenge: round.challenge,
                difficulty: round.difficulty,
                start: round.cursor,
            },
        },
        Engine::Cpu => cpu_batch_done(
            m,
            fx,
            round,
            first_solution(
                round.challenge@,
                round.difficulty@,
                round.cursor,
                CPU_BATCH as nat,
            ),
        ),
    }
}

/// The top of the loop over batches.
pub open spec fn mine_on(
    m: MinerView,
    fx: Seq<EffectView>,
    round: Round,
    stopping: bool,
) -> StepView {
    if stopping {
        close_round(m, fx, None, stopping)
    } else if probe_due(round) {
        StepView {
            miner: MinerView { phase: Phase::Probe(round), ..m },
            effects: fx,
            request: Request::Probe,
        }
    } else {
        run_batch(m, fx, round)
    }
}

/// The hashes after which the counters are brought up to date: four batches of the
/// configured size.
pub open spec fn flush_mark(batch_size: u64) -> int {
    batch_size * 4
}

/// The bottom of the loop over batches: enough hashes are counted, then the loop goes on.
pub open spec fn flush(
    m: MinerView,
    fx: Seq<EffectView>,
    round: Round,
    stopping: bool,
) -> StepView {
    if m.pending >= flush_mark(m.batch_size) {
        mine_on(
            MinerView { pending: 0, ..m },
            fx.push(EffectView::Rate(m.pending)),
            round,
            stopping,
        )
    } else {
        mine_on(m, fx, round, stopping)
    }
}

/// The end of a batch on the GPU.
pub open spec fn gpu_batch_done(
    m: MinerView,
    fx: Seq<EffectView>,
    round: Round,
    found: Option<u64>,
    stopping: bool,
) -> StepView {
    match found {
        Some(_) => close_round(hashed(m), fx, found, stopping),
        None => flush(hashed(m), fx, advanced(m, round), stopping),
    }
}

/// An outcome of the GPU. A nonce that the GPU reports is checked on the CPU, and one that
/// does not answer the challenge is passed over as an error of the GPU.
pub open spec fn on_gpu(
    m: MinerView,
    round: Round,
    outcome: GpuOutcomeView,
    stopping: bool,
) -> StepView {
    let warned = |what: Seq<char>, detail: Seq<char>|
        seq![EffectView::Warn(tagged("⚠️ "@, m.label, what, detail))];
    match outcome {
        GpuOutcomeView::Found(n) => if solves(round.challenge@, round.difficulty@, n) {
            gpu_batch_done(m, Seq::empty(), round, Some(n), stopping)
        } else {
            gpu_batch_done(
                m,
                warned("GPU error: CPU check rejects nonce="@, decimal(n as nat)),
                round,
                None,
                stopping,
            )
        },
        GpuOutcomeView::Empty => gpu_batch_done(m, Seq::empty(), round, None, stopping),
        GpuOutcomeView::Failed(e) => gpu_batch_done(
            m,
            warned("GPU error: "@, e),
            round,
            None,
            stopping,
        ),
        GpuOutcomeView::Lost(e) => gpu_batch_done(
            m,
            warned("spawn_blocking: "@, e),
            round,
            None,
            stopping,
        ),
    }
}

/// The answer on the genesis. Mining is closed until the genesis is complete; where the
/// answer could not be had, mining goes ahead.
pub open spec fn on_genesis(
    m: MinerView,
    answer: Result<bool, Seq<char>>,
    stopping: bool,
) -> StepView {
    let ready = EffectView::Print(tagged("✅ "@, m.label, "Ready | "@, m.address));
    match answer {
        Ok(true) => next_round(m, seq![ready], stopping),
        Ok(false) => StepView {
            miner: MinerView { phase: Phase::Stopped, ..m },
            effects: seq![
                EffectView::Warn(tagged("❌ "@, m.label, "Genesis not complete"@, ""@)),
                error_notice(m, "Genesis not complete — mining closed"@),
            ],
            request: Request::Stop,
        },
        Err(e) => next_round(
            m,
            seq![EffectView::Warn(tagged("⚠️ "@, m.label, "genesisComplete: "@, e)), ready],
            stopping,
        ),
    }
}

/// The difficulty is known: mining starts at `seed`.
pub open spec fn start_mining(
    m: MinerView,
    epoch: u64,
    challenge: [u8; 32],
    difficulty: [u8; 32],
    seed: u64,
    stopping: bool,
) -> StepView {
    mine_on(
        m,
        seq![
            EffectView::Print(tagged("⛏️  "@, m.label, "epoch="@, decimal(epoch as nat))),
        ],
        Round { epoch, challenge, difficulty, cursor: seed, batches: 0 },
        stopping,
    )
}

/// The block number in the middle of a round. Another epoch ends the round; where the
/// number could not be had, the round goes on.
pub open spec fn on_probe(
    m: MinerView,
    round: Round,
    number: Option<u64>,
    stopping: bool,
) -> StepView {
    if number is Some && number->0 / EPOCH_BLOCKS != round.epoch {
        close_round(
            m,
            seq![
                EffectView::Print(tagged("🔄 "@, m.label, "epoch changed, restarting"@, ""@)),
            ],
            None,
            stopping,
        )
    } else {
        run_batch(m, Seq::empty(), round)
    }
}

/// The transaction was sent, or not. Whether the program stops is looked at after the report.
pub open spec fn on_sent(
    m: MinerView,
    nonce: u64,
    sent: Result<Seq<char>, Seq<char>>,
) -> StepView {
    match sent {
        Ok(tx_hash) => StepView {
            miner: MinerView { phase: Phase::Receipt { nonce }, tx_hash, ..m },
            effects: seq![EffectView::Print(tagged("📋 "@, m.label, "TX: "@, tx_hash))],
            request: Request::Receipt,
        },
        Err(e) => idle(
            m,
            seq![
                EffectView::Warn(tagged("❌ "@, m.label, "send: "@, e)),
                error_notice(m, "TX send: "@ + e),
            ],
        ),
    }
}

/// The block of a receipt; zero where the receipt names none.
pub open spec fn block_of(receipt: Receipt) -> u64 {
    match receipt.block {
        Some(n) => n,
        None => 0,
    }
}

/// The receipt came, or not. Whether the program stops is looked at after the report.
pub open spec fn on_receipt(
    m: MinerView,
    nonce: u64,
    answer: Result<Receipt, Seq<char>>,
) -> StepView {
    match answer {
        Ok(receipt) => if receipt.status {
            idle(
                m,
                seq![
                    EffectView::Print(
                        tagged(
                            "✅ "@,
                            m.label,
                            "Confirmed block "@,
                            decimal(block_of(receipt) as nat),
                        ),
                    ),
                    EffectView::Solved,
                    EffectView::Notify(
                        push_request(
                            m.token,
                            m.chat_id,
                            solution_text(
                                m.label,
                                decimal(nonce as nat),
                                m.tx_hash,
                                block_of(receipt),
                            ),
                        ),
                    ),
                ],
            )
        } else {
            idle(
                m,
                seq![
                    EffectView::Warn(tagged("❌ "@, m.label, "TX reverted"@, ""@)),
                    error_notice(m, "Transaction reverted"@),
                ],
            )
        },
        Err(e) => idle(
            m,
            seq![
                EffectView::Warn(tagged("❌ "@, m.label, "receipt: "@, e)),
                error_notice(m, "Receipt: "@ + e),
            ],
        ),
    }
}

/// A line about a call to the chain that failed for good.
pub open spec fn call_failed(m: MinerView, what: Seq<char>, e: Seq<char>) -> Seq<EffectView> {
    seq![EffectView::Warn(tagged("❌ "@, m.label, what, e))]
}

/// The event is one that the machine is waiting for.
pub open spec fn fits(phase: Phase, event: EventView) -> bool {
    match phase {
        Phase::Genesis => event is Genesis,
        Phase::Block => event is Block,
        Phase::Challenge { .. } => event is Challenge,
        Phase::Difficulty { .. } => event is Difficulty,
        Phase::Probe(_) => event is Probe,
        Phase::Gpu(_) => event is Gpu,
        Phase::Yield(_) => event is Yielded,
        Phase::Found { .. } => event is Checked,
        Phase::Submit { .. } => event is Sent,
        Phase::Receipt { .. } => event is Receipt,
        Phase::Idle => event is Checked,
        Phase::Pause => event is Resumed,
        Phase::Stopped => false,
    }
}

/// A step. `stopping` tells whether the program is about to stop, and `seed` is the nonce at
/// which a round starts.
pub open spec fn transition(
    m: MinerView,
    event: EventView,
    stopping: bool,
    seed: u64,
) -> StepView {
    match (m.phase, event) {
        (Phase::Genesis, EventView::Genesis(answer)) => on_genesis(m, answer, stopping),
        (Phase::Block, EventView::Block(Ok(number))) => StepView {
            miner: MinerView {
                phase: Phase::Challenge { epoch: number / EPOCH_BLOCKS },
                ..m
            },
            effects: Seq::empty(),
            request: Request::Challenge,
        },
        (Phase::Block, EventView::Block(Err(e))) => pause(
            m,
            call_failed(m, "block_number: "@, e),
        ),
        (Phase::Challenge { epoch }, EventView::Challenge(Ok(challenge))) => StepView {
            miner: MinerView { phase: Phase::Difficulty { epoch, challenge }, ..m },
            effects: Seq::empty(),
            request: Request::Difficulty,
        },
        (Phase::Challenge { .. }, EventView::Challenge(Err(e))) => pause(
            m,
            call_failed(m, "getChallenge: "@, e),
        ),
        (
            Phase::Difficulty { epoch, challenge },
            EventView::Difficulty(Ok(difficulty)),
        ) => start_mining(m, epoch, challenge, difficulty, seed, stopping),
        (Phase::Difficulty { .. }, EventView::Difficulty(Err(e))) => pause(
            m,
            call_failed(m, "difficulty: "@, e),
        ),
        (Phase::Probe(round), EventView::Probe(number)) => on_probe(m, round, number, stopping),
        (Phase::Gpu(round), EventView::Gpu(outcome)) => on_gpu(m, round, outcome, stopping),
        (Phase::Yield(round), EventView::Yielded) => flush(m, Seq::empty(), round, stopping),
        (Phase::Found { nonce, .. }, EventView::Checked) => close_round(
            m,
            Seq::empty(),
            Some(nonce),
            stopping,
        ),
        (Phase::Submit { nonce }, EventView::Sent(sent)) => on_sent(m, nonce, sent),
        (Phase::Receipt { nonce }, EventView::Receipt(answer)) => on_receipt(m, nonce, answer),
        (Phase::Idle, EventView::Checked) => next_round(m, Seq::empty(), stopping),
        (Phase::Pause, EventView::Resumed) => next_round(m, Seq::empty(), stopping),
        _ => StepView { miner: m, effects: Seq::empty(), request: Request::Stop },
    }
}

/// What is to be reported and what happened are taken as they are.
pub proof fn law_views_keep_all(
    text: String,
    request: ApiRequest,
    n: u64,
    effects: Seq<Effect>,
    i: int,
    flag: Result<bool, String>,
    number: Result<u64, String>,
    word: Result<[u8; 32], String>,
    probe: Option<u64>,
    receipt: Result<Receipt, String>,
    tx: Result<String, String>,
)
    ensures
        Effect::Print(text)@ == EffectView::Print(text@),
        Effect::Warn(text)@ == EffectView::Warn(text@),
        Effect::Notify(request)@ == EffectView::Notify(request@),
        Effect::Rate(n)@ == EffectView::Rate(n),
        Effect::Solved@ == EffectView::Solved,
        effects_view(effects).len() == effects.len(),
        0 <= i < effects.len() ==> effects_view(effects)[i] == effects[i]@,
        Event::Gpu(GpuOutcome::Found(n))@ == EventView::Gpu(GpuOutcomeView::Found(n)),
        Event::Gpu(GpuOutcome::Empty)@ == EventView::Gpu(GpuOutcomeView::Empty),
        Event::Gpu(GpuOutcome::Failed(text))@ == EventView::Gpu(GpuOutcomeView::Failed(text@)),
        Event::Gpu(GpuOutcome::Lost(text))@ == EventView::Gpu(GpuOutcomeView::Lost(text@)),
        Event::Probe(probe)@ == EventView::Probe(probe),
        Event::Yielded@ == EventView::Yielded,
        Event::Checked@ == EventView::Checked,
        Event::Resumed@ == EventView::Resumed,
        Event::Genesis(flag)@ == EventView::Genesis(
            match flag {
                Ok(v) => Ok(v),
                Err(e) => Err(e@),
            },
        ),
        Event::Block(number)@ == EventView::Block(
            match number {
                Ok(v) => Ok(v),
                Err(e) => Err(e@),
            },
        ),
        Event::Challenge(word)@ == EventView::Challenge(
            match word {
                Ok(v) => Ok(v),
                Err(e) => Err(e@),
            },
        ),
        Event::Difficulty(word)@ == EventView::Difficulty(
            match word {
                Ok(v) => Ok(v),
                Err(e) => Err(e@),
            },
        ),
        Event::Sent(tx)@ == EventView::Sent(
            match tx {
                Ok(v) => Ok(v@),
                Err(e) => Err(e@),
            },
        ),
        Event::Receipt(receipt)@ == EventView::Receipt(
            match receipt {
                Ok(v) => Ok(v),
                Err(e) => Err(e@),
            },
        ),
{
}

/// The four calls that open a round or look at the genesis are tried three times, and nothing
/// else is tried more than once.
pub proof fn law_attempts(request: Request)
    ensures
        attempts_for(request) == (if request is Genesis || request is BlockNumber
            || request is Challenge || request is Difficulty {
            3u32
        } else {
            1u32
        }),
{
}

} // verus!
