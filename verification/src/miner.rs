//! The machine that runs the mining loop of one account by the [`crate::rules`].
use rand::Rng;
use vstd::prelude::*;

use crate::account::{
    key_digits, parsed_url, right_length, setup, signer_address, SetupError, SetupErrorView,
};
use crate::config::MiningConfig;
use crate::pow::{is_solution, search_batch};
use crate::rules::{
    advanced, batch_len, block_of, call_failed, close_round, counted, cpu_batch_done, effects_view,
    error_notice, fits, flush, flush_mark, gpu_batch_done, hashed, mine_on, next_round, on_genesis,
    on_gpu, on_probe, on_receipt, on_sent, pause, run_batch, start_mining, tagged, transition,
    with_text, Effect, EffectView, Engine, Event, GpuOutcome, MinerView, Phase, Receipt, Request,
    Round, Step, StepView, CPU_BATCH, EPOCH_BLOCKS, PAUSE_SECS, PROBE_BATCHES,
};
use crate::telegram::{error_text, push_request, TelegramBot};
use crate::text::decimal_text;

verus! {

/// Calls `rand::thread_rng` and `Rng::gen`: any 64-bit number may come back, so nothing is
/// said of it.
#[verifier::external_body]
fn draw_nonce() -> u64 {
    rand::thread_rng().gen()
}

/// The engine that mines, and the name that reports give it: the GPU where it could be
/// opened, else the CPU.
pub fn choose_engine(gpu: Result<String, String>) -> (r: (Engine, String))
    ensures
        match gpu {
            Ok(name) => r.0 == Engine::Gpu && r.1@ == name@,
            Err(_) => r.0 == Engine::Cpu && r.1@ == "CPU only"@,
        },
{
    match gpu {
        Ok(name) => (Engine::Gpu, name),
        Err(_) => (Engine::Cpu, "CPU only".to_owned()),
    }
}

/// The state is one that the machine can be in.
pub open spec fn valid(m: MinerView) -> bool {
    match m.phase {
        Phase::Probe(_) => true,
        Phase::Gpu(_) => m.engine == Engine::Gpu,
        Phase::Yield(_) => m.engine == Engine::Cpu,
        Phase::Found { .. } => m.engine == Engine::Cpu && m.pending == 0,
        _ => m.pending == 0,
    }
}

/// One more batch on the CPU can be counted.
pub open spec fn cpu_room(pending: u64, round: Round) -> bool {
    pending + CPU_BATCH <= u64::MAX && round.batches < u64::MAX
}

/// One more batch can be counted in 64 bits, where the next step may count one.
pub open spec fn has_room(m: MinerView) -> bool {
    match m.phase {
        Phase::Gpu(round) => {
            &&& flush_mark(m.batch_size) <= u64::MAX
            &&& m.pending + m.batch_size <= u64::MAX
            &&& round.batches < u64::MAX
        },
        Phase::Probe(round) => m.engine == Engine::Cpu ==> cpu_room(m.pending, round),
        Phase::Yield(round) => {
            &&& flush_mark(m.batch_size) <= u64::MAX
            &&& m.pending < flush_mark(m.batch_size) ==> cpu_room(m.pending, round)
            &&& round.batches < u64::MAX
        },
        _ => true,
    }
}

/// What a step stands for, together with the state it leads to.
pub open spec fn step_view(miner: MinerView, effects: Seq<Effect>, request: Request) -> StepView {
    StepView { miner, effects: effects_view(effects), request }
}

/// Writes a line about an account.
fn tagged_line(mark: &str, label: &str, what: &str, detail: &str) -> (r: String)
    ensures
        r@ == tagged(mark@, label@, what@, detail@),
{
    let mut out = mark.to_owned();
    out.append("[");
    out.append(label);
    out.append("] ");
    out.append(what);
    out.append(detail);
    out
}

/// Puts an effect at the end of a list.
fn emit(effects: &mut Vec<Effect>, effect: Effect)
    ensures
        effects_view(final(effects)@) == effects_view(old(effects)@).push(effect@),
{
    effects.push(effect);
    proof {
        assert(effects_view(effects@) =~= effects_view(old(effects)@).push(effect@));
    }
}

/// A list without effects.
fn no_effects() -> (r: Vec<Effect>)
    ensures
        effects_view(r@) == Seq::<EffectView>::empty(),
{
    let r: Vec<Effect> = Vec::new();
    proof {
        assert(effects_view(r@) =~= Seq::<EffectView>::empty());
    }
    r
}

/// The mining loop of one account.
#[derive(Debug)]
pub struct Miner {
    bot: TelegramBot,
    label: String,
    address: String,
    engine: Engine,
    batch_size: u64,
    priority_wei: u128,
    max_fee_wei: u128,
    pending: u64,
    tx_hash: String,
    phase: Phase,
}

impl View for Miner {
    type V = MinerView;

    closed spec fn view(&self) -> MinerView {
        MinerView {
            token: self.bot.token@,
            chat_id: self.bot.chat_id@,
            label: self.label@,
            address: self.address@,
            engine: self.engine,
            batch_size: self.batch_size,
            priority_wei: self.priority_wei,
            max_fee_wei: self.max_fee_wei,
            pending: self.pending,
            tx_hash: self.tx_hash@,
            phase: self.phase,
        }
    }
}

impl Miner {
    /// The machine at its start, and what to do first.
    pub fn start(
        bot: TelegramBot,
        label: String,
        address: String,
        engine: Engine,
        mining: &MiningConfig,
    ) -> (r: (Miner, Request))
        ensures
            valid(r.0@),
            r.0@ == (MinerView {
                token: bot.token@,
                chat_id: bot.chat_id@,
                label: label@,
                address: address@,
                engine,
                batch_size: mining.gpu_batch_size as u64,
                priority_wei: mining.priority_wei,
                max_fee_wei: mining.max_fee_wei,
                pending: 0,
                tx_hash: Seq::empty(),
                phase: Phase::Genesis,
            }),
            r.1 == Request::Genesis,
    {
        let miner = Miner {
            bot,
            label,
            address,
            engine,
            batch_size: mining.gpu_batch_size as u64,
            priority_wei: mining.priority_wei,
            max_fee_wei: mining.max_fee_wei,
            pending: 0,
            tx_hash: String::new(),
            phase: Phase::Genesis,
        };
        (miner, Request::Genesis)
    }

    /// What the machine is waiting for.
    pub fn phase(&self) -> (r: Phase)
        ensures
            r == self@.phase,
    {
        self.phase
    }

    /// The start of a round.
    fn to_next_round(&mut self, stopping: bool) -> (r: Request)
        requires
            old(self)@.pending == 0,
        ensures
            valid(final(self)@),
            forall|fx: Seq<EffectView>|
                (StepView { miner: final(self)@, effects: fx, request: r }) == #[trigger] next_round(
                    old(self)@,
                    fx,
                    stopping,
                ),
    {
        if stopping {
            self.phase = Phase::Stopped;
            Request::Stop
        } else {
            self.phase = Phase::Block;
            Request::BlockNumber
        }
    }

    /// Hashes that are still to be counted are counted.
    fn count_pending(&mut self, effects: &mut Vec<Effect>)
        ensures
            final(self)@ == (MinerView { pending: 0, ..old(self)@ }),
            effects_view(final(effects)@) == counted(old(self)@, effects_view(old(effects)@)),
    {
        if self.pending > 0 {
            emit(effects, Effect::Rate(self.pending));
            self.pending = 0;
        }
    }

    /// The end of a round.
    pub fn finish_round(
        &mut self,
        effects: &mut Vec<Effect>,
        found: Option<u64>,
        stopping: bool,
    ) -> (r: Request)
        ensures
            valid(final(self)@),
            step_view(final(self)@, final(effects)@, r) == close_round(
                old(self)@,
                effects_view(old(effects)@),
                found,
                stopping,
            ),
    {
        self.count_pending(effects);
        match found {
            Some(nonce) => {
                if stopping {
                    return self.to_next_round(stopping);
                }
                let line = tagged_line(
                    "🎉 ",
                    self.label.as_str(),
                    "Found nonce=",
                    decimal_text(nonce).as_str(),
                );
                emit(effects, Effect::Print(line));
                self.phase = Phase::Submit { nonce };
                Request::Submit {
                    nonce,
                    priority_wei: self.priority_wei,
                    max_fee_wei: self.max_fee_wei,
                }
            },
            None => self.to_next_round(stopping),
        }
    }

    /// Counts a batch in, and gives the round after it.
    fn count_batch(&mut self, round: Round) -> (r: Round)
        requires
            old(self)@.pending + batch_len(old(self)@) <= u64::MAX,
            round.batches < u64::MAX,
        ensures
            final(self)@ == hashed(old(self)@),
            r == advanced(old(self)@, round),
    {
        let len: u64 = match self.engine {
            Engine::Gpu => self.batch_size,
            Engine::Cpu => CPU_BATCH,
        };
        self.pending = self.pending + len;
        Round {
            epoch: round.epoch,
            challenge: round.challenge,
            difficulty: round.difficulty,
            cursor: round.cursor.wrapping_add(len),
            batches: round.batches + 1,
        }
    }

    /// The end of a batch on the CPU, given what the search found.
    pub fn finish_cpu_batch(
        &mut self,
        effects: &mut Vec<Effect>,
        round: Round,
        found: Option<u64>,
    ) -> (r: Request)
        requires
            old(self)@.engine == Engine::Cpu,
            cpu_room(old(self)@.pending, round),
        ensures
            valid(final(self)@),
            step_view(final(self)@, final(effects)@, r) == cpu_batch_done(
                old(self)@,
                effects_view(old(effects)@),
                round,
                found,
            ),
    {
        let next = self.count_batch(round);
        match found {
            Some(nonce) => {
                self.count_pending(effects);
                self.phase = Phase::Found { round, nonce };
                Request::Check
            },
            None => {
                self.phase = Phase::Yield(next);
                Request::Yield
            },
        }
    }

    /// The next batch: the GPU is asked to run it, the CPU runs it.
    fn next_batch(&mut self, effects: &mut Vec<Effect>, round: Round) -> (r: Request)
        requires
            old(self)@.engine == Engine::Cpu ==> cpu_room(old(self)@.pending, round),
        ensures
            valid(final(self)@),
            step_view(final(self)@, final(effects)@, r) == run_batch(
                old(self)@,
                effects_view(old(effects)@),
                round,
            ),
    {
        match self.engine {
            Engine::Gpu => {
                self.phase = Phase::Gpu(round);
                Request::GpuBatch {
                    challenge: round.challenge,
                    difficulty: round.difficulty,
                    start: round.cursor,
                }
            },
            Engine::Cpu => {
                let found = search_batch(
                    &round.challenge,
                    &round.difficulty,
                    round.cursor,
                    CPU_BATCH,
                );
                self.finish_cpu_batch(effects, round, found)
            },
        }
    }

    /// The top of the loop over batches.
    fn keep_mining(&mut self, effects: &mut Vec<Effect>, round: Round, stopping: bool) -> (r:
        Request)
        requires
            old(self)@.engine == Engine::Cpu ==> cpu_room(old(self)@.pending, round),
        ensures
            valid(final(self)@),
            step_view(final(self)@, final(effects)@, r) == mine_on(
                old(self)@,
                effects_view(old(effects)@),
                round,
                stopping,
            ),
    {
        if stopping {
            self.finish_round(effects, None, stopping)
        } else if round.batches > 0 && round.batches % PROBE_BATCHES == 0 {
            self.phase = Phase::Probe(round);
            Request::Probe
        } else {
            self.next_batch(effects, round)
        }
    }

    /// The bottom of the loop over batches.
    fn flush_and_mine(&mut self, effects: &mut Vec<Effect>, round: Round, stopping: bool) -> (r:
        Request)
        requires
            flush_mark(old(self)@.batch_size) <= u64::MAX,
            old(self)@.engine == Engine::Cpu ==> {
                &&& old(self)@.pending < flush_mark(old(self)@.batch_size) ==> cpu_room(
                    old(self)@.pending,
                    round,
                )
                &&& round.batches < u64::MAX
            },
        ensures
            valid(final(self)@),
            step_view(final(self)@, final(effects)@, r) == flush(
                old(self)@,
                effects_view(old(effects)@),
                round,
                stopping,
            ),
    {
        if self.pending >= self.batch_size * 4 {
            emit(effects, Effect::Rate(self.pending));
            self.pending = 0;
        }
        self.keep_mining(effects, round, stopping)
    }

    /// The end of a batch on the GPU, given the nonce that it found.
    pub fn finish_gpu_batch(
        &mut self,
        effects: &mut Vec<Effect>,
        round: Round,
        found: Option<u64>,
        stopping: bool,
    ) -> (r: Request)
        requires
            old(self)@.engine == Engine::Gpu,
            found is None ==> flush_mark(old(self)@.batch_size) <= u64::MAX,
            old(self)@.pending + old(self)@.batch_size <= u64::MAX,
            round.batches < u64::MAX,
        ensures
            valid(final(self)@),
            step_view(final(self)@, final(effects)@, r) == gpu_batch_done(
                old(self)@,
                effects_view(old(effects)@),
                round,
                found,
                stopping,
            ),
    {
        let next = self.count_batch(round);
        if found.is_some() {
            self.finish_round(effects, found, stopping)
        } else {
            self.flush_and_mine(effects, next, stopping)
        }
    }

    /// A line about the account for the standard output.
    fn print(&self, mark: &str, what: &str, detail: &str) -> (r: Effect)
        ensures
            r@ == EffectView::Print(tagged(mark@, self@.label, what@, detail@)),
    {
        Effect::Print(tagged_line(mark, self.label.as_str(), what, detail))
    }

    /// A line about the account for the standard error.
    fn warn(&self, mark: &str, what: &str, detail: &str) -> (r: Effect)
        ensures
            r@ == EffectView::Warn(tagged(mark@, self@.label, what@, detail@)),
    {
        Effect::Warn(tagged_line(mark, self.label.as_str(), what, detail))
    }

    /// The notice of an error to the configured chat.
    fn error(&self, error: &str) -> (r: Effect)
        ensures
            r@ == error_notice(self@, error@),
    {
        Effect::Notify(self.bot.notify_error(self.label.as_str(), error))
    }

    /// The answer on the genesis.
    fn genesis_answered(&mut self, answer: Result<bool, String>, stopping: bool) -> (r: Step)
        requires
            valid(old(self)@),
            old(self)@.pending == 0,
        ensures
            valid(final(self)@),
            step_view(final(self)@, r.effects@, r.request) == on_genesis(
                old(self)@,
                with_text(answer),
                stopping,
            ),
    {
        let mut effects = no_effects();
        let ready = self.print("✅ ", "Ready | ", self.address.as_str());
        match answer {
            Ok(complete) => {
                if !complete {
                    let line = self.warn("❌ ", "Genesis not complete", "");
                    emit(&mut effects, line);
                    let notice = self.error("Genesis not complete — mining closed");
                    emit(&mut effects, notice);
                    proof {
                        assert(effects_view(effects@) =~= on_genesis(
                            old(self)@,
                            Ok(false),
                            stopping,
                        ).effects);
                    }
                    self.phase = Phase::Stopped;
                    return Step { effects, request: Request::Stop };
                }
                emit(&mut effects, ready);
                proof {
                    assert(effects_view(effects@) =~= seq![ready@]);
                }
            },
            Err(e) => {
                let line = self.warn("⚠️ ", "genesisComplete: ", e.as_str());
                emit(&mut effects, line);
                emit(&mut effects, ready);
                proof {
                    assert(effects_view(effects@) =~= seq![line@, ready@]);
                }
            },
        }
        let request = self.to_next_round(stopping);
        proof {
            assert(next_round(old(self)@, effects_view(effects@), stopping) == step_view(
                self@,
                effects@,
                request,
            ));
        }
        Step { effects, request }
    }

    /// A call to the chain failed for good.
    fn chain_failed(&mut self, what: &str, e: &str) -> (r: Step)
        requires
            valid(old(self)@),
            old(self)@.pending == 0,
        ensures
            valid(final(self)@),
            step_view(final(self)@, r.effects@, r.request) == pause(
                old(self)@,
                call_failed(old(self)@, what@, e@),
            ),
    {
        let mut effects = no_effects();
        let line = self.warn("❌ ", what, e);
        emit(&mut effects, line);
        proof {
            assert(effects_view(effects@) =~= call_failed(old(self)@, what@, e@));
        }
        self.phase = Phase::Pause;
        Step { effects, request: Request::Pause { secs: PAUSE_SECS } }
    }

    /// The difficulty is known: mining starts at `seed`.
    pub fn begin_mining(
        &mut self,
        epoch: u64,
        challenge: [u8; 32],
        difficulty: [u8; 32],
        seed: u64,
        stopping: bool,
    ) -> (r: Step)
        requires
            valid(old(self)@),
            old(self)@.pending == 0,
        ensures
            valid(final(self)@),
            step_view(final(self)@, r.effects@, r.request) == start_mining(
                old(self)@,
                epoch,
                challenge,
                difficulty,
                seed,
                stopping,
            ),
    {
        let mut effects = no_effects();
        let line = self.print("⛏️  ", "epoch=", decimal_text(epoch).as_str());
        emit(&mut effects, line);
        proof {
            assert(effects_view(effects@) =~= seq![line@]);
        }
        let round = Round { epoch, challenge, difficulty, cursor: seed, batches: 0 };
        let request = self.keep_mining(&mut effects, round, stopping);
        Step { effects, request }
    }

    /// The block number in the middle of a round.
    fn probed(&mut self, round: Round, number: Option<u64>, stopping: bool) -> (r: Step)
        requires
            old(self)@.engine == Engine::Cpu ==> cpu_room(old(self)@.pending, round),
        ensures
            valid(final(self)@),
            step_view(final(self)@, r.effects@, r.request) == on_probe(
                old(self)@,
                round,
                number,
                stopping,
            ),
    {
        let mut effects = no_effects();
        let moved: bool = match number {
            Some(n) => n / EPOCH_BLOCKS != round.epoch,
            None => false,
        };
        if moved {
            let line = self.print("🔄 ", "epoch changed, restarting", "");
            emit(&mut effects, line);
            proof {
                assert(effects_view(effects@) =~= seq![line@]);
            }
            let request = self.finish_round(&mut effects, None, stopping);
            Step { effects, request }
        } else {
            let request = self.next_batch(&mut effects, round);
            Step { effects, request }
        }
    }

    /// An outcome of the GPU.
    fn gpu_answered(&mut self, round: Round, outcome: GpuOutcome, stopping: bool) -> (r: Step)
        requires
            old(self)@.engine == Engine::Gpu,
            flush_mark(old(self)@.batch_size) <= u64::MAX,
            old(self)@.pending + old(self)@.batch_size <= u64::MAX,
            round.batches < u64::MAX,
        ensures
            valid(final(self)@),
            step_view(final(self)@, r.effects@, r.request) == on_gpu(
                old(self)@,
                round,
                (Event::Gpu(outcome))@->Gpu_0,
                stopping,
            ),
    {
        let mut effects = no_effects();
        let mut found: Option<u64> = None;
        match &outcome {
            GpuOutcome::Found(n) => {
                if is_solution(&round.challenge, &round.difficulty, *n) {
                    found = Some(*n);
                } else {
                    let line = self.warn(
                        "⚠️ ",
                        "GPU error: CPU check rejects nonce=",
                        decimal_text(*n).as_str(),
                    );
                    emit(&mut effects, line);
                    proof {
                        assert(effects_view(effects@) =~= seq![line@]);
                    }
                }
            },
            GpuOutcome::Empty => {},
            GpuOutcome::Failed(e) => {
                let line = self.warn("⚠️ ", "GPU error: ", e.as_str());
                emit(&mut effects, line);
                proof {
                    assert(effects_view(effects@) =~= seq![line@]);
                }
            },
            GpuOutcome::Lost(e) => {
                let line = self.warn("⚠️ ", "spawn_blocking: ", e.as_str());
                emit(&mut effects, line);
                proof {
                    assert(effects_view(effects@) =~= seq![line@]);
                }
            },
        }
        let request = self.finish_gpu_batch(&mut effects, round, found, stopping);
        Step { effects, request }
    }

    /// The transaction was sent, or not.
    fn submitted(&mut self, nonce: u64, sent: Result<String, String>) -> (r: Step)
        requires
            valid(old(self)@),
            old(self)@.pending == 0,
        ensures
            valid(final(self)@),
            step_view(final(self)@, r.effects@, r.request) == on_sent(
                old(self)@,
                nonce,
                (Event::Sent(sent))@->Sent_0,
            ),
    {
        let mut effects = no_effects();
        match sent {
            Ok(tx_hash) => {
                let line = self.print("📋 ", "TX: ", tx_hash.as_str());
                emit(&mut effects, line);
                proof {
                    assert(effects_view(effects@) =~= seq![line@]);
                }
                self.tx_hash = tx_hash;
                self.phase = Phase::Receipt { nonce };
                Step { effects, request: Request::Receipt }
            },
            Err(e) => {
                let line = self.warn("❌ ", "send: ", e.as_str());
                emit(&mut effects, line);
                let mut text = "TX send: ".to_owned();
                text.append(e.as_str());
                let notice = self.error(text.as_str());
                emit(&mut effects, notice);
                proof {
                    assert(effects_view(effects@) =~= seq![line@, notice@]);
                }
                self.phase = Phase::Idle;
                Step { effects, request: Request::Check }
            },
        }
    }

    /// The receipt came, or not.
    fn receipt_answered(&mut self, nonce: u64, answer: Result<Receipt, String>) -> (r: Step)
        requires
            valid(old(self)@),
            old(self)@.pending == 0,
        ensures
            valid(final(self)@),
            step_view(final(self)@, r.effects@, r.request) == on_receipt(
                old(self)@,
                nonce,
                with_text(answer),
            ),
    {
        let mut effects = no_effects();
        match answer {
            Ok(receipt) => {
                if receipt.status {
                    let block: u64 = match receipt.block {
                        Some(n) => n,
                        None => 0,
                    };
                    let line = self.print("✅ ", "Confirmed block ", decimal_text(block).as_str());
                    emit(&mut effects, line);
                    emit(&mut effects, Effect::Solved);
                    let notice = Effect::Notify(
                        self.bot.notify_solution(
                            self.label.as_str(),
                            decimal_text(nonce).as_str(),
                            self.tx_hash.as_str(),
                            block,
                        ),
                    );
                    emit(&mut effects, notice);
                    proof {
                        assert(block == block_of(receipt));
                        assert(effects_view(effects@) =~= seq![
                            line@,
                            EffectView::Solved,
                            notice@,
                        ]);
                    }
                } else {
                    let line = self.warn("❌ ", "TX reverted", "");
                    emit(&mut effects, line);
                    let notice = self.error("Transaction reverted");
                    emit(&mut effects, notice);
                    proof {
                        assert(effects_view(effects@) =~= seq![line@, notice@]);
                    }
                }
            },
            Err(e) => {
                let line = self.warn("❌ ", "receipt: ", e.as_str());
                emit(&mut effects, line);
                let mut text = "Receipt: ".to_owned();
                text.append(e.as_str());
                let notice = self.error(text.as_str());
                emit(&mut effects, notice);
                proof {
                    assert(effects_view(effects@) =~= seq![line@, notice@]);
                }
            },
        }
        self.phase = Phase::Idle;
        Step { effects, request: Request::Check }
    }

    /// Tells whether one more batch can be counted, where the next step may count one.
    fn can_count(&self) -> (r: bool)
        ensures
            r == has_room(self@),
    {
        let mark: u128 = self.batch_size as u128 * 4;
        let most: u64 = u64::MAX - CPU_BATCH;
        match self.phase {
            Phase::Gpu(round) => mark <= u64::MAX as u128 && self.pending <= u64::MAX
                - self.batch_size && round.batches < u64::MAX,
            Phase::Probe(round) => self.engine == Engine::Gpu || (self.pending <= most
                && round.batches < u64::MAX),
            Phase::Yield(round) => mark <= u64::MAX as u128 && (self.pending as u128 >= mark
                || self.pending <= most) && round.batches < u64::MAX,
            _ => true,
        }
    }

    /// Tells whether the machine is waiting for such an event and can count one more batch.
    pub fn accepts(&self, event: &Event) -> (r: bool)
        ensures
            r == (fits(self@.phase, event@) && has_room(self@)),
    {
        let awaited: bool = match (self.phase, event) {
            (Phase::Genesis, Event::Genesis(_)) => true,
            (Phase::Block, Event::Block(_)) => true,
            (Phase::Challenge { .. }, Event::Challenge(_)) => true,
            (Phase::Difficulty { .. }, Event::Difficulty(_)) => true,
            (Phase::Probe(_), Event::Probe(_)) => true,
            (Phase::Gpu(_), Event::Gpu(_)) => true,
            (Phase::Yield(_), Event::Yielded) => true,
            (Phase::Found { .. }, Event::Checked) => true,
            (Phase::Submit { .. }, Event::Sent(_)) => true,
            (Phase::Receipt { .. }, Event::Receipt(_)) => true,
            (Phase::Idle, Event::Checked) => true,
            (Phase::Pause, Event::Resumed) => true,
            _ => false,
        };
        awaited && self.can_count()
    }

    /// A step of the machine. A round that starts in this step starts at `seed`.
    pub fn step_from(&mut self, event: Event, stopping: bool, seed: u64) -> (r: Step)
        requires
            valid(old(self)@),
            fits(old(self)@.phase, event@),
            has_room(old(self)@),
        ensures
            valid(final(self)@),
            step_view(final(self)@, r.effects@, r.request) == transition(
                old(self)@,
                event@,
                stopping,
                seed,
            ),
    {
        match (self.phase, event) {
            (Phase::Genesis, Event::Genesis(answer)) => self.genesis_answered(answer, stopping),
            (Phase::Block, Event::Block(answer)) => match answer {
                Ok(number) => {
                    self.phase = Phase::Challenge { epoch: number / EPOCH_BLOCKS };
                    Step { effects: no_effects(), request: Request::Challenge }
                },
                Err(e) => self.chain_failed("block_number: ", e.as_str()),
            },
            (Phase::Challenge { epoch }, Event::Challenge(answer)) => match answer {
                Ok(challenge) => {
                    self.phase = Phase::Difficulty { epoch, challenge };
                    Step { effects: no_effects(), request: Request::Difficulty }
                },
                Err(e) => self.chain_failed("getChallenge: ", e.as_str()),
            },
            (Phase::Difficulty { epoch, challenge }, Event::Difficulty(answer)) => match answer {
                Ok(difficulty) => self.begin_mining(epoch, challenge, difficulty, seed, stopping),
                Err(e) => self.chain_failed("difficulty: ", e.as_str()),
            },
            (Phase::Probe(round), Event::Probe(number)) => self.probed(round, number, stopping),
            (Phase::Gpu(round), Event::Gpu(outcome)) => self.gpu_answered(
                round,
                outcome,
                stopping,
            ),
            (Phase::Yield(round), Event::Yielded) => {
                let mut effects = no_effects();
                let request = self.flush_and_mine(&mut effects, round, stopping);
                Step { effects, request }
            },
            (Phase::Found { nonce, .. }, Event::Checked) => {
                let mut effects = no_effects();
                let request = self.finish_round(&mut effects, Some(nonce), stopping);
                Step { effects, request }
            },
            (Phase::Submit { nonce }, Event::Sent(sent)) => self.submitted(nonce, sent),
            (Phase::Receipt { nonce }, Event::Receipt(answer)) => self.receipt_answered(
                nonce,
                answer,
            ),
            (Phase::Idle, Event::Checked) | (Phase::Pause, Event::Resumed) => {
                let effects = no_effects();
                let request = self.to_next_round(stopping);
                proof {
                    assert(next_round(old(self)@, effects_view(effects@), stopping) == step_view(
                        self@,
                        effects@,
                        request,
                    ));
                }
                Step { effects, request }
            },
            _ => Step { effects: no_effects(), request: Request::Stop },
        }
    }

    /// A step of the machine. A round that starts in this step starts at a random nonce.
    pub fn step(&mut self, event: Event, stopping: bool) -> (r: Step)
        requires
            valid(old(self)@),
            fits(old(self)@.phase, event@),
            has_room(old(self)@),
        ensures
            valid(final(self)@),
            exists|seed: u64|
                step_view(final(self)@, r.effects@, r.request) == #[trigger] transition(
                    old(self)@,
                    event@,
                    stopping,
                    seed,
                ),
    {
        let seed: u64 = match self.phase {
            Phase::Difficulty { .. } => draw_nonce(),
            _ => 0,
        };
        self.step_from(event, stopping, seed)
    }
}

/// What is reported of an account that cannot mine.
pub open spec fn setup_report(
    token: Seq<char>,
    chat_id: Seq<char>,
    label: Seq<char>,
    error: SetupErrorView,
) -> Seq<EffectView> {
    let report = |what: Seq<char>, detail: Seq<char>, notice: Seq<char>|
        seq![
            EffectView::Warn(tagged("❌ "@, label, what, detail)),
            EffectView::Notify(push_request(token, chat_id, error_text(label, notice))),
        ];
    match error {
        SetupErrorView::KeyLength => report(
            "invalid private key length"@,
            ""@,
            "Invalid private key length"@,
        ),
        SetupErrorView::Key(e) => report("key parse: "@, e, e),
        SetupErrorView::Endpoint(e) => report("RPC URL: "@, e, e),
    }
}

/// Reports an account that cannot mine.
pub fn setup_failed(bot: &TelegramBot, label: &str, error: &SetupError) -> (r: Vec<Effect>)
    ensures
        effects_view(r@) == setup_report(bot.token@, bot.chat_id@, label@, error@),
{
    let mut effects = no_effects();
    let line = match error {
        SetupError::KeyLength => tagged_line("❌ ", label, "invalid private key length", ""),
        SetupError::Key(e) => tagged_line("❌ ", label, "key parse: ", e.as_str()),
        SetupError::Endpoint(e) => tagged_line("❌ ", label, "RPC URL: ", e.as_str()),
    };
    let notice = match error {
        SetupError::KeyLength => bot.notify_error(label, "Invalid private key length"),
        SetupError::Key(e) => bot.notify_error(label, e.as_str()),
        SetupError::Endpoint(e) => bot.notify_error(label, e.as_str()),
    };
    emit(&mut effects, Effect::Warn(line));
    emit(&mut effects, Effect::Notify(notice));
    proof {
        assert(effects_view(effects@) =~= seq![
            EffectView::Warn(line@),
            EffectView::Notify(notice@),
        ]);
    }
    effects
}

/// The report on a key of the wrong length tells nothing of the key.
pub proof fn law_length_report_hides_key(
    token: Seq<char>,
    chat_id: Seq<char>,
    label: Seq<char>,
    first: Seq<char>,
    second: Seq<char>,
    rpc_url: Seq<char>,
)
    requires
        !right_length(key_digits(first)),
        !right_length(key_digits(second)),
    ensures
        ({
            let outcome = |raw: Seq<char>|
                setup(key_digits(raw), signer_address(key_digits(raw)), parsed_url(rpc_url));
            &&& outcome(first) is Err
            &&& outcome(second) is Err
            &&& setup_report(token, chat_id, label, outcome(first)->Err_0) == setup_report(
                token,
                chat_id,
                label,
                outcome(second)->Err_0,
            )
        }),
{
}

/// Of a key of the right length, nothing is told but what its address, or what is wrong with
/// it, tells: two keys that parse alike lead to the same address and endpoint to mine with, or
/// to the same report.
pub proof fn law_report_hides_key(
    token: Seq<char>,
    chat_id: Seq<char>,
    label: Seq<char>,
    first: Seq<char>,
    second: Seq<char>,
    rpc_url: Seq<char>,
)
    requires
        right_length(key_digits(first)),
        right_length(key_digits(second)),
        signer_address(key_digits(first)) == signer_address(key_digits(second)),
    ensures
        ({
            let outcome = |raw: Seq<char>|
                setup(key_digits(raw), signer_address(key_digits(raw)), parsed_url(rpc_url));
            match (outcome(first), outcome(second)) {
                (Ok(one), Ok(other)) => one.address == other.address && one.endpoint
                    == other.endpoint,
                (Err(one), Err(other)) => setup_report(token, chat_id, label, one)
                    == setup_report(token, chat_id, label, other),
                _ => false,
            }
        }),
{
}

/// The report on an account that cannot mine: a line for the console and a notice to the chat,
/// both of which name the account and say what is wrong.
pub proof fn law_setup_report(
    token: Seq<char>,
    chat_id: Seq<char>,
    label: Seq<char>,
    e: Seq<char>,
)
    ensures
        setup_report(token, chat_id, label, SetupErrorView::KeyLength) == seq![
            EffectView::Warn(
                "❌ "@ + "["@ + label + "] "@ + "invalid private key length"@ + ""@,
            ),
            EffectView::Notify(
                push_request(token, chat_id, error_text(label, "Invalid private key length"@)),
            ),
        ],
        setup_report(token, chat_id, label, SetupErrorView::Key(e)) == seq![
            EffectView::Warn("❌ "@ + "["@ + label + "] "@ + "key parse: "@ + e),
            EffectView::Notify(push_request(token, chat_id, error_text(label, e))),
        ],
        setup_report(token, chat_id, label, SetupErrorView::Endpoint(e)) == seq![
            EffectView::Warn("❌ "@ + "["@ + label + "] "@ + "RPC URL: "@ + e),
            EffectView::Notify(push_request(token, chat_id, error_text(label, e))),
        ],
{
}

/// A step stands for the state it leads to, its effects in order and its request.
pub proof fn law_step_view(miner: MinerView, effects: Seq<Effect>, request: Request, i: int)
    ensures
        step_view(miner, effects, request).miner == miner,
        step_view(miner, effects, request).request == request,
        step_view(miner, effects, request).effects.len() == effects.len(),
        0 <= i < effects.len() ==> step_view(miner, effects, request).effects[i] == effects[i]@,
{
}

} // verus!
