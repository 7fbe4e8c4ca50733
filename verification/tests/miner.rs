use hash_miner::account::SetupError;
use hash_miner::config::MiningConfig;
use hash_miner::json::Json;
use hash_miner::miner::{choose_engine, setup_failed, Miner};
use hash_miner::pow::{is_solution, search_batch};
use hash_miner::rules::{
    Effect, Engine, Event, GpuOutcome, Phase, Receipt, Request, Round, Step, CPU_BATCH,
};
use hash_miner::telegram::TelegramBot;

const CHALLENGE: [u8; 32] = [0x5c; 32];
const EASY: [u8; 32] = [0xff; 32];
const HOPELESS: [u8; 32] = [0; 32];

fn bot() -> TelegramBot {
    TelegramBot::new("T".to_string(), "7".to_string())
}

fn mining(batch: usize) -> MiningConfig {
    MiningConfig {
        rpc_url: "https://eth.llamarpc.com".to_string(),
        priority_wei: 5_000_000_000,
        max_fee_wei: 100_000_000_000,
        gpu_batch_size: batch,
    }
}

fn machine(engine: Engine, batch: usize) -> Miner {
    let (miner, request) =
        Miner::start(bot(), "Akun 1".to_string(), "0xAddr".to_string(), engine, &mining(batch));
    assert!(matches!(request, Request::Genesis));
    miner
}

fn step(miner: &mut Miner, event: Event, stopping: bool, seed: u64) -> Step {
    assert!(miner.accepts(&event));
    miner.step_from(event, stopping, seed)
}

fn log(step: &Step) -> Vec<String> {
    step.effects
        .iter()
        .map(|e| match e {
            Effect::Print(s) => format!("out {s}"),
            Effect::Warn(s) => format!("err {s}"),
            Effect::Rate(n) => format!("rate {n}"),
            Effect::Solved => "solved".to_string(),
            Effect::Notify(r) => {
                assert_eq!(r.url, "https://api.telegram.org/botT/sendMessage");
                match &r.body {
                    Json::Object(members) => match (&members[0], &members[1]) {
                        ((c, Json::Text(chat)), (t, Json::Text(text))) => {
                            assert_eq!((c.as_str(), chat.as_str(), t.as_str()), ("chat_id", "7", "text"));
                            format!("tell {text}")
                        }
                        other => panic!("{other:?}"),
                    },
                    other => panic!("{other:?}"),
                }
            }
        })
        .collect()
}

/// Brings a machine to the start of mining and gives the step that starts it.
fn mining_from(miner: &mut Miner, difficulty: [u8; 32], seed: u64) -> Step {
    let s = step(miner, Event::Genesis(Ok(true)), false, 0);
    assert!(matches!(s.request, Request::BlockNumber));
    let s = step(miner, Event::Block(Ok(1234)), false, 0);
    assert!(matches!(s.request, Request::Challenge));
    assert!(s.effects.is_empty());
    let s = step(miner, Event::Challenge(Ok(CHALLENGE)), false, 0);
    assert!(matches!(s.request, Request::Difficulty));
    step(miner, Event::Difficulty(Ok(difficulty)), false, seed)
}

fn round_of(miner: &Miner) -> Round {
    match miner.phase() {
        Phase::Probe(r) | Phase::Gpu(r) | Phase::Yield(r) => r,
        other => panic!("{other:?}"),
    }
}

#[test]
fn genesis_decides_whether_mining_is_open() {
    let mut m = machine(Engine::Cpu, 8);
    let s = step(&mut m, Event::Genesis(Ok(false)), false, 0);
    assert!(matches!(s.request, Request::Stop));
    assert_eq!(
        log(&s),
        vec![
            "err ❌ [Akun 1] Genesis not complete",
            "tell ❌ *Error* — `Akun 1`\n`Genesis not complete — mining closed`",
        ],
    );
    let mut m = machine(Engine::Cpu, 8);
    let s = step(&mut m, Event::Genesis(Err("rpc".to_string())), false, 0);
    assert!(matches!(s.request, Request::BlockNumber));
    assert_eq!(log(&s), vec!["err ⚠️ [Akun 1] genesisComplete: rpc", "out ✅ [Akun 1] Ready | 0xAddr"]);
    let mut m = machine(Engine::Cpu, 8);
    let s = step(&mut m, Event::Genesis(Ok(true)), true, 0);
    assert!(matches!(s.request, Request::Stop));
    assert_eq!(log(&s), vec!["out ✅ [Akun 1] Ready | 0xAddr"]);
}

#[test]
fn failed_calls_pause() {
    let mut m = machine(Engine::Cpu, 8);
    step(&mut m, Event::Genesis(Ok(true)), false, 0);
    let s = step(&mut m, Event::Block(Err("x".to_string())), false, 0);
    assert!(matches!(s.request, Request::Pause { secs: 5 }));
    assert_eq!(log(&s), vec!["err ❌ [Akun 1] block_number: x"]);
    let s = step(&mut m, Event::Resumed, false, 0);
    assert!(matches!(s.request, Request::BlockNumber));
    step(&mut m, Event::Block(Ok(1)), false, 0);
    let s = step(&mut m, Event::Challenge(Err("y".to_string())), false, 0);
    assert!(matches!(s.request, Request::Pause { secs: 5 }));
    assert_eq!(log(&s), vec!["err ❌ [Akun 1] getChallenge: y"]);
    step(&mut m, Event::Resumed, false, 0);
    step(&mut m, Event::Block(Ok(1)), false, 0);
    step(&mut m, Event::Challenge(Ok(CHALLENGE)), false, 0);
    let s = step(&mut m, Event::Difficulty(Err("z".to_string())), false, 0);
    assert_eq!(log(&s), vec!["err ❌ [Akun 1] difficulty: z"]);
    let s = step(&mut m, Event::Resumed, true, 0);
    assert!(matches!(s.request, Request::Stop));
    assert!(matches!(m.phase(), Phase::Stopped));
}

#[test]
fn cpu_finds_submits_and_confirms() {
    let mut m = machine(Engine::Cpu, 4096);
    let s = mining_from(&mut m, EASY, 41);
    assert_eq!(log(&s), vec!["out ⛏️  [Akun 1] epoch=12", "rate 4096"]);
    assert!(matches!(s.request, Request::Check));
    let s = step(&mut m, Event::Checked, false, 0);
    assert_eq!(log(&s), vec!["out 🎉 [Akun 1] Found nonce=41"]);
    match s.request {
        Request::Submit { nonce, priority_wei, max_fee_wei } => {
            assert_eq!((nonce, priority_wei, max_fee_wei), (41, 5_000_000_000, 100_000_000_000));
            assert!(is_solution(&CHALLENGE, &EASY, nonce));
        }
        other => panic!("{other:?}"),
    }
    let s = step(&mut m, Event::Sent(Ok("0xabc".to_string())), false, 0);
    assert!(matches!(s.request, Request::Receipt));
    assert_eq!(log(&s), vec!["out 📋 [Akun 1] TX: 0xabc"]);
    let s = step(
        &mut m,
        Event::Receipt(Ok(Receipt { status: true, block: Some(1300) })),
        false,
        0,
    );
    assert!(matches!(s.request, Request::Check));
    assert_eq!(
        log(&s),
        vec![
            "out ✅ [Akun 1] Confirmed block 1300",
            "solved",
            "tell ✅ *Solution Found!*\nAccount: `Akun 1`\nNonce: `41`\nTX: `0xabc`\nBlock: `1300`\n🔗 https://etherscan.io/tx/0xabc",
        ],
    );
    let s = step(&mut m, Event::Checked, false, 0);
    assert!(matches!(s.request, Request::BlockNumber));
    assert!(s.effects.is_empty());
}

#[test]
fn transactions_can_fail() {
    for (event, lines) in [
        (
            Event::Receipt(Ok(Receipt { status: false, block: None })),
            vec!["err ❌ [Akun 1] TX reverted", "tell ❌ *Error* — `Akun 1`\n`Transaction reverted`"],
        ),
        (
            Event::Receipt(Err("timeout".to_string())),
            vec!["err ❌ [Akun 1] receipt: timeout", "tell ❌ *Error* — `Akun 1`\n`Receipt: timeout`"],
        ),
    ] {
        let mut m = machine(Engine::Cpu, 4096);
        mining_from(&mut m, EASY, 0);
        step(&mut m, Event::Checked, false, 0);
        step(&mut m, Event::Sent(Ok("0xabc".to_string())), false, 0);
        let s = step(&mut m, event, false, 0);
        assert_eq!(log(&s), lines);
        assert!(matches!(s.request, Request::Check));
        let s = step(&mut m, Event::Checked, false, 0);
        assert!(matches!(s.request, Request::BlockNumber));
    }
    let mut m = machine(Engine::Cpu, 4096);
    mining_from(&mut m, EASY, 0);
    step(&mut m, Event::Checked, false, 0);
    let s = step(&mut m, Event::Sent(Err("no funds".to_string())), false, 0);
    assert_eq!(
        log(&s),
        vec!["err ❌ [Akun 1] send: no funds", "tell ❌ *Error* — `Akun 1`\n`TX send: no funds`"],
    );
    assert!(matches!(s.request, Request::Check));
    // A stop that comes while the chat is told of the failure is seen.
    let s = step(&mut m, Event::Checked, true, 0);
    assert!(matches!(s.request, Request::Stop));
}

#[test]
fn a_stop_during_the_batch_that_finds_a_nonce_is_seen() {
    let mut m = machine(Engine::Cpu, 4096);
    let s = mining_from(&mut m, EASY, 41);
    assert_eq!(log(&s), vec!["out ⛏️  [Akun 1] epoch=12", "rate 4096"]);
    assert!(matches!(m.phase(), Phase::Found { nonce: 41, .. }));
    let s = step(&mut m, Event::Checked, true, 0);
    assert!(s.effects.is_empty());
    assert!(matches!(s.request, Request::Stop));
    assert!(matches!(m.phase(), Phase::Stopped));
}

#[test]
fn receipt_without_block_counts_as_block_zero() {
    let mut m = machine(Engine::Cpu, 4096);
    mining_from(&mut m, EASY, 0);
    step(&mut m, Event::Checked, false, 0);
    step(&mut m, Event::Sent(Ok("h".to_string())), false, 0);
    let s = step(&mut m, Event::Receipt(Ok(Receipt { status: true, block: None })), true, 0);
    assert_eq!(log(&s)[0], "out ✅ [Akun 1] Confirmed block 0");
    let s = step(&mut m, Event::Checked, true, 0);
    assert!(matches!(s.request, Request::Stop));
}

#[test]
fn cpu_batches_cover_consecutive_windows_and_are_counted() {
    // The counters are brought up to date once 4 * 3000 hashes are pending.
    let mut m = machine(Engine::Cpu, 3000);
    let s = mining_from(&mut m, HOPELESS, u64::MAX);
    assert!(matches!(s.request, Request::Yield));
    let mut reported = 0u64;
    let mut batches = 1u64;
    while batches < 32 {
        let round = round_of(&m);
        assert_eq!(round.batches, batches);
        assert_eq!(round.cursor, u64::MAX.wrapping_add(batches * CPU_BATCH));
        let s = step(&mut m, Event::Yielded, false, 0);
        for e in &s.effects {
            match e {
                Effect::Rate(n) => {
                    assert_eq!(*n, 3 * CPU_BATCH);
                    reported += n;
                }
                other => panic!("{other:?}"),
            }
        }
        assert!(matches!(s.request, Request::Yield));
        batches += 1;
    }
    // After thirty-two batches the epoch is looked at.
    let s = step(&mut m, Event::Yielded, false, 0);
    assert!(matches!(s.request, Request::Probe));
    let s = step(&mut m, Event::Probe(None), false, 0);
    assert!(matches!(s.request, Request::Yield));
    assert_eq!(round_of(&m).batches, 33);
    let s = step(&mut m, Event::Yielded, true, 0);
    assert!(matches!(s.request, Request::Stop));
    for e in &s.effects {
        if let Effect::Rate(n) = e {
            reported += n;
        }
    }
    assert_eq!(reported, 33 * CPU_BATCH);
}

#[test]
fn gpu_batches_are_counted_by_fours() {
    let mut m = machine(Engine::Gpu, 1000);
    let s = mining_from(&mut m, EASY, 5);
    match s.request {
        Request::GpuBatch { challenge, difficulty, start } => {
            assert_eq!((challenge, difficulty, start), (CHALLENGE, EASY, 5));
        }
        other => panic!("{other:?}"),
    }
    for k in 1..=32u64 {
        let outcome = match k % 3 {
            0 => GpuOutcome::Empty,
            1 => GpuOutcome::Failed("busy".to_string()),
            _ => GpuOutcome::Lost("panic".to_string()),
        };
        let s = step(&mut m, Event::Gpu(outcome), false, 0);
        let mut lines = match k % 3 {
            0 => vec![],
            1 => vec!["err ⚠️ [Akun 1] GPU error: busy"],
            _ => vec!["err ⚠️ [Akun 1] spawn_blocking: panic"],
        };
        if k % 4 == 0 {
            lines.push("rate 4000");
        }
        assert_eq!(log(&s), lines);
        if k < 32 {
            assert!(matches!(s.request, Request::GpuBatch { start, .. } if start == 5 + k * 1000));
        } else {
            assert!(matches!(s.request, Request::Probe));
        }
    }
    // Still the same epoch: the round goes on.
    let s = step(&mut m, Event::Probe(Some(1299)), false, 0);
    assert!(matches!(s.request, Request::GpuBatch { start: 32005, .. }));
    let s = step(&mut m, Event::Gpu(GpuOutcome::Found(32777)), false, 0);
    assert_eq!(log(&s), vec!["rate 1000", "out 🎉 [Akun 1] Found nonce=32777"]);
    assert!(matches!(s.request, Request::Submit { nonce: 32777, .. }));
}

#[test]
fn gpu_nonces_are_checked() {
    let mut m = machine(Engine::Gpu, 1000);
    let mut hard = [0u8; 32];
    hard[1] = 1;
    mining_from(&mut m, hard, 0);
    let good = search_batch(&CHALLENGE, &hard, 0, 4_000_000).unwrap();
    let bad = good.wrapping_add(1);
    assert!(!is_solution(&CHALLENGE, &hard, bad));
    let s = step(&mut m, Event::Gpu(GpuOutcome::Found(bad)), false, 0);
    assert_eq!(log(&s), vec![format!("err ⚠️ [Akun 1] GPU error: CPU check rejects nonce={bad}")]);
    assert!(matches!(s.request, Request::GpuBatch { start: 1000, .. }));
    let s = step(&mut m, Event::Gpu(GpuOutcome::Found(good)), false, 0);
    assert!(matches!(s.request, Request::Submit { nonce, .. } if nonce == good));
}

#[test]
fn the_cpu_submits_the_first_solution_of_its_window() {
    let mut hard = [0u8; 32];
    hard[1] = 8;
    let first = search_batch(&CHALLENGE, &hard, 0, 4_000_000).unwrap();
    let mut m = machine(Engine::Cpu, 4096);
    let mut s = mining_from(&mut m, hard, 0);
    loop {
        s = match s.request {
            Request::Yield => step(&mut m, Event::Yielded, false, 0),
            Request::Probe => step(&mut m, Event::Probe(Some(1299)), false, 0),
            Request::Check => step(&mut m, Event::Checked, false, 0),
            Request::Submit { nonce, .. } => {
                assert_eq!(nonce, first);
                break;
            }
            other => panic!("{other:?}"),
        };
    }
}

#[test]
fn another_epoch_ends_the_round() {
    let mut m = machine(Engine::Gpu, 10);
    mining_from(&mut m, HOPELESS, 0);
    for _ in 0..32 {
        step(&mut m, Event::Gpu(GpuOutcome::Empty), false, 0);
    }
    let s = step(&mut m, Event::Probe(Some(1300)), false, 0);
    assert_eq!(log(&s), vec!["out 🔄 [Akun 1] epoch changed, restarting"]);
    assert!(matches!(s.request, Request::BlockNumber));
}

#[test]
fn a_stopping_program_submits_nothing() {
    let mut m = machine(Engine::Gpu, 10);
    mining_from(&mut m, EASY, 0);
    let s = step(&mut m, Event::Gpu(GpuOutcome::Found(3)), true, 0);
    assert_eq!(log(&s), vec!["rate 10"]);
    assert!(matches!(s.request, Request::Stop));
    assert!(!m.accepts(&Event::Resumed));
    let mut m = machine(Engine::Cpu, 10);
    step(&mut m, Event::Genesis(Ok(true)), false, 0);
    let mut steps = 0;
    for event in [
        Event::Block(Ok(1)),
        Event::Challenge(Ok(CHALLENGE)),
        Event::Difficulty(Ok(EASY)),
    ] {
        step(&mut m, event, true, 0);
        steps += 1;
    }
    assert_eq!(steps, 3);
    assert!(matches!(m.phase(), Phase::Stopped));
}

#[test]
fn events_must_fit() {
    let m = machine(Engine::Cpu, 10);
    assert!(m.accepts(&Event::Genesis(Ok(true))));
    assert!(!m.accepts(&Event::Yielded));
    assert!(!m.accepts(&Event::Block(Ok(1))));
}

#[test]
fn rounds_start_at_random_nonces() {
    let mut seen = vec![];
    for _ in 0..4 {
        let mut m = machine(Engine::Gpu, 10);
        m.step(Event::Genesis(Ok(true)), false);
        m.step(Event::Block(Ok(1)), false);
        m.step(Event::Challenge(Ok(CHALLENGE)), false);
        let s = m.step(Event::Difficulty(Ok(HOPELESS)), false);
        match s.request {
            Request::GpuBatch { start, .. } => seen.push(start),
            other => panic!("{other:?}"),
        }
    }
    assert!(seen.iter().any(|n| *n != seen[0]));
}

#[test]
fn a_batch_size_of_zero_is_flushed_at_once() {
    let mut m = machine(Engine::Gpu, 0);
    mining_from(&mut m, HOPELESS, 9);
    let s = step(&mut m, Event::Gpu(GpuOutcome::Empty), false, 0);
    assert_eq!(log(&s), vec!["rate 0"]);
    assert!(matches!(s.request, Request::GpuBatch { start: 9, .. }));
}

#[test]
fn batch_sizes_have_a_limit() {
    // The genesis is looked at whatever the batch size; only a batch needs room.
    for (engine, batch, room) in [
        (Engine::Gpu, usize::MAX / 4, true),
        (Engine::Gpu, usize::MAX / 4 + 1, false),
        (Engine::Cpu, usize::MAX / 4, true),
        (Engine::Cpu, usize::MAX / 4 + 1, false),
    ] {
        let mut m = machine(engine, batch);
        mining_from(&mut m, HOPELESS, 0);
        let event = match engine {
            Engine::Gpu => Event::Gpu(GpuOutcome::Empty),
            Engine::Cpu => Event::Yielded,
        };
        assert_eq!(m.accepts(&event), room);
    }
}

#[test]
fn every_transaction_is_accounted_for() {
    let mut m = machine(Engine::Cpu, 4096);
    let mut s = mining_from(&mut m, EASY, 0);
    let (mut submitted, mut solved, mut told) = (0, 0, 0);
    for k in 0..60u64 {
        let event = match s.request {
            Request::BlockNumber => Event::Block(Ok(k)),
            Request::Challenge => Event::Challenge(Ok(CHALLENGE)),
            Request::Difficulty => Event::Difficulty(Ok(EASY)),
            Request::Check => Event::Checked,
            Request::Submit { .. } => {
                submitted += 1;
                match submitted % 3 {
                    0 => Event::Sent(Err("x".to_string())),
                    _ => Event::Sent(Ok("h".to_string())),
                }
            }
            Request::Receipt => {
                Event::Receipt(Ok(Receipt { status: submitted % 3 == 1, block: Some(k) }))
            }
            other => panic!("{other:?}"),
        };
        s = step(&mut m, event, false, k);
        for line in log(&s) {
            solved += (line == "solved") as u64;
            told += line.starts_with("tell") as u64;
        }
    }
    assert!(!matches!(m.phase(), Phase::Submit { .. } | Phase::Receipt { .. }));
    assert_eq!((submitted, told), (9, 9));
    assert_eq!(solved, 3);
}

#[test]
fn cpu_stands_in_for_the_gpu() {
    let (engine, name) = choose_engine(Ok("RTX PRO 6000 WS".to_string()));
    assert_eq!((engine, name.as_str()), (Engine::Gpu, "RTX PRO 6000 WS"));
    let (engine, name) = choose_engine(Err("no OpenCL device found".to_string()));
    assert_eq!((engine, name.as_str()), (Engine::Cpu, "CPU only"));
}

#[test]
fn setup_failures_are_reported() {
    let report = |e: SetupError| {
        log(&Step { effects: setup_failed(&bot(), "Akun 1", &e), request: Request::Stop })
    };
    assert_eq!(
        report(SetupError::KeyLength),
        vec![
            "err ❌ [Akun 1] invalid private key length",
            "tell ❌ *Error* — `Akun 1`\n`Invalid private key length`",
        ],
    );
    assert_eq!(
        report(SetupError::Key("odd".to_string())),
        vec!["err ❌ [Akun 1] key parse: odd", "tell ❌ *Error* — `Akun 1`\n`odd`"],
    );
    assert_eq!(
        report(SetupError::Endpoint("bad".to_string())),
        vec!["err ❌ [Akun 1] RPC URL: bad", "tell ❌ *Error* — `Akun 1`\n`bad`"],
    );
}

#[test]
fn calls_that_open_a_round_are_tried_three_times() {
    for request in
        [Request::Genesis, Request::BlockNumber, Request::Challenge, Request::Difficulty]
    {
        assert_eq!(request.attempts(), 3);
    }
    for request in [
        Request::Probe,
        Request::Submit { nonce: 1, priority_wei: 2, max_fee_wei: 3 },
        Request::Receipt,
        Request::GpuBatch { challenge: CHALLENGE, difficulty: EASY, start: 0 },
    ] {
        assert_eq!(request.attempts(), 1);
    }
}
