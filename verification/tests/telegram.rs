use hash_miner::json::Json;
use hash_miner::session::{closing_request, interval_request, opening_requests};
use hash_miner::stats::{collect_stats, console_report, AccountStats, MIN_WINDOW_NANOS};
use hash_miner::telegram::{
    format_accounts, format_stats, format_status, main_menu_keyboard, sum_solutions, ApiRequest,
    StatEntry, TelegramBot,
};

fn render(json: &Json) -> String {
    match json {
        Json::Text(s) => format!("{s:?}"),
        Json::Number(n) => n.to_string(),
        Json::List(items) => {
            format!("[{}]", items.iter().map(render).collect::<Vec<_>>().join(","))
        }
        Json::Object(members) => format!(
            "{{{}}}",
            members.iter().map(|(k, v)| format!("{k:?}:{}", render(v))).collect::<Vec<_>>().join(","),
        ),
    }
}

fn text_of(json: &Json) -> String {
    match json {
        Json::Object(members) => match members.iter().find(|(k, _)| k == "text") {
            Some((_, Json::Text(s))) => s.clone(),
            other => panic!("{other:?}"),
        },
        other => panic!("{other:?}"),
    }
}

fn bot() -> TelegramBot {
    TelegramBot::new("TOKEN".to_string(), "5051864490".to_string())
}

fn entries() -> Vec<StatEntry> {
    vec![
        StatEntry { label: "Akun 1".to_string(), hashrate: "45.2".to_string(), solutions: 2 },
        StatEntry { label: "Akun 2".to_string(), hashrate: "44.8".to_string(), solutions: 21 },
    ]
}

#[test]
fn addresses_of_methods() {
    assert_eq!(bot().api("getMe"), "https://api.telegram.org/botTOKEN/getMe");
}

#[test]
fn push_to_the_configured_chat() {
    let r = bot().send("halo");
    assert_eq!(r.url, "https://api.telegram.org/botTOKEN/sendMessage");
    assert_eq!(r.timeout_secs, 10);
    assert_eq!(
        render(&r.body),
        r#"{"chat_id":"5051864490","text":"halo","parse_mode":"Markdown"}"#,
    );
}

#[test]
fn reply_to_any_chat() {
    let plain = bot().send_to(-7, "a", None);
    assert_eq!(render(&plain.body), r#"{"chat_id":-7,"text":"a","parse_mode":"Markdown"}"#);
    let with_buttons = bot().send_to(7, "a", Some(Json::list().item(Json::text("k"))));
    assert_eq!(
        render(&with_buttons.body),
        r#"{"chat_id":7,"text":"a","parse_mode":"Markdown","reply_markup":["k"]}"#,
    );
}

#[test]
fn failed_requests_are_reported() {
    let line = |r: ApiRequest| r.failure_line("timed out");
    assert_eq!(line(bot().send("a")).as_deref(), Some("[Telegram] send failed: timed out"));
    assert_eq!(
        line(bot().send_to(7, "a", None)).as_deref(),
        Some("[Telegram] send_to failed: timed out"),
    );
    assert_eq!(
        line(bot().set_commands()).as_deref(),
        Some("[Telegram] setMyCommands failed: timed out"),
    );
    assert_eq!(line(bot().poll_updates(0)), None);
    assert_eq!(line(bot().answer_callback("q")), None);
}

#[test]
fn menu_of_commands() {
    let r = bot().set_commands();
    assert_eq!(r.url, "https://api.telegram.org/botTOKEN/setMyCommands");
    assert_eq!(
        render(&r.body),
        "{\"commands\":[{\"command\":\"start\",\"description\":\"Menu utama\"},\
         {\"command\":\"status\",\"description\":\"Status ringkas miner\"},\
         {\"command\":\"accounts\",\"description\":\"Daftar semua akun & hashrate\"},\
         {\"command\":\"stats\",\"description\":\"Stats lengkap semua akun\"},\
         {\"command\":\"help\",\"description\":\"Bantuan & daftar perintah\"}]}",
    );
}

#[test]
fn long_poll() {
    let r = bot().poll_updates(42);
    assert_eq!(r.url, "https://api.telegram.org/botTOKEN/getUpdates");
    assert_eq!(r.timeout_secs, 40);
    assert_eq!(
        render(&r.body),
        r#"{"offset":42,"timeout":30,"allowed_updates":["message","callback_query"]}"#,
    );
}

#[test]
fn answer_to_a_button() {
    let r = bot().answer_callback("cb-1");
    assert_eq!(r.url, "https://api.telegram.org/botTOKEN/answerCallbackQuery");
    assert_eq!(render(&r.body), r#"{"callback_query_id":"cb-1"}"#);
}

#[test]
fn main_menu() {
    assert_eq!(
        render(&main_menu_keyboard()),
        "{\"inline_keyboard\":[[{\"text\":\"📊 Status\",\"callback_data\":\"cmd_status\"},\
         {\"text\":\"👥 Accounts\",\"callback_data\":\"cmd_accounts\"}],\
         [{\"text\":\"📈 Stats Lengkap\",\"callback_data\":\"cmd_stats\"},\
         {\"text\":\"🔄 Refresh\",\"callback_data\":\"cmd_status\"}]]}",
    );
}

#[test]
fn notices() {
    let labels = vec!["Akun 1".to_string(), "Akun 2".to_string()];
    assert_eq!(
        text_of(&bot().notify_start(&labels, "RTX").body),
        "🚀 *HASH Miner Started*\nGPU: `RTX`\nAccounts: 2\n\n  1. Akun 1\n  2. Akun 2\n\nKetik /help untuk daftar perintah.",
    );
    assert_eq!(
        text_of(&bot().notify_solution("Akun 3", "12345678", "0xabcdef", 99).body),
        "✅ *Solution Found!*\nAccount: `Akun 3`\nNonce: `12345678`\nTX: `0xabcdef`\nBlock: `99`\n🔗 https://etherscan.io/tx/0xabcdef",
    );
    assert_eq!(text_of(&bot().notify_error("Akun 1", "gagal").body), "❌ *Error* — `Akun 1`\n`gagal`");
    assert_eq!(text_of(&bot().notify_stopped().body), "🛑 *Miner stopped*");
}

#[test]
fn full_report() {
    assert_eq!(
        format_stats(&entries(), "90.0", 60),
        "📊 *Stats Update* (1m 0s)\n  `Akun 1`: 45.2 MH/s | 2 ✅\n  `Akun 2`: 44.8 MH/s | 21 ✅\n─────────────────────\nTotal: `90.0 MH/s` | `23` solutions",
    );
    assert_eq!(
        format_stats(&[], "0.0", 3725),
        "📊 *Stats Update* (62m 5s)\n\n─────────────────────\nTotal: `0.0 MH/s` | `0` solutions",
    );
}

#[test]
fn short_report() {
    assert_eq!(
        format_status(&entries(), "90.0", 3725, "CPU only"),
        "📊 *Status Miner*\n⏱ Uptime: `1j 2m 5s`\n🎮 GPU: `CPU only`\n👥 Akun aktif: `2/2`\n⚡ Total: `90.0 MH/s`\n✅ Total solusi: `23`",
    );
}

#[test]
fn list_of_accounts() {
    assert_eq!(format_accounts(&[]), "👥 *Accounts*\nBelum ada akun aktif.");
    assert_eq!(
        format_accounts(&entries()),
        "👥 *Daftar Akun* (2 aktif)\n\n1. `Akun 1` | 45.2 MH/s | 2 ✅\n2. `Akun 2` | 44.8 MH/s | 21 ✅",
    );
}

#[test]
fn report_needs_an_account() {
    assert!(bot().notify_stats(&[], "0.0", 60).is_none());
    let r = bot().notify_stats(&entries(), "90.0", 60).unwrap();
    assert_eq!(text_of(&r.body), format_stats(&entries(), "90.0", 60));
    assert_eq!(sum_solutions(&entries()), 23);
}

#[test]
fn session_messages() {
    let labels = vec!["Akun 1".to_string()];
    assert!(opening_requests(&bot(), false, &labels, "RTX").is_empty());
    let opening = opening_requests(&bot(), true, &labels, "RTX");
    assert_eq!(opening.len(), 2);
    assert!(opening[0].url.ends_with("/setMyCommands"));
    assert!(text_of(&opening[1].body).starts_with("🚀 *HASH Miner Started*\nGPU: `RTX`"));
    assert!(interval_request(&bot(), false, &entries(), "90.0", 60).is_none());
    assert!(interval_request(&bot(), true, &[], "90.0", 60).is_none());
    let report = interval_request(&bot(), true, &entries(), "90.0", 60).unwrap();
    assert_eq!(text_of(&report.body), format_stats(&entries(), "90.0", 60));
    assert!(closing_request(&bot(), false).is_none());
    assert_eq!(text_of(&closing_request(&bot(), true).unwrap().body), "🛑 *Miner stopped*");
}

#[test]
fn counters() {
    let mut s = AccountStats::new("Akun 1".to_string(), 1_000);
    assert_eq!((s.hashes, s.solutions, s.window_hashes, s.window_nanos), (0, 0, 0, MIN_WINDOW_NANOS));
    s.update_rate(500, 2_000_001_000);
    assert_eq!((s.hashes, s.window_hashes, s.window_nanos), (500, 500, 2_000_000_000));
    // A window is never shorter than a millisecond.
    s.update_rate(7, 2_000_001_001);
    assert_eq!((s.hashes, s.window_hashes, s.window_nanos), (507, 7, 1_000_000));
    s.update_rate(1, 5);
    assert_eq!((s.hashes, s.last_update, s.window_nanos), (508, 5, 1_000_000));
    s.record_solution();
    assert_eq!((s.hashes, s.solutions), (508, 1));
    assert_eq!(s.label, "Akun 1");
}

#[test]
fn counters_become_a_report() {
    let mut a = AccountStats::new("Akun 1".to_string(), 0);
    a.record_solution();
    let b = AccountStats::new("Akun 2".to_string(), 0);
    let rates = vec!["   45.20".to_string(), "    0.00".to_string()];
    let taken = collect_stats(&[a, b], &rates);
    assert_eq!(taken.len(), 2);
    assert_eq!((taken[0].label.as_str(), taken[0].hashrate.as_str(), taken[0].solutions), ("Akun 1", "   45.20", 1));
    assert_eq!(
        console_report(&taken, "45.20", "60"),
        "\n📊 Stats (60s elapsed):\n   Akun 1               |    45.20 MH/s | 1 solutions\n   Akun 2               |     0.00 MH/s | 0 solutions\n   Total: 45.20 MH/s | 1 solutions\n",
    );
    assert_eq!(
        console_report(&[], "0.00", "1"),
        "\n📊 Stats (1s elapsed):\n   Total: 0.00 MH/s | 0 solutions\n",
    );
}
