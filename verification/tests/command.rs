use hash_miner::command::{handle_update, next_offset, parse_command, Command, Reply};
use hash_miner::json::Json;
use hash_miner::telegram::{
    main_menu_keyboard, StatEntry, TelegramBot, TgCallback, TgChat, TgMessage, TgUpdate,
};

const CHAT: i64 = 5051864490;

fn message(chat: i64, text: Option<&str>) -> TgUpdate {
    TgUpdate {
        update_id: 1,
        message: Some(TgMessage { chat: TgChat { id: chat }, text: text.map(|t| t.to_string()) }),
        callback_query: None,
    }
}

fn press(chat: i64, data: Option<&str>) -> TgUpdate {
    TgUpdate {
        update_id: 1,
        message: None,
        callback_query: Some(TgCallback {
            id: "cb".to_string(),
            from: TgChat { id: chat },
            data: data.map(|t| t.to_string()),
        }),
    }
}

fn handle(upd: &TgUpdate) -> Reply {
    let bot = TelegramBot::new("T".to_string(), CHAT.to_string());
    let entries =
        [StatEntry { label: "Akun 1".to_string(), hashrate: "1.5".to_string(), solutions: 3 }];
    handle_update(&bot, upd, &entries, "1.5", 61, CHAT, "CPU only")
}

fn member(json: &Json, key: &str) -> Option<String> {
    match json {
        Json::Object(members) => members.iter().find(|(k, _)| k == key).map(|(_, v)| match v {
            Json::Text(s) => s.clone(),
            Json::Number(n) => n.to_string(),
            other => format!("{other:?}"),
        }),
        _ => None,
    }
}

fn answer(text: &str) -> String {
    let r = handle(&message(CHAT, Some(text)));
    assert_eq!(r.requests.len(), 1);
    assert_eq!(member(&r.requests[0].body, "chat_id"), Some(CHAT.to_string()));
    member(&r.requests[0].body, "text").unwrap()
}

#[test]
fn commands_are_read_in_every_form() {
    for (text, command) in [
        ("/start", Command::Help),
        ("help", Command::Help),
        ("/status", Command::Status),
        ("/status@MyBot", Command::Status),
        ("  //stats  now please", Command::Stats),
        ("cmd_status", Command::Status),
        ("cmd_accounts", Command::Accounts),
        ("cmd_stats", Command::Stats),
        ("/accounts\n", Command::Accounts),
        ("/stop@A@B", Command::Stop),
        ("cmd_stop", Command::Stop),
        ("/Status", Command::Unknown),
        ("@MyBot", Command::Unknown),
        ("/", Command::Unknown),
        ("", Command::Unknown),
        ("mohon /status", Command::Unknown),
        ("/cmd_help", Command::Unknown),
    ] {
        assert_eq!(parse_command(text), command, "{text:?}");
    }
}

#[test]
fn answers() {
    assert_eq!(
        answer("/help"),
        "🚀 *HASH Multi-Account Miner*\nGPU: `CPU only`\nPilih perintah di bawah atau ketik langsung:\n\n/status — status ringkas\n/accounts — daftar semua akun\n/stats — stats lengkap\n/stop — hentikan miner\n/help — menu ini",
    );
    assert_eq!(
        answer("/status"),
        "📊 *Status Miner*\n⏱ Uptime: `0j 1m 1s`\n🎮 GPU: `CPU only`\n👥 Akun aktif: `1/1`\n⚡ Total: `1.5 MH/s`\n✅ Total solusi: `3`",
    );
    assert_eq!(answer("/accounts"), "👥 *Daftar Akun* (1 aktif)\n\n1. `Akun 1` | 1.5 MH/s | 3 ✅");
    assert_eq!(
        answer("/stats"),
        "📊 *Stats Update* (1m 1s)\n  `Akun 1`: 1.5 MH/s | 3 ✅\n─────────────────────\nTotal: `1.5 MH/s` | `3` solutions",
    );
    assert_eq!(answer("/stop"), "🛑 *Menghentikan semua miner...*\nTunggu beberapa detik.");
    assert_eq!(answer("apa"), "❓ Perintah tidak dikenal. Ketik /help untuk daftar perintah.");
}

#[test]
fn buttons_stand_below_answers() {
    let menu = format!("{:?}", main_menu_keyboard());
    for (text, shown) in
        [("/help", true), ("/status", true), ("/accounts", true), ("/stats", true), ("/stop", false), ("x", false)]
    {
        let r = handle(&message(CHAT, Some(text)));
        let keyboard = member(&r.requests[0].body, "reply_markup");
        assert_eq!(keyboard, if shown { Some(menu.clone()) } else { None }, "{text}");
    }
}

#[test]
fn button_presses_are_answered_first() {
    let r = handle(&press(CHAT, Some("cmd_stats")));
    assert_eq!(r.requests.len(), 2);
    assert_eq!(r.requests[0].url, "https://api.telegram.org/botT/answerCallbackQuery");
    assert_eq!(member(&r.requests[0].body, "callback_query_id"), Some("cb".to_string()));
    assert!(member(&r.requests[1].body, "text").unwrap().starts_with("📊 *Stats Update*"));
    let empty = handle(&press(CHAT, None));
    assert_eq!(empty.requests.len(), 2);
    assert!(member(&empty.requests[1].body, "text").unwrap().starts_with("❓"));
}

#[test]
fn only_the_configured_chat_is_heard() {
    for upd in [
        message(CHAT + 1, Some("/stop")),
        press(1, Some("cmd_stop")),
        TgUpdate { update_id: 1, message: None, callback_query: None },
    ] {
        let r = handle(&upd);
        assert!(r.requests.is_empty());
        assert!(!r.shutdown);
    }
}

#[test]
fn only_stop_stops() {
    assert!(handle(&message(CHAT, Some("/stop"))).shutdown);
    assert!(handle(&press(CHAT, Some("cmd_stop"))).shutdown);
    for text in ["/start", "/help", "/status", "/accounts", "/stats", "", "stopp"] {
        assert!(!handle(&message(CHAT, Some(text))).shutdown, "{text}");
    }
    assert!(!handle(&message(CHAT, None)).shutdown);
}

#[test]
fn messages_count_before_presses() {
    let mut upd = press(CHAT, Some("cmd_stop"));
    upd.message = message(CHAT, Some("/help")).message;
    let r = handle(&upd);
    assert!(!r.shutdown);
    assert_eq!(r.requests.len(), 1);
}

#[test]
fn offsets_move_past_the_last_update() {
    let update = |id: i64| TgUpdate { update_id: id, message: None, callback_query: None };
    assert_eq!(next_offset(0, &[]), 0);
    assert_eq!(next_offset(12, &[]), 12);
    assert_eq!(next_offset(0, &[update(7), update(9)]), 10);
    assert_eq!(next_offset(50, &[update(3)]), 4);
}
