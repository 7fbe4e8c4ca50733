//! The Telegram bot: the updates it receives, the texts it writes and the requests it makes.
use vstd::prelude::*;

use crate::json::{Json, JsonView};
use crate::text::{decimal, decimal_text, join_lines, joined, texts};

verus! {

/// How long an ordinary request may take, in seconds.
pub const REQUEST_TIMEOUT_SECS: u64 = 10;

/// How long a long-poll request may take, in seconds.
pub const POLL_TIMEOUT_SECS: u64 = 40;

/// How long the server holds a long-poll request open, in seconds.
pub const LONG_POLL_SECS: i64 = 30;

/// One update from the bot interface.
#[derive(Debug)]
pub struct TgUpdate {
    pub update_id: i64,
    pub message: Option<TgMessage>,
    pub callback_query: Option<TgCallback>,
}

/// A message that was sent to the bot.
#[derive(Debug)]
pub struct TgMessage {
    pub chat: TgChat,
    pub text: Option<String>,
}

/// A press of an inline button.
#[derive(Debug)]
pub struct TgCallback {
    pub id: String,
    pub from: TgChat,
    pub data: Option<String>,
}

/// A chat or a user.
#[derive(Debug)]
pub struct TgChat {
    pub id: i64,
}

/// What a request to the bot interface is made for.
#[derive(Clone, Copy, Debug, PartialEq, Eq, Structural)]
pub enum ApiCall {
    /// A message to the configured chat.
    Send,
    /// A message to any chat.
    SendTo,
    /// The commands of the bot's menu.
    SetCommands,
    /// A long poll for updates.
    Poll,
    /// The answer to a press of a button.
    AnswerCallback,
}

/// A request to the bot interface: a JSON body to post, and how long the answer may take.
#[derive(Debug)]
pub struct ApiRequest {
    pub call: ApiCall,
    pub url: String,
    pub timeout_secs: u64,
    pub body: Json,
}

/// What an [`ApiRequest`] stands for.
pub struct ApiRequestView {
    pub call: ApiCall,
    pub url: Seq<char>,
    pub timeout_secs: u64,
    pub body: JsonView,
}

impl View for ApiRequest {
    type V = ApiRequestView;

    open spec fn view(&self) -> ApiRequestView {
        ApiRequestView {
            call: self.call,
            url: self.url@,
            timeout_secs: self.timeout_secs,
            body: self.body@,
        }
    }
}

impl ApiRequest {
    /// The line about the request when it failed with `error`, where there is one.
    pub fn failure_line(&self, error: &str) -> (r: Option<String>)
        ensures
            match r {
                Some(line) => call_failure(self.call, error@) == Some(line@),
                None => call_failure(self.call, error@) is None,
            },
    {
        let mut line = match self.call {
            ApiCall::Send => "[Telegram] send failed: ".to_owned(),
            ApiCall::SendTo => "[Telegram] send_to failed: ".to_owned(),
            ApiCall::SetCommands => "[Telegram] setMyCommands failed: ".to_owned(),
            ApiCall::Poll | ApiCall::AnswerCallback => {
                return None;
            },
        };
        line.append(error);
        Some(line)
    }
}

/// One account in a report. The hash rate is rendered, in millions of hashes per second.
#[derive(Debug)]
pub struct StatEntry {
    pub label: String,
    pub hashrate: String,
    pub solutions: u64,
}

/// What a [`StatEntry`] stands for.
pub struct EntryView {
    pub label: Seq<char>,
    pub hashrate: Seq<char>,
    pub solutions: u64,
}

impl View for StatEntry {
    type V = EntryView;

    open spec fn view(&self) -> EntryView {
        EntryView { label: self.label@, hashrate: self.hashrate@, solutions: self.solutions }
    }
}

/// What the entries of a report stand for.
pub open spec fn entries_view(entries: Seq<StatEntry>) -> Seq<EntryView> {
    entries.map_values(|e: StatEntry| e@)
}

/// The solutions of all accounts together.
pub open spec fn total_solutions(entries: Seq<EntryView>) -> nat
    decreases entries.len(),
{
    if entries.len() == 0 {
        0
    } else {
        total_solutions(entries.drop_last()) + entries.last().solutions as nat
    }
}

/// The total over a part of the accounts is no more than the total over all.
proof fn lemma_total_prefix(entries: Seq<EntryView>, n: int)
    requires
        0 <= n <= entries.len(),
    ensures
        total_solutions(entries.take(n)) <= total_solutions(entries),
    decreases entries.len() - n,
{
    if n == entries.len() {
        assert(entries.take(n) == entries);
    } else {
        lemma_total_prefix(entries, n + 1);
        assert(entries.take(n + 1).drop_last() == entries.take(n));
    }
}

/// Adds up the solutions of all accounts.
pub fn sum_solutions(entries: &[StatEntry]) -> (r: u64)
    requires
        total_solutions(entries_view(entries@)) <= u64::MAX,
    ensures
        r == total_solutions(entries_view(entries@)),
{
    let ghost all = entries_view(entries@);
    let mut total: u64 = 0;
    let mut i: usize = 0;
    while i < entries.len()
        invariant
            i <= entries@.len(),
            all == entries_view(entries@),
            total_solutions(all) <= u64::MAX,
            total == total_solutions(all.take(i as int)),
        decreases entries.len() - i,
    {
        proof {
            let t = all.take(i as int + 1);
            assert(t.drop_last() == all.take(i as int));
            assert(t.last() == entries@[i as int]@);
            lemma_total_prefix(all, i as int + 1);
        }
        total = total + entries[i].solutions;
        i += 1;
    }
    proof {
        assert(all.take(all.len() as int) == all);
    }
    total
}

// ---- Reports ----

/// The line of one account in the full report.
pub open spec fn stats_row(e: EntryView) -> Seq<char> {
    "  `"@ + e.label + "`: "@ + e.hashrate + " MH/s | "@ + decimal(e.solutions as nat) + " ✅"@
}

/// The full report.
pub open spec fn stats_text(
    entries: Seq<EntryView>,
    total_rate: Seq<char>,
    elapsed_secs: u64,
) -> Seq<char> {
    "📊 *Stats Update* ("@ + decimal((elapsed_secs / 60) as nat) + "m "@ + decimal(
        (elapsed_secs % 60) as nat,
    ) + "s)\n"@ + joined(entries.map_values(|e: EntryView| stats_row(e)), "\n"@)
        + "\n─────────────────────\nTotal: `"@ + total_rate + " MH/s` | `"@ + decimal(
        total_solutions(entries),
    ) + "` solutions"@
}

/// The short report.
pub open spec fn status_text(
    entries: Seq<EntryView>,
    total_rate: Seq<char>,
    elapsed_secs: u64,
    gpu_name: Seq<char>,
) -> Seq<char> {
    "📊 *Status Miner*\n⏱ Uptime: `"@ + decimal((elapsed_secs / 3600) as nat) + "j "@
        + decimal(((elapsed_secs % 3600) / 60) as nat) + "m "@ + decimal((elapsed_secs % 60) as nat)
        + "s`\n🎮 GPU: `"@ + gpu_name + "`\n👥 Akun aktif: `"@ + decimal(entries.len()) + "/"@
        + decimal(entries.len()) + "`\n⚡ Total: `"@ + total_rate
        + " MH/s`\n✅ Total solusi: `"@ + decimal(total_solutions(entries)) + "`"@
}

/// The line of the account at place `i` in the list of accounts.
pub open spec fn account_row(i: int, e: EntryView) -> Seq<char> {
    decimal((i + 1) as nat) + ". `"@ + e.label + "` | "@ + e.hashrate + " MH/s | "@ + decimal(
        e.solutions as nat,
    ) + " ✅"@
}

/// The list of accounts.
pub open spec fn accounts_text(entries: Seq<EntryView>) -> Seq<char> {
    if entries.len() == 0 {
        "👥 *Accounts*\nBelum ada akun aktif."@
    } else {
        "👥 *Daftar Akun* ("@ + decimal(entries.len()) + " aktif)\n\n"@ + joined(
            entries.map(|i: int, e: EntryView| account_row(i, e)),
            "\n"@,
        )
    }
}

/// Writes the full report.
pub fn format_stats(entries: &[StatEntry], total_rate: &str, elapsed_secs: u64) -> (r: String)
    requires
        total_solutions(entries_view(entries@)) <= u64::MAX,
    ensures
        r@ == stats_text(entries_view(entries@), total_rate@, elapsed_secs),
{
    let ghost all = entries_view(entries@).map_values(|e: EntryView| stats_row(e));
    let mut rows: Vec<String> = Vec::new();
    let mut i: usize = 0;
    while i < entries.len()
        invariant
            i <= entries@.len(),
            all == entries_view(entries@).map_values(|e: EntryView| stats_row(e)),
            texts(rows@) == all.take(i as int),
        decreases entries.len() - i,
    {
        let mut row = "  `".to_owned();
        row.append(entries[i].label.as_str());
        row.append("`: ");
        row.append(entries[i].hashrate.as_str());
        row.append(" MH/s | ");
        row.append(decimal_text(entries[i].solutions).as_str());
        row.append(" ✅");
        let ghost before = rows@;
        rows.push(row);
        proof {
            assert(texts(rows@) == texts(before).push(row@));
            assert(all.take(i as int + 1) == all.take(i as int).push(all[i as int]));
        }
        i += 1;
    }
    proof {
        assert(all.take(all.len() as int) == all);
    }
    let mut out = "📊 *Stats Update* (".to_owned();
    out.append(decimal_text(elapsed_secs / 60).as_str());
    out.append("m ");
    out.append(decimal_text(elapsed_secs % 60).as_str());
    out.append("s)\n");
    out.append(join_lines(&rows).as_str());
    out.append("\n─────────────────────\nTotal: `");
    out.append(total_rate);
    out.append(" MH/s` | `");
    out.append(decimal_text(sum_solutions(entries)).as_str());
    out.append("` solutions");
    out
}

/// Writes the short report.
pub fn format_status(
    entries: &[StatEntry],
    total_rate: &str,
    elapsed_secs: u64,
    gpu_name: &str,
) -> (r: String)
    requires
        total_solutions(entries_view(entries@)) <= u64::MAX,
    ensures
        r@ == status_text(entries_view(entries@), total_rate@, elapsed_secs, gpu_name@),
{
    let count = decimal_text(entries.len() as u64);
    let mut out = "📊 *Status Miner*\n⏱ Uptime: `".to_owned();
    out.append(decimal_text(elapsed_secs / 3600).as_str());
    out.append("j ");
    out.append(decimal_text((elapsed_secs % 3600) / 60).as_str());
    out.append("m ");
    out.append(decimal_text(elapsed_secs % 60).as_str());
    out.append("s`\n🎮 GPU: `");
    out.append(gpu_name);
    out.append("`\n👥 Akun aktif: `");
    out.append(count.as_str());
    out.append("/");
    out.append(count.as_str());
    out.append("`\n⚡ Total: `");
    out.append(total_rate);
    out.append(" MH/s`\n✅ Total solusi: `");
    out.append(decimal_text(sum_solutions(entries)).as_str());
    out.append("`");
    out
}

/// Writes the list of accounts.
pub fn format_accounts(entries: &[StatEntry]) -> (r: String)
    ensures
        r@ == accounts_text(entries_view(entries@)),
{
    if entries.len() == 0 {
        return "👥 *Accounts*\nBelum ada akun aktif.".to_owned();
    }
    let ghost all = entries_view(entries@).map(|i: int, e: EntryView| account_row(i, e));
    let mut rows: Vec<String> = Vec::new();
    let mut i: usize = 0;
    while i < entries.len()
        invariant
            i <= entries@.len(),
            all == entries_view(entries@).map(|i: int, e: EntryView| account_row(i, e)),
            texts(rows@) == all.take(i as int),
        decreases entries.len() - i,
    {
        let mut row = decimal_text(i as u64 + 1);
        row.append(". `");
        row.append(entries[i].label.as_str());
        row.append("` | ");
        row.append(entries[i].hashrate.as_str());
        row.append(" MH/s | ");
        row.append(decimal_text(entries[i].solutions).as_str());
        row.append(" ✅");
        let ghost before = rows@;
        rows.push(row);
        proof {
            assert(texts(rows@) == texts(before).push(row@));
            assert(all.take(i as int + 1) == all.take(i as int).push(all[i as int]));
        }
        i += 1;
    }
    proof {
        assert(all.take(all.len() as int) == all);
    }
    let mut out = "👥 *Daftar Akun* (".to_owned();
    out.append(decimal_text(entries.len() as u64).as_str());
    out.append(" aktif)\n\n");
    out.append(join_lines(&rows).as_str());
    out
}

// ---- Requests ----

/// The address of a method of the bot interface.
pub open spec fn api_url(token: Seq<char>, method: Seq<char>) -> Seq<char> {
    "https://api.telegram.org/bot"@ + token + "/"@ + method
}

/// The method of the bot interface that serves a call.
pub open spec fn method_of(call: ApiCall) -> Seq<char> {
    match call {
        ApiCall::Send | ApiCall::SendTo => "sendMessage"@,
        ApiCall::SetCommands => "setMyCommands"@,
        ApiCall::Poll => "getUpdates"@,
        ApiCall::AnswerCallback => "answerCallbackQuery"@,
    }
}

/// How long a call may take, in seconds.
pub open spec fn time_limit(call: ApiCall) -> u64 {
    match call {
        ApiCall::Poll => POLL_TIMEOUT_SECS,
        _ => REQUEST_TIMEOUT_SECS,
    }
}

/// A request.
pub open spec fn post(token: Seq<char>, call: ApiCall, body: JsonView) -> ApiRequestView {
    ApiRequestView {
        call,
        url: api_url(token, method_of(call)),
        timeout_secs: time_limit(call),
        body,
    }
}

/// The line about a request that failed. A poll and the answer to a button press fail in
/// silence.
pub open spec fn call_failure(call: ApiCall, error: Seq<char>) -> Option<Seq<char>> {
    match call {
        ApiCall::Send => Some("[Telegram] send failed: "@ + error),
        ApiCall::SendTo => Some("[Telegram] send_to failed: "@ + error),
        ApiCall::SetCommands => Some("[Telegram] setMyCommands failed: "@ + error),
        ApiCall::Poll | ApiCall::AnswerCallback => None,
    }
}

/// The body of a message in Markdown.
pub open spec fn message_body(chat: JsonView, text: Seq<char>) -> JsonView {
    JsonView::object().put("chat_id"@, chat).put("text"@, JsonView::Text(text)).put(
        "parse_mode"@,
        JsonView::Text("Markdown"@),
    )
}

/// A message to the configured chat.
pub open spec fn push_request(
    token: Seq<char>,
    chat_id: Seq<char>,
    text: Seq<char>,
) -> ApiRequestView {
    post(token, ApiCall::Send, message_body(JsonView::Text(chat_id), text))
}

/// A message to the chat with the given number, with buttons below it where some are given.
pub open spec fn reply_request(
    token: Seq<char>,
    chat_id: i64,
    text: Seq<char>,
    keyboard: Option<JsonView>,
) -> ApiRequestView {
    let body = message_body(JsonView::Number(chat_id as int), text);
    post(
        token,
        ApiCall::SendTo,
        match keyboard {
            Some(kb) => body.put("reply_markup"@, kb),
            None => body,
        },
    )
}

/// One command of the bot's menu.
pub open spec fn menu_entry(command: Seq<char>, description: Seq<char>) -> JsonView {
    JsonView::object().put("command"@, JsonView::Text(command)).put(
        "description"@,
        JsonView::Text(description),
    )
}

/// The commands that the bot's menu offers, in their order.
pub open spec fn menu_commands() -> Seq<(Seq<char>, Seq<char>)> {
    seq![
        ("start"@, "Menu utama"@),
        ("status"@, "Status ringkas miner"@),
        ("accounts"@, "Daftar semua akun & hashrate"@),
        ("stats"@, "Stats lengkap semua akun"@),
        ("help"@, "Bantuan & daftar perintah"@),
    ]
}

/// The bot's menu.
pub open spec fn menu_body() -> JsonView {
    JsonView::object().put(
        "commands"@,
        JsonView::List(
            menu_commands().map_values(
                |c: (Seq<char>, Seq<char>)| menu_entry(c.0, c.1),
            ),
        ),
    )
}

/// A long poll for the updates from `offset` on.
pub open spec fn poll_request(token: Seq<char>, offset: i64) -> ApiRequestView {
    post(
        token,
        ApiCall::Poll,
        JsonView::object().put("offset"@, JsonView::Number(offset as int)).put(
            "timeout"@,
            JsonView::Number(LONG_POLL_SECS as int),
        ).put(
            "allowed_updates"@,
            JsonView::list().item(JsonView::Text("message"@)).item(
                JsonView::Text("callback_query"@),
            ),
        ),
    )
}

/// The answer to a press of a button.
pub open spec fn answer_request(token: Seq<char>, callback_id: Seq<char>) -> ApiRequestView {
    post(
        token,
        ApiCall::AnswerCallback,
        JsonView::object().put("callback_query_id"@, JsonView::Text(callback_id)),
    )
}

/// An inline button.
pub open spec fn button(text: Seq<char>, data: Seq<char>) -> JsonView {
    JsonView::object().put("text"@, JsonView::Text(text)).put("callback_data"@, JsonView::Text(data))
}

/// What the buttons of the main menu show and send, row by row.
pub open spec fn main_menu_buttons() -> Seq<Seq<(Seq<char>, Seq<char>)>> {
    seq![
        seq![("📊 Status"@, "cmd_status"@), ("👥 Accounts"@, "cmd_accounts"@)],
        seq![("📈 Stats Lengkap"@, "cmd_stats"@), ("🔄 Refresh"@, "cmd_status"@)],
    ]
}

/// The buttons of the main menu.
pub open spec fn main_menu() -> JsonView {
    JsonView::object().put(
        "inline_keyboard"@,
        JsonView::List(
            main_menu_buttons().map_values(
                |row: Seq<(Seq<char>, Seq<char>)>|
                    JsonView::List(
                        row.map_values(|b: (Seq<char>, Seq<char>)| button(b.0, b.1)),
                    ),
            ),
        ),
    )
}

/// The numbered list of accounts in the start notice.
pub open spec fn numbered(labels: Seq<Seq<char>>) -> Seq<char> {
    joined(labels.map(|i: int, l: Seq<char>| "  "@ + decimal((i + 1) as nat) + ". "@ + l), "\n"@)
}

/// The notice that mining starts.
pub open spec fn start_text(labels: Seq<Seq<char>>, gpu_name: Seq<char>) -> Seq<char> {
    "🚀 *HASH Miner Started*\nGPU: `"@ + gpu_name + "`\nAccounts: "@ + decimal(labels.len())
        + "\n\n"@ + numbered(labels) + "\n\nKetik /help untuk daftar perintah."@
}

/// The notice of a confirmed solution.
pub open spec fn solution_text(
    label: Seq<char>,
    nonce: Seq<char>,
    tx_hash: Seq<char>,
    block: u64,
) -> Seq<char> {
    "✅ *Solution Found!*\nAccount: `"@ + label + "`\nNonce: `"@ + nonce + "`\nTX: `"@ + tx_hash
        + "`\nBlock: `"@ + decimal(block as nat) + "`\n🔗 https://etherscan.io/tx/"@ + tx_hash
}

/// The notice of an error.
pub open spec fn error_text(label: Seq<char>, error: Seq<char>) -> Seq<char> {
    "❌ *Error* — `"@ + label + "`\n`"@ + error + "`"@
}

/// The bot: its token, and the chat that notices go to.
#[derive(Clone, Debug)]
pub struct TelegramBot {
    pub token: String,
    pub chat_id: String,
}

impl TelegramBot {
    /// A bot that writes to `chat_id`.
    pub fn new(token: String, chat_id: String) -> (r: Self)
        ensures
            r.token@ == token@,
            r.chat_id@ == chat_id@,
    {
        TelegramBot { token, chat_id }
    }

    /// The address of a method of the bot interface.
    pub fn api(&self, method: &str) -> (r: String)
        ensures
            r@ == api_url(self.token@, method@),
    {
        let mut out = "https://api.telegram.org/bot".to_owned();
        out.append(self.token.as_str());
        out.append("/");
        out.append(method);
        out
    }

    /// A request.
    fn request(&self, call: ApiCall, body: Json) -> (r: ApiRequest)
        ensures
            r@ == post(self.token@, call, body@),
    {
        let url = match call {
            ApiCall::Send | ApiCall::SendTo => self.api("sendMessage"),
            ApiCall::SetCommands => self.api("setMyCommands"),
            ApiCall::Poll => self.api("getUpdates"),
            ApiCall::AnswerCallback => self.api("answerCallbackQuery"),
        };
        let timeout_secs: u64 = match call {
            ApiCall::Poll => POLL_TIMEOUT_SECS,
            _ => REQUEST_TIMEOUT_SECS,
        };
        ApiRequest { call, url, timeout_secs, body }
    }

    /// A message to the configured chat.
    pub fn send(&self, text: &str) -> (r: ApiRequest)
        ensures
            r@ == push_request(self.token@, self.chat_id@, text@),
    {
        let body = Json::object().put("chat_id", Json::text(self.chat_id.as_str())).put(
            "text",
            Json::text(text),
        ).put("parse_mode", Json::text("Markdown"));
        self.request(ApiCall::Send, body)
    }

    /// A message to any chat, with buttons below it where some are given.
    pub fn send_to(&self, chat_id: i64, text: &str, keyboard: Option<Json>) -> (r: ApiRequest)
        ensures
            r@ == reply_request(
                self.token@,
                chat_id,
                text@,
                match keyboard {
                    Some(kb) => Some(kb@),
                    None => None,
                },
            ),
    {
        let plain = Json::object().put("chat_id", Json::Number(chat_id)).put(
            "text",
            Json::text(text),
        ).put("parse_mode", Json::text("Markdown"));
        let body = match keyboard {
            Some(kb) => plain.put("reply_markup", kb),
            None => plain,
        };
        self.request(ApiCall::SendTo, body)
    }

    /// Registers the commands that the bot's menu offers.
    pub fn set_commands(&self) -> (r: ApiRequest)
        ensures
            r@ == post(self.token@, ApiCall::SetCommands, menu_body()),
    {
        let commands = Json::list().item(menu_item("start", "Menu utama")).item(
            menu_item("status", "Status ringkas miner"),
        ).item(menu_item("accounts", "Daftar semua akun & hashrate")).item(
            menu_item("stats", "Stats lengkap semua akun"),
        ).item(menu_item("help", "Bantuan & daftar perintah"));
        proof {
            assert(commands@->List_0 =~= menu_commands().map_values(
                |c: (Seq<char>, Seq<char>)| menu_entry(c.0, c.1),
            ));
        }
        let body = Json::object().put("commands", commands);
        self.request(ApiCall::SetCommands, body)
    }

    /// A long poll for the updates from `offset` on.
    pub fn poll_updates(&self, offset: i64) -> (r: ApiRequest)
        ensures
            r@ == poll_request(self.token@, offset),
    {
        let body = Json::object().put("offset", Json::Number(offset)).put(
            "timeout",
            Json::Number(LONG_POLL_SECS),
        ).put(
            "allowed_updates",
            Json::list().item(Json::text("message")).item(Json::text("callback_query")),
        );
        self.request(ApiCall::Poll, body)
    }

    /// Answers a press of a button, which ends the button's loading animation.
    pub fn answer_callback(&self, callback_id: &str) -> (r: ApiRequest)
        ensures
            r@ == answer_request(self.token@, callback_id@),
    {
        let body = Json::object().put("callback_query_id", Json::text(callback_id));
        self.request(ApiCall::AnswerCallback, body)
    }

    /// The notice that mining starts.
    pub fn notify_start(&self, account_labels: &[String], gpu_name: &str) -> (r: ApiRequest)
        ensures
            r@ == push_request(
                self.token@,
                self.chat_id@,
                start_text(texts(account_labels@), gpu_name@),
            ),
    {
        let ghost all = texts(account_labels@).map(
            |i: int, l: Seq<char>| "  "@ + decimal((i + 1) as nat) + ". "@ + l,
        );
        let mut rows: Vec<String> = Vec::new();
        let mut i: usize = 0;
        while i < account_labels.len()
            invariant
                i <= account_labels@.len(),
                all == texts(account_labels@).map(
                    |i: int, l: Seq<char>| "  "@ + decimal((i + 1) as nat) + ". "@ + l,
                ),
                texts(rows@) == all.take(i as int),
            decreases account_labels.len() - i,
        {
            let mut row = "  ".to_owned();
            row.append(decimal_text(i as u64 + 1).as_str());
            row.append(". ");
            row.append(account_labels[i].as_str());
            let ghost before = rows@;
            rows.push(row);
            proof {
                assert(texts(rows@) == texts(before).push(row@));
                assert(all.take(i as int + 1) == all.take(i as int).push(all[i as int]));
            }
            i += 1;
        }
        proof {
            assert(all.take(all.len() as int) == all);
        }
        let mut out = "🚀 *HASH Miner Started*\nGPU: `".to_owned();
        out.append(gpu_name);
        out.append("`\nAccounts: ");
        out.append(decimal_text(account_labels.len() as u64).as_str());
        out.append("\n\n");
        out.append(join_lines(&rows).as_str());
        out.append("\n\nKetik /help untuk daftar perintah.");
        self.send(out.as_str())
    }

    /// The notice of a confirmed solution.
    pub fn notify_solution(&self, label: &str, nonce: &str, tx_hash: &str, block: u64) -> (r:
        ApiRequest)
        ensures
            r@ == push_request(
                self.token@,
                self.chat_id@,
                solution_text(label@, nonce@, tx_hash@, block),
            ),
    {
        let mut out = "✅ *Solution Found!*\nAccount: `".to_owned();
        out.append(label);
        out.append("`\nNonce: `");
        out.append(nonce);
        out.append("`\nTX: `");
        out.append(tx_hash);
        out.append("`\nBlock: `");
        out.append(decimal_text(block).as_str());
        out.append("`\n🔗 https://etherscan.io/tx/");
        out.append(tx_hash);
        self.send(out.as_str())
    }

    /// The full report, where there is an account to report on.
    pub fn notify_stats(&self, entries: &[StatEntry], total_rate: &str, elapsed_secs: u64) -> (r:
        Option<ApiRequest>)
        requires
            total_solutions(entries_view(entries@)) <= u64::MAX,
        ensures
            r is None <==> entries@.len() == 0,
            r matches Some(request) ==> request@ == push_request(
                self.token@,
                self.chat_id@,
                stats_text(entries_view(entries@), total_rate@, elapsed_secs),
            ),
    {
        if entries.len() == 0 {
            return None;
        }
        let out = format_stats(entries, total_rate, elapsed_secs);
        Some(self.send(out.as_str()))
    }

    /// The notice of an error.
    pub fn notify_error(&self, label: &str, error: &str) -> (r: ApiRequest)
        ensures
            r@ == push_request(self.token@, self.chat_id@, error_text(label@, error@)),
    {
        let mut out = "❌ *Error* — `".to_owned();
        out.append(label);
        out.append("`\n`");
        out.append(error);
        out.append("`");
        self.send(out.as_str())
    }

    /// The notice that mining has stopped.
    pub fn notify_stopped(&self) -> (r: ApiRequest)
        ensures
            r@ == push_request(self.token@, self.chat_id@, "🛑 *Miner stopped*"@),
    {
        self.send("🛑 *Miner stopped*")
    }
}

/// One command of the bot's menu.
fn menu_item(command: &str, description: &str) -> (r: Json)
    ensures
        r@ == menu_entry(command@, description@),
{
    Json::object().put("command", Json::text(command)).put("description", Json::text(description))
}

/// An inline button.
fn menu_button(text: &str, data: &str) -> (r: Json)
    ensures
        r@ == button(text@, data@),
{
    Json::object().put("text", Json::text(text)).put("callback_data", Json::text(data))
}

/// The buttons of the main menu.
pub fn main_menu_keyboard() -> (r: Json)
    ensures
        r@ == main_menu(),
{
    let first = Json::list().item(menu_button("📊 Status", "cmd_status")).item(
        menu_button("👥 Accounts", "cmd_accounts"),
    );
    let second = Json::list().item(menu_button("📈 Stats Lengkap", "cmd_stats")).item(
        menu_button("🔄 Refresh", "cmd_status"),
    );
    let rows = Json::list().item(first).item(second);
    proof {
        let b = |b: (Seq<char>, Seq<char>)| button(b.0, b.1);
        let menu = main_menu_buttons();
        assert(first@->List_0 =~= menu[0].map_values(b));
        assert(second@->List_0 =~= menu[1].map_values(b));
        assert(rows@->List_0 =~= menu.map_values(
            |row: Seq<(Seq<char>, Seq<char>)>| JsonView::List(row.map_values(b)),
        ));
    }
    Json::object().put("inline_keyboard", rows)
}

/// A long poll is given more time than the server is asked to hold it open.
pub proof fn law_poll_outlasts_server(token: Seq<char>, offset: i64)
    ensures
        ({
            let request = poll_request(token, offset);
            let members = request.body->Object_0;
            &&& request.body is Object
            &&& members[1].0 == "timeout"@
            &&& members[1].1 is Number
            &&& members[1].1->Number_0 < request.timeout_secs
        }),
{
}

/// The uptime in the short report is the elapsed time, split into hours, minutes below
/// sixty and seconds below sixty; the full report splits it into minutes and seconds.
pub proof fn law_uptime_is_elapsed(elapsed_secs: u64)
    ensures
        (elapsed_secs / 3600) * 3600 + ((elapsed_secs % 3600) / 60) * 60 + elapsed_secs % 60
            == elapsed_secs,
        (elapsed_secs % 3600) / 60 < 60,
        (elapsed_secs / 60) * 60 + elapsed_secs % 60 == elapsed_secs,
        elapsed_secs % 60 < 60,
{
}

/// Every request goes to its own method of the bot that the token names, and is given ten
/// seconds; a long poll is given forty.
pub proof fn law_request_addresses(
    token: Seq<char>,
    call: ApiCall,
    body: JsonView,
    method: Seq<char>,
)
    ensures
        post(token, call, body).url == "https://api.telegram.org/bot"@ + token + "/"@ + (
        match call {
            ApiCall::Send => "sendMessage"@,
            ApiCall::SendTo => "sendMessage"@,
            ApiCall::SetCommands => "setMyCommands"@,
            ApiCall::Poll => "getUpdates"@,
            ApiCall::AnswerCallback => "answerCallbackQuery"@,
        }),
        post(token, call, body).timeout_secs == (if call == ApiCall::Poll {
            40u64
        } else {
            10u64
        }),
        post(token, call, body).body == body,
        post(token, call, body).call == call,
        api_url(token, method) == "https://api.telegram.org/bot"@ + token + "/"@ + method,
{
}

/// What the requests hold: the chat, the text and the buttons that were given, whatever they
/// are, and the updates from the offset on.
pub proof fn law_request_bodies(
    token: Seq<char>,
    chat_id: Seq<char>,
    chat: i64,
    text: Seq<char>,
    keyboard: JsonView,
    offset: i64,
    callback_id: Seq<char>,
)
    ensures
        push_request(token, chat_id, text) == post(
            token,
            ApiCall::Send,
            JsonView::Object(
                seq![
                    ("chat_id"@, JsonView::Text(chat_id)),
                    ("text"@, JsonView::Text(text)),
                    ("parse_mode"@, JsonView::Text("Markdown"@)),
                ],
            ),
        ),
        reply_request(token, chat, text, None) == post(
            token,
            ApiCall::SendTo,
            JsonView::Object(
                seq![
                    ("chat_id"@, JsonView::Number(chat as int)),
                    ("text"@, JsonView::Text(text)),
                    ("parse_mode"@, JsonView::Text("Markdown"@)),
                ],
            ),
        ),
        reply_request(token, chat, text, Some(keyboard)) == post(
            token,
            ApiCall::SendTo,
            JsonView::Object(
                seq![
                    ("chat_id"@, JsonView::Number(chat as int)),
                    ("text"@, JsonView::Text(text)),
                    ("parse_mode"@, JsonView::Text("Markdown"@)),
                    ("reply_markup"@, keyboard),
                ],
            ),
        ),
        poll_request(token, offset) == post(
            token,
            ApiCall::Poll,
            JsonView::Object(
                seq![
                    ("offset"@, JsonView::Number(offset as int)),
                    ("timeout"@, JsonView::Number(30)),
                    (
                        "allowed_updates"@,
                        JsonView::List(
                            seq![
                                JsonView::Text("message"@),
                                JsonView::Text("callback_query"@),
                            ],
                        ),
                    ),
                ],
            ),
        ),
        answer_request(token, callback_id) == post(
            token,
            ApiCall::AnswerCallback,
            JsonView::Object(seq![("callback_query_id"@, JsonView::Text(callback_id))]),
        ),
{
    let pushed = push_request(token, chat_id, text).body->Object_0;
    assert(pushed =~= seq![
        ("chat_id"@, JsonView::Text(chat_id)),
        ("text"@, JsonView::Text(text)),
        ("parse_mode"@, JsonView::Text("Markdown"@)),
    ]);
    let plain = reply_request(token, chat, text, None).body->Object_0;
    assert(plain =~= seq![
        ("chat_id"@, JsonView::Number(chat as int)),
        ("text"@, JsonView::Text(text)),
        ("parse_mode"@, JsonView::Text("Markdown"@)),
    ]);
    let with_buttons = reply_request(token, chat, text, Some(keyboard)).body->Object_0;
    assert(with_buttons =~= seq![
        ("chat_id"@, JsonView::Number(chat as int)),
        ("text"@, JsonView::Text(text)),
        ("parse_mode"@, JsonView::Text("Markdown"@)),
        ("reply_markup"@, keyboard),
    ]);
    let kinds = poll_request(token, offset).body->Object_0[2].1->List_0;
    assert(kinds =~= seq![JsonView::Text("message"@), JsonView::Text("callback_query"@)]);
    let polled = poll_request(token, offset).body->Object_0;
    assert(polled =~= seq![
        ("offset"@, JsonView::Number(offset as int)),
        ("timeout"@, JsonView::Number(30)),
        ("allowed_updates"@, JsonView::List(kinds)),
    ]);
    let answered = answer_request(token, callback_id).body->Object_0;
    assert(answered =~= seq![("callback_query_id"@, JsonView::Text(callback_id))]);
}

/// The menu offers five commands with their descriptions, and the main keyboard four buttons in
/// two rows.
pub proof fn law_menus()
    ensures
        ({
            let entry = |command: Seq<char>, description: Seq<char>|
                JsonView::Object(
                    seq![
                        ("command"@, JsonView::Text(command)),
                        ("description"@, JsonView::Text(description)),
                    ],
                );
            menu_body() == JsonView::Object(
                seq![
                    (
                        "commands"@,
                        JsonView::List(
                            seq![
                                entry("start"@, "Menu utama"@),
                                entry("status"@, "Status ringkas miner"@),
                                entry("accounts"@, "Daftar semua akun & hashrate"@),
                                entry("stats"@, "Stats lengkap semua akun"@),
                                entry("help"@, "Bantuan & daftar perintah"@),
                            ],
                        ),
                    ),
                ],
            )
        }),
        ({
            let press = |text: Seq<char>, data: Seq<char>|
                JsonView::Object(
                    seq![
                        ("text"@, JsonView::Text(text)),
                        ("callback_data"@, JsonView::Text(data)),
                    ],
                );
            main_menu() == JsonView::Object(
                seq![
                    (
                        "inline_keyboard"@,
                        JsonView::List(
                            seq![
                                JsonView::List(
                                    seq![
                                        press("📊 Status"@, "cmd_status"@),
                                        press("👥 Accounts"@, "cmd_accounts"@),
                                    ],
                                ),
                                JsonView::List(
                                    seq![
                                        press("📈 Stats Lengkap"@, "cmd_stats"@),
                                        press("🔄 Refresh"@, "cmd_status"@),
                                    ],
                                ),
                            ],
                        ),
                    ),
                ],
            )
        }),
{
    let entry = |command: Seq<char>, description: Seq<char>|
        JsonView::Object(
            seq![
                ("command"@, JsonView::Text(command)),
                ("description"@, JsonView::Text(description)),
            ],
        );
    assert forall|c: Seq<char>, d: Seq<char>| #[trigger] menu_entry(c, d) == entry(c, d) by {
        assert(menu_entry(c, d)->Object_0 =~= entry(c, d)->Object_0);
    }
    assert(menu_commands().map_values(|c: (Seq<char>, Seq<char>)| menu_entry(c.0, c.1)) =~= seq![
        entry("start"@, "Menu utama"@),
        entry("status"@, "Status ringkas miner"@),
        entry("accounts"@, "Daftar semua akun & hashrate"@),
        entry("stats"@, "Stats lengkap semua akun"@),
        entry("help"@, "Bantuan & daftar perintah"@),
    ]);
    let press = |text: Seq<char>, data: Seq<char>|
        JsonView::Object(
            seq![
                ("text"@, JsonView::Text(text)),
                ("callback_data"@, JsonView::Text(data)),
            ],
        );
    assert forall|t: Seq<char>, d: Seq<char>| #[trigger] button(t, d) == press(t, d) by {
        assert(button(t, d)->Object_0 =~= press(t, d)->Object_0);
    }
    let b = |b: (Seq<char>, Seq<char>)| button(b.0, b.1);
    let menu = main_menu_buttons();
    assert(menu[0].map_values(b) =~= seq![
        press("📊 Status"@, "cmd_status"@),
        press("👥 Accounts"@, "cmd_accounts"@),
    ]);
    assert(menu[1].map_values(b) =~= seq![
        press("📈 Stats Lengkap"@, "cmd_stats"@),
        press("🔄 Refresh"@, "cmd_status"@),
    ]);
    assert(menu.map_values(
        |row: Seq<(Seq<char>, Seq<char>)>| JsonView::List(row.map_values(b)),
    ) =~= seq![
        JsonView::List(
            seq![press("📊 Status"@, "cmd_status"@), press("👥 Accounts"@, "cmd_accounts"@)],
        ),
        JsonView::List(
            seq![press("📈 Stats Lengkap"@, "cmd_stats"@), press("🔄 Refresh"@, "cmd_status"@)],
        ),
    ]);
    assert(menu_body()->Object_0 =~= seq![("commands"@, menu_body()->Object_0[0].1)]);
    assert(main_menu()->Object_0 =~= seq![("inline_keyboard"@, main_menu()->Object_0[0].1)]);
}

/// The solutions of all accounts together: none without accounts, and with one more account as
/// many more as it has.
pub proof fn law_total_solutions(entries: Seq<EntryView>, e: EntryView)
    ensures
        total_solutions(Seq::empty()) == 0,
        total_solutions(entries.push(e)) == total_solutions(entries) + e.solutions,
{
    assert(entries.push(e).drop_last() =~= entries);
}

/// The short report shows as its uptime the hours, the minutes below sixty and the seconds
/// below sixty that make up the elapsed time, however many hours there are; then the GPU, the
/// number of accounts, the rate and the total of the solutions.
pub proof fn law_status_report(
    entries: Seq<EntryView>,
    total_rate: Seq<char>,
    elapsed_secs: u64,
    gpu_name: Seq<char>,
    hours: nat,
    minutes: nat,
    seconds: nat,
)
    requires
        hours * 3600 + minutes * 60 + seconds == elapsed_secs,
        minutes < 60,
        seconds < 60,
    ensures
        status_text(entries, total_rate, elapsed_secs, gpu_name)
            == "📊 *Status Miner*\n⏱ Uptime: `"@ + decimal(hours) + "j "@ + decimal(minutes)
            + "m "@ + decimal(seconds) + "s`\n🎮 GPU: `"@ + gpu_name
            + "`\n👥 Akun aktif: `"@ + decimal(entries.len()) + "/"@ + decimal(entries.len())
            + "`\n⚡ Total: `"@ + total_rate + " MH/s`\n✅ Total solusi: `"@ + decimal(
            total_solutions(entries),
        ) + "`"@,
{
    assert(elapsed_secs / 3600 == hours);
    assert((elapsed_secs % 3600) / 60 == minutes);
    assert(elapsed_secs % 60 == seconds);
}

/// The full report shows the minutes and the seconds below sixty that make up the elapsed time,
/// however many minutes there are, a line for each account in order, the rate and the total of
/// the solutions.
pub proof fn law_stats_report(
    entries: Seq<EntryView>,
    total_rate: Seq<char>,
    elapsed_secs: u64,
    minutes: nat,
    seconds: nat,
    rows: Seq<Seq<char>>,
)
    requires
        minutes * 60 + seconds == elapsed_secs,
        seconds < 60,
        rows.len() == entries.len(),
        forall|i: int|
            0 <= i < entries.len() ==> #[trigger] rows[i] == "  `"@ + entries[i].label + "`: "@
                + entries[i].hashrate + " MH/s | "@ + decimal(entries[i].solutions as nat)
                + " ✅"@,
    ensures
        stats_text(entries, total_rate, elapsed_secs) == "📊 *Stats Update* ("@ + decimal(minutes)
            + "m "@ + decimal(seconds) + "s)\n"@ + joined(rows, "\n"@)
            + "\n─────────────────────\nTotal: `"@ + total_rate + " MH/s` | `"@ + decimal(
            total_solutions(entries),
        ) + "` solutions"@,
{
    assert(elapsed_secs / 60 == minutes);
    assert(elapsed_secs % 60 == seconds);
    assert(entries.map_values(|e: EntryView| stats_row(e)) =~= rows);
}

/// The list of accounts numbers them from one on, in order, each with its rate and solutions,
/// and says so where there is none.
pub proof fn law_accounts_report(entries: Seq<EntryView>, rows: Seq<Seq<char>>)
    requires
        rows.len() == entries.len(),
        forall|i: int|
            0 <= i < entries.len() ==> #[trigger] rows[i] == decimal((i + 1) as nat) + ". `"@
                + entries[i].label + "` | "@ + entries[i].hashrate + " MH/s | "@ + decimal(
                entries[i].solutions as nat,
            ) + " ✅"@,
    ensures
        entries.len() == 0 ==> accounts_text(entries)
            == "👥 *Accounts*\nBelum ada akun aktif."@,
        entries.len() > 0 ==> accounts_text(entries) == "👥 *Daftar Akun* ("@ + decimal(
            entries.len(),
        ) + " aktif)\n\n"@ + joined(rows, "\n"@),
{
    assert(entries.map(|i: int, e: EntryView| account_row(i, e)) =~= rows);
}

/// The notice at the start names the GPU, the number of accounts and every account, numbered
/// from one on, in order.
pub proof fn law_start_notice(labels: Seq<Seq<char>>, gpu_name: Seq<char>, rows: Seq<Seq<char>>)
    requires
        rows.len() == labels.len(),
        forall|i: int|
            0 <= i < labels.len() ==> #[trigger] rows[i] == "  "@ + decimal((i + 1) as nat)
                + ". "@ + labels[i],
    ensures
        start_text(labels, gpu_name) == "🚀 *HASH Miner Started*\nGPU: `"@ + gpu_name
            + "`\nAccounts: "@ + decimal(labels.len()) + "\n\n"@ + joined(rows, "\n"@)
            + "\n\nKetik /help untuk daftar perintah."@,
{
    assert(labels.map(
        |i: int, l: Seq<char>| "  "@ + decimal((i + 1) as nat) + ". "@ + l,
    ) =~= rows);
}

/// The notice of a solution names the account, the nonce, the transaction and the block, and
/// links the same transaction; the notice of an error names the account and the error.
pub proof fn law_notices_name_their_subject(
    label: Seq<char>,
    nonce: Seq<char>,
    tx_hash: Seq<char>,
    block: u64,
    error: Seq<char>,
)
    ensures
        solution_text(label, nonce, tx_hash, block) == "✅ *Solution Found!*\nAccount: `"@ + label
            + "`\nNonce: `"@ + nonce + "`\nTX: `"@ + tx_hash + "`\nBlock: `"@ + decimal(
            block as nat,
        ) + "`\n🔗 https://etherscan.io/tx/"@ + tx_hash,
        error_text(label, error) == "❌ *Error* — `"@ + label + "`\n`"@ + error + "`"@,
{
}

/// A message or a registration that failed is reported with its error; a poll and the answer to
/// a button press are not.
pub proof fn law_failed_requests(error: Seq<char>)
    ensures
        call_failure(ApiCall::Send, error) == Some("[Telegram] send failed: "@ + error),
        call_failure(ApiCall::SendTo, error) == Some("[Telegram] send_to failed: "@ + error),
        call_failure(ApiCall::SetCommands, error) == Some(
            "[Telegram] setMyCommands failed: "@ + error,
        ),
        call_failure(ApiCall::Poll, error) is None,
        call_failure(ApiCall::AnswerCallback, error) is None,
{
}

/// Requests and entries are taken as they are.
pub proof fn law_request_views_keep_all(
    request: ApiRequest,
    entry: StatEntry,
    entries: Seq<StatEntry>,
    i: int,
)
    ensures
        request@.call == request.call,
        request@.url == request.url@,
        request@.timeout_secs == request.timeout_secs,
        request@.body == request.body@,
        entry@.label == entry.label@,
        entry@.hashrate == entry.hashrate@,
        entry@.solutions == entry.solutions,
        entries_view(entries).len() == entries.len(),
        0 <= i < entries.len() ==> entries_view(entries)[i] == entries[i]@,
{
}

} // verus!
