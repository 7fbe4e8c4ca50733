//! Commands: what an update asks for, and what the bot does about it.
use vstd::prelude::*;

use crate::json::{Json, JsonView};
use crate::telegram::{
    accounts_text, answer_request, entries_view, format_accounts, format_stats, format_status,
    main_menu, main_menu_buttons, main_menu_keyboard, menu_commands, reply_request, stats_text,
    status_text, total_solutions, ApiRequest, ApiRequestView, EntryView, StatEntry, TelegramBot,
    TgUpdate,
};
use crate::text::{
    blank, lemma_leading_is, only_leading, same_text, skip_leading, take_leading, white_space,
    without_leading, CharClass,
};

verus! {

/// What a user can ask the bot for.
#[derive(Clone, Copy, Debug, PartialEq, Eq, Structural)]
pub enum Command {
    Help,
    Status,
    Accounts,
    Stats,
    Stop,
    Unknown,
}

/// The command word of a text: its first word, without slashes before it and without the
/// bot's name after it.
pub open spec fn command_word(text: Seq<char>) -> Seq<char> {
    let word = only_leading(without_leading(text, CharClass::Space), CharClass::Visible);
    only_leading(without_leading(word, CharClass::Slash), CharClass::NotAt)
}

/// The command that a word names.
pub open spec fn command_named(word: Seq<char>) -> Command {
    if word == "start"@ || word == "help"@ {
        Command::Help
    } else if word == "status"@ || word == "cmd_status"@ {
        Command::Status
    } else if word == "accounts"@ || word == "cmd_accounts"@ {
        Command::Accounts
    } else if word == "stats"@ || word == "cmd_stats"@ {
        Command::Stats
    } else if word == "stop"@ || word == "cmd_stop"@ {
        Command::Stop
    } else {
        Command::Unknown
    }
}

/// Reads the command in a text.
pub fn parse_command(text: &str) -> (r: Command)
    ensures
        r == command_named(command_word(text@)),
{
    let word = take_leading(skip_leading(text, CharClass::Space), CharClass::Visible);
    let name = take_leading(skip_leading(word, CharClass::Slash), CharClass::NotAt);
    if same_text(name, "start") || same_text(name, "help") {
        Command::Help
    } else if same_text(name, "status") || same_text(name, "cmd_status") {
        Command::Status
    } else if same_text(name, "accounts") || same_text(name, "cmd_accounts") {
        Command::Accounts
    } else if same_text(name, "stats") || same_text(name, "cmd_stats") {
        Command::Stats
    } else if same_text(name, "stop") || same_text(name, "cmd_stop") {
        Command::Stop
    } else {
        Command::Unknown
    }
}

/// What an update asks: who, with what text, and by which button press.
pub struct Call {
    pub chat_id: i64,
    pub text: Seq<char>,
    pub callback: Option<Seq<char>>,
}

/// The text in an optional field.
pub open spec fn text_of(field: Option<String>) -> Seq<char> {
    match field {
        Some(s) => s@,
        None => Seq::empty(),
    }
}

/// What an update asks. A message counts before a button press.
pub open spec fn call_of(upd: TgUpdate) -> Option<Call> {
    match (upd.message, upd.callback_query) {
        (Some(msg), _) => Some(
            Call { chat_id: msg.chat.id, text: text_of(msg.text), callback: None },
        ),
        (None, Some(cb)) => Some(
            Call { chat_id: cb.from.id, text: text_of(cb.data), callback: Some(cb.id@) },
        ),
        (None, None) => None,
    }
}

/// The command of an update, where it comes from the configured chat.
pub open spec fn accepted(upd: TgUpdate, configured_chat_id: i64) -> Option<Command> {
    match call_of(upd) {
        Some(call) if call.chat_id == configured_chat_id => Some(
            command_named(command_word(call.text)),
        ),
        _ => None,
    }
}

/// The command list.
pub open spec fn help_text(gpu_name: Seq<char>) -> Seq<char> {
    "🚀 *HASH Multi-Account Miner*\nGPU: `"@ + gpu_name
        + "`\nPilih perintah di bawah atau ketik langsung:\n\n/status — status ringkas\n/accounts — daftar semua akun\n/stats — stats lengkap\n/stop — hentikan miner\n/help — menu ini"@
}

/// The text that answers a command.
pub open spec fn answer_text(
    command: Command,
    entries: Seq<EntryView>,
    total_rate: Seq<char>,
    elapsed_secs: u64,
    gpu_name: Seq<char>,
) -> Seq<char> {
    match command {
        Command::Help => help_text(gpu_name),
        Command::Status => status_text(entries, total_rate, elapsed_secs, gpu_name),
        Command::Accounts => accounts_text(entries),
        Command::Stats => stats_text(entries, total_rate, elapsed_secs),
        Command::Stop => "🛑 *Menghentikan semua miner...*\nTunggu beberapa detik."@,
        Command::Unknown =>
            "❓ Perintah tidak dikenal. Ketik /help untuk daftar perintah."@,
    }
}

/// The buttons below the answer to a command.
pub open spec fn answer_keyboard(command: Command) -> Option<JsonView> {
    match command {
        Command::Stop | Command::Unknown => None,
        _ => Some(main_menu()),
    }
}

/// What the bot does about an update: the requests to make, in order, and then whether the
/// miners are to stop.
#[derive(Debug)]
pub struct Reply {
    pub requests: Vec<ApiRequest>,
    pub shutdown: bool,
}

/// What a [`Reply`] stands for.
#[verifier::ext_equal]
pub struct ReplyView {
    pub requests: Seq<ApiRequestView>,
    pub shutdown: bool,
}

/// What a list of requests stands for.
pub open spec fn requests_view(requests: Seq<ApiRequest>) -> Seq<ApiRequestView> {
    requests.map_values(|r: ApiRequest| r@)
}

impl View for Reply {
    type V = ReplyView;

    open spec fn view(&self) -> ReplyView {
        ReplyView { requests: requests_view(self.requests@), shutdown: self.shutdown }
    }
}

/// What the bot does about an update. Updates from any chat but the configured one are
/// passed over. A button press is answered first, so that its loading animation ends.
pub open spec fn reply_to(
    token: Seq<char>,
    upd: TgUpdate,
    entries: Seq<EntryView>,
    total_rate: Seq<char>,
    elapsed_secs: u64,
    configured_chat_id: i64,
    gpu_name: Seq<char>,
) -> ReplyView {
    match accepted(upd, configured_chat_id) {
        None => ReplyView { requests: Seq::empty(), shutdown: false },
        Some(command) => {
            let answered = match call_of(upd)->0.callback {
                Some(id) => seq![answer_request(token, id)],
                None => Seq::empty(),
            };
            ReplyView {
                requests: answered.push(
                    reply_request(
                        token,
                        configured_chat_id,
                        answer_text(command, entries, total_rate, elapsed_secs, gpu_name),
                        answer_keyboard(command),
                    ),
                ),
                shutdown: command == Command::Stop,
            }
        },
    }
}

/// Decides what to do about an update.
pub fn handle_update(
    tg: &TelegramBot,
    upd: &TgUpdate,
    entries: &[StatEntry],
    total_rate: &str,
    elapsed_secs: u64,
    configured_chat_id: i64,
    gpu_name: &str,
) -> (r: Reply)
    requires
        accepted(*upd, configured_chat_id) matches Some(command) ==> (command == Command::Status
            || command == Command::Stats) ==> total_solutions(entries_view(entries@)) <= u64::MAX,
    ensures
        r@ == reply_to(
            tg.token@,
            *upd,
            entries_view(entries@),
            total_rate@,
            elapsed_secs,
            configured_chat_id,
            gpu_name@,
        ),
{
    let mut requests: Vec<ApiRequest> = Vec::new();
    proof {
        reveal_strlit("");
        assert(""@ =~= Seq::<char>::empty());
        assert(requests_view(requests@) =~= Seq::empty());
    }
    let chat_id: i64;
    let text: &str;
    let mut callback_id: Option<&str> = None;
    match &upd.message {
        Some(msg) => {
            chat_id = msg.chat.id;
            text = match &msg.text {
                Some(s) => s.as_str(),
                None => "",
            };
        },
        None => match &upd.callback_query {
            Some(cb) => {
                chat_id = cb.from.id;
                text = match &cb.data {
                    Some(s) => s.as_str(),
                    None => "",
                };
                callback_id = Some(cb.id.as_str());
            },
            None => {
                return Reply { requests, shutdown: false };
            },
        },
    }
    if chat_id != configured_chat_id {
        return Reply { requests, shutdown: false };
    }
    if let Some(id) = callback_id {
        requests.push(tg.answer_callback(id));
    }
    let ghost answered = requests_view(requests@);
    proof {
        assert(answered =~= match call_of(*upd)->0.callback {
            Some(id) => seq![answer_request(tg.token@, id)],
            None => Seq::empty(),
        });
    }
    let command = parse_command(text);
    let answer = match command {
        Command::Help => {
            let mut out = "🚀 *HASH Multi-Account Miner*\nGPU: `".to_owned();
            out.append(gpu_name);
            out.append(
                "`\nPilih perintah di bawah atau ketik langsung:\n\n/status — status ringkas\n/accounts — daftar semua akun\n/stats — stats lengkap\n/stop — hentikan miner\n/help — menu ini",
            );
            out
        },
        Command::Status => format_status(entries, total_rate, elapsed_secs, gpu_name),
        Command::Accounts => format_accounts(entries),
        Command::Stats => format_stats(entries, total_rate, elapsed_secs),
        Command::Stop =>
            "🛑 *Menghentikan semua miner...*\nTunggu beberapa detik.".to_owned(),
        Command::Unknown =>
            "❓ Perintah tidak dikenal. Ketik /help untuk daftar perintah.".to_owned(),
    };
    let keyboard: Option<Json> = match command {
        Command::Stop | Command::Unknown => None,
        _ => Some(main_menu_keyboard()),
    };
    let request = tg.send_to(chat_id, answer.as_str(), keyboard);
    requests.push(request);
    proof {
        assert(requests_view(requests@) =~= answered.push(request@));
    }
    Reply { requests, shutdown: command == Command::Stop }
}

/// The offset of the next poll: one past the last update that arrived.
pub open spec fn offset_after(offset: i64, updates: Seq<TgUpdate>) -> int {
    if updates.len() == 0 {
        offset as int
    } else {
        updates.last().update_id + 1
    }
}

/// Moves the poll offset past the updates that arrived.
pub fn next_offset(offset: i64, updates: &[TgUpdate]) -> (r: i64)
    requires
        forall|i: int| 0 <= i < updates@.len() ==> (#[trigger] updates@[i]).update_id < i64::MAX,
    ensures
        r == offset_after(offset, updates@),
{
    if updates.len() == 0 {
        offset
    } else {
        proof {
            assert(updates@[updates@.len() - 1].update_id < i64::MAX);
        }
        updates[updates.len() - 1].update_id + 1
    }
}

// ---- Laws ----

/// An update from any chat but the configured one makes no request and stops nothing.
pub proof fn law_strangers_are_ignored(
    token: Seq<char>,
    upd: TgUpdate,
    entries: Seq<EntryView>,
    total_rate: Seq<char>,
    elapsed_secs: u64,
    configured_chat_id: i64,
    gpu_name: Seq<char>,
)
    requires
        call_of(upd) matches Some(call) ==> call.chat_id != configured_chat_id,
    ensures
        ({
            let r = reply_to(
                token,
                upd,
                entries,
                total_rate,
                elapsed_secs,
                configured_chat_id,
                gpu_name,
            );
            r.requests.len() == 0 && !r.shutdown
        }),
{
}

/// Every request about an update either answers its own button press or is a message to the
/// configured chat.
pub proof fn law_answers_stay_in_chat(
    token: Seq<char>,
    upd: TgUpdate,
    entries: Seq<EntryView>,
    total_rate: Seq<char>,
    elapsed_secs: u64,
    configured_chat_id: i64,
    gpu_name: Seq<char>,
)
    ensures
        ({
            let r = reply_to(
                token,
                upd,
                entries,
                total_rate,
                elapsed_secs,
                configured_chat_id,
                gpu_name,
            );
            forall|i: int|
                0 <= i < r.requests.len() ==> {
                    ||| call_of(upd)->0.callback matches Some(id) && #[trigger] r.requests[i]
                        == answer_request(token, id)
                    ||| exists|text: Seq<char>, keyboard: Option<JsonView>|
                        r.requests[i] == #[trigger] reply_request(
                            token,
                            configured_chat_id,
                            text,
                            keyboard,
                        )
                }
        }),
{
}

/// The miners are told to stop exactly when the configured chat asks for it.
pub proof fn law_only_stop_stops(
    token: Seq<char>,
    upd: TgUpdate,
    entries: Seq<EntryView>,
    total_rate: Seq<char>,
    elapsed_secs: u64,
    configured_chat_id: i64,
    gpu_name: Seq<char>,
)
    ensures
        reply_to(
            token,
            upd,
            entries,
            total_rate,
            elapsed_secs,
            configured_chat_id,
            gpu_name,
        ).shutdown <==> accepted(upd, configured_chat_id) == Some(Command::Stop),
{
}

/// A word of a command: no blanks, no bot-name marker and no slash at its start.
pub open spec fn plain_word(word: Seq<char>) -> bool {
    &&& word.len() > 0
    &&& forall|i: int| 0 <= i < word.len() ==> !white_space(#[trigger] word[i]) && word[i] != '@'
    &&& word[0] != '/'
}

/// What may follow a command word in a text: nothing, or something set off by white space.
pub open spec fn set_off(rest: Seq<char>) -> bool {
    rest.len() > 0 ==> white_space(rest[0])
}

/// Characters that are no white space.
pub open spec fn solid(s: Seq<char>) -> bool {
    forall|i: int| 0 <= i < s.len() ==> !white_space(#[trigger] s[i])
}

/// A command word is read the same with or without a slash before it and the bot's name
/// after it, whatever blanks stand before and whatever arguments stand after.
pub proof fn law_command_forms(
    before: Seq<char>,
    word: Seq<char>,
    bot: Seq<char>,
    rest: Seq<char>,
)
    requires
        blank(before),
        plain_word(word),
        solid(bot),
        set_off(rest),
    ensures
        command_word(before + word + rest) == word,
        command_word(before + seq!['/'] + word + rest) == word,
        command_word(before + seq!['/'] + word + seq!['@'] + bot + rest) == word,
{
    let none = Seq::<char>::empty();
    let slash = seq!['/'];
    let name = seq!['@'] + bot;
    lemma_command_form(before, none, word, none, rest);
    assert(before + none + word + none + rest == before + word + rest);
    lemma_command_form(before, slash, word, none, rest);
    assert(before + slash + word + none + rest == before + slash + word + rest);
    assert forall|i: int| 0 <= i < name.len() implies !white_space(#[trigger] name[i]) by {
        if i > 0 {
            assert(name[i] == bot[i - 1]);
        }
    }
    lemma_command_form(before, slash, word, name, rest);
    assert(before + slash + word + name + rest == before + slash + word + seq!['@'] + bot + rest);
}

/// Blanks, slashes, a command word, a bot name and a remainder: the command word is read.
proof fn lemma_command_form(
    before: Seq<char>,
    slashes: Seq<char>,
    word: Seq<char>,
    name: Seq<char>,
    rest: Seq<char>,
)
    requires
        blank(before),
        forall|i: int| 0 <= i < slashes.len() ==> #[trigger] slashes[i] == '/',
        plain_word(word),
        solid(name),
        name.len() > 0 ==> name[0] == '@',
        set_off(rest),
    ensures
        command_word(before + slashes + word + name + rest) == word,
{
    let text = before + slashes + word + name + rest;
    let core = slashes + word + name;
    // The blanks before the first word.
    assert(text =~= before + (core + rest));
    assert forall|i: int| 0 <= i < core.len() implies !white_space(#[trigger] core[i]) by {
        if i < slashes.len() {
            assert(core[i] == slashes[i]);
        } else if i < slashes.len() + word.len() {
            assert(core[i] == word[i - slashes.len()]);
        } else {
            assert(core[i] == name[i - slashes.len() - word.len()]);
        }
    }
    assert forall|i: int| 0 <= i < before.len() implies CharClass::Space.has(
        #[trigger] text[i],
    ) by {
        assert(text[i] == before[i]);
    }
    assert(text[before.len() as int] == core[0]);
    lemma_leading_is(text, CharClass::Space, before.len());
    let t = without_leading(text, CharClass::Space);
    assert(t =~= core + rest);
    // The first word.
    assert forall|i: int| 0 <= i < core.len() implies CharClass::Visible.has(#[trigger] t[i]) by {
        assert(t[i] == core[i]);
    }
    if rest.len() > 0 {
        assert(t[core.len() as int] == rest[0]);
    }
    lemma_leading_is(t, CharClass::Visible, core.len());
    let w = only_leading(t, CharClass::Visible);
    assert(w =~= core);
    // The slashes.
    assert forall|i: int| 0 <= i < slashes.len() implies CharClass::Slash.has(
        #[trigger] w[i],
    ) by {
        assert(w[i] == slashes[i]);
    }
    if slashes.len() < w.len() {
        assert(w[slashes.len() as int] == word[0]);
    }
    lemma_leading_is(w, CharClass::Slash, slashes.len());
    let u = without_leading(w, CharClass::Slash);
    assert(u =~= word + name);
    // The bot's name.
    assert forall|i: int| 0 <= i < word.len() implies CharClass::NotAt.has(#[trigger] u[i]) by {
        assert(u[i] == word[i]);
    }
    if name.len() > 0 {
        assert(u[word.len() as int] == name[0]);
    }
    lemma_leading_is(u, CharClass::NotAt, word.len());
    assert(only_leading(u, CharClass::NotAt) =~= word);
}

/// The words that name a command are plain.
proof fn lemma_names_are_plain()
    ensures
        plain_word("start"@),
        plain_word("help"@),
        plain_word("status"@),
        plain_word("accounts"@),
        plain_word("stats"@),
        plain_word("cmd_status"@),
        plain_word("cmd_accounts"@),
        plain_word("cmd_stats"@),
{
    reveal_strlit("start");
    reveal_strlit("help");
    reveal_strlit("status");
    reveal_strlit("accounts");
    reveal_strlit("stats");
    reveal_strlit("cmd_status");
    reveal_strlit("cmd_accounts");
    reveal_strlit("cmd_stats");
}

/// Every command that the bot's menu offers is one that the bot knows, and does not stop the
/// miners, however the chat client spells it.
pub proof fn law_menu_is_understood(i: int, bot: Seq<char>)
    requires
        0 <= i < menu_commands().len(),
        solid(bot),
    ensures
        ({
            let word = menu_commands()[i].0;
            let plain = command_named(command_word(seq!['/'] + word));
            let addressed = command_named(command_word(seq!['/'] + word + seq!['@'] + bot));
            plain == addressed && plain != Command::Unknown && plain != Command::Stop
        }),
{
    lemma_names_are_plain();
    let none = Seq::<char>::empty();
    let word = menu_commands()[i].0;
    law_command_forms(none, word, bot, none);
    assert(none + seq!['/'] + word + none == seq!['/'] + word);
    assert(none + seq!['/'] + word + seq!['@'] + bot + none == seq!['/'] + word + seq!['@'] + bot);
}

/// Every button of the main menu sends a command that the bot knows and that does not stop
/// the miners.
pub proof fn law_buttons_are_understood(row: int, column: int)
    requires
        0 <= row < main_menu_buttons().len(),
        0 <= column < main_menu_buttons()[row].len(),
    ensures
        ({
            let command = command_named(command_word(main_menu_buttons()[row][column].1));
            command != Command::Unknown && command != Command::Stop
        }),
{
    lemma_names_are_plain();
    let none = Seq::<char>::empty();
    let word = main_menu_buttons()[row][column].1;
    law_command_forms(none, word, none, none);
    assert(none + word + none == word);
}

/// Once updates that arrived in ascending order are passed, the next poll asks for later
/// updates only.
pub proof fn law_updates_come_once(offset: i64, updates: Seq<TgUpdate>, i: int)
    requires
        0 <= i < updates.len(),
        forall|j: int, k: int|
            0 <= j < k < updates.len() ==> (#[trigger] updates[j]).update_id < (
            #[trigger] updates[k]).update_id,
    ensures
        updates[i].update_id < offset_after(offset, updates),
{
    if i < updates.len() - 1 {
        assert(updates[i].update_id < updates[updates.len() - 1].update_id);
    }
}

/// The command of a text, whatever the text: white space before it is passed over, its first
/// word counts, and of that what is left without the slashes before it and without the `@` and
/// all behind it; that may be nothing.
pub proof fn law_command_word(
    before: Seq<char>,
    slashes: Seq<char>,
    word: Seq<char>,
    name: Seq<char>,
    rest: Seq<char>,
)
    requires
        forall|i: int| 0 <= i < before.len() ==> white_space(#[trigger] before[i]),
        forall|i: int| 0 <= i < slashes.len() ==> #[trigger] slashes[i] == '/',
        forall|i: int|
            0 <= i < word.len() ==> !white_space(#[trigger] word[i]) && word[i] != '@',
        word.len() > 0 ==> word[0] != '/',
        forall|i: int| 0 <= i < name.len() ==> !white_space(#[trigger] name[i]),
        name.len() > 0 ==> name[0] == '@',
        rest.len() > 0 ==> white_space(rest[0]) && slashes.len() + word.len() + name.len() > 0,
    ensures
        command_word(before + slashes + word + name + rest) == word,
{
    let text = before + slashes + word + name + rest;
    let core = slashes + word + name;
    assert(text =~= before + (core + rest));
    assert forall|i: int| 0 <= i < core.len() implies !white_space(#[trigger] core[i]) by {
        if i < slashes.len() {
            assert(core[i] == slashes[i]);
        } else if i < slashes.len() + word.len() {
            assert(core[i] == word[i - slashes.len()]);
        } else {
            assert(core[i] == name[i - slashes.len() - word.len()]);
        }
    }
    assert forall|i: int| 0 <= i < before.len() implies CharClass::Space.has(
        #[trigger] text[i],
    ) by {
        assert(text[i] == before[i]);
    }
    if core.len() > 0 {
        assert(text[before.len() as int] == core[0]);
    }
    lemma_leading_is(text, CharClass::Space, before.len());
    let t = without_leading(text, CharClass::Space);
    assert(t =~= core + rest);
    assert forall|i: int| 0 <= i < core.len() implies CharClass::Visible.has(#[trigger] t[i]) by {
        assert(t[i] == core[i]);
    }
    if rest.len() > 0 {
        assert(t[core.len() as int] == rest[0]);
    }
    lemma_leading_is(t, CharClass::Visible, core.len());
    let w = only_leading(t, CharClass::Visible);
    assert(w =~= core);
    assert forall|i: int| 0 <= i < slashes.len() implies CharClass::Slash.has(
        #[trigger] w[i],
    ) by {
        assert(w[i] == slashes[i]);
    }
    if slashes.len() < w.len() {
        if word.len() > 0 {
            assert(w[slashes.len() as int] == word[0]);
        } else {
            assert(w[slashes.len() as int] == name[0]);
        }
    }
    lemma_leading_is(w, CharClass::Slash, slashes.len());
    let u = without_leading(w, CharClass::Slash);
    assert(u =~= word + name);
    assert forall|i: int| 0 <= i < word.len() implies CharClass::NotAt.has(#[trigger] u[i]) by {
        assert(u[i] == word[i]);
    }
    if name.len() > 0 {
        assert(u[word.len() as int] == name[0]);
    }
    lemma_leading_is(u, CharClass::NotAt, word.len());
    assert(only_leading(u, CharClass::NotAt) =~= word);
}

/// The words that name a command, and no others: any other word is unknown.
pub proof fn law_command_names(word: Seq<char>)
    ensures
        command_named(word) == Command::Help <==> word == "start"@ || word == "help"@,
        command_named(word) == Command::Status <==> word == "status"@ || word == "cmd_status"@,
        command_named(word) == Command::Accounts <==> word == "accounts"@ || word
            == "cmd_accounts"@,
        command_named(word) == Command::Stats <==> word == "stats"@ || word == "cmd_stats"@,
        command_named(word) == Command::Stop <==> word == "stop"@ || word == "cmd_stop"@,
{
    reveal_strlit("start");
    reveal_strlit("help");
    reveal_strlit("status");
    reveal_strlit("cmd_status");
    reveal_strlit("accounts");
    reveal_strlit("cmd_accounts");
    reveal_strlit("stats");
    reveal_strlit("cmd_stats");
    reveal_strlit("stop");
    reveal_strlit("cmd_stop");
    assert("start"@.len() == 5 && "help"@.len() == 4);
    assert("status"@.len() == 6 && "cmd_status"@.len() == 10);
    assert("accounts"@.len() == 8 && "cmd_accounts"@.len() == 12);
    assert("stats"@.len() == 5 && "cmd_stats"@.len() == 9);
    assert("stop"@.len() == 4 && "cmd_stop"@.len() == 8);
    assert("start"@[3] == 'r' && "stats"@[3] == 't');
    assert("help"@[0] == 'h' && "stop"@[0] == 's');
    assert("accounts"@[0] == 'a' && "cmd_stop"@[0] == 'c');
}

/// The texts that answer the commands, and which of them carry the main menu.
pub proof fn law_answers(
    entries: Seq<EntryView>,
    total_rate: Seq<char>,
    elapsed_secs: u64,
    gpu_name: Seq<char>,
)
    ensures
        ({
            let answer = |command: Command|
                answer_text(command, entries, total_rate, elapsed_secs, gpu_name);
            &&& answer(Command::Help) == "🚀 *HASH Multi-Account Miner*\nGPU: `"@ + gpu_name
                + "`\nPilih perintah di bawah atau ketik langsung:\n\n/status — status ringkas\n/accounts — daftar semua akun\n/stats — stats lengkap\n/stop — hentikan miner\n/help — menu ini"@
            &&& answer(Command::Status) == status_text(
                entries,
                total_rate,
                elapsed_secs,
                gpu_name,
            )
            &&& answer(Command::Accounts) == accounts_text(entries)
            &&& answer(Command::Stats) == stats_text(entries, total_rate, elapsed_secs)
            &&& answer(Command::Stop)
                == "🛑 *Menghentikan semua miner...*\nTunggu beberapa detik."@
            &&& answer(Command::Unknown)
                == "❓ Perintah tidak dikenal. Ketik /help untuk daftar perintah."@
        }),
        answer_keyboard(Command::Help) == Some(main_menu()),
        answer_keyboard(Command::Status) == Some(main_menu()),
        answer_keyboard(Command::Accounts) == Some(main_menu()),
        answer_keyboard(Command::Stats) == Some(main_menu()),
        answer_keyboard(Command::Stop) is None,
        answer_keyboard(Command::Unknown) is None,
{
}

/// What is done about a message: one from the configured chat gets exactly one answer, to that
/// chat, to the command in its text, and stops the miners if the command is to stop; one from
/// any other chat gets none. A button press beside it counts for nothing.
pub proof fn law_message_is_answered(
    token: Seq<char>,
    upd: TgUpdate,
    entries: Seq<EntryView>,
    total_rate: Seq<char>,
    elapsed_secs: u64,
    configured_chat_id: i64,
    gpu_name: Seq<char>,
    text: Seq<char>,
)
    requires
        upd.message is Some,
        upd.message->0.text is Some ==> text == upd.message->0.text->0@,
        upd.message->0.text is None ==> text.len() == 0,
    ensures
        ({
            let r = reply_to(
                token,
                upd,
                entries,
                total_rate,
                elapsed_secs,
                configured_chat_id,
                gpu_name,
            );
            let command = command_named(command_word(text));
            if upd.message->0.chat.id == configured_chat_id {
                &&& r.requests == seq![
                    reply_request(
                        token,
                        configured_chat_id,
                        answer_text(command, entries, total_rate, elapsed_secs, gpu_name),
                        answer_keyboard(command),
                    ),
                ]
                &&& r.shutdown == (command == Command::Stop)
            } else {
                r.requests.len() == 0 && !r.shutdown
            }
        }),
{
    assert(upd.message->0.text is None ==> text =~= Seq::empty());
}

/// What is done about a button press: one by the configured chat is answered as a press and
/// then, in the chat, as the command that the button sends; one by anyone else is not.
pub proof fn law_press_is_answered(
    token: Seq<char>,
    upd: TgUpdate,
    entries: Seq<EntryView>,
    total_rate: Seq<char>,
    elapsed_secs: u64,
    configured_chat_id: i64,
    gpu_name: Seq<char>,
    text: Seq<char>,
)
    requires
        upd.message is None,
        upd.callback_query is Some,
        upd.callback_query->0.data is Some ==> text == upd.callback_query->0.data->0@,
        upd.callback_query->0.data is None ==> text.len() == 0,
    ensures
        ({
            let r = reply_to(
                token,
                upd,
                entries,
                total_rate,
                elapsed_secs,
                configured_chat_id,
                gpu_name,
            );
            let command = command_named(command_word(text));
            if upd.callback_query->0.from.id == configured_chat_id {
                &&& r.requests == seq![
                    answer_request(token, upd.callback_query->0.id@),
                    reply_request(
                        token,
                        configured_chat_id,
                        answer_text(command, entries, total_rate, elapsed_secs, gpu_name),
                        answer_keyboard(command),
                    ),
                ]
                &&& r.shutdown == (command == Command::Stop)
            } else {
                r.requests.len() == 0 && !r.shutdown
            }
        }),
{
    assert(upd.callback_query->0.data is None ==> text =~= Seq::empty());
}

/// An update that is neither a message nor a button press is passed over.
pub proof fn law_other_updates_are_passed_over(
    token: Seq<char>,
    upd: TgUpdate,
    entries: Seq<EntryView>,
    total_rate: Seq<char>,
    elapsed_secs: u64,
    configured_chat_id: i64,
    gpu_name: Seq<char>,
)
    requires
        upd.message is None,
        upd.callback_query is None,
    ensures
        ({
            let r = reply_to(
                token,
                upd,
                entries,
                total_rate,
                elapsed_secs,
                configured_chat_id,
                gpu_name,
            );
            r.requests.len() == 0 && !r.shutdown
        }),
        accepted(upd, configured_chat_id) is None,
{
}

/// A poll without updates leaves the offset; else the next poll starts one behind the last.
pub proof fn law_offset(offset: i64, updates: Seq<TgUpdate>, last: TgUpdate)
    ensures
        offset_after(offset, Seq::empty()) == offset,
        offset_after(offset, updates.push(last)) == last.update_id + 1,
{
}

/// A reply is taken as it is.
pub proof fn law_reply_view_keeps_all(reply: Reply, i: int)
    ensures
        reply@.shutdown == reply.shutdown,
        reply@.requests.len() == reply.requests@.len(),
        0 <= i < reply.requests@.len() ==> reply@.requests[i] == reply.requests@[i]@,
        requests_view(reply.requests@).len() == reply.requests@.len(),
{
}

} // verus!
