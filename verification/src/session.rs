//! What the bot is told over a session: at its start, at regular intervals and at its end.
use vstd::prelude::*;

use crate::command::requests_view;
use crate::telegram::{
    entries_view, menu_body, post, push_request, start_text, stats_text, total_solutions,
    ApiCall, ApiRequest, ApiRequestView, StatEntry, TelegramBot,
};
use crate::text::texts;

verus! {

/// At the start the menu is registered and the accounts are announced, where the bot is in
/// use.
pub open spec fn opening(
    token: Seq<char>,
    chat_id: Seq<char>,
    has_telegram: bool,
    labels: Seq<Seq<char>>,
    gpu_name: Seq<char>,
) -> Seq<ApiRequestView> {
    if has_telegram {
        seq![
            post(token, ApiCall::SetCommands, menu_body()),
            push_request(token, chat_id, start_text(labels, gpu_name)),
        ]
    } else {
        Seq::empty()
    }
}

/// The requests at the start of a session, in order.
pub fn opening_requests(
    bot: &TelegramBot,
    has_telegram: bool,
    labels: &[String],
    gpu_name: &str,
) -> (r: Vec<ApiRequest>)
    ensures
        requests_view(r@) == opening(
            bot.token@,
            bot.chat_id@,
            has_telegram,
            texts(labels@),
            gpu_name@,
        ),
{
    let mut requests: Vec<ApiRequest> = Vec::new();
    if has_telegram {
        requests.push(bot.set_commands());
        requests.push(bot.notify_start(labels, gpu_name));
    }
    proof {
        assert(requests_view(requests@) =~= opening(
            bot.token@,
            bot.chat_id@,
            has_telegram,
            texts(labels@),
            gpu_name@,
        ));
    }
    requests
}

/// The report that is due after each interval, where the bot is in use and there is an
/// account to report on.
pub fn interval_request(
    bot: &TelegramBot,
    has_telegram: bool,
    entries: &[StatEntry],
    total_rate: &str,
    elapsed_secs: u64,
) -> (r: Option<ApiRequest>)
    requires
        total_solutions(entries_view(entries@)) <= u64::MAX,
    ensures
        r is Some <==> has_telegram && entries@.len() > 0,
        r matches Some(request) ==> request@ == push_request(
            bot.token@,
            bot.chat_id@,
            stats_text(entries_view(entries@), total_rate@, elapsed_secs),
        ),
{
    if has_telegram {
        bot.notify_stats(entries, total_rate, elapsed_secs)
    } else {
        None
    }
}

/// The request at the end of a session, where the bot is in use.
pub fn closing_request(bot: &TelegramBot, has_telegram: bool) -> (r: Option<ApiRequest>)
    ensures
        r is Some <==> has_telegram,
        r matches Some(request) ==> request@ == push_request(
            bot.token@,
            bot.chat_id@,
            "🛑 *Miner stopped*"@,
        ),
{
    if has_telegram {
        Some(bot.notify_stopped())
    } else {
        None
    }
}

/// At the start the menu is registered, then the accounts are announced to the configured chat;
/// without the bot nothing is sent.
pub proof fn law_opening(
    token: Seq<char>,
    chat_id: Seq<char>,
    labels: Seq<Seq<char>>,
    gpu_name: Seq<char>,
)
    ensures
        opening(token, chat_id, false, labels, gpu_name).len() == 0,
        opening(token, chat_id, true, labels, gpu_name).len() == 2,
        opening(token, chat_id, true, labels, gpu_name)[0] == post(
            token,
            ApiCall::SetCommands,
            menu_body(),
        ),
        opening(token, chat_id, true, labels, gpu_name)[1] == push_request(
            token,
            chat_id,
            start_text(labels, gpu_name),
        ),
{
}

} // verus!
