//! Start-up: the command line, the configuration file, the environment and the defaults.
use vstd::prelude::*;

use crate::text::{integer_of, parse_integer, same_text, texts};

verus! {

/// The number of nonces that a GPU tries at a time, where the configuration names none.
pub const DEFAULT_BATCH_SIZE: usize = 4_194_304;

/// One account: its name in reports, and its private key in hexadecimal.
#[derive(Debug)]
pub struct AccountConfig {
    pub label: String,
    pub private_key: String,
}

/// What all accounts mine with. Fees are in wei.
#[derive(Debug)]
pub struct MiningConfig {
    pub rpc_url: String,
    pub priority_wei: u128,
    pub max_fee_wei: u128,
    pub gpu_batch_size: usize,
}

/// What the configuration file says, apart from the fees.
#[derive(Debug)]
pub struct Config {
    pub rpc_url: Option<String>,
    pub accounts: Vec<AccountConfig>,
    pub gpu_batch_size: Option<usize>,
    pub telegram_token: Option<String>,
    pub telegram_chat_id: Option<String>,
    pub stats_interval_secs: u64,
}

/// What the environment says: `RPC_URL`, `TELEGRAM_TOKEN` and `TELEGRAM_CHAT_ID`.
#[derive(Debug)]
pub struct Environment {
    pub rpc_url: Option<String>,
    pub telegram_token: Option<String>,
    pub telegram_chat_id: Option<String>,
}

/// What the program runs with.
#[derive(Debug)]
pub struct Settings {
    pub rpc_url: String,
    pub accounts: Vec<AccountConfig>,
    pub gpu_batch_size: usize,
    pub telegram_token: String,
    pub telegram_chat_id: String,
    /// Whether the bot is in use.
    pub has_telegram: bool,
    /// The chat that the bot obeys; zero where the bot is not in use.
    pub configured_chat_id: i64,
    pub stats_interval_secs: u64,
}

/// Why the program cannot start.
#[derive(Debug)]
pub enum ConfigError {
    /// The configuration lists no account.
    NoAccounts,
    /// The chat identifier is no integer.
    BadChatId(String),
}

/// Seconds between two reports, where the configuration names none.
pub fn default_stats_interval() -> (r: u64)
    ensures
        r == 60,
{
    60
}

/// What an optional string holds.
pub open spec fn opt_text(s: Option<String>) -> Option<Seq<char>> {
    match s {
        Some(s) => Some(s@),
        None => None,
    }
}

/// The value in the file, else the value in the environment, else the default.
pub open spec fn chosen(
    file: Option<Seq<char>>,
    environment: Option<Seq<char>>,
    default: Seq<char>,
) -> Seq<char> {
    match (file, environment) {
        (Some(v), _) => v,
        (None, Some(v)) => v,
        (None, None) => default,
    }
}

/// Takes the value in the file, else the value in the environment, else the default.
fn choose_text(file: Option<String>, environment: Option<String>, default: &str) -> (r: String)
    ensures
        r@ == chosen(opt_text(file), opt_text(environment), default@),
{
    match file {
        Some(v) => v,
        None => match environment {
            Some(v) => v,
            None => default.to_owned(),
        },
    }
}

/// The endpoint that the program runs with.
pub open spec fn rpc_url_of(cfg: Config, env: Environment) -> Seq<char> {
    chosen(opt_text(cfg.rpc_url), opt_text(env.rpc_url), "https://eth.llamarpc.com"@)
}

/// The bot token that the program runs with; empty where none is given.
pub open spec fn token_of(cfg: Config, env: Environment) -> Seq<char> {
    chosen(opt_text(cfg.telegram_token), opt_text(env.telegram_token), Seq::empty())
}

/// The chat identifier that the program runs with; empty where none is given.
pub open spec fn chat_of(cfg: Config, env: Environment) -> Seq<char> {
    chosen(opt_text(cfg.telegram_chat_id), opt_text(env.telegram_chat_id), Seq::empty())
}

/// The bot is in use when it has a token and a chat.
pub open spec fn telegram_in_use(cfg: Config, env: Environment) -> bool {
    token_of(cfg, env).len() > 0 && chat_of(cfg, env).len() > 0
}

/// Settles what the program runs with.
pub fn resolve(cfg: Config, env: Environment) -> (r: Result<Settings, ConfigError>)
    ensures
        (r matches Err(ConfigError::NoAccounts)) <==> cfg.accounts@.len() == 0,
        (r matches Err(ConfigError::BadChatId(_))) <==> cfg.accounts@.len() > 0 && telegram_in_use(
            cfg,
            env,
        ) && integer_of(chat_of(cfg, env)) is None,
        r matches Err(ConfigError::BadChatId(s)) ==> s@ == chat_of(cfg, env),
        r matches Ok(settings) ==> {
            &&& settings.rpc_url@ == rpc_url_of(cfg, env)
            &&& settings.accounts == cfg.accounts
            &&& settings.gpu_batch_size == (match cfg.gpu_batch_size {
                Some(n) => n,
                None => DEFAULT_BATCH_SIZE,
            })
            &&& settings.telegram_token@ == token_of(cfg, env)
            &&& settings.telegram_chat_id@ == chat_of(cfg, env)
            &&& settings.has_telegram == telegram_in_use(cfg, env)
            &&& settings.configured_chat_id == (if telegram_in_use(cfg, env) {
                integer_of(chat_of(cfg, env))->0
            } else {
                0
            })
            &&& settings.stats_interval_secs == cfg.stats_interval_secs
        },
{
    proof {
        reveal_strlit("");
        assert(""@ =~= Seq::<char>::empty());
    }
    if cfg.accounts.len() == 0 {
        return Err(ConfigError::NoAccounts);
    }
    let rpc_url = choose_text(cfg.rpc_url, env.rpc_url, "https://eth.llamarpc.com");
    let telegram_token = choose_text(cfg.telegram_token, env.telegram_token, "");
    let telegram_chat_id = choose_text(cfg.telegram_chat_id, env.telegram_chat_id, "");
    let has_telegram: bool = !telegram_token.as_str().is_empty()
        && !telegram_chat_id.as_str().is_empty();
    let configured_chat_id: i64 = if has_telegram {
        match parse_integer(telegram_chat_id.as_str()) {
            Some(id) => id,
            None => {
                return Err(ConfigError::BadChatId(telegram_chat_id));
            },
        }
    } else {
        0
    };
    let gpu_batch_size: usize = match cfg.gpu_batch_size {
        Some(n) => n,
        None => DEFAULT_BATCH_SIZE,
    };
    Ok(
        Settings {
            rpc_url,
            accounts: cfg.accounts,
            gpu_batch_size,
            telegram_token,
            telegram_chat_id,
            has_telegram,
            configured_chat_id,
            stats_interval_secs: cfg.stats_interval_secs,
        },
    )
}

/// What is said about a start that failed.
pub open spec fn failure_text(error: ConfigError, config_path: Seq<char>) -> Seq<char> {
    match error {
        ConfigError::NoAccounts => "No accounts configured in "@ + config_path,
        ConfigError::BadChatId(s) => "❌ telegram_chat_id bukan angka valid: '"@ + s@
            + "'\n   Contoh benar: \"telegram_chat_id\": \"5051864490\""@,
    }
}

impl ConfigError {
    /// What to say about the failure.
    pub fn message(&self, config_path: &str) -> (r: String)
        ensures
            r@ == failure_text(*self, config_path@),
    {
        match self {
            ConfigError::NoAccounts => {
                let mut out = "No accounts configured in ".to_owned();
                out.append(config_path);
                out
            },
            ConfigError::BadChatId(s) => {
                let mut out = "❌ telegram_chat_id bukan angka valid: '".to_owned();
                out.append(s.as_str());
                out.append("'\n   Contoh benar: \"telegram_chat_id\": \"5051864490\"");
                out
            },
        }
    }
}

/// The argument that follows the first `--config` on a command line.
pub open spec fn config_argument(args: Seq<Seq<char>>) -> Option<Seq<char>>
    decreases args.len(),
{
    if args.len() < 2 {
        None
    } else if args[0] == "--config"@ {
        Some(args[1])
    } else {
        config_argument(args.skip(1))
    }
}

/// The configuration file to read: the one named on the command line, else `accounts.json`.
pub fn config_path(args: &[String]) -> (r: String)
    ensures
        r@ == (match config_argument(texts(args@)) {
            Some(path) => path,
            None => "accounts.json"@,
        }),
{
    let ghost all = texts(args@);
    let mut i: usize = 0;
    proof {
        assert(all.skip(0) == all);
    }
    while i < args.len() && i + 1 < args.len()
        invariant
            i <= args@.len(),
            all == texts(args@),
            config_argument(all) == config_argument(all.skip(i as int)),
        decreases args.len() - i,
    {
        proof {
            let t = all.skip(i as int);
            assert(t[0] == args@[i as int]@);
            assert(t[1] == args@[i as int + 1]@);
            assert(t.skip(1) == all.skip(i as int + 1));
        }
        if same_text(args[i].as_str(), "--config") {
            return args[i + 1].clone();
        }
        i += 1;
    }
    "accounts.json".to_owned()
}

/// The first `--config` that an argument follows decides; without one nothing does.
pub proof fn law_first_flag_decides(args: Seq<Seq<char>>)
    ensures
        match config_argument(args) {
            Some(path) => exists|i: int|
                0 <= i < args.len() - 1 && #[trigger] args[i] == "--config"@ && args[i + 1] == path
                    && forall|j: int| 0 <= j < i ==> #[trigger] args[j] != "--config"@,
            None => forall|j: int|
                0 <= j < args.len() - 1 ==> #[trigger] args[j] != "--config"@,
        },
    decreases args.len(),
{
    if args.len() >= 2 && args[0] != "--config"@ {
        let rest = args.skip(1);
        law_first_flag_decides(rest);
        match config_argument(args) {
            Some(path) => {
                let i = choose|i: int|
                    0 <= i < rest.len() - 1 && #[trigger] rest[i] == "--config"@ && rest[i + 1]
                        == path && forall|j: int|
                        0 <= j < i ==> #[trigger] rest[j] != "--config"@;
                assert(args[i + 1] == rest[i]);
                assert forall|j: int| 0 <= j < i + 1 implies #[trigger] args[j] != "--config"@ by {
                    if j > 0 {
                        assert(args[j] == rest[j - 1]);
                    }
                }
            },
            None => {
                assert forall|j: int| 0 <= j < args.len() - 1 implies #[trigger] args[j]
                    != "--config"@ by {
                    if j > 0 {
                        assert(args[j] == rest[j - 1]);
                    }
                }
            },
        }
    }
}

/// A value in the file wins over the environment, and the environment over the default.
pub proof fn law_file_over_environment(
    file: Seq<char>,
    environment: Option<Seq<char>>,
    value: Seq<char>,
    default: Seq<char>,
)
    ensures
        chosen(Some(file), environment, default) == file,
        chosen(None, Some(value), default) == value,
        chosen(None, None, default) == default,
{
}

/// Where each setting comes from: the file where it says something, else the environment, else
/// the default; the bot is in use exactly with a token and a chat that are both not empty.
pub proof fn law_settings(cfg: Config, env: Environment)
    ensures
        cfg.rpc_url matches Some(v) ==> rpc_url_of(cfg, env) == v@,
        cfg.rpc_url is None ==> (env.rpc_url matches Some(v) ==> rpc_url_of(cfg, env) == v@),
        cfg.rpc_url is None && env.rpc_url is None ==> rpc_url_of(cfg, env)
            == "https://eth.llamarpc.com"@,
        cfg.telegram_token matches Some(v) ==> token_of(cfg, env) == v@,
        cfg.telegram_token is None ==> (env.telegram_token matches Some(v) ==> token_of(cfg, env)
            == v@),
        cfg.telegram_token is None && env.telegram_token is None ==> token_of(cfg, env).len() == 0,
        cfg.telegram_chat_id matches Some(v) ==> chat_of(cfg, env) == v@,
        cfg.telegram_chat_id is None ==> (env.telegram_chat_id matches Some(v) ==> chat_of(cfg, env)
            == v@),
        cfg.telegram_chat_id is None && env.telegram_chat_id is None ==> chat_of(cfg, env).len()
            == 0,
        telegram_in_use(cfg, env) <==> token_of(cfg, env).len() != 0 && chat_of(cfg, env).len()
            != 0,
        DEFAULT_BATCH_SIZE == 4194304,
{
}

/// What is said about a start that failed names the file, or the identifier that is no number.
pub proof fn law_failure_is_named(id: String, path: Seq<char>)
    ensures
        failure_text(ConfigError::NoAccounts, path) == "No accounts configured in "@ + path,
        failure_text(ConfigError::BadChatId(id), path)
            == "❌ telegram_chat_id bukan angka valid: '"@ + id@
            + "'\n   Contoh benar: \"telegram_chat_id\": \"5051864490\""@,
{
}

} // verus!
