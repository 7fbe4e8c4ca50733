use hash_miner::config::{
    config_path, default_stats_interval, resolve, AccountConfig, Config, ConfigError, Environment,
    Settings,
};

fn some(s: &str) -> Option<String> {
    Some(s.to_string())
}

fn file() -> Config {
    Config {
        rpc_url: None,
        accounts: vec![AccountConfig { label: "Akun 1".to_string(), private_key: "0x..".to_string() }],
        gpu_batch_size: None,
        telegram_token: None,
        telegram_chat_id: None,
        stats_interval_secs: default_stats_interval(),
    }
}

fn nothing() -> Environment {
    Environment { rpc_url: None, telegram_token: None, telegram_chat_id: None }
}

fn settled(cfg: Config, env: Environment) -> Settings {
    resolve(cfg, env).unwrap()
}

#[test]
fn defaults() {
    let s = settled(file(), nothing());
    assert_eq!(s.rpc_url, "https://eth.llamarpc.com");
    assert_eq!(s.gpu_batch_size, 4_194_304);
    assert_eq!(s.gpu_batch_size, 1 << 22);
    assert_eq!(s.stats_interval_secs, 60);
    assert_eq!(s.telegram_token, "");
    assert_eq!(s.telegram_chat_id, "");
    assert!(!s.has_telegram);
    assert_eq!(s.configured_chat_id, 0);
    assert_eq!(s.accounts.len(), 1);
    assert_eq!(s.accounts[0].label, "Akun 1");
}

#[test]
fn file_wins_over_environment_over_default() {
    let env = || Environment {
        rpc_url: some("https://env"),
        telegram_token: some("env-token"),
        telegram_chat_id: some("2"),
    };
    let from_env = settled(file(), env());
    assert_eq!(from_env.rpc_url, "https://env");
    assert_eq!(from_env.telegram_token, "env-token");
    assert_eq!(from_env.configured_chat_id, 2);
    assert!(from_env.has_telegram);

    let mut cfg = file();
    cfg.rpc_url = some("https://file");
    cfg.telegram_token = some("file-token");
    cfg.telegram_chat_id = some("-1001");
    cfg.gpu_batch_size = Some(16_777_216);
    cfg.stats_interval_secs = 5;
    let from_file = settled(cfg, env());
    assert_eq!(from_file.rpc_url, "https://file");
    assert_eq!(from_file.telegram_token, "file-token");
    assert_eq!(from_file.telegram_chat_id, "-1001");
    assert_eq!(from_file.configured_chat_id, -1001);
    assert_eq!(from_file.gpu_batch_size, 16_777_216);
    assert_eq!(from_file.stats_interval_secs, 5);
}

#[test]
fn bot_needs_token_and_chat() {
    let mut cfg = file();
    cfg.telegram_chat_id = some("bukan angka");
    let s = settled(cfg, nothing());
    assert!(!s.has_telegram);
    assert_eq!(s.configured_chat_id, 0);

    let mut cfg = file();
    cfg.telegram_token = some("t");
    cfg.telegram_chat_id = some("");
    assert!(!settled(cfg, Environment { telegram_chat_id: some("7"), ..nothing() }).has_telegram);
}

#[test]
fn bad_chat_identifier() {
    let mut cfg = file();
    cfg.telegram_token = some("t");
    cfg.telegram_chat_id = some("@chat");
    match resolve(cfg, nothing()) {
        Err(e @ ConfigError::BadChatId(_)) => assert_eq!(
            e.message("accounts.json"),
            "❌ telegram_chat_id bukan angka valid: '@chat'\n   Contoh benar: \"telegram_chat_id\": \"5051864490\"",
        ),
        other => panic!("{other:?}"),
    }
}

#[test]
fn accounts_are_needed_first_of_all() {
    let mut cfg = file();
    cfg.accounts = vec![];
    cfg.telegram_token = some("t");
    cfg.telegram_chat_id = some("x");
    match resolve(cfg, nothing()) {
        Err(e @ ConfigError::NoAccounts) => {
            assert_eq!(e.message("a.json"), "No accounts configured in a.json")
        }
        other => panic!("{other:?}"),
    }
}

#[test]
fn command_line_names_the_file() {
    let path = |args: &[&str]| {
        config_path(&args.iter().map(|a| a.to_string()).collect::<Vec<_>>())
    };
    assert_eq!(path(&["miner"]), "accounts.json");
    assert_eq!(path(&[]), "accounts.json");
    assert_eq!(path(&["miner", "--config"]), "accounts.json");
    assert_eq!(path(&["miner", "--config", "/etc/m.json"]), "/etc/m.json");
    assert_eq!(path(&["miner", "-v", "--config", "a", "--config", "b"]), "a");
    assert_eq!(path(&["miner", "--config", "--config", "b"]), "--config");
}
