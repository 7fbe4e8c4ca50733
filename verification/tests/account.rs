use hash_miner::account::{assemble, normalize_key, prepare, Account, SetupError};
use hash_miner::config::AccountConfig;

const KEY: &str = "ac0974bec39a17e36ba4a6b4d238ff944bacb478cbed5efcae784d7bf4f2ff80";
const ADDRESS: &str = "0xf39Fd6e51aad88F6F4ce6aB8827279cffFb92266";
const URL: &str = "https://eth.llamarpc.com";

fn set_up(key: &str, url: &str) -> Result<Account, SetupError> {
    let cfg = AccountConfig { label: "Akun 1".to_string(), private_key: key.to_string() };
    prepare(&cfg, url)
}

#[test]
fn keys_are_written_in_several_ways() {
    for raw in [
        KEY.to_string(),
        format!("0x{KEY}"),
        format!("  0x{KEY}\n"),
        format!("0x0x{KEY}"),
        format!("\t{KEY} "),
    ] {
        assert_eq!(normalize_key(&raw), KEY);
        let account = set_up(&raw, URL).unwrap();
        assert_eq!(account.key, KEY);
        assert_eq!(account.address, ADDRESS);
        assert_eq!(account.endpoint, "https://eth.llamarpc.com/");
    }
    assert_eq!(normalize_key("0X12"), "0X12");
    assert_eq!(normalize_key("0x 12"), " 12");
    assert_eq!(normalize_key(""), "");
}

#[test]
fn keys_of_the_wrong_length_are_refused() {
    assert!(matches!(set_up("", URL), Err(SetupError::KeyLength)));
    assert!(matches!(set_up("0x", URL), Err(SetupError::KeyLength)));
    assert!(matches!(set_up(&KEY[1..], URL), Err(SetupError::KeyLength)));
    assert!(matches!(set_up(&format!("{KEY}0"), URL), Err(SetupError::KeyLength)));
    // The length comes before everything else.
    assert!(matches!(set_up("zz", "not an address"), Err(SetupError::KeyLength)));
}

#[test]
fn length_counts_bytes() {
    // Thirty-two characters of two bytes each.
    let wide = "é".repeat(32);
    assert!(matches!(set_up(&wide, URL), Err(SetupError::Key(_))));
    let narrow = "é".repeat(64);
    assert!(matches!(set_up(&narrow, URL), Err(SetupError::KeyLength)));
}

#[test]
fn strings_that_are_no_keys_are_refused() {
    let zero = "0".repeat(64);
    let letters = "z".repeat(64);
    match set_up(&letters, URL) {
        Err(SetupError::Key(e)) => assert!(e.contains("invalid character"), "{e}"),
        other => panic!("{other:?}"),
    }
    assert!(matches!(set_up(&zero, "not an address"), Err(SetupError::Key(_))));
}

#[test]
fn endpoints_that_are_no_addresses_are_refused() {
    match set_up(KEY, "not an address") {
        Err(SetupError::Endpoint(e)) => assert_eq!(e, "relative URL without a base"),
        other => panic!("{other:?}"),
    }
}

#[test]
fn outcomes_decide_in_order() {
    let ok = |s: &str| Ok(s.to_string());
    let err = |s: &str| Err(s.to_string());
    let account = assemble(KEY.to_string(), ok("A"), ok("E")).unwrap();
    assert_eq!((account.key.as_str(), account.address.as_str(), account.endpoint.as_str()), (KEY, "A", "E"));
    assert!(matches!(assemble("12".to_string(), err("k"), err("e")), Err(SetupError::KeyLength)));
    assert!(matches!(assemble(KEY.to_string(), err("k"), err("e")), Err(SetupError::Key(e)) if e == "k"));
    assert!(matches!(assemble(KEY.to_string(), ok("A"), err("e")), Err(SetupError::Endpoint(e)) if e == "e"));
}
