//! Setting up an account: its private key and the endpoint it mines through.
use alloy::signers::local::PrivateKeySigner;
use vstd::prelude::*;
use vstd::utf8::encode_utf8;

use crate::config::AccountConfig;
use crate::text::{
    blank, law_trim, lemma_leading_is, lemma_trailing_is, trim, trimmed, white_space, CharClass,
};

verus! {

/// The number of hexadecimal digits in a private key.
pub const KEY_DIGITS: usize = 64;

/// `s` without the `0x` marks at its start.
pub open spec fn without_hex_marks(s: Seq<char>) -> Seq<char>
    decreases s.len(),
{
    if s.len() >= 2 && s[0] == '0' && s[1] == 'x' {
        without_hex_marks(s.skip(2))
    } else {
        s
    }
}

/// The digits of a private key as it is written in the configuration.
pub open spec fn key_digits(raw: Seq<char>) -> Seq<char> {
    without_hex_marks(trimmed(raw))
}

/// Takes the digits out of a private key as it is written in the configuration.
pub fn normalize_key(raw: &str) -> (r: String)
    ensures
        r@ == key_digits(raw@),
{
    let key = trim(raw);
    let len: usize = key.unicode_len();
    let mut from: usize = 0;
    proof {
        assert(key@.skip(0) == key@);
    }
    while len - from >= 2 && key.get_char(from) == '0' && key.get_char(from + 1) == 'x'
        invariant
            len == key@.len(),
            from <= len,
            without_hex_marks(key@) == without_hex_marks(key@.skip(from as int)),
        decreases len - from,
    {
        proof {
            let t = key@.skip(from as int);
            assert(t.skip(2) == key@.skip(from as int + 2));
        }
        from += 2;
    }
    proof {
        assert(key@.subrange(from as int, len as int) == key@.skip(from as int));
    }
    key.substring_char(from, len).to_owned()
}

/// Why an account cannot mine.
#[derive(Debug)]
pub enum SetupError {
    /// The private key has the wrong length.
    KeyLength,
    /// The private key is no key.
    Key(String),
    /// The endpoint is no address.
    Endpoint(String),
}

/// What a [`SetupError`] stands for.
pub enum SetupErrorView {
    KeyLength,
    Key(Seq<char>),
    Endpoint(Seq<char>),
}

impl View for SetupError {
    type V = SetupErrorView;

    open spec fn view(&self) -> SetupErrorView {
        match self {
            SetupError::KeyLength => SetupErrorView::KeyLength,
            SetupError::Key(e) => SetupErrorView::Key(e@),
            SetupError::Endpoint(e) => SetupErrorView::Endpoint(e@),
        }
    }
}

/// An account that can mine: the digits of its key, its address and its endpoint.
#[derive(Debug)]
pub struct Account {
    pub key: String,
    pub address: String,
    pub endpoint: String,
}

/// What an [`Account`] stands for.
pub struct AccountView {
    pub key: Seq<char>,
    pub address: Seq<char>,
    pub endpoint: Seq<char>,
}

impl View for Account {
    type V = AccountView;

    open spec fn view(&self) -> AccountView {
        AccountView { key: self.key@, address: self.address@, endpoint: self.endpoint@ }
    }
}

/// What the setup of an account stands for.
pub open spec fn setup_view(r: Result<Account, SetupError>) -> Result<AccountView, SetupErrorView> {
    match r {
        Ok(account) => Ok(account@),
        Err(error) => Err(error@),
    }
}

/// What a result that is text either way holds.
pub open spec fn text_result(r: Result<String, String>) -> Result<Seq<char>, Seq<char>> {
    match r {
        Ok(s) => Ok(s@),
        Err(s) => Err(s@),
    }
}

/// The address of the signer that a string of hexadecimal digits gives, or what is wrong
/// with the string.
pub uninterp spec fn signer_address(key: Seq<char>) -> Result<Seq<char>, Seq<char>>;

/// The address that a string parses to, or what is wrong with the string.
pub uninterp spec fn parsed_url(url: Seq<char>) -> Result<Seq<char>, Seq<char>>;

/// Parses `key` as an `alloy` `PrivateKeySigner` and renders the signer's address. Both the
/// address and the error depend on the digits alone. Which strings are keys is left unsaid.
#[verifier::external_body]
fn derive_address(key: &str) -> (r: Result<String, String>)
    ensures
        text_result(r) == signer_address(key@),
{
    match key.parse::<PrivateKeySigner>() {
        Ok(signer) => Ok(signer.address().to_string()),
        Err(e) => Err(e.to_string()),
    }
}

/// Calls `reqwest::Url::parse` and renders what it gives. Both the address and the error
/// depend on the text alone. Which texts are addresses is left unsaid.
#[verifier::external_body]
fn parse_url(url: &str) -> (r: Result<String, String>)
    ensures
        text_result(r) == parsed_url(url@),
{
    match reqwest::Url::parse(url) {
        Ok(parsed) => Ok(parsed.to_string()),
        Err(e) => Err(e.to_string()),
    }
}

/// A key of the right length. Lengths count bytes.
pub open spec fn right_length(key: Seq<char>) -> bool {
    encode_utf8(key).len() == KEY_DIGITS
}

/// What comes of an account, given what its key and its endpoint parse to: the length of
/// the key is looked at first, then the key, then the endpoint.
pub open spec fn setup(
    key: Seq<char>,
    address: Result<Seq<char>, Seq<char>>,
    endpoint: Result<Seq<char>, Seq<char>>,
) -> Result<AccountView, SetupErrorView> {
    if !right_length(key) {
        Err(SetupErrorView::KeyLength)
    } else {
        match (address, endpoint) {
            (Err(e), _) => Err(SetupErrorView::Key(e)),
            (Ok(_), Err(e)) => Err(SetupErrorView::Endpoint(e)),
            (Ok(address), Ok(endpoint)) => Ok(AccountView { key, address, endpoint }),
        }
    }
}

/// Decides what comes of an account, given what its key and its endpoint parse to.
pub fn assemble(
    key: String,
    address: Result<String, String>,
    endpoint: Result<String, String>,
) -> (r: Result<Account, SetupError>)
    ensures
        setup_view(r) == setup(key@, text_result(address), text_result(endpoint)),
{
    if key.as_str().as_bytes().len() != KEY_DIGITS {
        return Err(SetupError::KeyLength);
    }
    match address {
        Err(e) => Err(SetupError::Key(e)),
        Ok(address) => match endpoint {
            Err(e) => Err(SetupError::Endpoint(e)),
            Ok(endpoint) => Ok(Account { key, address, endpoint }),
        },
    }
}

/// Sets an account up.
pub fn prepare(cfg: &AccountConfig, rpc_url: &str) -> (r: Result<Account, SetupError>)
    ensures
        setup_view(r) == setup(
            key_digits(cfg.private_key@),
            signer_address(key_digits(cfg.private_key@)),
            parsed_url(rpc_url@),
        ),
{
    let key = normalize_key(cfg.private_key.as_str());
    if key.as_str().as_bytes().len() != KEY_DIGITS {
        return Err(SetupError::KeyLength);
    }
    let address = derive_address(key.as_str());
    let endpoint = parse_url(rpc_url);
    assemble(key, address, endpoint)
}

/// Blanks around a key and a `0x` mark before it make no difference.
pub proof fn law_key_forms(before: Seq<char>, key: Seq<char>, after: Seq<char>)
    requires
        blank(before),
        blank(after),
        key.len() > 0,
        !white_space(key[0]),
        !white_space(key.last()),
    ensures
        key_digits(before + key + after) == key_digits(key),
        key_digits(before + seq!['0', 'x'] + key + after) == key_digits(key),
{
    let none = Seq::<char>::empty();
    let marked = seq!['0', 'x'] + key;
    lemma_trimmed(none, key, none);
    assert(none + key + none == key);
    lemma_trimmed(before, key, after);
    assert(marked.last() == key.last());
    lemma_trimmed(before, marked, after);
    assert(before + marked + after == before + seq!['0', 'x'] + key + after);
    assert(marked.skip(2) == key);
}

/// Trimming takes away exactly the blanks around a text.
proof fn lemma_trimmed(before: Seq<char>, core: Seq<char>, after: Seq<char>)
    requires
        blank(before),
        blank(after),
        core.len() > 0,
        !white_space(core[0]),
        !white_space(core.last()),
    ensures
        trimmed(before + core + after) == core,
{
    let s = before + core + after;
    assert forall|i: int| 0 <= i < before.len() implies CharClass::Space.has(#[trigger] s[i]) by {
        assert(s[i] == before[i]);
    }
    assert(s[before.len() as int] == core[0]);
    lemma_leading_is(s, CharClass::Space, before.len());
    let t = s.skip(before.len() as int);
    assert(t =~= core + after);
    assert forall|i: int| t.len() - after.len() <= i < t.len() implies CharClass::Space.has(
        #[trigger] t[i],
    ) by {
        assert(t[i] == after[i - core.len()]);
    }
    assert(t[t.len() - after.len() - 1] == core.last());
    lemma_trailing_is(t, CharClass::Space, after.len());
    assert(t.take(t.len() - after.len()) =~= core);
}

/// A key is what is left of its text without white space around it and without the `0x` marks
/// before it; a text that holds nothing else leaves nothing.
pub proof fn law_key_is_what_is_left(before: Seq<char>, key: Seq<char>, after: Seq<char>)
    requires
        blank(before),
        blank(after),
    ensures
        key.len() > 0 && !white_space(key[0]) && !white_space(key.last()) && !(key.len() >= 2
            && key[0] == '0' && key[1] == 'x') ==> key_digits(before + key + after) == key,
        key_digits(before) == Seq::<char>::empty(),
        key_digits(before + seq!['0', 'x'] + after) == Seq::<char>::empty(),
{
    law_trim(before, key, after);
    let mark = seq!['0', 'x'];
    law_trim(before, mark, after);
    assert(mark.skip(2) =~= Seq::empty());
    assert(key_digits(before + mark + after) == without_hex_marks(mark.skip(2)));
}

/// What comes of an account: a key that is not sixty-four bytes long is refused for its length,
/// whatever else is wrong; then a key that does not parse, then an endpoint that does not; and
/// an account that is accepted has the very key, address and endpoint that were given.
pub proof fn law_setup(
    key: Seq<char>,
    address: Result<Seq<char>, Seq<char>>,
    endpoint: Result<Seq<char>, Seq<char>>,
)
    ensures
        encode_utf8(key).len() != 64 ==> setup(key, address, endpoint) == Err::<
            AccountView,
            SetupErrorView,
        >(SetupErrorView::KeyLength),
        encode_utf8(key).len() == 64 ==> match setup(key, address, endpoint) {
            Ok(account) => {
                &&& account.key == key
                &&& address == Ok::<Seq<char>, Seq<char>>(account.address)
                &&& endpoint == Ok::<Seq<char>, Seq<char>>(account.endpoint)
            },
            Err(SetupErrorView::KeyLength) => false,
            Err(SetupErrorView::Key(e)) => address == Err::<Seq<char>, Seq<char>>(e),
            Err(SetupErrorView::Endpoint(e)) => address is Ok && endpoint == Err::<
                Seq<char>,
                Seq<char>,
            >(e),
        },
{
}

/// What comes of an account is taken as it is.
pub proof fn law_setup_views_keep_all(account: Account, e: String, r: Result<String, String>)
    ensures
        account@.key == account.key@,
        account@.address == account.address@,
        account@.endpoint == account.endpoint@,
        SetupError::KeyLength@ == SetupErrorView::KeyLength,
        SetupError::Key(e)@ == SetupErrorView::Key(e@),
        SetupError::Endpoint(e)@ == SetupErrorView::Endpoint(e@),
        setup_view(Ok(account)) == Ok::<AccountView, SetupErrorView>(account@),
        setup_view(Err(SetupError::Key(e))) == Err::<AccountView, SetupErrorView>(
            SetupErrorView::Key(e@),
        ),
        setup_view(Err(SetupError::Endpoint(e))) == Err::<AccountView, SetupErrorView>(
            SetupErrorView::Endpoint(e@),
        ),
        setup_view(Err(SetupError::KeyLength)) == Err::<AccountView, SetupErrorView>(
            SetupErrorView::KeyLength,
        ),
        text_result(r) == (match r {
            Ok(s) => Ok::<Seq<char>, Seq<char>>(s@),
            Err(s) => Err::<Seq<char>, Seq<char>>(s@),
        }),
{
}

} // verus!
