//! Proof of work: `keccak256(abi.encode(bytes32 challenge, uint256 nonce)) < difficulty`.
use alloy::primitives::U256;
use vstd::prelude::*;

verus! {

/// The Keccak-256 digest of `data`.
pub uninterp spec fn keccak_digest(data: Seq<u8>) -> Seq<u8>;

/// The number that `bytes` denotes, most significant byte first.
pub open spec fn be_value(bytes: Seq<u8>) -> nat
    decreases bytes.len(),
{
    if bytes.len() == 0 {
        0
    } else {
        be_value(bytes.drop_last()) * 256 + bytes.last() as nat
    }
}

/// The lowest `len` bytes of `n`, most significant byte first.
pub open spec fn be_bytes(n: nat, len: nat) -> Seq<u8>
    decreases len,
{
    if len == 0 {
        Seq::empty()
    } else {
        be_bytes(n / 256, (len - 1) as nat).push((n % 256) as u8)
    }
}

/// What is hashed for a nonce: the challenge, then the nonce as a 256-bit word.
pub open spec fn preimage(challenge: Seq<u8>, nonce: u64) -> Seq<u8> {
    challenge + be_bytes(nonce as nat, 32)
}

/// `nonce` answers `challenge` at `difficulty`.
pub open spec fn solves(challenge: Seq<u8>, difficulty: Seq<u8>, nonce: u64) -> bool {
    be_value(keccak_digest(preimage(challenge, nonce))) < be_value(difficulty)
}

/// The nonce `i` places after `start`, counting past the largest nonce to zero.
pub open spec fn nonce_at(start: u64, i: nat) -> u64 {
    ((start + i) % 0x1_0000_0000_0000_0000) as u64
}

/// The first of the `count` nonces from `start` on that answers the challenge.
pub open spec fn first_solution(
    challenge: Seq<u8>,
    difficulty: Seq<u8>,
    start: u64,
    count: nat,
) -> Option<u64>
    decreases count,
{
    if count == 0 {
        None
    } else {
        match first_solution(challenge, difficulty, start, (count - 1) as nat) {
            Some(n) => Some(n),
            None => {
                let n = nonce_at(start, (count - 1) as nat);
                if solves(challenge, difficulty, n) {
                    Some(n)
                } else {
                    None
                }
            },
        }
    }
}

/// Calls `alloy::primitives::keccak256`, the Keccak-256 hash function: the digest depends
/// on the bytes alone and is 32 bytes long.
#[verifier::external_body]
fn keccak256(data: &[u8]) -> (r: [u8; 32])
    ensures
        r@ == keccak_digest(data@),
{
    alloy::primitives::keccak256(data).0
}

/// Calls `U256::from` and `U256::to_be_bytes` of `alloy::primitives`: the 32 bytes of the
/// 256-bit word that holds `n`, most significant byte first.
#[verifier::external_body]
fn u256_be_bytes(n: u64) -> (r: [u8; 32])
    ensures
        r@ == be_bytes(n as nat, 32),
{
    U256::from(n).to_be_bytes::<32>()
}

/// Calls `U256::from_be_bytes` and `<` of `alloy::primitives`: compares the numbers that
/// two big-endian 256-bit words denote.
#[verifier::external_body]
fn u256_less(a: &[u8; 32], b: &[u8; 32]) -> (r: bool)
    ensures
        r == (be_value(a@) < be_value(b@)),
{
    U256::from_be_bytes::<32>(*a) < U256::from_be_bytes::<32>(*b)
}

/// Tells whether a digest is below the difficulty.
pub fn meets_difficulty(digest: &[u8; 32], difficulty: &[u8; 32]) -> (r: bool)
    ensures
        r == (be_value(digest@) < be_value(difficulty@)),
{
    u256_less(digest, difficulty)
}

/// Encodes what is hashed for a nonce.
pub fn encode_preimage(challenge: &[u8; 32], nonce: u64) -> (r: [u8; 64])
    ensures
        r@ == preimage(challenge@, nonce),
{
    let word = u256_be_bytes(nonce);
    let mut buf: [u8; 64] = [0u8; 64];
    let mut i: usize = 0;
    while i < 32
        invariant
            i <= 32,
            word@.len() == 32,
            word@ == be_bytes(nonce as nat, 32),
            forall|k: int| 0 <= k < i ==> buf@[k] == challenge@[k],
            forall|k: int| 0 <= k < i ==> buf@[32 + k] == word@[k],
        decreases 32 - i,
    {
        buf[i] = challenge[i];
        buf[32 + i] = word[i];
        i += 1;
    }
    proof {
        assert(buf@ =~= challenge@ + word@);
    }
    buf
}

/// Tells whether `nonce` answers `challenge` at `difficulty`.
pub fn is_solution(challenge: &[u8; 32], difficulty: &[u8; 32], nonce: u64) -> (r: bool)
    ensures
        r == solves(challenge@, difficulty@, nonce),
{
    let buf = encode_preimage(challenge, nonce);
    let digest = keccak256(buf.as_slice());
    meets_difficulty(&digest, difficulty)
}

/// Tries `count` nonces from `start` on, in order, and stops at the first that answers the
/// challenge.
pub fn search_batch(
    challenge: &[u8; 32],
    difficulty: &[u8; 32],
    start: u64,
    count: u64,
) -> (r: Option<u64>)
    ensures
        r == first_solution(challenge@, difficulty@, start, count as nat),
{
    let mut i: u64 = 0;
    while i < count
        invariant
            i <= count,
            first_solution(challenge@, difficulty@, start, i as nat) is None,
        decreases count - i,
    {
        let n: u64 = start.wrapping_add(i);
        proof {
            assert(n == nonce_at(start, i as nat));
        }
        if is_solution(challenge, difficulty, n) {
            proof {
                assert(first_solution(challenge@, difficulty@, start, (i + 1) as nat) == Some(n));
                lemma_first_stays(challenge@, difficulty@, start, (i + 1) as nat, count as nat);
            }
            return Some(n);
        }
        i += 1;
    }
    None
}

/// A longer search finds the same nonce as a shorter one that succeeded.
proof fn lemma_first_stays(
    challenge: Seq<u8>,
    difficulty: Seq<u8>,
    start: u64,
    short: nat,
    long: nat,
)
    requires
        short <= long,
        first_solution(challenge, difficulty, start, short) is Some,
    ensures
        first_solution(challenge, difficulty, start, long) == first_solution(
            challenge,
            difficulty,
            start,
            short,
        ),
    decreases long - short,
{
    if short < long {
        lemma_first_stays(challenge, difficulty, start, short, (long - 1) as nat);
    }
}

/// A search returns the nonce of lowest place in its window that answers the challenge, and
/// nothing exactly when no nonce of the window does.
pub proof fn law_search_finds_first(
    challenge: Seq<u8>,
    difficulty: Seq<u8>,
    start: u64,
    count: nat,
)
    ensures
        match first_solution(challenge, difficulty, start, count) {
            Some(n) => exists|i: nat|
                i < count && n == #[trigger] nonce_at(start, i) && solves(challenge, difficulty, n)
                    && forall|j: nat|
                    j < i ==> !solves(challenge, difficulty, #[trigger] nonce_at(start, j)),
            None => forall|j: nat|
                j < count ==> !solves(challenge, difficulty, #[trigger] nonce_at(start, j)),
        },
    decreases count,
{
    if count > 0 {
        let last = (count - 1) as nat;
        law_search_finds_first(challenge, difficulty, start, last);
        match first_solution(challenge, difficulty, start, last) {
            Some(n) => {
                let i = choose|i: nat|
                    i < last && n == #[trigger] nonce_at(start, i) && solves(
                        challenge,
                        difficulty,
                        n,
                    ) && forall|j: nat|
                        j < i ==> !solves(challenge, difficulty, #[trigger] nonce_at(start, j));
                assert(n == nonce_at(start, i));
            },
            None => {
                let n = nonce_at(start, last);
                if solves(challenge, difficulty, n) {
                    assert(n == nonce_at(start, last));
                } else {
                    assert forall|j: nat| j < count implies !solves(
                        challenge,
                        difficulty,
                        #[trigger] nonce_at(start, j),
                    ) by {
                    }
                }
            },
        }
    }
}

/// Searching a window and then the window that follows it is searching both as one.
pub proof fn law_search_windows_chain(
    challenge: Seq<u8>,
    difficulty: Seq<u8>,
    start: u64,
    first: nat,
    second: nat,
)
    ensures
        first_solution(challenge, difficulty, start, first + second) == match first_solution(
            challenge,
            difficulty,
            start,
            first,
        ) {
            Some(n) => Some(n),
            None => first_solution(challenge, difficulty, nonce_at(start, first), second),
        },
    decreases second,
{
    if second > 0 {
        let less = (second - 1) as nat;
        law_search_windows_chain(challenge, difficulty, start, first, less);
        lemma_nonce_at(start, first, less);
        assert(first_solution(challenge, difficulty, start, first + second) == match first_solution(
            challenge,
            difficulty,
            start,
            first + less,
        ) {
            Some(n) => Some(n),
            None => if solves(challenge, difficulty, nonce_at(start, first + less)) {
                Some(nonce_at(start, first + less))
            } else {
                None
            },
        });
    }
}

/// Counting on from a later place is counting from the start.
pub proof fn lemma_nonce_at(start: u64, first: nat, second: nat)
    ensures
        nonce_at(start, first + second) == nonce_at(nonce_at(start, first), second),
{
}

/// The 256-bit word of a nonce denotes that nonce.
pub proof fn law_word_denotes_nonce(nonce: u64)
    ensures
        be_bytes(nonce as nat, 32).len() == 32,
        be_value(be_bytes(nonce as nat, 32)) == nonce,
{
    reveal_with_fuel(span, 9);
    assert(span(8) == 0x1_0000_0000_0000_0000);
    lemma_word(nonce as nat, 8, 24);
}

/// The word of zero is all zeros and denotes zero.
proof fn lemma_zero_word(len: nat)
    ensures
        be_bytes(0, len).len() == len,
        be_value(be_bytes(0, len)) == 0,
    decreases len,
{
    if len > 0 {
        lemma_zero_word((len - 1) as nat);
        assert(be_bytes(0, len).drop_last() == be_bytes(0, (len - 1) as nat));
    }
}

/// `256` to the power `k`.
spec fn span(k: nat) -> nat
    decreases k,
{
    if k == 0 {
        1
    } else {
        256 * span((k - 1) as nat)
    }
}

/// A number of at most `low` bytes fills a word of `low + high` bytes.
proof fn lemma_word(n: nat, low: nat, high: nat)
    requires
        n < span(low),
    ensures
        be_bytes(n, low + high).len() == low + high,
        be_value(be_bytes(n, low + high)) == n,
    decreases low,
{
    if low == 0 {
        lemma_zero_word(high);
    } else {
        lemma_word(n / 256, (low - 1) as nat, high);
        let w = be_bytes(n, low + high);
        assert(w.drop_last() == be_bytes(n / 256, (low - 1 + high) as nat));
    }
}

/// What is hashed for a nonce, byte by byte: sixty-four bytes, first those of the challenge as
/// it came, then twenty-four zeros, then the eight bytes of the nonce, most significant first.
pub proof fn law_hashed_bytes(
    challenge: Seq<u8>,
    nonce: u64,
    b0: u8,
    b1: u8,
    b2: u8,
    b3: u8,
    b4: u8,
    b5: u8,
    b6: u8,
    b7: u8,
)
    requires
        challenge.len() == 32,
        nonce == 0x100_0000_0000_0000 * b0 + 0x1_0000_0000_0000 * b1 + 0x100_0000_0000 * b2
            + 0x1_0000_0000 * b3 + 0x100_0000 * b4 + 0x1_0000 * b5 + 0x100 * b6 + b7,
    ensures
        preimage(challenge, nonce).len() == 64,
        forall|k: int| 0 <= k < 32 ==> #[trigger] preimage(challenge, nonce)[k] == challenge[k],
        forall|k: int| 32 <= k < 56 ==> #[trigger] preimage(challenge, nonce)[k] == 0,
        preimage(challenge, nonce)[56] == b0,
        preimage(challenge, nonce)[57] == b1,
        preimage(challenge, nonce)[58] == b2,
        preimage(challenge, nonce)[59] == b3,
        preimage(challenge, nonce)[60] == b4,
        preimage(challenge, nonce)[61] == b5,
        preimage(challenge, nonce)[62] == b6,
        preimage(challenge, nonce)[63] == b7,
{
    let n0 = b0 as nat;
    let n1 = n0 * 256 + b1;
    let n2 = n1 * 256 + b2;
    let n3 = n2 * 256 + b3;
    let n4 = n3 * 256 + b4;
    let n5 = n4 * 256 + b5;
    let n6 = n5 * 256 + b6;
    let n7 = n6 * 256 + b7;
    assert(n7 == nonce);
    lemma_zero_word(24);
    lemma_zero_bytes(24);
    assert(be_bytes(n0, 25) == be_bytes(0, 24).push(b0));
    assert(be_bytes(n1 as nat, 26) == be_bytes(n0, 25).push(b1));
    assert(be_bytes(n2 as nat, 27) == be_bytes(n1 as nat, 26).push(b2));
    assert(be_bytes(n3 as nat, 28) == be_bytes(n2 as nat, 27).push(b3));
    assert(be_bytes(n4 as nat, 29) == be_bytes(n3 as nat, 28).push(b4));
    assert(be_bytes(n5 as nat, 30) == be_bytes(n4 as nat, 29).push(b5));
    assert(be_bytes(n6 as nat, 31) == be_bytes(n5 as nat, 30).push(b6));
    assert(be_bytes(n7 as nat, 32) == be_bytes(n6 as nat, 31).push(b7));
}

/// The bytes of zero are zeros.
proof fn lemma_zero_bytes(len: nat)
    ensures
        forall|k: int| 0 <= k < len ==> #[trigger] be_bytes(0, len)[k] == 0,
    decreases len,
{
    lemma_zero_word(len);
    if len > 0 {
        let less = (len - 1) as nat;
        lemma_zero_word(less);
        lemma_zero_bytes(less);
        assert forall|k: int| 0 <= k < len implies #[trigger] be_bytes(0, len)[k] == 0 by {
            if k < less {
                assert(be_bytes(0, len)[k] == be_bytes(0, less)[k]);
            }
        }
    }
}

/// Two words are alike before place `k`, and the first is smaller there.
pub open spec fn smaller_at(a: Seq<u8>, b: Seq<u8>, k: int) -> bool {
    &&& 0 <= k < a.len()
    &&& a[k] < b[k]
    &&& forall|j: int| 0 <= j < k ==> #[trigger] a[j] == b[j]
}

/// A word is below another when it is smaller at the first place, from the most significant
/// byte on, at which they differ; words that denote the same number are the same.
pub proof fn law_words_compare_bytewise(a: Seq<u8>, b: Seq<u8>)
    requires
        a.len() == b.len(),
    ensures
        be_value(a) < be_value(b) <==> exists|k: int| #[trigger] smaller_at(a, b, k),
        be_value(a) == be_value(b) <==> a == b,
    decreases a.len(),
{
    if a.len() > 0 {
        let p = a.drop_last();
        let q = b.drop_last();
        law_words_compare_bytewise(p, q);
        law_words_compare_bytewise(q, p);
        let last = a.len() - 1;
        assert(a =~= p.push(a[last]) && b =~= q.push(b[last]));
        if be_value(a) == be_value(b) {
            assert(be_value(p) == be_value(q) && a[last] == b[last]);
            assert(a =~= b);
        }
        if be_value(p) < be_value(q) {
            let k = choose|k: int| #[trigger] smaller_at(p, q, k);
            assert(smaller_at(a, b, k)) by {
                assert(a[k] == p[k] && b[k] == q[k]);
                assert forall|j: int| 0 <= j < k implies #[trigger] a[j] == b[j] by {
                    assert(p[j] == q[j]);
                }
            }
        } else if be_value(p) == be_value(q) {
            if a[last] < b[last] {
                assert(smaller_at(a, b, last)) by {
                    assert forall|j: int| 0 <= j < last implies #[trigger] a[j] == b[j] by {
                        assert(p[j] == q[j]);
                    }
                }
            }
            assert forall|k: int| #[trigger] smaller_at(a, b, k) implies be_value(a) < be_value(
                b,
            ) by {
                if k < last {
                    assert(p[k] == q[k]);
                }
            }
        } else {
            let i = choose|i: int| #[trigger] smaller_at(q, p, i);
            assert(a[i] == p[i] && b[i] == q[i]);
            assert forall|k: int| #[trigger] smaller_at(a, b, k) implies false by {
                if i < k {
                    assert(a[i] == b[i]);
                } else if k < i {
                    assert(q[k] == p[k]);
                }
            }
        }
    } else {
        assert(a =~= b);
    }
}

/// A nonce answers a challenge exactly when the digest of what is hashed for it is, byte by
/// byte, below the difficulty; a digest equal to the difficulty is none.
pub proof fn law_solution_is_below_difficulty(challenge: Seq<u8>, difficulty: Seq<u8>, nonce: u64)
    ensures
        ({
            let digest = keccak_digest(preimage(challenge, nonce));
            digest.len() == difficulty.len() ==> {
                &&& solves(challenge, difficulty, nonce) <==> exists|k: int|
                    #[trigger] smaller_at(digest, difficulty, k)
                &&& digest == difficulty ==> !solves(challenge, difficulty, nonce)
            }
        }),
{
    let digest = keccak_digest(preimage(challenge, nonce));
    if digest.len() == difficulty.len() {
        law_words_compare_bytewise(digest, difficulty);
    }
}

/// The nonces of a window follow one another: the window starts at its start, goes up by one
/// and passes from the largest nonce to zero.
pub proof fn law_nonces_are_consecutive(start: u64, i: nat)
    ensures
        nonce_at(start, 0) == start,
        nonce_at(start, i) < u64::MAX ==> nonce_at(start, i + 1) == nonce_at(start, i) + 1,
        nonce_at(start, i) == u64::MAX ==> nonce_at(start, i + 1) == 0,
{
}

/// A search leaves no nonce of its window out: where the nonce `offset` places behind the
/// start answers the challenge, the search finds one, and none that lies further on; and what
/// it finds lies in the window and answers the challenge.
pub proof fn law_search_covers_window(
    challenge: Seq<u8>,
    difficulty: Seq<u8>,
    start: u64,
    count: nat,
    offset: nat,
    nonce: u64,
)
    requires
        offset < count <= 0x1_0000_0000_0000_0000,
        nonce == start + offset || nonce == start + offset - 0x1_0000_0000_0000_0000,
    ensures
        match first_solution(challenge, difficulty, start, count) {
            Some(found) => {
                let place = if found >= start {
                    found - start
                } else {
                    found - start + 0x1_0000_0000_0000_0000
                };
                &&& solves(challenge, difficulty, found)
                &&& place < count
                &&& solves(challenge, difficulty, nonce) ==> place <= offset
            },
            None => !solves(challenge, difficulty, nonce),
        },
{
    law_search_finds_first(challenge, difficulty, start, count);
    assert(nonce == nonce_at(start, offset));
    if let Some(found) = first_solution(challenge, difficulty, start, count) {
        let i = choose|i: nat|
            i < count && found == #[trigger] nonce_at(start, i) && solves(
                challenge,
                difficulty,
                found,
            ) && forall|j: nat|
                j < i ==> !solves(challenge, difficulty, #[trigger] nonce_at(start, j));
        let place = if found >= start {
            found - start
        } else {
            found - start + 0x1_0000_0000_0000_0000
        };
        assert(place == i);
    }
}

} // verus!
