//! Bearer tokens: issued to a username, valid for a day, and protected by a
//! keyed tag that only the holder of the secret can compute.

use crate::errors::{Error, ErrorView};
use crate::primitives::{
    digest, hmac_sha3_256, mac_tag, mac_verifies, random_bytes, sha3_256, unix_seconds,
};
use vstd::prelude::*;
use vstd::utf8::{encode_utf8, encode_utf8_decode_utf8};

verus! {

/// How long a token stays valid: one day, in seconds.
pub const TOKEN_LIFETIME: i64 = 86400;

/// The secret that tags every token. It is made once, lives in memory only,
/// and is handed to the functions that need it.
pub struct SecretKey {
    bytes: [u8; 32],
}

impl View for SecretKey {
    type V = Seq<u8>;

    closed spec fn view(&self) -> Seq<u8> {
        self.bytes@
    }
}

impl SecretKey {
    /// A fresh random secret.
    pub fn generate() -> (key: SecretKey) {
        SecretKey { bytes: random_bytes::<32>() }
    }

    /// The secret made of the given bytes.
    pub fn from_bytes(bytes: [u8; 32]) -> (key: SecretKey)
        ensures
            key@ == bytes@,
    {
        SecretKey { bytes }
    }
}

/// What a caller presents to prove who they are.
#[derive(Debug, PartialEq, Eq)]
pub struct Token {
    pub username: String,
    /// Seconds since the Unix epoch after which the token is refused.
    pub expiration_time: i64,
    pub nonce: [u8; 12],
    pub mac: Vec<u8>,
}

pub struct TokenView {
    pub username: Seq<char>,
    pub expiration_time: i64,
    pub nonce: Seq<u8>,
    pub mac: Seq<u8>,
}

impl View for Token {
    type V = TokenView;

    open spec fn view(&self) -> TokenView {
        TokenView {
            username: self.username@,
            expiration_time: self.expiration_time,
            nonce: self.nonce@,
            mac: self.mac@,
        }
    }
}

/// The value of a 64-bit integer read as unsigned two's complement.
pub open spec fn unsigned_of(x: i64) -> int {
    if x >= 0 {
        x as int
    } else {
        x + 0x1_0000_0000_0000_0000
    }
}

/// The eight bytes of a 64-bit integer, most significant first.
pub open spec fn be_bytes(x: i64) -> Seq<u8> {
    let q0 = unsigned_of(x);
    let q1 = q0 / 256;
    let q2 = q1 / 256;
    let q3 = q2 / 256;
    let q4 = q3 / 256;
    let q5 = q4 / 256;
    let q6 = q5 / 256;
    let q7 = q6 / 256;
    seq![
        (q7 % 256) as u8,
        (q6 % 256) as u8,
        (q5 % 256) as u8,
        (q4 % 256) as u8,
        (q3 % 256) as u8,
        (q2 % 256) as u8,
        (q1 % 256) as u8,
        (q0 % 256) as u8,
    ]
}

/// The bytes a token's tag is computed over: the UTF-8 bytes of the
/// username, then the expiration time, then the nonce.
pub open spec fn aad_of(username: Seq<char>, expiration_time: i64, nonce: Seq<u8>) -> Seq<u8> {
    encode_utf8(username) + be_bytes(expiration_time) + nonce
}

/// The tag that `key` assigns to the fields of a token.
pub open spec fn tag_of(key: Seq<u8>, username: Seq<char>, expiration_time: i64, nonce: Seq<u8>)
    -> Seq<u8> {
    hmac_sha3_256(key, aad_of(username, expiration_time, nonce))
}

/// The token issued to `username` at time `now` with the given nonce.
pub open spec fn issued(key: Seq<u8>, username: Seq<char>, now: i64, nonce: Seq<u8>) -> TokenView {
    let expiration_time = (now + TOKEN_LIFETIME) as i64;
    TokenView {
        username,
        expiration_time,
        nonce,
        mac: tag_of(key, username, expiration_time, nonce),
    }
}

/// A token is accepted at time `now` when it has not expired and carries
/// the tag of its own fields.
pub open spec fn accepted(key: Seq<u8>, token: TokenView, now: i64) -> bool {
    &&& now <= token.expiration_time
    &&& token.mac == tag_of(key, token.username, token.expiration_time, token.nonce)
}

/// What a token resolves to at time `now`: its username where it is
/// accepted, nothing otherwise.
pub open spec fn resolved_at(key: Seq<u8>, token: TokenView, now: i64) -> Option<Seq<char>> {
    if accepted(key, token, now) {
        Some(token.username)
    } else {
        None
    }
}

fn be_bytes_of(x: i64) -> (bytes: [u8; 8])
    ensures
        bytes@ == be_bytes(x),
{
    let q0: u64 = if x >= 0 {
        x as u64
    } else {
        ((x - i64::MIN) as u64) + 0x8000_0000_0000_0000u64
    };
    assert(q0 == unsigned_of(x));
    let q1: u64 = q0 / 256;
    let q2: u64 = q1 / 256;
    let q3: u64 = q2 / 256;
    let q4: u64 = q3 / 256;
    let q5: u64 = q4 / 256;
    let q6: u64 = q5 / 256;
    let q7: u64 = q6 / 256;
    let bytes = [
        (q7 % 256) as u8,
        (q6 % 256) as u8,
        (q5 % 256) as u8,
        (q4 % 256) as u8,
        (q3 % 256) as u8,
        (q2 % 256) as u8,
        (q1 % 256) as u8,
        (q0 % 256) as u8,
    ];
    assert(bytes@ =~= be_bytes(x));
    bytes
}

/// The bytes that a token's tag authenticates.
pub fn aad(username: &str, expiration_time: i64, nonce: [u8; 12]) -> (data: Vec<u8>)
    ensures
        data@ == aad_of(username@, expiration_time, nonce@),
{
    let name = username.as_bytes();
    let time = be_bytes_of(expiration_time);
    let mut data: Vec<u8> = Vec::new();
    let mut i: usize = 0;
    while i < name.len()
        invariant
            i <= name@.len(),
            data@ == name@.subrange(0, i as int),
        decreases name@.len() - i,
    {
        data.push(name[i]);
        i += 1;
        assert(data@ =~= name@.subrange(0, i as int));
    }
    assert(data@ =~= name@);
    let mut j: usize = 0;
    while j < 8
        invariant
            j <= 8,
            data@ == name@ + time@.subrange(0, j as int),
        decreases 8 - j,
    {
        data.push(time[j]);
        j += 1;
        assert(data@ =~= name@ + time@.subrange(0, j as int));
    }
    assert(data@ =~= name@ + time@);
    let mut k: usize = 0;
    while k < 12
        invariant
            k <= 12,
            data@ == name@ + time@ + nonce@.subrange(0, k as int),
        decreases 12 - k,
    {
        data.push(nonce[k]);
        k += 1;
        assert(data@ =~= name@ + time@ + nonce@.subrange(0, k as int));
    }
    assert(data@ =~= name@ + time@ + nonce@);
    data
}

/// Issues the token for `username` at time `now` with the given nonce, or
/// nothing where a day after `now` cannot be represented.
pub fn create_token_at(key: &SecretKey, username: &str, now: i64, nonce: [u8; 12]) -> (token:
    Option<Token>)
    ensures
        match token {
            Some(t) => now + TOKEN_LIFETIME <= i64::MAX && t@ == issued(
                key@,
                username@,
                now,
                nonce@,
            ),
            None => now + TOKEN_LIFETIME > i64::MAX,
        },
{
    match now.checked_add(TOKEN_LIFETIME) {
        Some(expiration_time) => {
            let data = aad(username, expiration_time, nonce);
            let mac = mac_tag(&key.bytes, &data);
            Some(Token { username: username.to_owned(), expiration_time, nonce, mac })
        },
        None => None,
    }
}

/// Issues a token for `username` that expires a day from now, with a fresh
/// random nonce. Whatever the clock and the nonce were, the token is the
/// one issued for them.
pub fn create_token(key: &SecretKey, username: &str) -> (token: Result<Token, Error>)
    ensures
        match token {
            Ok(t) => exists|now: i64, nonce: Seq<u8>|
                now + TOKEN_LIFETIME <= i64::MAX && nonce.len() == 12 && t@ == issued(
                    key@,
                    username@,
                    now,
                    nonce,
                ),
            Err(e) => e@ is Unexpected,
        },
{
    let now = unix_seconds();
    let nonce = random_bytes::<12>();
    match create_token_at(key, username, now, nonce) {
        Some(t) => Ok(t),
        None => Err(Error::msg("the clock is too far ahead to date a token")),
    }
}

/// The username a token stands for at time `now`: that of the token where it
/// is accepted, nothing otherwise.
pub fn username_if_valid_at<'a>(key: &SecretKey, token: &'a Token, now: i64) -> (username: Option<
    &'a str,
>)
    ensures
        match username {
            Some(u) => accepted(key@, token@, now) && u@ == token.username@,
            None => !accepted(key@, token@, now),
        },
{
    if now > token.expiration_time {
        return None;
    }
    let data = aad(token.username.as_str(), token.expiration_time, token.nonce);
    if !mac_verifies(&key.bytes, &data, &token.mac) {
        return None;
    }
    Some(token.username.as_str())
}

/// The username a token stands for right now: what `username_if_valid_at`
/// gives for the time that the clock shows. So a token that is accepted at
/// every time resolves to its username, and a token whose tag does not match
/// its fields is refused at any time.
pub fn get_username_from_token_if_valid<'a>(key: &SecretKey, token: &'a Token) -> (username:
    Option<&'a str>)
    ensures
        exists|now: i64| #[trigger]
            resolved_at(key@, token@, now) == match username {
                Some(u) => Some(u@),
                None => None::<Seq<char>>,
            },
        token.mac@ != tag_of(key@, token.username@, token.expiration_time, token.nonce@)
            ==> username is None,
{
    let now = unix_seconds();
    let username = username_if_valid_at(key, token, now);
    assert(resolved_at(key@, token@, now) == match username {
        Some(u) => Some(u@),
        None => None::<Seq<char>>,
    });
    username
}

/// Resolves a token to its username, or fails with `InvalidToken`: the
/// token is judged at the time that the clock shows. So a token that is
/// accepted at every time is resolved, and a token whose tag does not match
/// its fields is refused at any time.
pub fn authorize(key: &SecretKey, token: &Token) -> (username: Result<String, Error>)
    ensures
        exists|now: i64| #[trigger]
            resolved_at(key@, token@, now) == match username {
                Ok(u) => Some(u@),
                Err(_) => None::<Seq<char>>,
            },
        match username {
            Ok(u) => u@ == token.username@ && exists|now: i64| accepted(key@, token@, now),
            Err(e) => e@ == ErrorView::InvalidToken && exists|now: i64|
                !accepted(key@, token@, now),
        },
        token.mac@ != tag_of(key@, token.username@, token.expiration_time, token.nonce@)
            ==> username is Err,
{
    match get_username_from_token_if_valid(key, token) {
        Some(u) => Ok(u.to_owned()),
        None => Err(Error::InvalidToken),
    }
}

/// The digest stored for a password: that of the salt followed by the
/// UTF-8 bytes of the password.
pub open spec fn password_digest(password: Seq<char>, salt: Seq<u8>) -> Seq<u8> {
    sha3_256(salt + encode_utf8(password))
}

/// Hashes a password under a salt.
pub fn hash_password(password: &str, salt: [u8; 32]) -> (hash: Vec<u8>)
    ensures
        hash@ == password_digest(password@, salt@),
        hash@.len() == 32,
{
    let text = password.as_bytes();
    let mut data: Vec<u8> = Vec::new();
    let mut i: usize = 0;
    while i < 32
        invariant
            i <= 32,
            data@ == salt@.subrange(0, i as int),
        decreases 32 - i,
    {
        data.push(salt[i]);
        i += 1;
        assert(data@ =~= salt@.subrange(0, i as int));
    }
    assert(data@ =~= salt@);
    let mut j: usize = 0;
    while j < text.len()
        invariant
            j <= text@.len(),
            data@ == salt@ + text@.subrange(0, j as int),
        decreases text@.len() - j,
    {
        data.push(text[j]);
        j += 1;
        assert(data@ =~= salt@ + text@.subrange(0, j as int));
    }
    assert(data@ =~= salt@ + text@);
    digest(&data)
}

/// Two integers with the same big-endian bytes are equal.
pub proof fn lemma_be_bytes_injective(x: i64, y: i64)
    requires
        be_bytes(x) == be_bytes(y),
    ensures
        x == y,
{
    let a = be_bytes(x);
    let b = be_bytes(y);
    let x0 = unsigned_of(x);
    let x1 = x0 / 256;
    let x2 = x1 / 256;
    let x3 = x2 / 256;
    let x4 = x3 / 256;
    let x5 = x4 / 256;
    let x6 = x5 / 256;
    let x7 = x6 / 256;
    let y0 = unsigned_of(y);
    let y1 = y0 / 256;
    let y2 = y1 / 256;
    let y3 = y2 / 256;
    let y4 = y3 / 256;
    let y5 = y4 / 256;
    let y6 = y5 / 256;
    let y7 = y6 / 256;
    assert(x7 == y7) by {
        assert(a[0] == b[0]);
        assert(x7 < 256 && y7 < 256);
    }
    assert(x6 == y6) by {
        assert(a[1] == b[1]);
    }
    assert(x5 == y5) by {
        assert(a[2] == b[2]);
    }
    assert(x4 == y4) by {
        assert(a[3] == b[3]);
    }
    assert(x3 == y3) by {
        assert(a[4] == b[4]);
    }
    assert(x2 == y2) by {
        assert(a[5] == b[5]);
    }
    assert(x1 == y1) by {
        assert(a[6] == b[6]);
    }
    assert(x0 == y0) by {
        assert(a[7] == b[7]);
    }
}

/// The authenticated bytes determine the fields they were made of: no two
/// different triples of username, expiration time and 12-byte nonce share
/// them.
pub proof fn lemma_aad_injective(
    username1: Seq<char>,
    expiration_time1: i64,
    nonce1: Seq<u8>,
    username2: Seq<char>,
    expiration_time2: i64,
    nonce2: Seq<u8>,
)
    requires
        nonce1.len() == 12,
        nonce2.len() == 12,
        aad_of(username1, expiration_time1, nonce1) == aad_of(
            username2,
            expiration_time2,
            nonce2,
        ),
    ensures
        username1 == username2,
        expiration_time1 == expiration_time2,
        nonce1 == nonce2,
{
    let a = aad_of(username1, expiration_time1, nonce1);
    let b = aad_of(username2, expiration_time2, nonce2);
    let n1 = encode_utf8(username1);
    let n2 = encode_utf8(username2);
    let l = n1.len() as int;
    assert(a.len() == n1.len() + 8 + 12);
    assert(b.len() == n2.len() + 8 + 12);
    assert(n1.len() == n2.len());
    assert(n1 =~= a.subrange(0, l));
    assert(n2 =~= b.subrange(0, l));
    assert(be_bytes(expiration_time1) =~= a.subrange(l, l + 8));
    assert(be_bytes(expiration_time2) =~= b.subrange(l, l + 8));
    assert(nonce1 =~= a.subrange(l + 8, l + 20));
    assert(nonce2 =~= b.subrange(l + 8, l + 20));
    encode_utf8_decode_utf8(username1);
    encode_utf8_decode_utf8(username2);
    lemma_be_bytes_injective(expiration_time1, expiration_time2);
}

/// A token issued at `now` is accepted at every time up to a day later, and
/// at no later time.
pub proof fn law_issued_token_accepted_for_a_day(
    key: Seq<u8>,
    username: Seq<char>,
    now: i64,
    nonce: Seq<u8>,
    later: i64,
)
    requires
        now + TOKEN_LIFETIME <= i64::MAX,
    ensures
        accepted(key, issued(key, username, now, nonce), later) <==> later <= now
            + TOKEN_LIFETIME,
        issued(key, username, now, nonce).username == username,
{
}

/// A token whose expiration time has passed is refused, whatever tag it
/// carries.
pub proof fn law_expired_token_refused(key: Seq<u8>, token: TokenView, now: i64)
    requires
        now > token.expiration_time,
    ensures
        !accepted(key, token, now),
{
}

/// Changing the tag of an accepted token in any way makes it refused.
pub proof fn law_altered_mac_refused(key: Seq<u8>, token: TokenView, mac: Seq<u8>, now: i64)
    requires
        accepted(key, token, now),
        mac != token.mac,
    ensures
        !accepted(key, TokenView { mac, ..token }, now),
{
}

/// Changing the username, the expiration time or the nonce of an accepted
/// token changes the bytes its tag has to authenticate. The altered token is
/// refused unless the keyed hash gives those different bytes the very same
/// tag.
pub proof fn law_altered_fields_refused(
    key: Seq<u8>,
    token: TokenView,
    altered: TokenView,
    now: i64,
)
    requires
        accepted(key, token, now),
        token.nonce.len() == 12,
        altered.nonce.len() == 12,
        altered.mac == token.mac,
        altered.username != token.username || altered.expiration_time != token.expiration_time
            || altered.nonce != token.nonce,
        hmac_sha3_256(key, aad_of(altered.username, altered.expiration_time, altered.nonce))
            != hmac_sha3_256(key, aad_of(token.username, token.expiration_time, token.nonce)),
    ensures
        aad_of(altered.username, altered.expiration_time, altered.nonce) != aad_of(
            token.username,
            token.expiration_time,
            token.nonce,
        ),
        !accepted(key, altered, now),
{
    if aad_of(altered.username, altered.expiration_time, altered.nonce) == aad_of(
        token.username,
        token.expiration_time,
        token.nonce,
    ) {
        lemma_aad_injective(
            altered.username,
            altered.expiration_time,
            altered.nonce,
            token.username,
            token.expiration_time,
            token.nonce,
        );
    }
}

} // verus!
