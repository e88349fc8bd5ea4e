//! Admission to a session: the client proves that it knows the password
//! without sending it.
//!
//! ```text
//! client -> server   8 bytes   the sesame, big-endian
//! server -> client   4 bytes   a random challenge, big-endian
//! client -> server  16 bytes   MD5 of the password followed by the challenge in decimal
//! server -> client   4 bytes   the verdict, big-endian: 0, or a random token that is not 0
//! ```
//!
//! Both sides are state machines that take what arrived (or `None` for a
//! timeout) and say what to send and whether the exchange has ended. Whatever
//! goes wrong, the outcome is the same `AuthFailed`.

use crate::ascii::{decimal, decimal_spec};
use crate::frame::{be32, from_be32, get_be32, lemma_be32_inverse, put_be32};
use md5::{Digest, Md5};
use vstd::prelude::*;
use vstd::string::*;

verus! {

/// Longest wait for one message of the exchange, in ms.
pub const AUTH_RECV_TIMEOUT: u32 = 1_000;

/// Bytes in a digest.
pub const DIGEST_LEN: usize = 16;

/// The MD5 digest of a byte string.
pub uninterp spec fn md5_digest(data: Seq<u8>) -> Seq<u8>;

/// `Md5::new`, `update` and `finalize` of the md-5 crate: the digest of
/// `data`, which is a function of `data` alone and 16 bytes long.
#[verifier::external_body]
fn md5_of(data: &[u8]) -> (digest: Vec<u8>)
    ensures
        digest@ == md5_digest(data@),
        digest@.len() == DIGEST_LEN,
{
    let mut hasher = Md5::new();
    hasher.update(data);
    hasher.finalize().to_vec()
}

/// `rand::random`: a number that nothing is known of.
#[verifier::external_body]
pub(crate) fn random_u32() -> u32 {
    rand::random::<u32>()
}

/// The one way in which admission fails.
#[derive(Clone, Copy, Debug, PartialEq, Eq, Structural)]
pub enum AuthError {
    AuthFailed,
}

/// The eight bytes of `v`, most significant first.
pub open spec fn be64(v: u64) -> Seq<u8> {
    be32((v / 0x1_0000_0000) as u32) + be32((v % 0x1_0000_0000) as u32)
}

/// What the digest is taken of: the password, then the challenge in decimal.
pub open spec fn credential(password: Seq<u8>, nonce: u32) -> Seq<u8> {
    password + decimal_spec(nonce as nat)
}

/// The digest that answers the challenge `nonce`.
pub open spec fn expected_digest(password: Seq<u8>, nonce: u32) -> Seq<u8> {
    md5_digest(credential(password, nonce))
}

/// Whether `data` begins with `prefix`.
pub open spec fn has_prefix(data: Seq<u8>, prefix: Seq<u8>) -> bool {
    data.len() >= prefix.len() && data.subrange(0, prefix.len() as int) == prefix
}

/// The token for a random draw `r`: never 0.
pub open spec fn token_spec(r: u32) -> u32 {
    if r == u32::MAX {
        u32::MAX
    } else {
        (r + 1) as u32
    }
}

/// Where an exchange stands.
#[derive(Clone, Copy, Debug, PartialEq, Eq, Structural)]
pub enum AuthPhase {
    /// Server: waiting for the sesame. Client: waiting for the challenge.
    First,
    /// Server: waiting for the digest. Client: waiting for the verdict.
    Second,
    /// The exchange has ended.
    Done,
}

/// One side of an exchange, as the contracts see it.
pub struct AuthState {
    pub password: Seq<u8>,
    pub sesami: u64,
    /// Server: the challenge that was sent.
    pub nonce: u32,
    pub phase: AuthPhase,
}

/// What a step asks of the caller, as the contracts see it.
pub struct AuthStepSpec {
    /// What to send to the peer, if anything.
    pub send: Option<Seq<u8>>,
    /// `None`: wait for the next message. `Some`: the exchange has ended, with
    /// the token or in failure; after a failure the session is to be closed.
    pub outcome: Option<Result<u32, AuthError>>,
}

/// What a step asks of the caller.
#[derive(Clone, Debug, PartialEq, Eq)]
pub struct AuthStep {
    /// What to send to the peer, if anything.
    pub send: Option<Vec<u8>>,
    /// `None`: wait for the next message. `Some`: the exchange has ended, with
    /// the token or in failure; after a failure the session is to be closed.
    pub outcome: Option<Result<u32, AuthError>>,
}

impl View for AuthStep {
    type V = AuthStepSpec;

    open spec fn view(&self) -> AuthStepSpec {
        AuthStepSpec {
            send: match self.send {
                Some(b) => Some(b@),
                None => None,
            },
            outcome: self.outcome,
        }
    }
}

/// The step that ends an exchange in failure without a word to the peer.
pub open spec fn failed_silently(s: AuthState) -> (AuthState, AuthStepSpec) {
    (
        AuthState { phase: AuthPhase::Done, ..s },
        AuthStepSpec { send: None, outcome: Some(Err(AuthError::AuthFailed)) },
    )
}

/// One step of the server. `data` is what arrived, `None` after a timeout;
/// `rnd` is a fresh random number.
pub open spec fn challenge_step(s: AuthState, data: Option<Seq<u8>>, rnd: u32) -> (
    AuthState,
    AuthStepSpec,
) {
    match (s.phase, data) {
        (AuthPhase::First, Some(hello)) => if has_prefix(hello, be64(s.sesami)) {
            (
                AuthState { nonce: rnd, phase: AuthPhase::Second, ..s },
                AuthStepSpec { send: Some(be32(rnd)), outcome: None },
            )
        } else {
            failed_silently(s)
        },
        (AuthPhase::Second, Some(answer)) => if has_prefix(
            answer,
            expected_digest(s.password, s.nonce),
        ) {
            (
                AuthState { phase: AuthPhase::Done, ..s },
                AuthStepSpec {
                    send: Some(be32(token_spec(rnd))),
                    outcome: Some(Ok(token_spec(rnd))),
                },
            )
        } else {
            (
                AuthState { phase: AuthPhase::Done, ..s },
                AuthStepSpec { send: Some(be32(0)), outcome: Some(Err(AuthError::AuthFailed)) },
            )
        },
        _ => failed_silently(s),
    }
}

/// One step of the client. `data` is what arrived, `None` after a timeout.
pub open spec fn response_step(s: AuthState, data: Option<Seq<u8>>) -> (AuthState, AuthStepSpec) {
    match (s.phase, data) {
        (AuthPhase::First, Some(challenge)) => if challenge.len() >= 4 {
            let nonce = from_be32(challenge[0], challenge[1], challenge[2], challenge[3]);
            (
                AuthState { nonce, phase: AuthPhase::Second, ..s },
                AuthStepSpec { send: Some(expected_digest(s.password, nonce)), outcome: None },
            )
        } else {
            failed_silently(s)
        },
        (AuthPhase::Second, Some(verdict)) => if verdict.len() >= 4 && from_be32(
            verdict[0],
            verdict[1],
            verdict[2],
            verdict[3],
        ) != 0 {
            (
                AuthState { phase: AuthPhase::Done, ..s },
                AuthStepSpec {
                    send: None,
                    outcome: Some(Ok(from_be32(verdict[0], verdict[1], verdict[2], verdict[3]))),
                },
            )
        } else {
            failed_silently(s)
        },
        _ => failed_silently(s),
    }
}

/// What arrived, as the contracts see it.
pub open spec fn data_view(data: Option<&[u8]>) -> Option<Seq<u8>> {
    match data {
        Some(d) => Some(d@),
        None => None,
    }
}

/// Appends the big-endian bytes of `v` to `buf`.
pub fn put_be64(buf: &mut Vec<u8>, v: u64)
    ensures
        final(buf)@ == old(buf)@ + be64(v),
{
    put_be32(buf, (v / 0x1_0000_0000) as u32);
    put_be32(buf, (v % 0x1_0000_0000) as u32);
    assert(buf@ =~= old(buf)@ + be64(v));
}

/// Whether `data` begins with `prefix`, found without a glance at where they
/// differ: every byte of `prefix` is compared, whatever the bytes before it.
pub fn constant_time_has_prefix(data: &[u8], prefix: &[u8]) -> (ok: bool)
    ensures
        ok == has_prefix(data@, prefix@),
{
    if data.len() < prefix.len() {
        return false;
    }
    let n: usize = prefix.len();
    let mut diff: u8 = 0;
    let mut i: usize = 0;
    while i < n
        invariant
            n == prefix@.len(),
            n <= data@.len(),
            i <= n,
            diff == 0 <==> data@.subrange(0, i as int) =~= prefix@.subrange(0, i as int),
        decreases n - i,
    {
        let a: u8 = data[i];
        let b: u8 = prefix[i];
        let before: u8 = diff;
        diff = diff | (a ^ b);
        proof {
            assert(((before | (a ^ b)) == 0) <==> (before == 0 && a == b)) by (bit_vector);
            let next = i + 1;
            if data@.subrange(0, next) == prefix@.subrange(0, next) {
                assert(data@.subrange(0, next)[i as int] == prefix@.subrange(0, next)[i as int]);
                assert(data@.subrange(0, i as int) =~= data@.subrange(0, next).subrange(
                    0,
                    i as int,
                ));
                assert(prefix@.subrange(0, i as int) =~= prefix@.subrange(0, next).subrange(
                    0,
                    i as int,
                ));
            }
            if before == 0 && a == b {
                assert(data@.subrange(0, next) =~= data@.subrange(0, i as int).push(a));
                assert(prefix@.subrange(0, next) =~= prefix@.subrange(0, i as int).push(b));
            }
        }
        i += 1;
    }
    assert(prefix@.subrange(0, n as int) =~= prefix@);
    diff == 0
}

/// The digest of `text`.
pub fn hashstr(text: &[u8]) -> (digest: Vec<u8>)
    ensures
        digest@ == md5_digest(text@),
        digest@.len() == DIGEST_LEN,
{
    md5_of(text)
}

/// The digest that answers the challenge `nonce` under `password`.
pub fn answer_digest(password: &[u8], nonce: u32) -> (digest: Vec<u8>)
    ensures
        digest@ == expected_digest(password@, nonce),
        digest@.len() == DIGEST_LEN,
{
    let mut text: Vec<u8> = Vec::new();
    text.extend_from_slice(password);
    let digits = decimal(nonce as u64);
    text.extend_from_slice(digits.as_slice());
    assert(text@ =~= credential(password@, nonce));
    hashstr(text.as_slice())
}

/// The token for a random draw: the draw plus one, and never 0.
pub fn fresh_token(r: u32) -> (token: u32)
    ensures
        token == token_spec(r),
        token != 0,
{
    r.saturating_add(1)
}

/// The server's side of an exchange.
pub struct Challenge {
    password: Vec<u8>,
    sesami: u64,
    nonce: u32,
    phase: AuthPhase,
}

impl View for Challenge {
    type V = AuthState;

    closed spec fn view(&self) -> AuthState {
        AuthState {
            password: self.password@,
            sesami: self.sesami,
            nonce: self.nonce,
            phase: self.phase,
        }
    }
}

/// Begins the server's side: it waits for the sesame.
pub fn challenge(passwd: &str, sesami: u64) -> (c: Challenge)
    ensures
        c@ == (AuthState {
            password: passwd.spec_bytes(),
            sesami,
            nonce: 0,
            phase: AuthPhase::First,
        }),
{
    Challenge { password: passwd.as_bytes_vec(), sesami, nonce: 0, phase: AuthPhase::First }
}

impl Challenge {
    /// Whether the exchange has ended.
    pub fn done(&self) -> (b: bool)
        ensures
            b == (self@.phase == AuthPhase::Done),
    {
        self.phase == AuthPhase::Done
    }

    /// One step with the random number `rnd`.
    pub fn step_with(&mut self, data: Option<&[u8]>, rnd: u32) -> (step: AuthStep)
        ensures
            (final(self)@, step@) == challenge_step(old(self)@, data_view(data), rnd),
    {
        match (self.phase, data) {
            (AuthPhase::First, Some(hello)) => {
                let mut magic: Vec<u8> = Vec::new();
                put_be64(&mut magic, self.sesami);
                if constant_time_has_prefix(hello, magic.as_slice()) {
                    self.nonce = rnd;
                    self.phase = AuthPhase::Second;
                    let mut out: Vec<u8> = Vec::new();
                    put_be32(&mut out, rnd);
                    AuthStep { send: Some(out), outcome: None }
                } else {
                    self.phase = AuthPhase::Done;
                    AuthStep { send: None, outcome: Some(Err(AuthError::AuthFailed)) }
                }
            },
            (AuthPhase::Second, Some(answer)) => {
                let expected = answer_digest(self.password.as_slice(), self.nonce);
                let ok = constant_time_has_prefix(answer, expected.as_slice());
                let token: u32 = if ok {
                    fresh_token(rnd)
                } else {
                    0
                };
                let mut out: Vec<u8> = Vec::new();
                put_be32(&mut out, token);
                self.phase = AuthPhase::Done;
                if ok {
                    AuthStep { send: Some(out), outcome: Some(Ok(token)) }
                } else {
                    AuthStep { send: Some(out), outcome: Some(Err(AuthError::AuthFailed)) }
                }
            },
            _ => {
                self.phase = AuthPhase::Done;
                AuthStep { send: None, outcome: Some(Err(AuthError::AuthFailed)) }
            },
        }
    }

    /// One step with a random number drawn here.
    pub fn step(&mut self, data: Option<&[u8]>) -> (step: AuthStep)
        ensures
            exists|rnd: u32|
                (final(self)@, step@) == #[trigger] challenge_step(
                    old(self)@,
                    data_view(data),
                    rnd,
                ),
    {
        let rnd = random_u32();
        self.step_with(data, rnd)
    }
}

/// The client's side of an exchange.
pub struct Response {
    password: Vec<u8>,
    sesami: u64,
    nonce: u32,
    phase: AuthPhase,
}

impl View for Response {
    type V = AuthState;

    closed spec fn view(&self) -> AuthState {
        AuthState {
            password: self.password@,
            sesami: self.sesami,
            nonce: self.nonce,
            phase: self.phase,
        }
    }
}

/// Begins the client's side: the state, and the sesame to send first.
pub fn response(passwd: &str, sesami: u64) -> (r: (Response, Vec<u8>))
    ensures
        r.0@ == (AuthState {
            password: passwd.spec_bytes(),
            sesami,
            nonce: 0,
            phase: AuthPhase::First,
        }),
        r.1@ == be64(sesami),
{
    let mut hello: Vec<u8> = Vec::new();
    put_be64(&mut hello, sesami);
    (Response { password: passwd.as_bytes_vec(), sesami, nonce: 0, phase: AuthPhase::First }, hello)
}

impl Response {
    /// Whether the exchange has ended.
    pub fn done(&self) -> (b: bool)
        ensures
            b == (self@.phase == AuthPhase::Done),
    {
        self.phase == AuthPhase::Done
    }

    /// One step.
    pub fn step(&mut self, data: Option<&[u8]>) -> (step: AuthStep)
        ensures
            (final(self)@, step@) == response_step(old(self)@, data_view(data)),
    {
        match (self.phase, data) {
            (AuthPhase::First, Some(challenge)) => {
                if challenge.len() >= 4 {
                    let nonce = get_be32(challenge, 0);
                    self.nonce = nonce;
                    self.phase = AuthPhase::Second;
                    let digest = answer_digest(self.password.as_slice(), nonce);
                    AuthStep { send: Some(digest), outcome: None }
                } else {
                    self.phase = AuthPhase::Done;
                    AuthStep { send: None, outcome: Some(Err(AuthError::AuthFailed)) }
                }
            },
            (AuthPhase::Second, Some(verdict)) => {
                self.phase = AuthPhase::Done;
                if verdict.len() >= 4 {
                    let token = get_be32(verdict, 0);
                    if token != 0 {
                        AuthStep { send: None, outcome: Some(Ok(token)) }
                    } else {
                        AuthStep { send: None, outcome: Some(Err(AuthError::AuthFailed)) }
                    }
                } else {
                    AuthStep { send: None, outcome: Some(Err(AuthError::AuthFailed)) }
                }
            },
            _ => {
                self.phase = AuthPhase::Done;
                AuthStep { send: None, outcome: Some(Err(AuthError::AuthFailed)) }
            },
        }
    }
}

/// An answer that is not the expected digest ends the exchange in
/// `AuthFailed`, and the verdict that goes to the client is four zero bytes.
/// A timeout ends it in `AuthFailed` as well.
pub proof fn lemma_wrong_answer_is_refused(s: AuthState, answer: Seq<u8>, rnd: u32)
    requires
        s.phase == AuthPhase::Second,
        !has_prefix(answer, expected_digest(s.password, s.nonce)),
    ensures
        challenge_step(s, Some(answer), rnd).1.send == Some(seq![0u8, 0u8, 0u8, 0u8]),
        challenge_step(s, Some(answer), rnd).1.outcome == Some(
            Err::<u32, AuthError>(AuthError::AuthFailed),
        ),
        challenge_step(s, None, rnd).1.outcome == Some(Err::<u32, AuthError>(AuthError::AuthFailed)),
        challenge_step(s, Some(answer), rnd).0.phase == AuthPhase::Done,
{
    assert(be32(0) =~= seq![0u8, 0u8, 0u8, 0u8]);
}

/// Each side ends its exchange with its second message at the latest,
/// whatever arrives and whatever times out: with `AUTH_RECV_TIMEOUT` for each
/// wait, that is within two such timeouts.
pub proof fn lemma_exchange_ends(
    s: AuthState,
    d1: Option<Seq<u8>>,
    d2: Option<Seq<u8>>,
    r1: u32,
    r2: u32,
)
    ensures
        challenge_step(challenge_step(s, d1, r1).0, d2, r2).1.outcome is Some,
        response_step(response_step(s, d1).0, d2).1.outcome is Some,
        challenge_step(s, d1, r1).1.outcome is Some ==> challenge_step(s, d1, r1).0.phase
            == AuthPhase::Done,
        response_step(s, d1).1.outcome is Some ==> response_step(s, d1).0.phase == AuthPhase::Done,
{
}

/// With the same password and sesame on both sides, the exchange ends on both
/// in the same token, which is not 0 and is set by the server's second random
/// draw alone.
pub proof fn lemma_right_password_admits(password: Seq<u8>, sesami: u64, r1: u32, r2: u32)
    ensures
        ({
            let server0 = AuthState { password, sesami, nonce: 0, phase: AuthPhase::First };
            let client0 = AuthState { password, sesami, nonce: 0, phase: AuthPhase::First };
            let (server1, challenge) = challenge_step(server0, Some(be64(sesami)), r1);
            let (client1, answer) = response_step(client0, challenge.send);
            let (server2, verdict) = challenge_step(server1, answer.send, r2);
            let (client2, result) = response_step(client1, verdict.send);
            &&& verdict.outcome == Some(Ok::<u32, AuthError>(token_spec(r2)))
            &&& result.outcome == Some(Ok::<u32, AuthError>(token_spec(r2)))
            &&& token_spec(r2) != 0
            &&& server2.phase == AuthPhase::Done
            &&& client2.phase == AuthPhase::Done
        }),
{
    let server0 = AuthState { password, sesami, nonce: 0, phase: AuthPhase::First };
    let client0 = AuthState { password, sesami, nonce: 0, phase: AuthPhase::First };
    assert(be64(sesami).subrange(0, be64(sesami).len() as int) =~= be64(sesami));
    let (server1, challenge) = challenge_step(server0, Some(be64(sesami)), r1);
    assert(challenge.send == Some(be32(r1)));
    lemma_be32_inverse(r1);
    let (client1, answer) = response_step(client0, challenge.send);
    let digest = expected_digest(password, r1);
    assert(answer.send == Some(digest));
    assert(digest.subrange(0, digest.len() as int) =~= digest);
    let (server2, verdict) = challenge_step(server1, answer.send, r2);
    assert(verdict.send == Some(be32(token_spec(r2))));
    lemma_be32_inverse(token_spec(r2));
}

} // verus!
