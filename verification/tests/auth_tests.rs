use md5::{Digest, Md5};
use wifikey::ascii::decimal;
use wifikey::auth::{
    answer_digest, challenge, constant_time_has_prefix, fresh_token, hashstr, put_be64, response,
    AuthError, AuthStep,
};

fn md5_of(text: &[u8]) -> Vec<u8> {
    Md5::digest(text).to_vec()
}

#[test]
fn decimal_writes_numbers_without_leading_zeros() {
    assert_eq!(decimal(0), b"0".to_vec());
    assert_eq!(decimal(7), b"7".to_vec());
    assert_eq!(decimal(10), b"10".to_vec());
    assert_eq!(decimal(4_294_967_295), b"4294967295".to_vec());
    assert_eq!(decimal(u64::MAX), b"18446744073709551615".to_vec());
}

#[test]
fn hashstr_is_md5() {
    assert_eq!(
        hashstr(b"hello world"),
        vec![
            0x5e, 0xb6, 0x3b, 0xbb, 0xe0, 0x1e, 0xee, 0xd0, 0x93, 0xcb, 0x22, 0xbb, 0x8f, 0x5a,
            0xcd, 0xc3
        ]
    );
    assert_ne!(hashstr(b"hello world"), b"hello world".to_vec());
}

#[test]
fn answer_is_the_digest_of_password_and_decimal_challenge() {
    assert_eq!(answer_digest(b"right", 12345), md5_of(b"right12345"));
    assert_eq!(answer_digest(b"", 0), md5_of(b"0"));
    assert_eq!(answer_digest(b"pw", u32::MAX), md5_of(b"pw4294967295"));
}

#[test]
fn token_is_never_zero() {
    assert_eq!(fresh_token(0), 1);
    assert_eq!(fresh_token(41), 42);
    assert_eq!(fresh_token(u32::MAX - 1), u32::MAX);
    assert_eq!(fresh_token(u32::MAX), u32::MAX);
}

#[test]
fn sesame_is_big_endian() {
    let mut buf = vec![9u8];
    put_be64(&mut buf, 0x0102_0304_0506_0708);
    assert_eq!(buf, vec![9, 1, 2, 3, 4, 5, 6, 7, 8]);
}

#[test]
fn prefix_comparison() {
    assert!(constant_time_has_prefix(&[1, 2, 3], &[1, 2]));
    assert!(constant_time_has_prefix(&[1, 2], &[1, 2]));
    assert!(constant_time_has_prefix(&[1, 2], &[]));
    assert!(!constant_time_has_prefix(&[1], &[1, 2]));
    assert!(!constant_time_has_prefix(&[1, 3, 3], &[1, 2]));
    assert!(!constant_time_has_prefix(&[0, 2, 3], &[1, 2]));
}

#[test]
fn right_password_is_admitted_with_a_token() {
    let mut server = challenge("right", 0x1122_3344_5566_7788);
    let (mut client, hello) = response("right", 0x1122_3344_5566_7788);
    assert_eq!(hello, vec![0x11, 0x22, 0x33, 0x44, 0x55, 0x66, 0x77, 0x88]);

    let step = server.step_with(Some(&hello), 0xdead_beef);
    assert_eq!(step, AuthStep { send: Some(vec![0xde, 0xad, 0xbe, 0xef]), outcome: None });
    assert!(!server.done());

    let answer = client.step(step.send.as_deref());
    assert_eq!(answer.outcome, None);
    assert_eq!(answer.send, Some(md5_of(b"right3735928559")));

    let verdict = server.step_with(answer.send.as_deref(), 0x0000_00ff);
    assert_eq!(
        verdict,
        AuthStep { send: Some(vec![0, 0, 1, 0]), outcome: Some(Ok(0x100)) }
    );
    assert!(server.done());

    let result = client.step(verdict.send.as_deref());
    assert_eq!(result, AuthStep { send: None, outcome: Some(Ok(0x100)) });
    assert!(client.done());
}

#[test]
fn wrong_password_gets_four_zero_bytes() {
    let mut server = challenge("right", 0);
    let (mut client, hello) = response("wrong", 0);
    assert_eq!(hello, vec![0u8; 8]);
    let step = server.step_with(Some(&hello), 77);
    let answer = client.step(step.send.as_deref());
    let verdict = server.step_with(answer.send.as_deref(), 1234);
    assert_eq!(
        verdict,
        AuthStep { send: Some(vec![0, 0, 0, 0]), outcome: Some(Err(AuthError::AuthFailed)) }
    );
    let result = client.step(verdict.send.as_deref());
    assert_eq!(result, AuthStep { send: None, outcome: Some(Err(AuthError::AuthFailed)) });
    assert!(server.done());
    assert!(client.done());
}

#[test]
fn wrong_sesame_fails_without_a_reply() {
    let mut server = challenge("right", 5);
    let (_, hello) = response("right", 6);
    let step = server.step_with(Some(&hello), 77);
    assert_eq!(step, AuthStep { send: None, outcome: Some(Err(AuthError::AuthFailed)) });
    assert!(server.done());
    // a finished exchange stays finished
    let again = server.step_with(Some(&hello), 77);
    assert_eq!(again, AuthStep { send: None, outcome: Some(Err(AuthError::AuthFailed)) });
}

#[test]
fn short_sesame_fails() {
    let mut server = challenge("right", 0);
    let step = server.step_with(Some(&[0, 0, 0, 0, 0, 0, 0]), 1);
    assert_eq!(step.outcome, Some(Err(AuthError::AuthFailed)));
    assert_eq!(step.send, None);
}

#[test]
fn timeouts_fail_on_both_sides() {
    let mut server = challenge("right", 0);
    assert_eq!(
        server.step_with(None, 1),
        AuthStep { send: None, outcome: Some(Err(AuthError::AuthFailed)) }
    );
    let mut server = challenge("right", 0);
    server.step_with(Some(&[0u8; 8]), 1);
    assert_eq!(
        server.step_with(None, 1),
        AuthStep { send: None, outcome: Some(Err(AuthError::AuthFailed)) }
    );
    let (mut client, _) = response("right", 0);
    assert_eq!(
        client.step(None),
        AuthStep { send: None, outcome: Some(Err(AuthError::AuthFailed)) }
    );
    let (mut client, _) = response("right", 0);
    client.step(Some(&[0, 0, 0, 1]));
    assert_eq!(
        client.step(None),
        AuthStep { send: None, outcome: Some(Err(AuthError::AuthFailed)) }
    );
}

#[test]
fn short_answers_fail() {
    let mut server = challenge("right", 0);
    server.step_with(Some(&[0u8; 8]), 9);
    let digest = md5_of(b"right9");
    let verdict = server.step_with(Some(&digest[..15]), 3);
    assert_eq!(verdict.send, Some(vec![0, 0, 0, 0]));
    assert_eq!(verdict.outcome, Some(Err(AuthError::AuthFailed)));

    let (mut client, _) = response("right", 0);
    assert_eq!(client.step(Some(&[1, 2, 3])).outcome, Some(Err(AuthError::AuthFailed)));
    let (mut client, _) = response("right", 0);
    client.step(Some(&[0, 0, 0, 9]));
    assert_eq!(client.step(Some(&[0, 0, 1])).outcome, Some(Err(AuthError::AuthFailed)));
}

#[test]
fn answer_may_be_followed_by_more_bytes() {
    let mut server = challenge("right", 0);
    server.step_with(Some(&[0u8; 128]), 9);
    let mut answer = md5_of(b"right9");
    answer.extend_from_slice(&[0u8; 112]);
    let verdict = server.step_with(Some(&answer), 3);
    assert_eq!(verdict.outcome, Some(Ok(4)));
}

#[test]
fn step_draws_its_own_random_numbers() {
    let mut server = challenge("right", 0);
    let (mut client, hello) = response("right", 0);
    let step = server.step(Some(&hello));
    assert_eq!(step.outcome, None);
    assert_eq!(step.send.as_ref().map(|b| b.len()), Some(4));
    let answer = client.step(step.send.as_deref());
    let verdict = server.step(answer.send.as_deref());
    let token = match verdict.outcome {
        Some(Ok(t)) => t,
        other => panic!("not admitted: {:?}", other),
    };
    assert_ne!(token, 0);
    assert_eq!(client.step(verdict.send.as_deref()).outcome, Some(Ok(token)));
}
