use base64::Engine;
use fgpt::sentinel::{
    candidate_json, digest_meets, grind_at, layout_candidate, openai_sentinel_proof_token,
    proof_is_valid, try_candidate,
};
use sha3::Digest;

const UA: &str = "Mozilla/5.0 (Macintosh; Intel Mac OS X 10_15_7) AppleWebKit/537.36 (KHTML, like Gecko) Chrome/121.0.0.0 Safari/537.36 Edg/121.0.0.0";

fn digest_of(seed: &str, payload: &str) -> Vec<u8> {
    sha3::Sha3_512::digest(format!("{}{}", seed, payload)).to_vec()
}

#[test]
fn proof_grinder() {
    let token = openai_sentinel_proof_token("abc", "0fff", 1_000_000).expect("a token");
    let payload = token.strip_prefix("gAAAAAB").expect("the marker");
    let json = base64::engine::general_purpose::STANDARD.decode(payload).unwrap();
    let value: serde_json::Value = serde_json::from_slice(&json).unwrap();
    let items = value.as_array().unwrap();
    assert_eq!(items.len(), 5);
    let first_key = items[0].as_i64().unwrap();
    let sums: Vec<i64> = [8i64, 12, 16, 24]
        .into_iter()
        .flat_map(|a| [3000i64, 4000, 6000].into_iter().map(move |b| a + b))
        .collect();
    assert!(sums.contains(&first_key));
    let datetime = items[1].as_str().unwrap();
    assert!(datetime.contains(" GMT"));
    assert!(datetime.ends_with(")"));
    assert_eq!(items[2].as_i64(), Some(4294705152));
    let nonce = items[3].as_i64().unwrap();
    assert!((0..100000).contains(&nonce));
    assert_eq!(items[4].as_str(), Some(UA));

    let digest = digest_of("abc", payload);
    assert!(hex::encode(&digest[..2]) <= "0fff".to_string());
    assert!(proof_is_valid("abc", "0fff", &token));
}

#[test]
fn every_token_that_comes_back_is_valid() {
    for (seed, difficulty) in [("0.42", "3f"), ("seed", "7fffff"), ("", "0fffff")] {
        let token = openai_sentinel_proof_token(seed, difficulty, 100_000_000).expect("a token");
        let payload = &token["gAAAAAB".len()..];
        let digest = digest_of(seed, payload);
        assert!(hex::encode(&digest[..difficulty.len() / 2]) <= difficulty.to_string());
        assert!(proof_is_valid(seed, difficulty, &token));
    }
}

#[test]
fn no_attempts_give_no_token() {
    assert_eq!(openai_sentinel_proof_token("abc", "ffff", 0), None);
}

#[test]
fn an_unreachable_difficulty_gives_no_token() {
    assert_eq!(openai_sentinel_proof_token("abc", "00000000000000000000", 200), None);
}

#[test]
fn a_difficulty_of_less_than_one_byte_is_always_met() {
    // Zero digest bytes give the empty text, which is at most any text.
    assert!(digest_meets(&[0xff; 64], ""));
    assert!(digest_meets(&[0xff; 64], "0"));
    assert!(openai_sentinel_proof_token("abc", "", 1).is_some());
}

#[test]
fn the_digest_prefix_is_compared_as_text() {
    let mut digest = [0u8; 64];
    digest[0] = 0x0f;
    digest[1] = 0xff;
    assert!(digest_meets(&digest, "0fff"));
    assert!(digest_meets(&digest, "1000"));
    assert!(digest_meets(&digest, "0fffe"));
    assert!(!digest_meets(&digest, "0ffe"));
    assert!(!digest_meets(&digest, "0FFF"));
    assert!(digest_meets(&digest, "0f"));
    assert!(!digest_meets(&digest, "0e"));
    digest[0] = 0x10;
    assert!(!digest_meets(&digest, "0fff"));
    digest[0] = 0xab;
    digest[1] = 0xcd;
    assert!(digest_meets(&digest, "abcd"));
    assert!(!digest_meets(&digest, "abcc"));
    assert!(digest_meets(&digest, "zz"));
}

#[test]
fn the_whole_digest_can_be_asked_for() {
    let digest = [0u8; 64];
    let difficulty = "0".repeat(128);
    assert!(digest_meets(&digest, &difficulty));
    let mut other = [0u8; 64];
    other[63] = 1;
    assert!(!digest_meets(&other, &difficulty));
}

#[test]
fn a_candidate_is_a_five_element_array() {
    assert_eq!(
        candidate_json(3008, "Mon Apr 1 2024 10:00:00 GMT+0800 (+08:00)", 42),
        format!(
            "[3008,\"Mon Apr 1 2024 10:00:00 GMT+0800 (+08:00)\",4294705152,42,\"{}\"]",
            UA
        )
    );
}

#[test]
fn a_candidate_escapes_its_time_text() {
    let json = candidate_json(6024, "a \"zone\"\\", 99_999);
    let value: serde_json::Value = serde_json::from_str(&json).unwrap();
    assert_eq!(value[0], 6024);
    assert_eq!(value[1], "a \"zone\"\\");
    assert_eq!(value[3], 99_999);
}

#[test]
fn trying_a_candidate_matches_rehashing_it() {
    let mut accepted = 0;
    let mut rejected = 0;
    for nonce in 0..400 {
        let json = candidate_json(3008, "now", nonce);
        let payload = base64::engine::general_purpose::STANDARD.encode(&json);
        let digest = digest_of("seed", &payload);
        let expected = if hex::encode(&digest[..1]) <= "3f".to_string() {
            accepted += 1;
            Some(format!("gAAAAAB{}", payload))
        } else {
            rejected += 1;
            None
        };
        assert_eq!(try_candidate("seed", "3f", &json), expected);
    }
    assert!(accepted > 0 && rejected > 0);
}

#[test]
fn tampered_tokens_are_invalid() {
    let token = openai_sentinel_proof_token("abc", "0fff", 1_000_000).expect("a token");
    assert!(proof_is_valid("abc", "0fff", &token));
    assert!(!proof_is_valid("abc", "0fff", &token["g".len()..]));
    assert!(!proof_is_valid("abc", "0fff", "gAAAAA"));
    assert!(!proof_is_valid("abc", "0000000000000000", &token));
    // With the marker only, the digest is that of the seed alone.
    let bare = digest_of("abc", "");
    assert_eq!(proof_is_valid("abc", "7f", "gAAAAAB"), hex::encode(&bare[..1]) <= "7f".to_string());
}

#[test]
fn a_candidate_is_laid_out_around_its_values() {
    assert_eq!(layout_candidate(3008, "TIME", 42, "AGENT"), "[3008,TIME,4294705152,42,AGENT]");
    assert_eq!(layout_candidate(-1, "", 0, ""), "[-1,,4294705152,0,]");
}

#[test]
fn grinding_at_a_time_gives_the_token_of_a_draw_at_that_time() {
    let time = "Mon Apr 1 2024 10:00:00 GMT+0800 (+08:00)";
    let token = grind_at("abc", "0fff", time, 1_000_000).expect("a token");
    assert!(proof_is_valid("abc", "0fff", &token));
    let payload = token.strip_prefix("gAAAAAB").expect("the marker");
    let json = base64::engine::general_purpose::STANDARD.decode(payload).unwrap();
    let json = String::from_utf8(json).unwrap();
    let value: serde_json::Value = serde_json::from_str(&json).unwrap();
    let first_key = value[0].as_i64().unwrap() as i32;
    let nonce = value[3].as_i64().unwrap() as i32;
    assert_eq!(value[1], time);
    assert!((0..100000).contains(&nonce));
    assert!([8, 12, 16, 24]
        .iter()
        .any(|core| [3000, 4000, 6000].contains(&(first_key - core))));
    // The token is exactly that of the draw it carries.
    assert_eq!(json, candidate_json(first_key, time, nonce));
    assert_eq!(try_candidate("abc", "0fff", &json), Some(token));
}

#[test]
fn grinding_gives_nothing_only_when_every_attempt_fails() {
    assert_eq!(grind_at("abc", "ffff", "now", 0), None);
    assert_eq!(grind_at("abc", "00000000000000000000", "now", 300), None);
    // A difficulty that every digest meets is met by the first draw.
    for _ in 0..20 {
        assert!(grind_at("abc", "ffff", "now", 1).is_some());
        assert!(openai_sentinel_proof_token("abc", "ffff", 1).is_some());
    }
}
