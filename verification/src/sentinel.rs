//! The client-side proof of work: candidates are hashed together with the
//! session's seed until a digest falls at or below the session's difficulty.

use crate::bindings::{
    base64_encode, base64_fits, base64_standard, hex_encode, hex_lower, json_quote, json_string,
    local_time_text, random_below, random_choice, sha3_512, sha3_512_digest,
};
use crate::text::{
    bytes_lex_le, has_prefix, lex_le, opt_view, push_signed_decimal, signed_decimal, strip_prefix,
};
use crate::transport::user_agent;
use vstd::prelude::*;
use vstd::slice::*;
use vstd::string::*;
use vstd::utf8::*;

verus! {

/// How many digest bytes a difficulty speaks of: half its length in bytes.
pub open spec fn difficulty_len(difficulty: Seq<char>) -> nat {
    encode_utf8(difficulty).len() / 2
}

/// The marker that every proof token begins with.
pub open spec fn token_marker() -> Seq<char> {
    "gAAAAAB"@
}

/// The array of one candidate, laid out around the JSON values of the local
/// time and of the user agent: the screen key, the time, a fixed number, a
/// random number and the agent.
pub open spec fn candidate_layout(first_key: int, datetime: Seq<char>, nonce: int, agent: Seq<char>)
    -> Seq<char> {
    "["@ + signed_decimal(first_key) + ","@ + datetime + ",4294705152,"@ + signed_decimal(nonce)
        + ","@ + agent + "]"@
}

/// The JSON array of one candidate.
pub open spec fn payload_json(first_key: int, datetime: Seq<char>, nonce: int) -> Seq<char> {
    candidate_layout(first_key, json_string(datetime), nonce, json_string(user_agent()))
}

/// Whether a digest meets a difficulty: the hexadecimal text of its leading
/// bytes, as many as the difficulty speaks of, is at most the difficulty in
/// the order of strings.
pub open spec fn meets(digest: Seq<u8>, difficulty: Seq<char>) -> bool {
    lex_le(
        encode_utf8(hex_lower(digest.take(difficulty_len(difficulty) as int))),
        encode_utf8(difficulty),
    )
}

/// The digest that decides on a payload: that of the seed followed by the
/// payload.
pub open spec fn payload_digest(seed: Seq<char>, payload: Seq<char>) -> Seq<u8> {
    sha3_512(encode_utf8(seed + payload))
}

/// Proof validity: the token is the marker followed by a payload whose
/// digest, taken with the seed, meets the difficulty.
pub open spec fn is_valid_proof(seed: Seq<char>, difficulty: Seq<char>, token: Seq<char>) -> bool {
    &&& has_prefix(token, token_marker())
    &&& meets(payload_digest(seed, token.skip(token_marker().len() as int)), difficulty)
}

/// The token that a candidate gives: the marker and the candidate's base64
/// text, if that text can be formed and its digest meets the difficulty.
pub open spec fn candidate_token(seed: Seq<char>, difficulty: Seq<char>, json: Seq<char>) -> Option<
    Seq<char>,
> {
    let payload = base64_standard(encode_utf8(json));
    if base64_fits(encode_utf8(json).len()) && meets(payload_digest(seed, payload), difficulty) {
        Some(token_marker() + payload)
    } else {
        None
    }
}

/// Whether a number is a screen key: a core count of 8, 12, 16 or 24 plus
/// a screen size of 3000, 4000 or 6000.
pub open spec fn is_first_key(key: int) -> bool {
    is_screen_size(key - 8) || is_screen_size(key - 12) || is_screen_size(key - 16)
        || is_screen_size(key - 24)
}

/// Whether a number is one of the screen sizes.
pub open spec fn is_screen_size(size: int) -> bool {
    size == 3000 || size == 4000 || size == 6000
}

/// Whether a token comes from a candidate as the grinder draws them: some
/// screen key, some text for the time and some number below 100000 give a
/// candidate whose token it is.
pub open spec fn is_ground_token(seed: Seq<char>, difficulty: Seq<char>, token: Seq<char>) -> bool {
    exists|first_key: int, datetime: Seq<char>, nonce: int|
        is_first_key(first_key) && 0 <= nonce < 100_000 && #[trigger] candidate_token(
            seed,
            difficulty,
            payload_json(first_key, datetime, nonce),
        ) == Some(token)
}

/// Whether a pair is a draw of the grinder: a screen key and a number below
/// 100000.
pub open spec fn is_draw(draw: (int, int)) -> bool {
    is_first_key(draw.0) && 0 <= draw.1 < 100_000
}

/// The token that a draw gives at a given time text, if any.
pub open spec fn draw_token(
    seed: Seq<char>,
    difficulty: Seq<char>,
    datetime: Seq<char>,
    draw: (int, int),
) -> Option<Seq<char>> {
    candidate_token(seed, difficulty, payload_json(draw.0, datetime, draw.1))
}

/// Whether every pair of the sequence is a draw that gives no token.
pub open spec fn all_fail(
    seed: Seq<char>,
    difficulty: Seq<char>,
    datetime: Seq<char>,
    draws: Seq<(int, int)>,
) -> bool {
    forall|i: int|
        0 <= i < draws.len() ==> is_draw(#[trigger] draws[i]) && draw_token(
            seed,
            difficulty,
            datetime,
            draws[i],
        ) is None
}

/// Whether `token` is what grinding gives when these are the draws made: a
/// token is that of the last draw, made within the allowed attempts after
/// all earlier draws failed; no token means that all the allowed attempts
/// were made and every draw failed.
pub open spec fn ground_from(
    seed: Seq<char>,
    difficulty: Seq<char>,
    datetime: Seq<char>,
    attempts: nat,
    draws: Seq<(int, int)>,
    token: Option<Seq<char>>,
) -> bool {
    match token {
        Some(t) => {
            &&& 1 <= draws.len() <= attempts
            &&& all_fail(seed, difficulty, datetime, draws.drop_last())
            &&& is_draw(draws.last())
            &&& draw_token(seed, difficulty, datetime, draws.last()) == Some(t)
        },
        None => draws.len() == attempts && all_fail(seed, difficulty, datetime, draws),
    }
}

/// Whether `token` is an outcome of grinding at a given time text with the
/// given number of attempts: some sequence of draws gives it.
pub open spec fn is_ground_outcome(
    seed: Seq<char>,
    difficulty: Seq<char>,
    datetime: Seq<char>,
    attempts: nat,
    token: Option<Seq<char>>,
) -> bool {
    exists|draws: Seq<(int, int)>| #[trigger]
        ground_from(seed, difficulty, datetime, attempts, draws, token)
}

/// Decides whether a digest meets a difficulty.
pub fn digest_meets(digest: &[u8], difficulty: &str) -> (ok: bool)
    requires
        difficulty_len(difficulty@) <= digest@.len(),
    ensures
        ok == meets(digest@, difficulty@),
{
    let wanted = difficulty.as_bytes();
    let head = slice_subrange(digest, 0, wanted.len() / 2);
    let hex = hex_encode(head);
    bytes_lex_le(hex.as_str().as_bytes(), wanted)
}

/// Checks a proof token against the seed and difficulty it was made for.
pub fn proof_is_valid(seed: &str, difficulty: &str, token: &str) -> (ok: bool)
    requires
        difficulty_len(difficulty@) <= 64,
    ensures
        ok == is_valid_proof(seed@, difficulty@, token@),
{
    match strip_prefix(token, "gAAAAAB") {
        None => false,
        Some(payload) => {
            let mut material = String::from_str(seed);
            material.append(payload);
            let digest = sha3_512_digest(material.as_str().as_bytes());
            digest_meets(digest.as_slice(), difficulty)
        },
    }
}

/// Lays out the array of one candidate around JSON values that are already
/// rendered.
pub fn layout_candidate(first_key: i32, datetime: &str, nonce: i32, agent: &str) -> (json: String)
    ensures
        json@ == candidate_layout(first_key as int, datetime@, nonce as int, agent@),
{
    let mut json = String::from_str("[");
    push_signed_decimal(&mut json, first_key as i64);
    json.append(",");
    json.append(datetime);
    json.append(",4294705152,");
    push_signed_decimal(&mut json, nonce as i64);
    json.append(",");
    json.append(agent);
    json.append("]");
    assert(json@ =~= candidate_layout(first_key as int, datetime@, nonce as int, agent@));
    json
}

/// Writes the JSON array of one candidate.
pub fn candidate_json(first_key: i32, datetime: &str, nonce: i32) -> (json: String)
    ensures
        json@ == payload_json(first_key as int, datetime@, nonce as int),
{
    let time = json_quote(datetime);
    let agent = json_quote(
        "Mozilla/5.0 (Macintosh; Intel Mac OS X 10_15_7) AppleWebKit/537.36 (KHTML, like Gecko) Chrome/121.0.0.0 Safari/537.36 Edg/121.0.0.0",
    );
    layout_candidate(first_key, time.as_str(), nonce, agent.as_str())
}

/// Tries one candidate: encodes it, hashes it with the seed, and returns the
/// token if the digest meets the difficulty.
pub fn try_candidate(seed: &str, difficulty: &str, json: &str) -> (token: Option<String>)
    requires
        difficulty_len(difficulty@) <= 64,
    ensures
        opt_view(token) == candidate_token(seed@, difficulty@, json@),
        token matches Some(t) ==> is_valid_proof(seed@, difficulty@, t@),
{
    let plain = json.as_bytes();
    if plain.len() / 3 > (usize::MAX - 4) / 4 {
        return None;
    }
    let payload = base64_encode(plain);
    let mut material = String::from_str(seed);
    material.append(payload.as_str());
    let digest = sha3_512_digest(material.as_str().as_bytes());
    if digest_meets(digest.as_slice(), difficulty) {
        let mut token = String::from_str("gAAAAAB");
        token.append(payload.as_str());
        proof {
            reveal_strlit("gAAAAAB");
            assert(token@.subrange(0, 7) =~= token_marker());
            assert(token@.skip(7) =~= payload@);
        }
        Some(token)
    } else {
        None
    }
}

/// Draws one element of a list that is not empty.
fn pick(items: &Vec<i32>) -> (picked: i32)
    requires
        items@.len() > 0,
    ensures
        items@.contains(picked),
{
    match random_choice(items.as_slice()) {
        Some(v) => v,
        None => items[0],
    }
}

/// Grinds at a given time text: draws random candidates until one gives a
/// token, at most `attempts` of them. The token returned is that of the
/// first draw that succeeds; nothing is returned only after `attempts`
/// draws have all failed.
pub fn grind_at(seed: &str, difficulty: &str, datetime: &str, attempts: u32) -> (token: Option<
    String,
>)
    requires
        difficulty_len(difficulty@) <= 64,
    ensures
        is_ground_outcome(seed@, difficulty@, datetime@, attempts as nat, opt_view(token)),
        token matches Some(t) ==> is_valid_proof(seed@, difficulty@, t@),
{
    let cores: Vec<i32> = vec![8, 12, 16, 24];
    let screens: Vec<i32> = vec![3000, 4000, 6000];
    let ghost mut failed: Seq<(int, int)> = Seq::empty();
    let mut left: u32 = attempts;
    while left > 0
        invariant
            difficulty_len(difficulty@) <= 64,
            left <= attempts,
            failed.len() == attempts - left,
            all_fail(seed@, difficulty@, datetime@, failed),
            cores@ == seq![8i32, 12i32, 16i32, 24i32],
            screens@ == seq![3000i32, 4000i32, 6000i32],
        decreases left,
    {
        left = left - 1;
        let core = pick(&cores);
        let screen = pick(&screens);
        assert(8 <= core <= 24 && 3000 <= screen <= 6000);
        let nonce = random_below(100000);
        let json = candidate_json(core + screen, datetime, nonce);
        let ghost draw = ((core + screen) as int, nonce as int);
        match try_candidate(seed, difficulty, json.as_str()) {
            Some(token) => {
                proof {
                    let draws = failed.push(draw);
                    assert(draws.drop_last() =~= failed);
                    assert(draws.last() == draw);
                    assert(ground_from(
                        seed@,
                        difficulty@,
                        datetime@,
                        attempts as nat,
                        draws,
                        Some(token@),
                    ));
                }
                return Some(token);
            },
            None => {
                proof {
                    failed = failed.push(draw);
                }
            },
        }
    }
    proof {
        assert(ground_from(seed@, difficulty@, datetime@, attempts as nat, failed, None));
    }
    None
}

/// Grinds for a proof token at the current local time: draws random
/// candidates until one gives a token, at most `attempts` of them. Whatever
/// the clock shows and whatever is drawn, the result is an outcome of
/// grinding at some time text: the token of the first draw that succeeds,
/// which is then valid, or nothing after `attempts` draws that all failed.
pub fn openai_sentinel_proof_token(seed: &str, difficulty: &str, attempts: u32) -> (token: Option<
    String,
>)
    requires
        difficulty_len(difficulty@) <= 64,
    ensures
        exists|datetime: Seq<char>| #[trigger]
            is_ground_outcome(seed@, difficulty@, datetime, attempts as nat, opt_view(token)),
        token matches Some(t) ==> is_valid_proof(seed@, difficulty@, t@),
        token matches Some(t) ==> is_ground_token(seed@, difficulty@, t@),
        attempts == 0 ==> token is None,
{
    let datetime = local_time_text("%a %b %-d %Y %T GMT%z (%Z)");
    let token = grind_at(seed, difficulty, datetime.as_str(), attempts);
    proof {
        assert(is_ground_outcome(
            seed@,
            difficulty@,
            datetime@,
            attempts as nat,
            opt_view(token),
        ));
        let draws = choose|draws: Seq<(int, int)>| #[trigger]
            ground_from(seed@, difficulty@, datetime@, attempts as nat, draws, opt_view(token));
        if token is Some {
            assert(candidate_token(
                seed@,
                difficulty@,
                payload_json(draws.last().0, datetime@, draws.last().1),
            ) == opt_view(token));
        }
    }
    token
}

} // verus!
