use jsonwebtoken::{encode, Algorithm, EncodingKey, Header};
use serde_json::value::RawValue;
use serde_json::Value;
use shop_api::clock::{expiry, FIRST_SECOND, LAST_SECOND};
use shop_api::json::is_repeated;
use shop_api::jwt::Decoded;
use shop_api::role::{parse_role, read_role, role_name, Role};
use shop_api::text::contains_char;
use shop_api::token::{
    claims_of, create_token, issue_token, join_members, pick_role, read_claims, read_role_json,
    verify_token, Claims,
};

const SECRET: &str = "s3cret";

fn sign(algorithm: Algorithm, claims: &[(&str, Value)]) -> String {
    let mut map: serde_json::Map<String, Value> = serde_json::Map::new();
    for (name, value) in claims {
        map.insert(name.to_string(), value.clone());
    }
    encode(
        &Header::new(algorithm),
        &map,
        &EncodingKey::from_secret(SECRET.as_bytes()),
    )
    .unwrap()
}

fn sign_text(payload: &str) -> String {
    let payload = RawValue::from_string(payload.to_string()).unwrap();
    let key = EncodingKey::from_secret(SECRET.as_bytes());
    encode(&Header::default(), &payload, &key).unwrap()
}

fn now() -> i64 {
    chrono::Utc::now().timestamp()
}

#[test]
fn roles_of_the_user_table() {
    assert_eq!(parse_role("admin"), Role::Admin);
    assert_eq!(parse_role("editor"), Role::Editor);
    assert_eq!(parse_role("user"), Role::User);
    assert_eq!(parse_role("Admin"), Role::User);
    assert_eq!(parse_role("admin "), Role::User);
    assert_eq!(parse_role(""), Role::User);
}

#[test]
fn roles_survive_tokens() {
    for role in [Role::Admin, Role::Editor, Role::User] {
        assert_eq!(read_role(role_name(role)), Some(role));
    }
    assert_eq!(role_name(Role::Editor), "Editor");
    assert_eq!(read_role("admin"), None);
    assert_eq!(read_role(""), None);
}

#[test]
fn expiry_is_exact() {
    assert_eq!(expiry(1_700_000_000, 24), Some(1_700_086_400));
    assert_eq!(expiry(1_700_000_000, 0), Some(1_700_000_000));
    assert_eq!(expiry(1_700_000_000, -1), Some(1_699_996_400));
}

#[test]
fn expiry_before_1970_is_cast() {
    assert_eq!(expiry(3_599, -1), Some(usize::MAX));
    assert_eq!(expiry(0, -2), Some(-7_200i64 as usize));
}

#[test]
fn expiry_ends_with_the_calendar() {
    assert_eq!(expiry(LAST_SECOND, 0), Some(LAST_SECOND as usize));
    assert_eq!(expiry(LAST_SECOND - 3_600, 1), Some(LAST_SECOND as usize));
    assert_eq!(expiry(LAST_SECOND - 3_599, 1), None);
    assert_eq!(expiry(LAST_SECOND + 1, 0), None);
    assert_eq!(expiry(LAST_SECOND + 1, -1), None);
    assert_eq!(expiry(FIRST_SECOND, 0), Some(FIRST_SECOND as usize));
    assert_eq!(expiry(FIRST_SECOND + 3_599, -1), None);
    assert_eq!(expiry(FIRST_SECOND - 1, 1), None);
    assert_eq!(expiry(0, i64::MAX), None);
    assert_eq!(expiry(0, i64::MIN), None);
    assert_eq!(expiry(i64::MAX, i64::MAX), None);
}

#[test]
fn issued_token_has_the_expected_text() {
    assert_eq!(
        issue_token(1_700_000_000, 7, Role::Admin, 24, SECRET).unwrap(),
        "eyJ0eXAiOiJKV1QiLCJhbGciOiJIUzI1NiJ9.\
         eyJ1c2VyX2lkIjo3LCJyb2xlIjoiQWRtaW4iLCJleHAiOjE3MDAwODY0MDB9.\
         Jc3y4Bh1UiY4p-x4tvB9omuw-ZGvMsMVzYkFHZo17H4"
    );
}

#[test]
fn unrepresentable_expiry_gives_no_token() {
    assert_eq!(issue_token(0, 7, Role::Admin, i64::MAX, SECRET), None);
    assert_eq!(create_token(7, Role::Admin, i64::MAX, SECRET), None);
    assert_eq!(create_token(7, Role::Admin, i64::MIN, SECRET), None);
}

#[test]
fn token_of_the_last_moment_never_expires() {
    let token = issue_token(-1, -3, Role::Editor, 0, SECRET).unwrap();
    assert_eq!(
        token,
        "eyJ0eXAiOiJKV1QiLCJhbGciOiJIUzI1NiJ9.\
         eyJ1c2VyX2lkIjotMywicm9sZSI6IkVkaXRvciIsImV4cCI6MTg0NDY3NDQwNzM3MDk1NTE2MTV9.\
         xHywJxXaveLLXLzohpk_fpPOm-gr9T2m_Zh7mm6zdCI"
    );
    let claims = Claims { user_id: -3, role: Role::Editor, exp: usize::MAX };
    assert_eq!(verify_token(&token, SECRET), Some(claims));
}

#[test]
fn created_token_is_verified_with_its_claims() {
    for role in [Role::Admin, Role::Editor, Role::User] {
        let before = now();
        let token = create_token(i32::MIN, role, 24, SECRET).unwrap();
        let after = now();
        let claims = verify_token(&token, SECRET).unwrap();
        assert_eq!(claims.user_id, i32::MIN);
        assert_eq!(claims.role, role);
        assert!((before + 86_400) as usize <= claims.exp);
        assert!(claims.exp <= (after + 86_400) as usize);
    }
}

#[test]
fn expired_token_is_refused() {
    let token = issue_token(1_000_000_000, 1, Role::Admin, 1, SECRET).unwrap();
    assert_eq!(verify_token(&token, SECRET), None);
    let token = create_token(1, Role::Admin, -1, SECRET).unwrap();
    assert_eq!(verify_token(&token, SECRET), None);
}

#[test]
fn expiry_has_a_minute_of_leeway() {
    let token = issue_token(now() - 20, 1, Role::User, 0, SECRET).unwrap();
    assert!(verify_token(&token, SECRET).is_some());
    let token = issue_token(now() - 90, 1, Role::User, 0, SECRET).unwrap();
    assert_eq!(verify_token(&token, SECRET), None);
}

#[test]
fn other_secrets_and_other_texts_are_refused() {
    let token = issue_token(-1, 1, Role::Admin, 0, SECRET).unwrap();
    assert_eq!(verify_token(&token, "another"), None);
    assert_eq!(verify_token(&token, ""), None);
    assert_eq!(verify_token("", SECRET), None);
    assert_eq!(verify_token("token", SECRET), None);
    assert_eq!(verify_token("a.b", SECRET), None);
    assert_eq!(verify_token("a.b.c", SECRET), None);
    assert_eq!(verify_token(&token[..token.len() - 2], SECRET), None);
}

#[test]
fn empty_secret_signs_and_verifies() {
    let token = issue_token(-1, 1, Role::User, 0, "").unwrap();
    assert!(verify_token(&token, "").is_some());
}

#[test]
fn other_algorithms_are_refused() {
    let claims = [
        ("user_id", Value::from(1)),
        ("role", Value::from("Admin")),
        ("exp", Value::from(u64::MAX)),
    ];
    assert!(verify_token(&sign(Algorithm::HS256, &claims), SECRET).is_some());
    assert_eq!(verify_token(&sign(Algorithm::HS512, &claims), SECRET), None);
    let unsigned = "eyJ0eXAiOiJKV1QiLCJhbGciOiJub25lIn0.\
                    eyJ1c2VyX2lkIjoxLCJyb2xlIjoiQWRtaW4iLCJleHAiOjE4NDQ2NzQ0MDczNzA5NTUxNjE1fQ.";
    assert_eq!(verify_token(unsigned, SECRET), None);
}

#[test]
fn claims_are_read_by_name() {
    let token = sign(
        Algorithm::HS256,
        &[
            ("exp", Value::from(u64::MAX)),
            ("note", Value::from("hi")),
            ("role", Value::from("User")),
            ("user_id", Value::from(5)),
        ],
    );
    let claims = Claims { user_id: 5, role: Role::User, exp: usize::MAX };
    assert_eq!(verify_token(&token, SECRET), Some(claims));
}

#[test]
fn ill_formed_claims_are_refused() {
    let id = ("user_id", Value::from(1));
    let role = ("role", Value::from("User"));
    let exp = ("exp", Value::from(u64::MAX));
    let refused: [Vec<(&str, Value)>; 9] = [
        vec![role.clone(), exp.clone()],
        vec![id.clone(), exp.clone()],
        vec![id.clone(), role.clone()],
        vec![("user_id", Value::from(2_147_483_648u64)), role.clone(), exp.clone()],
        vec![("user_id", Value::from("1")), role.clone(), exp.clone()],
        vec![("user_id", Value::from(1.5)), role.clone(), exp.clone()],
        vec![id.clone(), ("role", Value::from("admin")), exp.clone()],
        vec![id.clone(), ("role", Value::from(1)), exp.clone()],
        vec![id.clone(), role.clone(), exp.clone(), ("aud", Value::from("shop"))],
    ];
    for claims in &refused {
        assert_eq!(verify_token(&sign(Algorithm::HS256, claims), SECRET), None);
    }
    assert!(verify_token(&sign(Algorithm::HS256, &[id, role, exp]), SECRET).is_some());
}

#[test]
fn claims_of_each_outcome() {
    let valid = |role: &str| Decoded::Valid {
        payload: format!("{{\"user_id\":9,\"role\":{},\"exp\":12}}", role),
    };
    let claims = Claims { user_id: 9, role: Role::Admin, exp: 12 };
    assert_eq!(claims_of(valid("\"Admin\"")), Some(claims));
    assert_eq!(claims_of(valid("{\"Admin\":null}")), Some(claims));
    assert_eq!(claims_of(valid("\"Root\"")), None);
    assert_eq!(claims_of(valid("Admin")), None);
    assert_eq!(claims_of(valid("")), None);
    assert_eq!(claims_of(Decoded::Valid { payload: String::new() }), None);
    assert_eq!(claims_of(Decoded::Expired), None);
    assert_eq!(claims_of(Decoded::Refused), None);
}

#[test]
fn claims_of_their_members() {
    let claims = Claims { user_id: -1, role: Role::Editor, exp: 12 };
    let role = Some(Role::Editor);
    assert_eq!(join_members(Some(-1), role, Some(12), false), Some(claims));
    assert_eq!(join_members(Some(-1), role, Some(12), true), None);
    assert_eq!(join_members(None, role, Some(12), false), None);
    assert_eq!(join_members(Some(-1), None, Some(12), false), None);
    assert_eq!(join_members(Some(-1), role, None, false), None);
}

#[test]
fn role_under_one_name() {
    assert_eq!(pick_role(true, false, false), Some(Role::Admin));
    assert_eq!(pick_role(false, true, false), Some(Role::Editor));
    assert_eq!(pick_role(false, false, true), Some(Role::User));
    assert_eq!(pick_role(false, false, false), None);
    assert_eq!(read_role_json("\"User\""), Some(Role::User));
    assert_eq!(read_role_json("{\"Editor\":null}"), Some(Role::Editor));
    assert_eq!(read_role_json("{\"Editor\":null,\"Editor\":null}"), None);
    assert_eq!(read_role_json("{\"Editor\":null,}"), None);
    assert_eq!(read_role_json("User"), None);
}

#[test]
fn commas_are_found() {
    assert!(contains_char("a,b", ','));
    assert!(contains_char(",", ','));
    assert!(!contains_char("a;b", ','));
    assert!(!contains_char("", ','));
}

#[test]
fn repeated_members_are_found() {
    let twice = "{ \"a\": 1, \"b\": [1, 2], \"a\": \"x,y\" }";
    assert!(is_repeated(twice, "a"));
    assert!(!is_repeated(twice, "b"));
    assert!(!is_repeated(twice, "c"));
    assert!(is_repeated("{\"a\":1,\"\\u0061\":1}", "a"));
    assert!(is_repeated("{\"a\":1,\"a\":1,\"a\":1}", "a"));
    assert!(!is_repeated("{\"a\":1}", "a"));
    assert!(!is_repeated("{\"a\":{\"a\":1,\"a\":2}}", "a"));
    assert!(!is_repeated("{\"b\":\"{\\\"a\\\":1,\\\"a\\\":1}\",\"a\":1}", "a"));
    assert!(!is_repeated("{\"b\":[{\"a\":1},{\"a\":1}],\"a\":1}", "a"));
    assert!(!is_repeated("", "a"));
}

#[test]
fn role_may_be_written_as_an_object() {
    let granted = |role: &str| {
        let text = format!(
            "{{\"user_id\": 3, \"role\": {}, \"exp\": 18446744073709551615}}",
            role
        );
        verify_token(&sign_text(&text), SECRET).map(|claims| claims.role)
    };
    assert_eq!(granted("\"Editor\""), Some(Role::Editor));
    assert_eq!(granted("\"\\u0041dmin\""), Some(Role::Admin));
    assert_eq!(granted("{\"Admin\":null}"), Some(Role::Admin));
    assert_eq!(granted("{ \"User\" : null }"), Some(Role::User));
    assert_eq!(granted("{}"), None);
    assert_eq!(granted("{\"Admin\":1}"), None);
    assert_eq!(granted("{\"Root\":null}"), None);
    assert_eq!(granted("{\"Admin\":null,\"User\":null}"), None);
    assert_eq!(granted("{\"Admin\":null,\"Admin\":null}"), None);
    assert_eq!(granted("{\"\\u0041dmin\":null}"), Some(Role::Admin));
    assert_eq!(granted("[\"Admin\"]"), None);
    assert_eq!(granted("null"), None);
}

#[test]
fn other_members_are_skipped() {
    let text = "{\"big\":1e999,\"odd\":\"\\ud800\",\"user_id\":3,\"role\":\"User\",\
                \"exp\":18446744073709551615,\"list\":[{\"role\":1}]}";
    let claims = Claims { user_id: 3, role: Role::User, exp: usize::MAX };
    assert_eq!(verify_token(&sign_text(text), SECRET), Some(claims));
    let text = "{\"note\":\"a,b\",\"user_id\":3,\"note\":{\"user_id\":1,\"user_id\":2},\
                \"role\":\"User\",\"exp\":18446744073709551615}";
    assert_eq!(verify_token(&sign_text(text), SECRET), Some(claims));
}

#[test]
fn payloads_that_are_no_objects_are_refused() {
    for text in ["[2147483647,\"Admin\",18446744073709551615]", "3", "\"Admin\"", "null"] {
        assert_eq!(verify_token(&sign_text(text), SECRET), None);
    }
}

#[test]
fn repeated_claims_are_refused() {
    let id = "\"user_id\":3";
    let role = "\"role\":\"User\"";
    let exp = "\"exp\":18446744073709551615";
    let object = |members: &[&str]| format!("{{{}}}", members.join(","));
    let once = object(&[id, role, exp]);
    let claims = Claims { user_id: 3, role: Role::User, exp: usize::MAX };
    assert_eq!(read_claims(&once), Some(claims));
    assert_eq!(verify_token(&sign_text(&once), SECRET), Some(claims));
    let refused = [
        object(&[id, role, exp, id]),
        object(&[id, role, role, exp]),
        object(&[id, role, exp, exp]),
        object(&["\"user_id\":1", id, role, exp]),
        object(&["\"role\":\"Admin\"", id, role, exp]),
        object(&["\"role\":1", id, role, exp]),
        object(&[id, role, "\"exp\":1", exp]),
    ];
    for text in &refused {
        assert_eq!(read_claims(text), None);
        assert_eq!(verify_token(&sign_text(text), SECRET), None);
    }
}
