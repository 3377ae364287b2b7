use shop_api::config::expire_hours;
use shop_api::login::{
    check_login, grant, hand_out, judge_login, login, login_reply, login_reply_at,
};
use shop_api::middleware::JwtMiddleware;
use shop_api::password::{hash_of, hash_password, password_answer};
use shop_api::products::create_product;
use shop_api::register::{insert_user, register, register_reply};
use shop_api::reply::{Body, Reply};
use shop_api::request::{AuthBody, ProductBody};
use shop_api::role::Role;
use shop_api::statement::{InsertUser, UserRow};
use shop_api::text::{parse_i64, same_text, strip_prefix};
use shop_api::token::verify_token;

/// A hash of "password" at the lowest cost.
const HASH: &str = "$2a$04$UuTkLRZZ6QofpDOlMz32MuuxEHA43WOemOYHPz6.SjsVsyO1tDU96";

const SECRET: &str = "s3cret";

fn text(status: u16, text: &str) -> Reply {
    Reply { status, body: Body::Text(text.to_string()) }
}

fn row(password: Option<&str>, role: Option<&str>) -> UserRow {
    UserRow {
        id: 4,
        password: password.map(|p| p.to_string()),
        role: role.map(|r| r.to_string()),
    }
}

fn body(email: &str, password: &str) -> AuthBody {
    AuthBody { email: email.to_string(), password: password.to_string() }
}

fn token_of(reply: Option<Reply>) -> String {
    match reply {
        Some(Reply { status: 200, body: Body::Token(token) }) => token,
        other => panic!("no token in {:?}", other),
    }
}

#[test]
fn password_answers() {
    assert_eq!(password_answer("password", HASH), Some(true));
    assert_eq!(password_answer("Password", HASH), Some(false));
    assert_eq!(password_answer("", HASH), Some(false));
    assert_eq!(password_answer("password", "password"), None);
    assert_eq!(password_answer("password", ""), None);
    assert_eq!(password_answer(HASH, HASH), Some(false));
}

#[test]
fn hashes_open_to_their_password() {
    let hash = hash_password("hunter2").unwrap();
    assert_eq!(hash.len(), 60);
    assert!(hash.starts_with("$2b$12$"));
    assert_eq!(password_answer("hunter2", &hash), Some(true));
}

#[test]
fn hash_of_each_attempt() {
    assert_eq!(hash_of(Ok("hash".to_string())), Some("hash".to_string()));
    assert_eq!(hash_of(Err(bcrypt::BcryptError::CostNotAllowed(3))), None);
}

#[test]
fn hashes_are_salted() {
    assert_ne!(hash_password("hunter2"), hash_password("hunter2"));
}

#[test]
fn insert_of_a_new_user() {
    let insert = insert_user("a@b.c".to_string(), Some("hash".to_string())).unwrap();
    assert_eq!(
        insert,
        InsertUser { email: "a@b.c".to_string(), password: "hash".to_string() }
    );
    assert_eq!(
        insert.sql(),
        "INSERT INTO users (email, password, role) VALUES (?, ?, 'user')"
    );
    assert_eq!(insert_user("a@b.c".to_string(), None), None);
}

#[test]
fn registration_replies() {
    assert_eq!(register_reply(Ok(())), text(200, "register success"));
    assert_eq!(
        register_reply(Err("Duplicate entry".to_string())),
        text(400, "Duplicate entry")
    );
}

#[test]
fn registered_user_logs_in_and_is_forbidden_products() {
    let insert = register(body("a@b.c", "pass word")).unwrap();
    assert_eq!(insert.email, "a@b.c");
    let user = row(Some(&insert.password), Some("user"));
    let token = token_of(login_reply(Some(&user), "pass word", 24, SECRET));
    let header = format!("Bearer {}", token);
    let claims = JwtMiddleware.new_transform(()).call(Some(&header), SECRET).unwrap();
    assert_eq!(claims.user_id, 4);
    assert_eq!(claims.role, Role::User);
    let product = ProductBody { name: "tea".to_string(), price: 2.5f64 };
    assert_eq!(create_product(Some(&claims), product), Err(text(403, "Forbidden")));
}

#[test]
fn login_looks_the_address_up() {
    let find = login(&body("a@b.c", "x"));
    assert_eq!(find.email, "a@b.c");
    assert_eq!(find.sql(), "SELECT id, password, role FROM users WHERE email = ?");
}

#[test]
fn login_judgements() {
    let user = row(Some("hash"), Some("admin"));
    assert_eq!(judge_login(None, Some(true)), Err(text(401, "user not found")));
    assert_eq!(
        judge_login(Some(&row(None, Some("admin"))), Some(true)),
        Err(text(401, "no password"))
    );
    assert_eq!(judge_login(Some(&user), Some(false)), Err(text(401, "wrong password")));
    assert_eq!(judge_login(Some(&user), None), Err(text(401, "wrong password")));
    assert_eq!(judge_login(Some(&user), Some(true)), Ok((4, Role::Admin)));
    let roles = [
        (Some("editor"), Role::Editor),
        (Some("user"), Role::User),
        (Some("root"), Role::User),
        (None, Role::User),
    ];
    for (column, role) in roles {
        assert_eq!(judge_login(Some(&row(Some("hash"), column)), Some(true)), Ok((4, role)));
    }
}

#[test]
fn login_checks() {
    let user = row(Some(HASH), Some("editor"));
    assert_eq!(check_login(Some(&user), "password"), Ok((4, Role::Editor)));
    assert_eq!(check_login(Some(&user), "passwort"), Err(text(401, "wrong password")));
    assert_eq!(
        check_login(Some(&row(Some("plain"), None)), "plain"),
        Err(text(401, "wrong password"))
    );
    assert_eq!(check_login(Some(&row(None, None)), ""), Err(text(401, "no password")));
    assert_eq!(check_login(None, "password"), Err(text(401, "user not found")));
}

#[test]
fn login_hands_out_a_token() {
    let user = row(Some(HASH), Some("admin"));
    let token = token_of(login_reply(Some(&user), "password", 1, SECRET));
    let claims = verify_token(&token, SECRET).unwrap();
    assert_eq!((claims.user_id, claims.role), (4, Role::Admin));
    let token = token_of(login_reply_at(-1, Some(&user), "password", 0, SECRET));
    assert_eq!(verify_token(&token, SECRET).unwrap().exp, usize::MAX);
    let token = token_of(grant(11, Role::Editor, 1, SECRET));
    let claims = verify_token(&token, SECRET).unwrap();
    assert_eq!((claims.user_id, claims.role), (11, Role::Editor));
    assert_eq!(grant(11, Role::Editor, i64::MAX, SECRET), None);
    assert_eq!(
        hand_out(Some("t".to_string())),
        Some(Reply { status: 200, body: Body::Token("t".to_string()) })
    );
}

#[test]
fn login_without_a_representable_expiry() {
    let user = row(Some(HASH), Some("admin"));
    assert_eq!(login_reply(Some(&user), "password", i64::MAX, SECRET), None);
    assert_eq!(login_reply_at(0, Some(&user), "password", i64::MIN, SECRET), None);
    assert_eq!(hand_out(None), None);
    assert_eq!(
        login_reply(Some(&user), "wrong", i64::MAX, SECRET),
        Some(text(401, "wrong password"))
    );
    assert_eq!(
        login_reply_at(0, None, "password", i64::MIN, SECRET),
        Some(text(401, "user not found"))
    );
}

#[test]
fn lifetimes() {
    assert_eq!(expire_hours(None), Some(24));
    assert_eq!(expire_hours(Some("48")), Some(48));
    assert_eq!(expire_hours(Some("-1")), Some(-1));
    assert_eq!(expire_hours(Some("")), None);
    assert_eq!(expire_hours(Some("a day")), None);
    assert_eq!(expire_hours(Some("24 ")), None);
}

#[test]
fn integers_are_read_as_std_reads_them() {
    let texts = [
        "", "0", "-0", "+0", "7", "+7", "-7", "007", "-", "+", "+-1", "--1", "1-", "1_000", " 1",
        "1 ", "1.0", "x", "\u{663}", "9223372036854775807", "9223372036854775808",
        "-9223372036854775808", "-9223372036854775809", "99999999999999999999999999999999999999999",
        "00000000000000000000000000000000000000000000000000012", "1\u{e9}",
    ];
    for text in texts {
        assert_eq!(parse_i64(text), text.parse::<i64>().ok(), "{:?}", text);
    }
}

#[test]
fn prefixes_and_comparison() {
    assert_eq!(strip_prefix("Bearer x", "Bearer "), Some("x"));
    assert_eq!(strip_prefix("Bearer ", "Bearer "), Some(""));
    assert_eq!(strip_prefix("Bearer", "Bearer "), None);
    assert_eq!(strip_prefix("bearer x", "Bearer "), None);
    assert_eq!(strip_prefix("\u{e9}t\u{e9}", "\u{e9}"), Some("t\u{e9}"));
    assert_eq!(strip_prefix("abc", ""), Some("abc"));
    assert!(same_text("abc", "abc"));
    assert!(!same_text("abc", "abd"));
    assert!(!same_text("abc", "ab"));
}
