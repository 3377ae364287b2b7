use shop_api::middleware::{bearer_token, decide_admission, JwtMiddleware};
use shop_api::products::{
    create_product, create_product_reply, get_products, get_products_reply, get_user,
};
use shop_api::reply::{Body, Reply};
use shop_api::request::ProductBody;
use shop_api::role::Role;
use shop_api::statement::{InsertProduct, Product};
use shop_api::token::{issue_token, Claims};

const SECRET: &str = "s3cret";

fn text(status: u16, text: &str) -> Reply {
    Reply { status, body: Body::Text(text.to_string()) }
}

fn claims(role: Role) -> Claims {
    Claims { user_id: 2, role, exp: 99 }
}

fn tea() -> ProductBody<f64> {
    ProductBody { name: "tea".to_string(), price: 2.5 }
}

#[test]
fn token_in_the_header() {
    assert_eq!(bearer_token("Bearer a.b.c"), "a.b.c");
    assert_eq!(bearer_token("Bearer  a"), " a");
    assert_eq!(bearer_token("Bearer "), "");
    assert_eq!(bearer_token("bearer a.b.c"), "");
    assert_eq!(bearer_token("Basic abc"), "");
    assert_eq!(bearer_token("a.b.c"), "");
    assert_eq!(bearer_token(""), "");
}

#[test]
fn admission() {
    let user = claims(Role::User);
    assert_eq!(decide_admission(true, Some(user)), Ok(user));
    assert_eq!(decide_admission(true, None), Err(text(401, "Invalid token")));
    assert_eq!(decide_admission(false, None), Err(text(401, "No token")));
}

#[test]
fn middleware_keeps_its_service() {
    let checked = JwtMiddleware.new_transform("inner".to_string());
    assert_eq!(checked.service(), "inner");
}

#[test]
fn middleware_reads_the_token() {
    let checked = JwtMiddleware.new_transform(());
    let token = issue_token(-1, 8, Role::Editor, 0, SECRET).unwrap();
    let header = format!("Bearer {}", token);
    let editor = Claims { user_id: 8, role: Role::Editor, exp: usize::MAX };
    assert_eq!(checked.call(Some(&header), SECRET), Ok(editor));
    assert_eq!(checked.call(Some(&header), "other"), Err(text(401, "Invalid token")));
    assert_eq!(checked.call(None, SECRET), Err(text(401, "No token")));
}

#[test]
fn middleware_refuses_other_schemes() {
    let checked = JwtMiddleware.new_transform(());
    let token = issue_token(-1, 8, Role::Editor, 0, SECRET).unwrap();
    for header in ["", "Bearer", "Bearer ", "Basic YTpi", &token] {
        assert_eq!(checked.call(Some(header), SECRET), Err(text(401, "Invalid token")));
    }
    let expired = issue_token(0, 8, Role::Editor, 24, SECRET).unwrap();
    let header = format!("Bearer {}", expired);
    assert_eq!(checked.call(Some(&header), SECRET), Err(text(401, "Invalid token")));
}

#[test]
fn attached_claims() {
    assert_eq!(get_user(Some(&claims(Role::Admin))), Some(claims(Role::Admin)));
    assert_eq!(get_user(None), None);
}

#[test]
fn products_are_for_admins_and_editors() {
    for role in [Role::Admin, Role::Editor] {
        let insert = create_product(Some(&claims(role)), tea()).unwrap();
        assert_eq!(insert, InsertProduct { name: "tea".to_string(), price: 2.5 });
        assert_eq!(insert.sql(), "INSERT INTO products (name, price) VALUES (?, ?)");
    }
    assert_eq!(
        create_product(Some(&claims(Role::User)), tea()),
        Err(text(403, "Forbidden"))
    );
    assert_eq!(create_product(None, tea()), Err(text(401, "No user")));
}

#[test]
fn stored_role_decides_by_way_of_the_token() {
    let checked = JwtMiddleware.new_transform(());
    for (role, allowed) in [("admin", true), ("editor", true), ("user", false), ("", false)] {
        let role = shop_api::role::parse_role(role);
        let token = issue_token(-1, 1, role, 0, SECRET).unwrap();
        let claims = checked.call(Some(&format!("Bearer {}", token)), SECRET).unwrap();
        assert_eq!(create_product(Some(&claims), tea()).is_ok(), allowed);
    }
}

#[test]
fn product_replies() {
    assert_eq!(create_product_reply(Ok(())), text(200, "product created"));
    assert_eq!(create_product_reply(Err("gone".to_string())), text(400, "gone"));
}

#[test]
fn catalogue_is_listed_in_order() {
    assert_eq!(get_products().sql(), "SELECT id, name, price FROM products");
    let rows = |n: i32| -> Vec<Product<f64>> {
        (0..n).map(|id| Product { id, name: None, price: Some(1.0) }).collect()
    };
    let catalogue = get_products_reply(rows(3));
    assert_eq!(catalogue.status, 200);
    assert_eq!(catalogue.products, rows(3));
    assert_eq!(get_products_reply(rows(0)).products, rows(0));
}
