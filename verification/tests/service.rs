use city_favorites::City;
use city_favorites::Error;
use city_favorites::GqlContext;
use city_favorites::MemoryDb;
use city_favorites::User;
use city_favorites::mutation::AddFavoriteCityInput;
use city_favorites::mutation::LoginInput;
use city_favorites::mutation::Mutation;
use city_favorites::mutation::SignupInput;
use city_favorites::query::GetUserInput;
use city_favorites::query::Query;

fn new_user(name: &str, email: &str, password: &str) -> User {
    User {
        name: name.to_string(),
        email: email.to_string(),
        password: password.to_string(),
        favorite_cities: vec![],
    }
}

fn signup(db: &mut MemoryDb, email: &str, name: &str, password: &str) {
    let m = Mutation;
    let r = m.signup(db, SignupInput {
        email: email.to_string(),
        name: name.to_string(),
        password: password.to_string(),
    });
    assert!(r.is_ok());
}

fn login(db: &mut MemoryDb, email: &str, password: &str) -> Result<String, Error> {
    let m = Mutation;
    m.login(db, LoginInput { email: email.to_string(), password: password.to_string() })
        .map(|lr| lr.token)
}

fn add_city(db: &mut MemoryDb, token: &str, name: &str, country: &str) -> Result<(), Error> {
    let m = Mutation;
    m.add_favorite_city(db, AddFavoriteCityInput {
        token: token.to_string(),
        name: name.to_string(),
        country: country.to_string(),
    })
    .map(|_| ())
}

fn remove_city(db: &mut MemoryDb, token: &str, name: &str, country: &str) -> Result<bool, Error> {
    let m = Mutation;
    m.remove_favorite_city(db, AddFavoriteCityInput {
        token: token.to_string(),
        name: name.to_string(),
        country: country.to_string(),
    })
    .map(|res| res.success)
}

fn favorites_of(db: &MemoryDb, token: &str) -> Vec<(String, String)> {
    let q = Query {};
    let ctx = GqlContext { db, auth: Some(token.to_string()) };
    let data = q
        .get_user(&ctx, GetUserInput { token: token.to_string() })
        .expect("token should verify");
    data.favorite_cities.into_iter().map(|c| (c.name, c.country)).collect()
}

#[test]
fn it_works() {}

#[test]
fn find_by_email_returns_just_registered_identity() {
    let mut db = MemoryDb::new();
    signup(&mut db, "a@x.com", "Al", "p1");
    let found = db.get_signed_up_user("a@x.com").expect("registered identity must be found");
    assert_eq!(found.email, "a@x.com");
    assert_eq!(found.name, "Al");
    assert_eq!(found.password, "p1");
    assert!(found.favorite_cities.is_empty());
    assert!(db.get_signed_up_user("A@X.COM").is_none(), "lookup is case-sensitive");
    assert!(db.get_signed_up_user("nobody@x.com").is_none());
}

#[test]
fn signup_echoes_email_and_name() {
    let mut db = MemoryDb::new();
    let m = Mutation;
    let res = m
        .signup(&mut db, SignupInput {
            email: "a@x.com".to_string(),
            name: "Al".to_string(),
            password: "p1".to_string(),
        })
        .expect("registration always succeeds");
    assert_eq!(res.email, "a@x.com");
    assert_eq!(res.name, "Al");
}

#[test]
fn duplicate_registration_overwrites_last_write_wins() {
    let mut db = MemoryDb::new();
    signup(&mut db, "a@x.com", "Al", "p1");
    signup(&mut db, "a@x.com", "Alice", "p2");
    let found = db.get_signed_up_user("a@x.com").expect("identity must still be found");
    assert_eq!(found.name, "Alice");
    assert_eq!(found.password, "p2");
}

#[test]
fn login_succeeds_and_fails_as_specified() {
    let mut db = MemoryDb::new();
    signup(&mut db, "a@x.com", "Al", "p1");
    signup(&mut db, "a@x.com", "Alice", "p2");
    let token = login(&mut db, "a@x.com", "p2").expect("correct password must log in");
    assert!(!token.is_empty());
    assert_eq!(login(&mut db, "a@x.com", "wrong"), Err(Error::BadCredentials));
    assert_eq!(login(&mut db, "a@x.com", "p1"), Err(Error::BadCredentials));
    assert_eq!(login(&mut db, "nobody@x.com", "x"), Err(Error::NoSuchAccount));
}

#[test]
fn sequential_logins_yield_distinct_valid_tokens() {
    let mut db = MemoryDb::new();
    signup(&mut db, "a@x.com", "Al", "p1");
    let t1 = login(&mut db, "a@x.com", "p1").unwrap();
    let t2 = login(&mut db, "a@x.com", "p1").unwrap();
    assert_ne!(t1, t2, "each login mints a fresh token");
    let ctx = GqlContext { db: &db, auth: Some(t1) };
    let u1 = ctx.verify_token().expect("first token stays valid");
    assert_eq!(u1.email, "a@x.com");
    let ctx = GqlContext { db: &db, auth: Some(t2) };
    let u2 = ctx.verify_token().expect("second token is valid too");
    assert_eq!(u2.email, "a@x.com");
}

#[test]
fn adding_city_twice_is_idempotent() {
    let mut db = MemoryDb::new();
    signup(&mut db, "a@x.com", "Al", "p1");
    let token = login(&mut db, "a@x.com", "p1").unwrap();
    add_city(&mut db, &token, "Paris", "FR").unwrap();
    add_city(&mut db, &token, "Paris", "FR").unwrap();
    let cities = favorites_of(&db, &token);
    assert_eq!(cities, vec![("Paris".to_string(), "FR".to_string())]);
}

#[test]
fn same_name_different_country_is_a_distinct_city() {
    let mut db = MemoryDb::new();
    signup(&mut db, "a@x.com", "Al", "p1");
    let token = login(&mut db, "a@x.com", "p1").unwrap();
    add_city(&mut db, &token, "Paris", "FR").unwrap();
    add_city(&mut db, &token, "Paris", "US").unwrap();
    let cities = favorites_of(&db, &token);
    assert_eq!(cities.len(), 2);
    assert!(cities.contains(&("Paris".to_string(), "FR".to_string())));
    assert!(cities.contains(&("Paris".to_string(), "US".to_string())));
}

#[test]
fn removing_absent_city_is_a_noop_not_an_error() {
    let mut db = MemoryDb::new();
    signup(&mut db, "a@x.com", "Al", "p1");
    let token = login(&mut db, "a@x.com", "p1").unwrap();
    add_city(&mut db, &token, "Paris", "FR").unwrap();
    let success = remove_city(&mut db, &token, "Berlin", "DE").expect("absent city is no error");
    assert!(success);
    let cities = favorites_of(&db, &token);
    assert_eq!(cities, vec![("Paris".to_string(), "FR".to_string())]);
}

#[test]
fn removing_present_city_takes_it_out() {
    let mut db = MemoryDb::new();
    signup(&mut db, "a@x.com", "Al", "p1");
    let token = login(&mut db, "a@x.com", "p1").unwrap();
    add_city(&mut db, &token, "Paris", "FR").unwrap();
    add_city(&mut db, &token, "Tokyo", "JP").unwrap();
    assert!(remove_city(&mut db, &token, "Paris", "FR").unwrap());
    let cities = favorites_of(&db, &token);
    assert_eq!(cities, vec![("Tokyo".to_string(), "JP".to_string())]);
}

#[test]
fn verify_on_unknown_or_missing_credential_is_unauthorized() {
    let mut db = MemoryDb::new();
    signup(&mut db, "a@x.com", "Al", "p1");
    let ctx = GqlContext { db: &db, auth: Some("never-issued-token".to_string()) };
    assert_eq!(ctx.verify_token().unwrap_err(), Error::Unauthorized);
    let ctx = GqlContext { db: &db, auth: Some(String::new()) };
    assert_eq!(ctx.verify_token().unwrap_err(), Error::Unauthorized);
    let ctx = GqlContext { db: &db, auth: None };
    assert_eq!(ctx.verify_token().unwrap_err(), Error::Unauthorized);
    let q = Query {};
    let r = q.get_user(&ctx, GetUserInput { token: String::new() });
    assert_eq!(r.unwrap_err(), Error::Unauthorized);
}

#[test]
fn mutation_with_unknown_token_is_denied_and_changes_nothing() {
    let mut db = MemoryDb::new();
    signup(&mut db, "a@x.com", "Al", "p1");
    let token = login(&mut db, "a@x.com", "p1").unwrap();
    add_city(&mut db, &token, "Paris", "FR").unwrap();
    assert_eq!(add_city(&mut db, "bogus", "Berlin", "DE"), Err(Error::Unauthorized));
    assert_eq!(remove_city(&mut db, "bogus", "Paris", "FR"), Err(Error::Unauthorized));
    let cities = favorites_of(&db, &token);
    assert_eq!(cities, vec![("Paris".to_string(), "FR".to_string())]);
}

#[test]
fn store_mutation_for_unregistered_email_is_unauthorized() {
    let mut db = MemoryDb::new();
    let ghostly = new_user("Ghost", "ghost@x.com", "p");
    let city = City { name: "Paris".to_string(), country: "FR".to_string() };
    assert_eq!(db.add_favorite_city(&ghostly, city.clone()).unwrap_err(), Error::Unauthorized);
    assert_eq!(db.remove_favorite_city(&ghostly, &city).unwrap_err(), Error::Unauthorized);
}

#[test]
fn distinct_adds_all_apply_with_no_lost_update() {
    let mut db = MemoryDb::new();
    signup(&mut db, "a@x.com", "Al", "p1");
    let token = login(&mut db, "a@x.com", "p1").unwrap();
    let names = ["Paris", "Tokyo", "Lima", "Oslo", "Cairo", "Quito", "Accra", "Hanoi"];
    for name in names {
        add_city(&mut db, &token, name, "XX").unwrap();
    }
    let cities = favorites_of(&db, &token);
    assert_eq!(cities.len(), names.len());
    for name in names {
        assert!(cities.contains(&(name.to_string(), "XX".to_string())));
    }
}

#[test]
fn error_codes_and_messages_are_stable() {
    assert_eq!(Error::Unauthorized.code(), "UNAUTHORIZED");
    assert_eq!(Error::Unauthorized.message(), "Unauthorized");
    assert_eq!(Error::BadCredentials.code(), "BAD_CREDENTIALS");
    assert_eq!(Error::BadCredentials.message(), "Invalid credentials");
    assert_eq!(Error::NoSuchAccount.code(), "NO_SUCH_ACCOUNT");
    assert_eq!(Error::NoSuchAccount.message(), "User has not signed up");
}

#[test]
fn verify_password_compares_byte_for_byte() {
    let user = new_user("Al", "a@x.com", "Secret1");
    assert!(user.verify_password("Secret1"));
    assert!(!user.verify_password("secret1"));
    assert!(!user.verify_password("Secret1 "));
    assert!(!user.verify_password(""));
}

#[test]
fn city_pairs_compare_by_both_components() {
    let paris_fr = City { name: "Paris".to_string(), country: "FR".to_string() };
    let paris_fr2 = City { name: "Paris".to_string(), country: "FR".to_string() };
    let paris_us = City { name: "Paris".to_string(), country: "US".to_string() };
    assert_eq!(paris_fr, paris_fr2);
    assert_ne!(paris_fr, paris_us);
}

#[test]
fn session_snapshot_goes_stale_but_canonical_record_does_not() {
    let mut db = MemoryDb::new();
    signup(&mut db, "a@x.com", "Al", "p1");
    let token = login(&mut db, "a@x.com", "p1").unwrap();
    add_city(&mut db, &token, "Paris", "FR").unwrap();
    let snapshot = db.get_authed_user(&token).expect("token resolves");
    assert!(snapshot.favorite_cities.is_empty(), "the issue-time snapshot is not updated");
    let ctx = GqlContext { db: &db, auth: Some(token.clone()) };
    let canonical = ctx.verify_token().expect("token verifies");
    assert_eq!(canonical.favorite_cities.len(), 1, "verify re-resolves the canonical record");
}
