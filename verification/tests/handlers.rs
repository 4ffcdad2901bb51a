use rst04_jwt::auth::handler::{cookie_for, logout, refresh_token, signin, RefreshCookie};
use rst04_jwt::auth::{
    JwtAuth, ResponseRefreshToken, ResponseSignin, ServiceOkRefreshToken, ServiceOkSignin,
};
use rst04_jwt::ping::ping;
use rst04_jwt::user::handler::{delete_user, get_all_users, get_user, insert_user, update_user};
use rst04_jwt::user::User;

fn user(id: i32) -> User {
    User {
        id_user: id,
        full_name: None,
        email: None,
        phone_number: None,
        username: "alice".to_string(),
        password: "digest".to_string(),
    }
}

#[test]
fn a_signin_answers_with_the_access_token_and_a_cookie_of_two_minutes() {
    let r = signin(ServiceOkSignin {
        username: "alice".to_string(),
        encoded_access_token: "access".to_string(),
        encoded_refresh_token: "refresh".to_string(),
    });
    assert_eq!(r.code, 200);
    assert_eq!(r.message, Some("user 'alice' has successfully logged in.".to_string()));
    assert_eq!(r.data, ResponseSignin { access_token: "access".to_string() });
    assert_eq!(
        r.cookie,
        Some(RefreshCookie {
            value: "refresh".to_string(),
            http_only: true,
            path: "/".to_string(),
            max_age: Some(120),
            expires_now: false
        })
    );
}

#[test]
fn a_refresh_answers_with_both_tokens_and_a_cookie_for_the_time_left() {
    let r = refresh_token(ServiceOkRefreshToken {
        access_token: "access".to_string(),
        refresh_token: "refresh".to_string(),
        refresh_token_previous_max_age: 77,
    });
    assert_eq!(r.code, 200);
    assert_eq!(r.message, None);
    assert_eq!(
        r.data,
        ResponseRefreshToken {
            access_token: "access".to_string(),
            refresh_token: "refresh".to_string()
        }
    );
    assert_eq!(r.cookie, Some(cookie_for("refresh".to_string(), 77)));
    assert_eq!(r.cookie.unwrap().max_age, Some(77));
}

#[test]
fn a_logout_empties_the_cookie_and_expires_it() {
    let r = logout("alice".to_string());
    assert_eq!(r.code, 200);
    assert_eq!(r.message, Some("user 'alice' successfully logout.".to_string()));
    assert_eq!(
        r.cookie,
        Some(RefreshCookie {
            value: String::new(),
            http_only: false,
            path: "/".to_string(),
            max_age: None,
            expires_now: true
        })
    );
}

#[test]
fn the_bodies_of_the_responses_take_what_the_services_gave() {
    let body = ResponseSignin::of(ServiceOkSignin {
        username: "alice".to_string(),
        encoded_access_token: "access".to_string(),
        encoded_refresh_token: "refresh".to_string(),
    });
    assert_eq!(body.access_token, "access");
    let body = ResponseRefreshToken::of(ServiceOkRefreshToken {
        access_token: "access".to_string(),
        refresh_token: "refresh".to_string(),
        refresh_token_previous_max_age: 1,
    });
    assert_eq!(body.access_token, "access");
    assert_eq!(body.refresh_token, "refresh");
}

#[test]
fn the_user_handlers_answer_with_their_messages() {
    let r = get_all_users(&JwtAuth, vec![user(1), user(2), user(3)]);
    assert_eq!(r.code, 200);
    assert_eq!(r.message, Some("successfully retrieved all users data.".to_string()));
    assert_eq!(r.data.length, 3);
    assert_eq!(r.data.users, vec![user(1), user(2), user(3)]);
    assert_eq!(r.cookie, None);
    let r = get_user(&JwtAuth, user(5));
    assert_eq!(r.code, 200);
    assert_eq!(r.message, Some("user data retrieved successfully.".to_string()));
    assert_eq!(r.data, user(5));
    let r = insert_user("alice".to_string());
    assert_eq!(r.code, 201);
    assert_eq!(
        r.message,
        Some("registration user 'alice' successfully! your account has been created.".to_string())
    );
    let r = update_user(&JwtAuth, "alice".to_string());
    assert_eq!(r.code, 200);
    assert_eq!(r.message, Some("user 'alice' has been successfully updated.".to_string()));
    let r = delete_user(&JwtAuth, "alice".to_string());
    assert_eq!(r.code, 200);
    assert_eq!(r.message, Some("user 'alice' has been successfully deleted.".to_string()));
    let r = ping();
    assert_eq!(r.code, 200);
    assert_eq!(r.message, Some("PONG".to_string()));
    assert_eq!(r.cookie, None);
}
