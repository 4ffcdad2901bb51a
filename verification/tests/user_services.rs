use rst04_jwt::auth::helpers::verify_password;
use rst04_jwt::auth::JwtAuth;
use rst04_jwt::errors::{AppError, AppErrorMessage, ErrorDetails, ErrorKind};
use rst04_jwt::user::helpers::{check_user, check_user_insert_availability, get_stored_user};
use rst04_jwt::user::services::{
    delete_user_service, get_all_users_request, get_all_users_service, get_user_request,
    get_user_service, insert_user_service, update_user_service, DeleteUserFlow, InsertUserFlow,
    UpdateUserFlow,
};
use rst04_jwt::user::{
    User, UserAction, UserEvent, UserPayload, UserReply, UserRequest,
};

fn payload() -> UserPayload {
    UserPayload {
        full_name: Some("Alice Liddell".to_string()),
        email: Some("alice@gmail.com".to_string()),
        phone_number: Some("0812345678".to_string()),
        username: "alice".to_string(),
        password: "Secret123!".to_string(),
        confirm_password: "Secret123!".to_string(),
    }
}

fn stored() -> User {
    User {
        id_user: 7,
        full_name: Some("Alice Liddell".to_string()),
        email: Some("alice@gmail.com".to_string()),
        phone_number: None,
        username: "alice".to_string(),
        password: "digest".to_string(),
    }
}

fn failed(words: &str) -> UserReply {
    UserReply::Failed(words.to_string())
}

fn value(text: &str) -> UserReply {
    UserReply::Value(text.to_string())
}

fn error(action: UserAction) -> AppError {
    match action {
        UserAction::Finish(Err(e)) => e,
        other => panic!("expected a failure, got {:?}", other),
    }
}

fn conflict(message: &str) -> AppError {
    AppError::Conflict(AppErrorMessage { code: 409, message: message.to_string(), details: None })
}

fn not_found(message: &str, words: &str) -> AppError {
    AppError::NotFound(AppErrorMessage {
        code: 404,
        message: message.to_string(),
        details: Some(ErrorDetails::Text(words.to_string())),
    })
}

fn free() -> UserReply {
    UserReply::Availability {
        username_exists: false,
        email_exists: false,
        phone_number_exists: false,
    }
}

#[test]
fn insert_walks_through_both_tables() {
    let (flow, action) = InsertUserFlow::begin(payload());
    assert_eq!(
        action,
        UserAction::Ask(UserRequest::Availability {
            username: "alice".to_string(),
            email: Some("alice@gmail.com".to_string()),
            phone_number: Some("0812345678".to_string())
        })
    );
    let (flow, action) = insert_user_service(flow, free());
    let digest = match action {
        UserAction::Ask(UserRequest::InsertUser {
            username,
            password,
            full_name,
            email,
            phone_number,
        }) => {
            assert_eq!(username, "alice");
            assert_eq!(full_name, Some("Alice Liddell".to_string()));
            assert_eq!(email, Some("alice@gmail.com".to_string()));
            assert_eq!(phone_number, Some("0812345678".to_string()));
            assert_eq!(verify_password("Secret123!", &password), Ok(true));
            password
        }
        other => panic!("expected an insert, got {:?}", other),
    };
    let (flow, action) = insert_user_service(flow, UserReply::Done);
    assert_eq!(
        action,
        UserAction::Ask(UserRequest::InsertCredentials {
            username: "alice".to_string(),
            password: digest.clone()
        })
    );
    let (flow, action) = insert_user_service(flow, UserReply::Done);
    assert_eq!(
        action,
        UserAction::Ask(UserRequest::PasswordByUsername { username: "alice".to_string() })
    );
    let (flow, action) = insert_user_service(flow, UserReply::Value(digest.clone()));
    assert_eq!(
        action,
        UserAction::Ask(UserRequest::CredentialsPassword { username: "alice".to_string() })
    );
    let (flow, action) = insert_user_service(flow, UserReply::Value(digest));
    assert_eq!(flow, InsertUserFlow::Done);
    assert_eq!(action, UserAction::Finish(Ok("alice".to_string())));
}

#[test]
fn insert_names_the_first_thing_that_is_taken() {
    let taken = |u, e, p| {
        let (flow, _) = InsertUserFlow::begin(payload());
        let reply = UserReply::Availability {
            username_exists: u,
            email_exists: e,
            phone_number_exists: p,
        };
        error(insert_user_service(flow, reply).1)
    };
    let username =
        conflict("the username 'alice' is already taken. please choose a different username.");
    let email = conflict("the email 'alice@gmail.com' is already associated with an existing account. please use a different email");
    let phone = conflict(
        "the phone number '0812345678' is already registered. please use a different phone number.",
    );
    assert_eq!(taken(true, false, false), username);
    assert_eq!(taken(true, true, true), username);
    assert_eq!(taken(false, true, false), email);
    assert_eq!(taken(false, true, true), email);
    assert_eq!(taken(false, false, true), phone);
}

#[test]
fn insert_refuses_an_invalid_payload() {
    let mut p = payload();
    p.confirm_password = "other".to_string();
    let (flow, action) = InsertUserFlow::begin(p);
    assert_eq!(flow, InsertUserFlow::Done);
    assert_eq!(error(action).class(), ErrorKind::UnprocessableEntity);
}

#[test]
fn insert_reports_what_the_store_fails_at() {
    let (flow, _) = InsertUserFlow::begin(payload());
    assert_eq!(error(insert_user_service(flow, failed("down")).1), AppError::database("down".to_string()));
    let flow = InsertUserFlow::User { username: "alice".to_string(), digest: "d".to_string() };
    assert_eq!(error(insert_user_service(flow, failed("down")).1), AppError::database("down".to_string()));
    let flow = InsertUserFlow::Credentials { username: "alice".to_string() };
    assert_eq!(error(insert_user_service(flow, failed("down")).1), AppError::database("down".to_string()));
    let missing = "an unknown error occurred while processing your request. the user 'alice' has not been found in the database. please try again.";
    let flow = InsertUserFlow::ReadUser { username: "alice".to_string() };
    assert_eq!(error(insert_user_service(flow, failed("no row")).1), not_found(missing, "no row"));
    let flow =
        InsertUserFlow::ReadCredentials { username: "alice".to_string(), stored: "d".to_string() };
    assert_eq!(error(insert_user_service(flow, failed("no row")).1), not_found(missing, "no row"));
    let flow =
        InsertUserFlow::ReadCredentials { username: "alice".to_string(), stored: "d".to_string() };
    assert_eq!(
        error(insert_user_service(flow, value("other")).1),
        AppError::Conflict(AppErrorMessage {
            code: 409,
            message: "oops! registration failed. unable to create user.".to_string(),
            details: Some(ErrorDetails::Text(
                "the password provided does not match the stored credentials. please contact support for assistance."
                    .to_string()
            ))
        })
    );
    let flow = InsertUserFlow::Credentials { username: "alice".to_string() };
    assert_eq!(error(insert_user_service(flow, value("x")).1), AppError::protocol());
    let flow = InsertUserFlow::Hashing { payload: payload() };
    let (_, action) = flow.step(UserEvent::Hashed(Err("why".to_string())));
    assert_eq!(error(action).message().message, "failed to hash password: Secret123!");
}

#[test]
fn update_checks_what_is_in_use_then_writes_both_tables() {
    let (flow, action) = UpdateUserFlow::begin(7, payload());
    assert_eq!(action, UserAction::Ask(UserRequest::UserById { id: 7 }));
    let (flow, action) = update_user_service(flow, UserReply::Found(stored()));
    assert_eq!(
        action,
        UserAction::Ask(UserRequest::UsernameInUse { username: "alice".to_string() })
    );
    let (flow, action) = update_user_service(flow, value("alice"));
    assert_eq!(
        action,
        UserAction::Ask(UserRequest::EmailInUse { email: "alice@gmail.com".to_string() })
    );
    let (flow, action) = update_user_service(flow, value("alice@gmail.com"));
    assert_eq!(
        action,
        UserAction::Ask(UserRequest::PhoneInUse { phone_number: "0812345678".to_string() })
    );
    let (flow, action) = update_user_service(flow, failed("no row"));
    let digest = match action {
        UserAction::Ask(UserRequest::UpdateUser {
            id,
            username,
            password,
            email,
            phone_number,
            full_name,
        }) => {
            assert_eq!(id, 7);
            assert_eq!(username, "alice");
            assert_eq!(email, Some("alice@gmail.com".to_string()));
            assert_eq!(phone_number, Some("0812345678".to_string()));
            assert_eq!(full_name, Some("Alice Liddell".to_string()));
            assert_eq!(verify_password("Secret123!", &password), Ok(true));
            password
        }
        other => panic!("expected an update, got {:?}", other),
    };
    let (flow, action) = update_user_service(flow, UserReply::Done);
    assert_eq!(
        action,
        UserAction::Ask(UserRequest::UpdateCredentials {
            username: "alice".to_string(),
            password: digest.clone()
        })
    );
    let (flow, action) = update_user_service(flow, UserReply::Done);
    assert_eq!(action, UserAction::Ask(UserRequest::PasswordById { id: 7 }));
    let (flow, action) = update_user_service(flow, UserReply::Value(digest.clone()));
    assert_eq!(
        action,
        UserAction::Ask(UserRequest::CredentialsPassword { username: "alice".to_string() })
    );
    let (flow, action) = update_user_service(flow, UserReply::Value(digest));
    assert_eq!(flow, UpdateUserFlow::Done);
    assert_eq!(action, UserAction::Finish(Ok("alice".to_string())));
}

#[test]
fn update_skips_what_the_payload_does_not_have() {
    let mut p = payload();
    p.email = None;
    p.phone_number = None;
    let (flow, _) = UpdateUserFlow::begin(7, p);
    let (flow, _) = update_user_service(flow, UserReply::Found(stored()));
    let (flow, action) = update_user_service(flow, failed("no row"));
    assert!(matches!(flow, UpdateUserFlow::User { .. }));
    assert!(matches!(action, UserAction::Ask(UserRequest::UpdateUser { .. })));
    let mut p = payload();
    p.email = None;
    let (flow, _) = UpdateUserFlow::begin(7, p);
    let (flow, _) = update_user_service(flow, UserReply::Found(stored()));
    let (_, action) = update_user_service(flow, failed("no row"));
    assert_eq!(
        action,
        UserAction::Ask(UserRequest::PhoneInUse { phone_number: "0812345678".to_string() })
    );
}

#[test]
fn update_names_what_another_user_holds() {
    let mut other = payload();
    other.username = "bob".to_string();
    let (flow, _) = UpdateUserFlow::begin(7, other);
    let (flow, _) = update_user_service(flow, UserReply::Found(stored()));
    assert_eq!(
        error(update_user_service(flow, value("bob")).1),
        conflict("the username 'bob' is already taken. please choose a different username.")
    );
    let (flow, _) = UpdateUserFlow::begin(7, payload());
    let (flow, _) = update_user_service(flow, UserReply::Found(stored()));
    let (flow, _) = update_user_service(flow, value("alice"));
    assert_eq!(
        error(update_user_service(flow, value("Alice@gmail.com")).1),
        conflict("the email 'alice@gmail.com' is already associated with an existing account. please use a different email")
    );
    let (flow, _) = UpdateUserFlow::begin(7, payload());
    let (flow, _) = update_user_service(flow, UserReply::Found(stored()));
    let (flow, _) = update_user_service(flow, value("alice"));
    let (flow, _) = update_user_service(flow, value("alice@gmail.com"));
    assert_eq!(
        error(update_user_service(flow, value("0812345678")).1),
        conflict("the phone number '0812345678' is already registered. please use a different phone number.")
    );
}

#[test]
fn update_reports_a_user_that_is_not_there() {
    let (flow, _) = UpdateUserFlow::begin(4_000_000_000, payload());
    assert_eq!(
        error(update_user_service(flow, failed("no row")).1),
        not_found("the user with id '4000000000' was not found in the database.", "no row")
    );
    let flow = UpdateUserFlow::ReadUser {
        id: 12,
        username: "alice".to_string(),
        stored_username: "alice".to_string(),
    };
    assert_eq!(
        error(update_user_service(flow, failed("no row")).1),
        not_found(
            "an unknown error occurred while processing your request. the user with id '12' has not been found in the database. please try again.",
            "no row"
        )
    );
    let flow = UpdateUserFlow::ReadCredentials {
        username: "bob".to_string(),
        stored_username: "alice".to_string(),
        stored: "d".to_string(),
    };
    assert_eq!(
        error(update_user_service(flow, failed("no row")).1),
        not_found(
            "an unknown error occurred while processing your request. the user 'bob' has not been found in the database. please try again.",
            "no row"
        )
    );
    let flow = UpdateUserFlow::ReadCredentials {
        username: "bob".to_string(),
        stored_username: "alice".to_string(),
        stored: "d".to_string(),
    };
    let e = error(update_user_service(flow, value("other")).1);
    assert_eq!(e.class(), ErrorKind::InternalServerError);
    assert_eq!(e.message().message, "oops! update user failed. unable to update user.");
    let flow = UpdateUserFlow::ReadCredentials {
        username: "bob".to_string(),
        stored_username: "alice".to_string(),
        stored: "d".to_string(),
    };
    assert_eq!(
        update_user_service(flow, value("d")).1,
        UserAction::Finish(Ok("alice".to_string()))
    );
}

#[test]
fn delete_counts_only_a_user_that_is_gone() {
    let (flow, action) = DeleteUserFlow::begin(7);
    assert_eq!(action, UserAction::Ask(UserRequest::UserById { id: 7 }));
    let (flow, action) = delete_user_service(flow, UserReply::Found(stored()));
    assert_eq!(action, UserAction::Ask(UserRequest::DeleteUser { id: 7 }));
    let (flow, action) = delete_user_service(flow, failed("ignored"));
    assert_eq!(action, UserAction::Ask(UserRequest::UsernameById { id: 7 }));
    let (flow, action) = delete_user_service(flow, failed("no row"));
    assert_eq!(flow, DeleteUserFlow::Done);
    assert_eq!(action, UserAction::Finish(Ok("alice".to_string())));
    let flow = DeleteUserFlow::Probe { username: "alice".to_string() };
    let e = error(delete_user_service(flow, value("alice")).1);
    assert_eq!(e.class(), ErrorKind::InternalServerError);
    assert_eq!(
        e.message().message,
        "an unexpected error occurred while processing your request. user 'alice' still exists in the database. please try again."
    );
    let (flow, _) = DeleteUserFlow::begin(7);
    assert_eq!(
        error(delete_user_service(flow, failed("no row")).1),
        not_found("user with id '7' not found.", "no row")
    );
    let (flow, _) = DeleteUserFlow::begin(7);
    assert_eq!(error(delete_user_service(flow, UserReply::Done).1), AppError::protocol());
}

#[test]
fn reading_users_gives_what_the_store_found() {
    assert_eq!(get_user_request(7), UserRequest::UserById { id: 7 });
    assert_eq!(get_user_service(7, UserReply::Found(stored())), Ok(stored()));
    assert_eq!(
        get_user_service(7, failed("no row")),
        Err(not_found("user with id '7' not found", "no row"))
    );
    assert_eq!(get_user_service(7, UserReply::Done), Err(AppError::protocol()));
    assert_eq!(get_all_users_request(&JwtAuth), UserRequest::AllUsers);
    assert_eq!(
        get_all_users_service(&JwtAuth, UserReply::Listed(vec![stored(), stored()])),
        Ok(vec![stored(), stored()])
    );
    assert_eq!(
        get_all_users_service(&JwtAuth, failed("down")),
        Err(AppError::database("down".to_string()))
    );
}

#[test]
fn the_helpers_read_the_replies_of_the_store() {
    assert!(check_user(&UserReply::Done));
    assert!(check_user(&value("x")));
    assert!(!check_user(&failed("no row")));
    assert_eq!(
        check_user_insert_availability(UserReply::Availability {
            username_exists: true,
            email_exists: false,
            phone_number_exists: true
        }),
        Ok((true, false, true))
    );
    assert_eq!(
        check_user_insert_availability(failed("down")),
        Err(AppError::database("down".to_string()))
    );
    assert_eq!(check_user_insert_availability(UserReply::Done), Err(AppError::protocol()));
    assert_eq!(get_stored_user(value("x"), None, None), Ok(value("x")));
    assert_eq!(
        get_stored_user(failed("no row"), None, None),
        Err(not_found("Empty String", "no row"))
    );
    assert_eq!(
        get_stored_user(failed("no row"), Some("gone".to_string()), Some(500)),
        Err(AppError::InternalServerError(AppErrorMessage {
            code: 500,
            message: "gone".to_string(),
            details: Some(ErrorDetails::Text("no row".to_string()))
        }))
    );
    assert_eq!(
        get_stored_user(failed("no row"), None, Some(418)),
        Err(AppError::InternalServerError(AppErrorMessage {
            code: 418,
            message: "Empty String".to_string(),
            details: Some(ErrorDetails::Text("no row".to_string()))
        }))
    );
}
