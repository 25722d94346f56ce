use thesis_backend::error::ApiError;
use thesis_backend::model::{UserRole, UserSession};
use thesis_backend::session::{
    get_session_user_id, get_session_user_role, identify, is_session_admin, is_session_authed,
    Session, SessionError,
};

fn logged_in(user_id: i32, role: UserRole) -> Session {
    Session::Authenticated(UserSession { user_id, role, username: format!("user{}", user_id) })
}

#[test]
fn only_an_empty_session_is_not_authed() {
    assert!(!is_session_authed(&Session::Anonymous));
    assert!(is_session_authed(&Session::Unreadable));
    assert!(is_session_authed(&logged_in(1, UserRole::Student)));
}

#[test]
fn admin_question_needs_a_readable_session() {
    assert_eq!(is_session_admin(&Session::Anonymous), Err(SessionError::NotLoggedIn));
    assert_eq!(is_session_admin(&Session::Unreadable), Err(SessionError::Unreadable));
    assert_eq!(is_session_admin(&logged_in(1, UserRole::Admin)), Ok(true));
    assert_eq!(is_session_admin(&logged_in(1, UserRole::Office)), Ok(false));
}

#[test]
fn an_administrator_has_no_user_role() {
    assert_eq!(get_session_user_role(&logged_in(1, UserRole::Admin)), Err(SessionError::NoUserRole));
    assert_eq!(get_session_user_role(&logged_in(1, UserRole::Teacher)), Ok(UserRole::Teacher));
    assert_eq!(get_session_user_role(&logged_in(1, UserRole::DefenseBoard)), Ok(UserRole::DefenseBoard));
    assert_eq!(get_session_user_role(&Session::Anonymous), Err(SessionError::NotLoggedIn));
    assert_eq!(get_session_user_role(&Session::Unreadable), Err(SessionError::Unreadable));
}

#[test]
fn user_id_is_read_for_every_role() {
    assert_eq!(get_session_user_id(&logged_in(42, UserRole::Admin)), Ok(42));
    assert_eq!(get_session_user_id(&logged_in(-7, UserRole::Student)), Ok(-7));
    assert_eq!(get_session_user_id(&Session::Anonymous), Err(SessionError::NotLoggedIn));
    assert_eq!(get_session_user_id(&Session::Unreadable), Err(SessionError::Unreadable));
}

#[test]
fn identify_gives_id_and_role_or_the_answer() {
    assert!(matches!(identify(&Session::Anonymous), Err(ApiError::Unauthorized)));
    assert!(matches!(identify(&Session::Unreadable), Err(ApiError::InternalServerError)));
    assert!(matches!(identify(&logged_in(3, UserRole::Admin)), Err(ApiError::Forbidden)));
    assert!(matches!(identify(&logged_in(3, UserRole::Student)), Ok((3, UserRole::Student))));
    assert!(matches!(identify(&logged_in(9, UserRole::Office)), Ok((9, UserRole::Office))));
}
