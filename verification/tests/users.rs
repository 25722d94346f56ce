use thesis_backend::database::{DefenseBoard, Office, Student, SysAdmin, SysUser, Teacher};
use thesis_backend::error::ApiError;
use thesis_backend::model::{
    LoginRequest, UserPatchRequest, UserPostRequest, UserRole, UserSession,
};
use thesis_backend::password::{hash_password, verify_password};
use thesis_backend::session::Session;
use thesis_backend::users::{
    create_user, create_user_with, get_current_user, login, login_checked, logout, new_role_record,
    update_current_user, update_current_user_with, user_created, user_insert_failure,
    NameUpdate, NewRoleRecord, RoleRecords,
};

fn session_of(user_id: i32, role: UserRole) -> Session {
    Session::Authenticated(UserSession { user_id, role, username: format!("u{}", user_id) })
}

fn no_roles() -> RoleRecords {
    RoleRecords { sysadmin: None, student: None, teacher: None, defenseboard: None, office: None }
}

fn student_row(user_id: i32) -> Student {
    Student { user_id, topic_id: None, major_id: 1, student_name: "Stu Dent".to_string(), assn_time: None }
}

fn teacher_row(user_id: i32) -> Teacher {
    Teacher { user_id, teacher_name: "Tea Cher".to_string() }
}

fn account(user_id: i32, login: &str, hash: Vec<u8>, salt: Vec<u8>) -> SysUser {
    SysUser {
        user_id,
        user_login: login.to_string(),
        user_password_hash: hash,
        user_password_salt: salt,
        user_avatar: Some("avatar.png".to_string()),
    }
}

fn credentials(login: &str, password: &str) -> LoginRequest {
    LoginRequest { username: login.to_string(), password: password.to_string(), role: UserRole::Student }
}

fn post(role: UserRole, name: Option<&str>, major_id: Option<i32>) -> UserPostRequest {
    UserPostRequest {
        username: "newbie".to_string(),
        password: "s3cret".to_string(),
        role,
        name: name.map(|n| n.to_string()),
        avatar: Some("pic".to_string()),
        major_id,
    }
}

#[test]
fn role_is_the_first_with_a_row() {
    assert_eq!(no_roles().find_role(), None);
    let all = RoleRecords {
        sysadmin: Some(SysAdmin { user_id: 1 }),
        student: Some(student_row(1)),
        teacher: Some(teacher_row(1)),
        defenseboard: Some(DefenseBoard { user_id: 1 }),
        office: Some(Office { user_id: 1 }),
    };
    assert_eq!(all.find_role(), Some(UserRole::Admin));
    assert_eq!(RoleRecords { sysadmin: None, ..all.clone() }.find_role(), Some(UserRole::Student));
    assert_eq!(RoleRecords { sysadmin: None, student: None, ..all.clone() }.find_role(), Some(UserRole::Teacher));
    assert_eq!(
        RoleRecords { sysadmin: None, student: None, teacher: None, ..all.clone() }.find_role(),
        Some(UserRole::DefenseBoard)
    );
    assert_eq!(
        RoleRecords { office: Some(Office { user_id: 1 }), ..no_roles() }.find_role(),
        Some(UserRole::Office)
    );
}

#[test]
fn checked_login_gives_the_session_of_the_user() {
    let user = Some(account(12, "ann", vec![], vec![]));
    let roles = RoleRecords { teacher: Some(teacher_row(12)), ..no_roles() };
    let s = login_checked(&Session::Anonymous, &user, Some(true), &roles).unwrap();
    assert_eq!(s.user_id, 12);
    assert_eq!(s.role, UserRole::Teacher);
    assert_eq!(s.username, "ann");
}

#[test]
fn checked_login_errors_come_in_order() {
    let user = Some(account(12, "ann", vec![], vec![]));
    let roles = RoleRecords { office: Some(Office { user_id: 12 }), ..no_roles() };
    let e = login_checked(&session_of(1, UserRole::Student), &None, None, &no_roles()).unwrap_err();
    assert!(matches!(e, ApiError::BadRequest(m) if m == "Already logged in"));
    let e = login_checked(&Session::Unreadable, &user, Some(true), &roles).unwrap_err();
    assert!(matches!(e, ApiError::BadRequest(m) if m == "Already logged in"));
    assert!(matches!(
        login_checked(&Session::Anonymous, &None, Some(true), &roles),
        Err(ApiError::Unauthorized)
    ));
    assert!(matches!(
        login_checked(&Session::Anonymous, &user, None, &roles),
        Err(ApiError::InternalServerError)
    ));
    assert!(matches!(
        login_checked(&Session::Anonymous, &user, Some(false), &roles),
        Err(ApiError::Unauthorized)
    ));
    assert!(matches!(
        login_checked(&Session::Anonymous, &user, Some(true), &no_roles()),
        Err(ApiError::InternalServerError)
    ));
}

#[test]
fn login_accepts_the_password_that_was_hashed() {
    let (hash, salt) = hash_password("s3cret").expect("hashing works");
    let user = Some(account(5, "bob", hash, salt));
    let roles = RoleRecords { student: Some(student_row(5)), ..no_roles() };
    let s = login(&Session::Anonymous, &credentials("bob", "s3cret"), &user, &roles).unwrap();
    assert_eq!((s.user_id, s.role), (5, UserRole::Student));
    assert_eq!(s.username, "bob");
}

#[test]
fn login_refuses_a_wrong_password() {
    let (hash, salt) = hash_password("s3cret").expect("hashing works");
    let user = Some(account(5, "bob", hash, salt));
    let roles = RoleRecords { student: Some(student_row(5)), ..no_roles() };
    assert!(matches!(
        login(&Session::Anonymous, &credentials("bob", "S3cret"), &user, &roles),
        Err(ApiError::Unauthorized)
    ));
}

#[test]
fn login_refuses_an_unknown_user_and_a_second_login() {
    assert!(matches!(
        login(&Session::Anonymous, &credentials("bob", "x"), &None, &no_roles()),
        Err(ApiError::Unauthorized)
    ));
    let e = login(&session_of(5, UserRole::Student), &credentials("bob", "x"), &None, &no_roles()).unwrap_err();
    assert!(matches!(e, ApiError::BadRequest(m) if m == "Already logged in"));
}

#[test]
fn login_with_an_unusable_salt_is_an_internal_error() {
    let roles = RoleRecords { student: Some(student_row(5)), ..no_roles() };
    // Too short to encode.
    let user = Some(account(5, "bob", vec![0; 32], vec![1, 2]));
    assert!(matches!(
        login(&Session::Anonymous, &credentials("bob", "x"), &user, &roles),
        Err(ApiError::InternalServerError)
    ));
    // Long enough to encode, too short to hash under.
    let user = Some(account(5, "bob", vec![0; 32], vec![1, 2, 3, 4]));
    assert!(matches!(
        login(&Session::Anonymous, &credentials("bob", "x"), &user, &roles),
        Err(ApiError::InternalServerError)
    ));
}

#[test]
fn login_of_a_user_without_role_is_an_internal_error() {
    let (hash, salt) = hash_password("pw").expect("hashing works");
    let user = Some(account(5, "bob", hash, salt));
    assert!(matches!(
        login(&Session::Anonymous, &credentials("bob", "pw"), &user, &no_roles()),
        Err(ApiError::InternalServerError)
    ));
}

#[test]
fn logout_needs_a_session() {
    assert!(logout(&session_of(1, UserRole::Admin)).is_ok());
    assert!(logout(&Session::Unreadable).is_ok());
    assert!(matches!(logout(&Session::Anonymous), Err(ApiError::Unauthorized)));
}

#[test]
fn profile_shows_login_role_name_and_avatar() {
    let roles = RoleRecords { student: Some(student_row(5)), ..no_roles() };
    let me = get_current_user(&session_of(5, UserRole::Student), Some(account(5, "bob", vec![], vec![])), roles)
        .unwrap();
    assert_eq!(me.id, 5);
    assert_eq!(me.username, "bob");
    assert_eq!(me.role, UserRole::Student);
    assert_eq!(me.name.as_deref(), Some("Stu Dent"));
    assert_eq!(me.avatar.as_deref(), Some("avatar.png"));
}

#[test]
fn profile_name_depends_on_the_role() {
    let teacher = RoleRecords { teacher: Some(teacher_row(6)), ..no_roles() };
    let me = get_current_user(&session_of(6, UserRole::Teacher), Some(account(6, "t", vec![], vec![])), teacher)
        .unwrap();
    assert_eq!((me.role, me.name.as_deref()), (UserRole::Teacher, Some("Tea Cher")));
    let admin = RoleRecords { sysadmin: Some(SysAdmin { user_id: 1 }), student: Some(student_row(1)), ..no_roles() };
    let me = get_current_user(&session_of(1, UserRole::Admin), Some(account(1, "root", vec![], vec![])), admin)
        .unwrap();
    assert_eq!((me.role, me.name), (UserRole::Admin, None));
    let office = RoleRecords { office: Some(Office { user_id: 2 }), ..no_roles() };
    let me = get_current_user(&session_of(2, UserRole::Office), Some(account(2, "o", vec![], vec![])), office)
        .unwrap();
    assert_eq!((me.role, me.name), (UserRole::Office, None));
}

#[test]
fn profile_errors() {
    let roles = RoleRecords { student: Some(student_row(5)), ..no_roles() };
    assert!(matches!(
        get_current_user(&Session::Anonymous, Some(account(5, "bob", vec![], vec![])), roles.clone()),
        Err(ApiError::Unauthorized)
    ));
    assert!(matches!(
        get_current_user(&Session::Unreadable, Some(account(5, "bob", vec![], vec![])), roles.clone()),
        Err(ApiError::InternalServerError)
    ));
    assert!(matches!(
        get_current_user(&session_of(5, UserRole::Student), None, roles),
        Err(ApiError::InternalServerError)
    ));
    assert!(matches!(
        get_current_user(&session_of(5, UserRole::Student), Some(account(5, "bob", vec![], vec![])), no_roles()),
        Err(ApiError::InternalServerError)
    ));
}

#[test]
fn profile_update_writes_what_the_request_names() {
    let req = UserPatchRequest {
        name: Some("New Name".to_string()),
        password: None,
        avatar: Some("new.png".to_string()),
    };
    let u = update_current_user_with(&session_of(5, UserRole::Student), req, None, true, false).unwrap();
    assert_eq!(u.user_id, 5);
    assert_eq!(u.changeset.user_password_hash, None);
    assert_eq!(u.changeset.user_password_salt, None);
    assert_eq!(u.changeset.user_avatar, Some(Some("new.png".to_string())));
    assert!(matches!(u.name, Some(NameUpdate::Student(n)) if n == "New Name"));
}

#[test]
fn profile_update_takes_the_credentials_it_is_given() {
    let req = UserPatchRequest { name: None, password: Some("pw".to_string()), avatar: None };
    let u = update_current_user_with(
        &session_of(5, UserRole::Teacher),
        req,
        Some((vec![1, 2, 3], vec![4, 5])),
        false,
        true,
    )
    .unwrap();
    assert_eq!(u.changeset.user_password_hash, Some(vec![1, 2, 3]));
    assert_eq!(u.changeset.user_password_salt, Some(vec![4, 5]));
    assert_eq!(u.changeset.user_avatar, None);
    assert!(u.name.is_none());
}

#[test]
fn name_goes_to_the_student_first_then_the_teacher() {
    let req = |n: &str| UserPatchRequest { name: Some(n.to_string()), password: None, avatar: None };
    let me = session_of(5, UserRole::Office);
    let u = update_current_user_with(&me, req("a"), None, true, true).unwrap();
    assert!(matches!(u.name, Some(NameUpdate::Student(n)) if n == "a"));
    let u = update_current_user_with(&me, req("b"), None, false, true).unwrap();
    assert!(matches!(u.name, Some(NameUpdate::Teacher(n)) if n == "b"));
    let u = update_current_user_with(&me, req("c"), None, false, false).unwrap();
    assert!(u.name.is_none());
}

#[test]
fn profile_update_needs_a_readable_session() {
    let req = || UserPatchRequest { name: None, password: Some("pw".to_string()), avatar: None };
    assert!(matches!(
        update_current_user_with(&Session::Anonymous, req(), None, false, false),
        Err(ApiError::Unauthorized)
    ));
    assert!(matches!(
        update_current_user_with(&Session::Unreadable, req(), None, false, false),
        Err(ApiError::InternalServerError)
    ));
    assert!(matches!(update_current_user(&Session::Anonymous, req(), false, false), Err(ApiError::Unauthorized)));
    assert!(matches!(
        update_current_user(&Session::Unreadable, req(), false, false),
        Err(ApiError::InternalServerError)
    ));
    // An administrator has a profile too.
    assert!(update_current_user_with(&session_of(1, UserRole::Admin), req(), None, false, false).is_ok());
}

#[test]
fn new_password_is_stored_as_a_digest_that_verifies() {
    let req = UserPatchRequest { name: None, password: Some("n3w".to_string()), avatar: None };
    let u = update_current_user(&session_of(5, UserRole::Student), req, true, false).unwrap();
    let hash = u.changeset.user_password_hash.expect("a digest");
    let salt = u.changeset.user_password_salt.expect("a salt");
    assert_eq!(salt.len(), 16);
    assert_ne!(hash, b"n3w".to_vec());
    assert_eq!(verify_password("n3w", &hash, &salt).ok(), Some(true));
    assert_eq!(verify_password("old", &hash, &salt).ok(), Some(false));
}

#[test]
fn update_without_password_leaves_the_credentials() {
    let req = UserPatchRequest { name: None, password: None, avatar: None };
    let u = update_current_user(&session_of(5, UserRole::Student), req, true, false).unwrap();
    assert_eq!(u.changeset.user_password_hash, None);
    assert_eq!(u.changeset.user_password_salt, None);
    assert_eq!(u.changeset.user_avatar, None);
    assert!(u.name.is_none());
}

#[test]
fn only_the_administrator_creates_users() {
    let req = post(UserRole::Office, None, None);
    assert!(matches!(create_user(&Session::Anonymous, &req), Err(ApiError::Unauthorized)));
    assert!(matches!(create_user(&Session::Unreadable, &req), Err(ApiError::InternalServerError)));
    assert!(matches!(create_user(&session_of(2, UserRole::Teacher), &req), Err(ApiError::Forbidden)));
    assert!(matches!(create_user(&session_of(2, UserRole::Office), &req), Err(ApiError::Forbidden)));
    assert!(create_user(&session_of(1, UserRole::Admin), &req).is_ok());
}

#[test]
fn created_login_holds_a_digest_that_verifies() {
    let req = post(UserRole::Student, Some("Ann"), Some(3));
    let new = create_user(&session_of(1, UserRole::Admin), &req).unwrap();
    assert_eq!(new.user_login, "newbie");
    assert_eq!(new.user_avatar.as_deref(), Some("pic"));
    assert_eq!(new.user_password_salt.len(), 16);
    assert_eq!(verify_password("s3cret", &new.user_password_hash, &new.user_password_salt).ok(), Some(true));
    assert_eq!(verify_password("secret", &new.user_password_hash, &new.user_password_salt).ok(), Some(false));
}

#[test]
fn failed_insertion_of_a_login_is_a_conflict() {
    assert!(matches!(user_insert_failure(), ApiError::Conflict(m) if m == "Failed to create new user"));
}

#[test]
fn student_row_needs_major_and_name() {
    let r = new_role_record(&post(UserRole::Student, Some("Ann"), Some(3)), 44).unwrap();
    match r {
        NewRoleRecord::Student(s) => {
            assert_eq!(s.user_id, 44);
            assert_eq!(s.topic_id, None);
            assert_eq!(s.major_id, 3);
            assert_eq!(s.student_name, "Ann");
            assert_eq!(s.assn_time, None);
        }
        other => panic!("unexpected row {:?}", other),
    }
    let e = new_role_record(&post(UserRole::Student, Some("Ann"), None), 44).unwrap_err();
    assert!(matches!(e, ApiError::BadRequest(m) if m == "Major ID is required for student role"));
    let e = new_role_record(&post(UserRole::Student, None, Some(3)), 44).unwrap_err();
    assert!(matches!(e, ApiError::BadRequest(m) if m == "Name is required for student role"));
    // The major is asked for first.
    let e = new_role_record(&post(UserRole::Student, None, None), 44).unwrap_err();
    assert!(matches!(e, ApiError::BadRequest(m) if m == "Major ID is required for student role"));
}

#[test]
fn teacher_row_needs_a_name() {
    let r = new_role_record(&post(UserRole::Teacher, Some("Prof"), None), 45).unwrap();
    assert!(matches!(r, NewRoleRecord::Teacher(t) if t.user_id == 45 && t.teacher_name == "Prof"));
    let e = new_role_record(&post(UserRole::Teacher, None, Some(3)), 45).unwrap_err();
    assert!(matches!(e, ApiError::BadRequest(m) if m == "Name is required for teacher role"));
}

#[test]
fn other_role_rows_need_nothing() {
    assert!(matches!(
        new_role_record(&post(UserRole::Admin, None, None), 46),
        Ok(NewRoleRecord::Admin(a)) if a.user_id == 46
    ));
    assert!(matches!(
        new_role_record(&post(UserRole::DefenseBoard, None, None), 47),
        Ok(NewRoleRecord::DefenseBoard(b)) if b.user_id == 47
    ));
    assert!(matches!(
        new_role_record(&post(UserRole::Office, Some("ignored"), None), 48),
        Ok(NewRoleRecord::Office(o)) if o.user_id == 48
    ));
}

#[test]
fn creation_answer_echoes_role_and_avatar() {
    let resp = user_created(post(UserRole::Teacher, Some("Prof"), None), account(45, "newbie", vec![], vec![]));
    assert_eq!(resp.id, 45);
    assert_eq!(resp.username, "newbie");
    assert_eq!(resp.role, UserRole::Teacher);
    assert_eq!(resp.name.as_deref(), Some("Prof"));
    assert_eq!(resp.avatar.as_deref(), Some("pic"));
    let resp = user_created(post(UserRole::Office, Some("ignored"), None), account(48, "newbie", vec![], vec![]));
    assert_eq!(resp.role, UserRole::Office);
    assert_eq!(resp.name, None);
}

#[test]
fn login_to_store_takes_the_credentials_it_is_given() {
    let req = post(UserRole::Teacher, Some("Prof"), None);
    let new = create_user_with(&session_of(1, UserRole::Admin), &req, Some((vec![9, 8, 7], vec![1, 2, 3, 4]))).unwrap();
    assert_eq!(new.user_login, "newbie");
    assert_eq!(new.user_password_hash, vec![9, 8, 7]);
    assert_eq!(new.user_password_salt, vec![1, 2, 3, 4]);
    assert_eq!(new.user_avatar.as_deref(), Some("pic"));
}

#[test]
fn creation_without_credentials_is_an_internal_error() {
    let req = post(UserRole::Teacher, Some("Prof"), None);
    assert!(matches!(
        create_user_with(&session_of(1, UserRole::Admin), &req, None),
        Err(ApiError::InternalServerError)
    ));
}

#[test]
fn creation_with_credentials_is_still_the_administrators() {
    let req = post(UserRole::Office, None, None);
    let creds = || Some((vec![1u8], vec![2u8]));
    assert!(matches!(create_user_with(&Session::Anonymous, &req, creds()), Err(ApiError::Unauthorized)));
    assert!(matches!(create_user_with(&Session::Unreadable, &req, creds()), Err(ApiError::InternalServerError)));
    assert!(matches!(create_user_with(&session_of(2, UserRole::Student), &req, creds()), Err(ApiError::Forbidden)));
    // The caller is looked at before the credentials.
    assert!(matches!(create_user_with(&session_of(2, UserRole::Student), &req, None), Err(ApiError::Forbidden)));
}
