//! Accounts: logging in and out, showing and changing one's own profile, and
//! the administrator's creation of users.

use crate::assignments::bound_count;
use crate::assignments::lemma_bound_count_update;
use crate::assignments::capacity_respected;
use crate::database::DefenseBoard;
use crate::database::NewDefenseBoard;
use crate::database::NewOffice;
use crate::database::NewStudent;
use crate::database::NewSysAdmin;
use crate::database::NewSysUser;
use crate::database::NewTeacher;
use crate::database::Office;
use crate::database::Student;
use crate::database::SysAdmin;
use crate::database::SysUser;
use crate::database::SysUserChangeset;
use crate::database::Teacher;
use crate::database::Topic;
use crate::error::answers;
use crate::error::ApiError;
use crate::error::ApiErrorView;
use crate::model::LoginRequest;
use crate::model::UserGetResponse;
use crate::model::UserPatchRequest;
use crate::model::UserPostRequest;
use crate::model::UserRole;
use crate::model::UserSession;
use crate::password::argon2id_digest;
use crate::password::hash_password;
use crate::password::hashing_fails;
use crate::password::is_hash_outcome;
use crate::password::verify_password;
use crate::session::get_session_user_id;
use crate::session::is_session_admin;
use crate::session::is_session_authed;
use crate::session::Session;
use vstd::prelude::*;

verus! {

/// The role rows found for one user, one per role table.
#[derive(Debug, Clone)]
pub struct RoleRecords {
    pub sysadmin: Option<SysAdmin>,
    pub student: Option<Student>,
    pub teacher: Option<Teacher>,
    pub defenseboard: Option<DefenseBoard>,
    pub office: Option<Office>,
}

impl RoleRecords {
    /// The role the rows give the user: the first that has a row among
    /// administrator, student, teacher, defense board and office.
    pub open spec fn role(self) -> Option<UserRole> {
        if self.sysadmin is Some {
            Some(UserRole::Admin)
        } else if self.student is Some {
            Some(UserRole::Student)
        } else if self.teacher is Some {
            Some(UserRole::Teacher)
        } else if self.defenseboard is Some {
            Some(UserRole::DefenseBoard)
        } else if self.office is Some {
            Some(UserRole::Office)
        } else {
            None
        }
    }

    /// The display name the rows give the user: a student's or a teacher's
    /// name, none for the other roles.
    pub open spec fn name(self) -> Option<String> {
        match self.role() {
            Some(UserRole::Student) => Some(self.student->0.student_name),
            Some(UserRole::Teacher) => Some(self.teacher->0.teacher_name),
            _ => None,
        }
    }

    /// Finds the role the rows give the user.
    pub fn find_role(&self) -> (role: Option<UserRole>)
        ensures
            role == self.role(),
    {
        if self.sysadmin.is_some() {
            Some(UserRole::Admin)
        } else if self.student.is_some() {
            Some(UserRole::Student)
        } else if self.teacher.is_some() {
            Some(UserRole::Teacher)
        } else if self.defenseboard.is_some() {
            Some(UserRole::DefenseBoard)
        } else if self.office.is_some() {
            Some(UserRole::Office)
        } else {
            None
        }
    }
}

/// What a login attempt leads to.  `user` is the login named by the request,
/// as stored, and `roles` the role rows of that user; `password_good` tells
/// whether the password matched, and is `None` where it could not be checked.
pub open spec fn login_outcome(
    session: Session,
    user: Option<SysUser>,
    password_good: Option<bool>,
    roles: RoleRecords,
) -> Result<UserSession, ApiErrorView> {
    if !(session is Anonymous) {
        Err(ApiErrorView::BadRequest("Already logged in"@))
    } else if user is None {
        Err(ApiErrorView::Unauthorized)
    } else if password_good is None {
        Err(ApiErrorView::InternalServerError)
    } else if !password_good->0 {
        Err(ApiErrorView::Unauthorized)
    } else if roles.role() is None {
        Err(ApiErrorView::InternalServerError)
    } else {
        Ok(
            UserSession {
                user_id: user->0.user_id,
                role: roles.role()->0,
                username: user->0.user_login,
            },
        )
    }
}

/// Decides on a login attempt whose password check has been made.
pub fn login_checked(
    session: &Session,
    user: &Option<SysUser>,
    password_good: Option<bool>,
    roles: &RoleRecords,
) -> (res: Result<UserSession, ApiError>)
    ensures
        answers(res, login_outcome(*session, *user, password_good, *roles)),
{
    if is_session_authed(session) {
        return Err(ApiError::bad_request("Already logged in"));
    }
    let user = match user {
        Some(u) => u,
        None => {
            return Err(ApiError::Unauthorized);
        },
    };
    let good = match password_good {
        Some(g) => g,
        None => {
            return Err(ApiError::InternalServerError);
        },
    };
    if !good {
        return Err(ApiError::Unauthorized);
    }
    match roles.find_role() {
        Some(role) => Ok(
            UserSession { user_id: user.user_id, role, username: user.user_login.clone() },
        ),
        None => Err(ApiError::InternalServerError),
    }
}

/// Whether a password matches a stored login: the comparison of its Argon2id
/// digest under the stored salt with the stored digest.  `None` where the
/// salt is too short to hash under, or hashing fails.
pub open spec fn password_check(password: Seq<char>, user: SysUser) -> Option<bool> {
    if user.user_password_salt@.len() < 3 {
        None
    } else {
        match argon2id_digest(password, user.user_password_salt@) {
            Some(digest) => Some(digest == user.user_password_hash@),
            None => None,
        }
    }
}

/// Decides on a login attempt.  A caller who is already logged in is refused;
/// an unknown login or a wrong password is unauthorized; the session gets the
/// role found for the user.
pub fn login(
    session: &Session,
    req: &LoginRequest,
    user: &Option<SysUser>,
    roles: &RoleRecords,
) -> (res: Result<UserSession, ApiError>)
    ensures
        answers(
            res,
            login_outcome(
                *session,
                *user,
                match *user {
                    Some(u) => password_check(req.password@, u),
                    None => None,
                },
                *roles,
            ),
        ),
{
    if is_session_authed(session) {
        return Err(ApiError::bad_request("Already logged in"));
    }
    let password_good = match user {
        None => None,
        Some(u) => if u.user_password_salt.len() < 3 {
            None
        } else {
            match verify_password(
                req.password.as_str(),
                u.user_password_hash.as_slice(),
                u.user_password_salt.as_slice(),
            ) {
                Ok(good) => Some(good),
                Err(_) => None,
            }
        },
    };
    login_checked(session, user, password_good, roles)
}

/// Decides on a logout: only a caller with a session has one to end.
pub fn logout(session: &Session) -> (res: Result<(), ApiError>)
    ensures
        match res {
            Ok(_) => !(session is Anonymous),
            Err(e) => session is Anonymous && e@ == ApiErrorView::Unauthorized,
        },
{
    if is_session_authed(session) {
        Ok(())
    } else {
        Err(ApiError::Unauthorized)
    }
}

/// What a request for one's own profile leads to.  `user` is the caller's
/// login as stored and `roles` the caller's role rows.
pub open spec fn current_user(
    session: Session,
    user: Option<SysUser>,
    roles: RoleRecords,
) -> Result<UserGetResponse, ApiErrorView> {
    match session.user_id() {
        Err(e) => Err(e),
        Ok(_) => if user is None || roles.role() is None {
            Err(ApiErrorView::InternalServerError)
        } else {
            Ok(
                UserGetResponse {
                    id: user->0.user_id,
                    username: user->0.user_login,
                    role: roles.role()->0,
                    name: roles.name(),
                    avatar: user->0.user_avatar,
                },
            )
        },
    }
}

/// Decides on a request for one's own profile.
pub fn get_current_user(
    session: &Session,
    user: Option<SysUser>,
    roles: RoleRecords,
) -> (res: Result<UserGetResponse, ApiError>)
    ensures
        answers(res, current_user(*session, user, roles)),
{
    if !is_session_authed(session) {
        return Err(ApiError::Unauthorized);
    }
    if get_session_user_id(session).is_err() {
        return Err(ApiError::InternalServerError);
    }
    let user = match user {
        Some(u) => u,
        None => {
            return Err(ApiError::InternalServerError);
        },
    };
    let role = match roles.find_role() {
        Some(r) => r,
        None => {
            return Err(ApiError::InternalServerError);
        },
    };
    let name = match role {
        UserRole::Student => match roles.student {
            Some(s) => Some(s.student_name),
            None => None,
        },
        UserRole::Teacher => match roles.teacher {
            Some(t) => Some(t.teacher_name),
            None => None,
        },
        _ => None,
    };
    Ok(
        UserGetResponse {
            id: user.user_id,
            username: user.user_login,
            role,
            name,
            avatar: user.user_avatar,
        },
    )
}

/// Whose display name a profile update rewrites.
#[derive(Debug, Clone)]
pub enum NameUpdate {
    Student(String),
    Teacher(String),
}

/// What an accepted profile update writes.
#[derive(Debug, Clone)]
pub struct UserUpdate {
    pub user_id: i32,
    pub changeset: SysUserChangeset,
    pub name: Option<NameUpdate>,
}

/// The name a profile update rewrites: a student's where the caller is one,
/// else a teacher's where the caller is one; other callers have none.
pub open spec fn name_update(
    name: Option<String>,
    is_student: bool,
    is_teacher: bool,
) -> Option<NameUpdate> {
    match name {
        None => None,
        Some(n) => if is_student {
            Some(NameUpdate::Student(n))
        } else if is_teacher {
            Some(NameUpdate::Teacher(n))
        } else {
            None
        },
    }
}

/// What a profile update leads to once the new password, if any, is hashed.
pub open spec fn profile_update(
    session: Session,
    req: UserPatchRequest,
    credentials: Option<(Vec<u8>, Vec<u8>)>,
    is_student: bool,
    is_teacher: bool,
) -> Result<UserUpdate, ApiErrorView> {
    match session.user_id() {
        Err(e) => Err(e),
        Ok(user_id) => Ok(
            UserUpdate {
                user_id,
                changeset: SysUserChangeset {
                    user_password_hash: match credentials {
                        Some((hash, _)) => Some(hash),
                        None => None,
                    },
                    user_password_salt: match credentials {
                        Some((_, salt)) => Some(salt),
                        None => None,
                    },
                    user_avatar: match req.avatar {
                        Some(a) => Some(Some(a)),
                        None => None,
                    },
                },
                name: name_update(req.name, is_student, is_teacher),
            },
        ),
    }
}

/// Decides on a profile update whose new password, if any, has been hashed
/// to `credentials`, digest first and salt second.
pub fn update_current_user_with(
    session: &Session,
    req: UserPatchRequest,
    credentials: Option<(Vec<u8>, Vec<u8>)>,
    is_student: bool,
    is_teacher: bool,
) -> (res: Result<UserUpdate, ApiError>)
    ensures
        answers(res, profile_update(*session, req, credentials, is_student, is_teacher)),
{
    if !is_session_authed(session) {
        return Err(ApiError::Unauthorized);
    }
    let user_id = match get_session_user_id(session) {
        Ok(id) => id,
        Err(_) => {
            return Err(ApiError::InternalServerError);
        },
    };
    let (user_password_hash, user_password_salt) = match credentials {
        Some((hash, salt)) => (Some(hash), Some(salt)),
        None => (None, None),
    };
    let user_avatar = match req.avatar {
        Some(a) => Some(Some(a)),
        None => None,
    };
    let name = match req.name {
        None => None,
        Some(n) => if is_student {
            Some(NameUpdate::Student(n))
        } else if is_teacher {
            Some(NameUpdate::Teacher(n))
        } else {
            None
        },
    };
    Ok(
        UserUpdate {
            user_id,
            changeset: SysUserChangeset { user_password_hash, user_password_salt, user_avatar },
            name,
        },
    )
}

/// True when the credentials are what hashing the password, if any, under
/// some salt of sixteen bytes gives.
pub open spec fn credentials_match(
    password: Option<String>,
    credentials: Option<(Vec<u8>, Vec<u8>)>,
) -> bool {
    match password {
        None => credentials is None,
        Some(p) => credentials matches Some((hash, salt)) && salt@.len() == 16 && argon2id_digest(
            p@,
            salt@,
        ) == Some(hash@),
    }
}

/// Decides on a profile update.  `is_student` and `is_teacher` tell whether
/// the caller has a student or a teacher record.  A new password is hashed
/// under a fresh salt; whatever salt was drawn, the update is the one that
/// [`update_current_user_with`] gives for the credentials that came out.
pub fn update_current_user(
    session: &Session,
    req: UserPatchRequest,
    is_student: bool,
    is_teacher: bool,
) -> (res: Result<UserUpdate, ApiError>)
    ensures
        match session.user_id() {
            Err(e) => res matches Err(got) && got@ == e,
            Ok(_) => match res {
                Ok(update) => exists|credentials: Option<(Vec<u8>, Vec<u8>)>|
                    credentials_match(req.password, credentials) && #[trigger] profile_update(
                        *session,
                        req,
                        credentials,
                        is_student,
                        is_teacher,
                    ) == Ok::<UserUpdate, ApiErrorView>(update),
                Err(e) => {
                    &&& e@ == ApiErrorView::InternalServerError
                    &&& req.password matches Some(password)
                    &&& exists|salt: Seq<u8>| #[trigger] hashing_fails(password@, salt)
                },
            },
        },
{
    if !is_session_authed(session) {
        return Err(ApiError::Unauthorized);
    }
    if get_session_user_id(session).is_err() {
        return Err(ApiError::InternalServerError);
    }
    let credentials = match &req.password {
        None => None,
        Some(password) => {
            let hashed = hash_password(password.as_str());
            let ghost drawn = choose|salt: Seq<u8>| is_hash_outcome(password@, salt, hashed);
            match hashed {
                Ok(c) => Some(c),
                Err(_) => {
                    assert(hashing_fails(password@, drawn));
                    return Err(ApiError::InternalServerError);
                },
            }
        },
    };
    assert(credentials_match(req.password, credentials));
    update_current_user_with(session, req, credentials, is_student, is_teacher)
}

/// Who may create users: the administrator alone.
pub open spec fn may_create_users(session: Session) -> Result<(), ApiErrorView> {
    match session {
        Session::Anonymous => Err(ApiErrorView::Unauthorized),
        Session::Unreadable => Err(ApiErrorView::InternalServerError),
        Session::Authenticated(user) => if user.role == UserRole::Admin {
            Ok(())
        } else {
            Err(ApiErrorView::Forbidden)
        },
    }
}

/// What the creation of a user leads to once the password is hashed to
/// `credentials`, digest first and salt second; `None` stands for a password
/// that could not be hashed.
pub open spec fn new_login(
    session: Session,
    req: UserPostRequest,
    credentials: Option<(Vec<u8>, Vec<u8>)>,
) -> Result<NewSysUser, ApiErrorView> {
    match may_create_users(session) {
        Err(e) => Err(e),
        Ok(_) => match credentials {
            None => Err(ApiErrorView::InternalServerError),
            Some((hash, salt)) => Ok(
                NewSysUser {
                    user_login: req.username,
                    user_password_hash: hash,
                    user_password_salt: salt,
                    user_avatar: req.avatar,
                },
            ),
        },
    }
}

/// Decides on the creation of a user whose password has been hashed to
/// `credentials`, and gives the login to store.
pub fn create_user_with(
    session: &Session,
    req: &UserPostRequest,
    credentials: Option<(Vec<u8>, Vec<u8>)>,
) -> (res: Result<NewSysUser, ApiError>)
    ensures
        answers(res, new_login(*session, *req, credentials)),
{
    if !is_session_authed(session) {
        return Err(ApiError::Unauthorized);
    }
    match is_session_admin(session) {
        Ok(true) => {},
        Ok(false) => {
            return Err(ApiError::Forbidden);
        },
        Err(_) => {
            return Err(ApiError::InternalServerError);
        },
    }
    match credentials {
        None => Err(ApiError::InternalServerError),
        Some((hash, salt)) => Ok(
            NewSysUser {
                user_login: req.username.clone(),
                user_password_hash: hash,
                user_password_salt: salt,
                user_avatar: clone_text(&req.avatar),
            },
        ),
    }
}

/// True when `res` is what an administrator's creation of a user comes to for
/// the salt that was drawn.  Sixteen bytes were drawn: where the password has
/// a digest under them, `res` is the login with that digest, that salt, and
/// the name and avatar asked for; where it has none, an internal error.
pub open spec fn is_creation_outcome(
    req: UserPostRequest,
    salt: Seq<u8>,
    res: Result<NewSysUser, ApiError>,
) -> bool {
    salt.len() == 16 && match argon2id_digest(req.password@, salt) {
        Some(digest) => {
            &&& res matches Ok(login)
            &&& login.user_login == req.username
            &&& login.user_avatar == req.avatar
            &&& login.user_password_hash@ == digest
            &&& login.user_password_salt@ == salt
        },
        None => res matches Err(e) && e@ == ApiErrorView::InternalServerError,
    }
}

/// Decides on the creation of a user and gives the login to store.  The
/// password is hashed under a fresh salt: the outcome is what
/// [`create_user_with`] gives for the credentials that came out, so that the
/// stored digest is the one a later login recomputes from the same password.
pub fn create_user(session: &Session, req: &UserPostRequest) -> (res: Result<NewSysUser, ApiError>)
    ensures
        match may_create_users(*session) {
            Err(e) => res matches Err(got) && got@ == e,
            Ok(_) => match res {
                Ok(login) => {
                    &&& login.user_login == req.username
                    &&& login.user_avatar == req.avatar
                    &&& login.user_password_salt@.len() == 16
                    &&& argon2id_digest(req.password@, login.user_password_salt@) == Some(
                        login.user_password_hash@,
                    )
                },
                Err(e) => e@ == ApiErrorView::InternalServerError,
            },
        },
        may_create_users(*session) is Ok ==> exists|salt: Seq<u8>| #[trigger]
            is_creation_outcome(*req, salt, res),
{
    if !is_session_authed(session) {
        return Err(ApiError::Unauthorized);
    }
    match is_session_admin(session) {
        Ok(true) => {},
        Ok(false) => {
            return Err(ApiError::Forbidden);
        },
        Err(_) => {
            return Err(ApiError::InternalServerError);
        },
    }
    let hashed = hash_password(req.password.as_str());
    let ghost drawn = choose|salt: Seq<u8>| is_hash_outcome(req.password@, salt, hashed);
    let credentials = match hashed {
        Ok(c) => Some(c),
        Err(_) => None,
    };
    let res = create_user_with(session, req, credentials);
    assert(is_creation_outcome(*req, drawn, res));
    res
}

/// The error a failed insertion of a login is answered with: the login is
/// taken.
pub fn user_insert_failure() -> (e: ApiError)
    ensures
        e@ == ApiErrorView::Conflict("Failed to create new user"@),
{
    ApiError::conflict("Failed to create new user")
}

fn clone_text(text: &Option<String>) -> (copy: Option<String>)
    ensures
        copy == *text,
{
    match text {
        Some(t) => Some(t.clone()),
        None => None,
    }
}

/// The role row that goes with a new login.
#[derive(Debug, Clone)]
pub enum NewRoleRecord {
    Admin(NewSysAdmin),
    Student(NewStudent),
    Teacher(NewTeacher),
    DefenseBoard(NewDefenseBoard),
    Office(NewOffice),
}

/// The role row of a new user with the given id.  A student needs a major
/// and a name, a teacher a name, the other roles nothing.
pub open spec fn role_record(
    req: UserPostRequest,
    user_id: i32,
) -> Result<NewRoleRecord, ApiErrorView> {
    match req.role {
        UserRole::Admin => Ok(NewRoleRecord::Admin(NewSysAdmin { user_id })),
        UserRole::Student => if req.major_id is None {
            Err(ApiErrorView::BadRequest("Major ID is required for student role"@))
        } else if req.name is None {
            Err(ApiErrorView::BadRequest("Name is required for student role"@))
        } else {
            Ok(
                NewRoleRecord::Student(
                    NewStudent {
                        user_id,
                        topic_id: None,
                        major_id: req.major_id->0,
                        student_name: req.name->0,
                        assn_time: None,
                    },
                ),
            )
        },
        UserRole::Teacher => if req.name is None {
            Err(ApiErrorView::BadRequest("Name is required for teacher role"@))
        } else {
            Ok(NewRoleRecord::Teacher(NewTeacher { user_id, teacher_name: req.name->0 }))
        },
        UserRole::DefenseBoard => Ok(NewRoleRecord::DefenseBoard(NewDefenseBoard { user_id })),
        UserRole::Office => Ok(NewRoleRecord::Office(NewOffice { user_id })),
    }
}

/// Decides which role row goes with the login that was stored under
/// `user_id`.  A new student is bound to no topic.
pub fn new_role_record(
    req: &UserPostRequest,
    user_id: i32,
) -> (res: Result<NewRoleRecord, ApiError>)
    ensures
        answers(res, role_record(*req, user_id)),
{
    match req.role {
        UserRole::Admin => Ok(NewRoleRecord::Admin(NewSysAdmin { user_id })),
        UserRole::Student => {
            let major_id = match req.major_id {
                Some(id) => id,
                None => {
                    return Err(ApiError::bad_request("Major ID is required for student role"));
                },
            };
            match &req.name {
                Some(name) => Ok(
                    NewRoleRecord::Student(
                        NewStudent {
                            user_id,
                            topic_id: None,
                            major_id,
                            student_name: name.clone(),
                            assn_time: None,
                        },
                    ),
                ),
                None => Err(ApiError::bad_request("Name is required for student role")),
            }
        },
        UserRole::Teacher => match &req.name {
            Some(name) => Ok(
                NewRoleRecord::Teacher(NewTeacher { user_id, teacher_name: name.clone() }),
            ),
            None => Err(ApiError::bad_request("Name is required for teacher role")),
        },
        UserRole::DefenseBoard => Ok(NewRoleRecord::DefenseBoard(NewDefenseBoard { user_id })),
        UserRole::Office => Ok(NewRoleRecord::Office(NewOffice { user_id })),
    }
}

/// The answer to a successful creation: the stored login with the role asked
/// for, the name where the role carries one, and the avatar asked for.
pub open spec fn created_user(req: UserPostRequest, user: SysUser) -> UserGetResponse {
    UserGetResponse {
        id: user.user_id,
        username: user.user_login,
        role: req.role,
        name: if req.role == UserRole::Student || req.role == UserRole::Teacher {
            req.name
        } else {
            None
        },
        avatar: req.avatar,
    }
}

/// Builds the answer to a successful creation.
pub fn user_created(req: UserPostRequest, user: SysUser) -> (resp: UserGetResponse)
    ensures
        resp == created_user(req, user),
{
    let name = match req.role {
        UserRole::Student | UserRole::Teacher => req.name,
        _ => None,
    };
    UserGetResponse {
        id: user.user_id,
        username: user.user_login,
        role: req.role,
        name,
        avatar: req.avatar,
    }
}

/// A new student as it is stored.
pub open spec fn stored_student(new: NewStudent) -> Student {
    Student {
        user_id: new.user_id,
        topic_id: new.topic_id,
        major_id: new.major_id,
        student_name: new.student_name,
        assn_time: new.assn_time,
    }
}

/// A new student keeps every topic within capacity: the student is bound to
/// no topic, so no topic is over capacity once the student is stored if none
/// was before.
pub proof fn lemma_new_student_keeps_capacity(
    req: UserPostRequest,
    user_id: i32,
    students: Seq<Student>,
    topics: Seq<Topic>,
)
    requires
        capacity_respected(students, topics),
        role_record(req, user_id) matches Ok(NewRoleRecord::Student(_)),
    ensures
        capacity_respected(
            students.push(stored_student(role_record(req, user_id)->Ok_0->Student_0)),
            topics,
        ),
{
    let added = stored_student(role_record(req, user_id)->Ok_0->Student_0);
    let after = students.push(added);
    assert(after.drop_last() =~= students);
    assert(after.last() == added);
    assert(added.topic_id is None);
    assert forall|j: int| 0 <= j < topics.len() implies bound_count(
        after,
        (#[trigger] topics[j]).topic_id,
    ) <= topics[j].topic_max_students by {
        assert(bound_count(after, topics[j].topic_id) == bound_count(students, topics[j].topic_id));
    }
}

/// A student after a profile update has rewritten the display name.
pub open spec fn renamed_student(student: Student, name: String) -> Student {
    Student { student_name: name, ..student }
}

/// A profile update keeps every topic within capacity, and every student
/// bound as before: it rewrites the name of the student at index `k` and
/// nothing else.
pub proof fn lemma_rename_keeps_capacity(
    students: Seq<Student>,
    topics: Seq<Topic>,
    k: int,
    name: String,
)
    requires
        capacity_respected(students, topics),
        0 <= k < students.len(),
    ensures
        capacity_respected(students.update(k, renamed_student(students[k], name)), topics),
        forall|i: int|
            0 <= i < students.len() ==> (#[trigger] students.update(
                k,
                renamed_student(students[k], name),
            )[i]).topic_id == students[i].topic_id,
{
    let after = students.update(k, renamed_student(students[k], name));
    assert forall|j: int| 0 <= j < topics.len() implies bound_count(
        after,
        (#[trigger] topics[j]).topic_id,
    ) <= topics[j].topic_max_students by {
        lemma_bound_count_update(
            students,
            k,
            renamed_student(students[k], name),
            topics[j].topic_id,
        );
    }
}

} // verus!
