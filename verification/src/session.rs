//! The session as the rules see it, and the questions every endpoint asks of it.

use crate::error::ApiError;
use crate::error::ApiErrorView;
use crate::model::UserRole;
use crate::model::UserSession;
use vstd::prelude::*;

verus! {

/// What the session store holds for a request.
#[derive(Debug, Clone)]
pub enum Session {
    /// Nothing: nobody is logged in.
    Anonymous,
    /// An entry that cannot be read back as a [`UserSession`].
    Unreadable,
    /// A logged-in user.
    Authenticated(UserSession),
}

/// Why a question to the session has no answer.
#[derive(Debug, Clone, Copy, PartialEq, Eq, Structural)]
pub enum SessionError {
    NotLoggedIn,
    Unreadable,
    /// The user is an administrator, who acts under no user role.
    NoUserRole,
}

impl Session {
    /// The caller's id and role as the role-gated endpoints establish them:
    /// nobody logged in is unauthorized; an unreadable entry is an internal
    /// error; an administrator, who acts under no user role, is forbidden.
    pub open spec fn identity(self) -> Result<(i32, UserRole), ApiErrorView> {
        match self {
            Session::Anonymous => Err(ApiErrorView::Unauthorized),
            Session::Unreadable => Err(ApiErrorView::InternalServerError),
            Session::Authenticated(user) => if user.role == UserRole::Admin {
                Err(ApiErrorView::Forbidden)
            } else {
                Ok((user.user_id, user.role))
            },
        }
    }

    /// The id of the logged-in user, whatever the role.
    pub open spec fn user_id(self) -> Result<i32, ApiErrorView> {
        match self {
            Session::Anonymous => Err(ApiErrorView::Unauthorized),
            Session::Unreadable => Err(ApiErrorView::InternalServerError),
            Session::Authenticated(user) => Ok(user.user_id),
        }
    }
}

/// True when the session holds an entry, readable or not.
pub fn is_session_authed(session: &Session) -> (authed: bool)
    ensures
        authed == !(session is Anonymous),
{
    match session {
        Session::Anonymous => false,
        _ => true,
    }
}

/// Whether the logged-in user is an administrator.
pub fn is_session_admin(session: &Session) -> (res: Result<bool, SessionError>)
    ensures
        match *session {
            Session::Anonymous => res == Err::<bool, SessionError>(SessionError::NotLoggedIn),
            Session::Unreadable => res == Err::<bool, SessionError>(SessionError::Unreadable),
            Session::Authenticated(user) => res == Ok::<bool, SessionError>(
                user.role == UserRole::Admin,
            ),
        },
{
    match session {
        Session::Anonymous => Err(SessionError::NotLoggedIn),
        Session::Unreadable => Err(SessionError::Unreadable),
        Session::Authenticated(user) => Ok(user.role == UserRole::Admin),
    }
}

/// The role of the logged-in user; an administrator has none.
pub fn get_session_user_role(session: &Session) -> (res: Result<UserRole, SessionError>)
    ensures
        match *session {
            Session::Anonymous => res == Err::<UserRole, SessionError>(SessionError::NotLoggedIn),
            Session::Unreadable => res == Err::<UserRole, SessionError>(SessionError::Unreadable),
            Session::Authenticated(user) => if user.role == UserRole::Admin {
                res == Err::<UserRole, SessionError>(SessionError::NoUserRole)
            } else {
                res == Ok::<UserRole, SessionError>(user.role)
            },
        },
{
    match session {
        Session::Anonymous => Err(SessionError::NotLoggedIn),
        Session::Unreadable => Err(SessionError::Unreadable),
        Session::Authenticated(user) => match user.role {
            UserRole::Admin => Err(SessionError::NoUserRole),
            role => Ok(role),
        },
    }
}

/// The id of the logged-in user.
pub fn get_session_user_id(session: &Session) -> (res: Result<i32, SessionError>)
    ensures
        match *session {
            Session::Anonymous => res == Err::<i32, SessionError>(SessionError::NotLoggedIn),
            Session::Unreadable => res == Err::<i32, SessionError>(SessionError::Unreadable),
            Session::Authenticated(user) => res == Ok::<i32, SessionError>(user.user_id),
        },
{
    match session {
        Session::Anonymous => Err(SessionError::NotLoggedIn),
        Session::Unreadable => Err(SessionError::Unreadable),
        Session::Authenticated(user) => Ok(user.user_id),
    }
}

/// The caller of a role-gated endpoint: id and user role, or the error the
/// endpoint answers with.
pub fn identify(session: &Session) -> (res: Result<(i32, UserRole), ApiError>)
    ensures
        match res {
            Ok(who) => session.identity() == Ok::<(i32, UserRole), ApiErrorView>(who),
            Err(e) => session.identity() == Err::<(i32, UserRole), ApiErrorView>(e@),
        },
{
    if !is_session_authed(session) {
        return Err(ApiError::Unauthorized);
    }
    let user_id = match get_session_user_id(session) {
        Ok(id) => id,
        Err(_) => {
            return Err(ApiError::InternalServerError);
        },
    };
    match get_session_user_role(session) {
        Ok(role) => Ok((user_id, role)),
        Err(SessionError::NoUserRole) => Err(ApiError::Forbidden),
        Err(_) => Err(ApiError::InternalServerError),
    }
}

} // verus!
