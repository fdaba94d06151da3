//! Who is calling: the resolved principal, its permission checks, and the
//! session gate every protected command passes.
use vstd::prelude::*;
use crate::error::{AppError, unauthorized};
use crate::text::{str_eq, trim, lower_of, trim_str, to_lower, owned};

verus! {

/// Authenticated identity resolved for one command invocation.
#[derive(Debug)]
pub struct Principal {
    pub session_id: String,
    pub user_id: i64,
    pub username: String,
    pub full_name: String,
    pub roles: Vec<String>,
    pub permissions: Vec<String>,
}

/// The texts of a list of strings.
pub open spec fn texts(v: Seq<String>) -> Seq<Seq<char>> {
    v.map_values(|s: String| s@)
}

impl Principal {
    pub open spec fn holds(&self, permission: Seq<char>) -> bool {
        texts(self.permissions@).contains(permission)
    }

    pub open spec fn has_role(&self, role: Seq<char>) -> bool {
        texts(self.roles@).contains(role)
    }

    /// Succeeds exactly when the principal holds `permission`; otherwise the
    /// caller is unauthorized.
    pub fn require(&self, permission: &str) -> (r: Result<(), AppError>)
        ensures
            r is Ok <==> self.holds(permission@),
            r matches Err(e) ==> e matches AppError::Unauthorized(m) && m@ == "user lacks `"@ + permission@
                + "` permission"@,
    {
        if contains_text(&self.permissions, permission) {
            Ok(())
        } else {
            let mut msg = owned("user lacks `");
            msg.append(permission);
            msg.append("` permission");
            Err(AppError::Unauthorized(msg))
        }
    }

    /// Succeeds exactly when the principal holds at least one of `any`.
    pub fn require_any(&self, any: &Vec<&str>) -> (r: Result<(), AppError>)
        ensures
            r is Ok <==> exists|i: int| 0 <= i < any.len() && self.holds(#[trigger] any@[i]@),
            r matches Err(e) ==> e is Unauthorized,
    {
        let mut i: usize = 0;
        while i < any.len()
            invariant
                i <= any.len(),
                forall|j: int| 0 <= j < i ==> !self.holds(#[trigger] any@[j]@),
            decreases any.len() - i,
        {
            if contains_text(&self.permissions, any[i]) {
                return Ok(());
            }
            i += 1;
        }
        Err(unauthorized("user lacks the required permission"))
    }

    /// Whether the principal carries the `owner` role.
    pub fn is_owner(&self) -> (r: bool)
        ensures
            r == self.has_role("owner"@),
    {
        contains_text(&self.roles, "owner")
    }
}

/// Whether some element of `v` has the text `s`.
pub fn contains_text(v: &Vec<String>, s: &str) -> (r: bool)
    ensures
        r == texts(v@).contains(s@),
{
    let mut i: usize = 0;
    while i < v.len()
        invariant
            i <= v.len(),
            forall|j: int| 0 <= j < i ==> v@[j]@ != s@,
        decreases v.len() - i,
    {
        if str_eq(v[i].as_str(), s) {
            assert(texts(v@)[i as int] == s@);
            return true;
        }
        i += 1;
    }
    assert forall|j: int| 0 <= j < texts(v@).len() implies texts(v@)[j] != s@ by {
        assert(texts(v@)[j] == v@[j]@);
    }
    false
}

/// Session profile shown to the shell.
#[derive(Debug)]
pub struct SessionProfile {
    pub session_id: String,
    pub user_id: i64,
    pub username: String,
    pub full_name: String,
    pub roles: Vec<String>,
    pub permissions: Vec<String>,
    pub locked_at: Option<String>,
}

/// The profile of an unlocked principal: every field copied, no lock time.
pub fn profile_dto(principal: &Principal) -> (p: SessionProfile)
    ensures
        p.session_id@ == principal.session_id@,
        p.user_id == principal.user_id,
        p.username@ == principal.username@,
        p.full_name@ == principal.full_name@,
        p.roles@ == principal.roles@,
        p.permissions@ == principal.permissions@,
        p.locked_at is None,
{
    let roles = principal.roles.clone();
    let permissions = principal.permissions.clone();
    assert(roles@ =~= principal.roles@);
    assert(permissions@ =~= principal.permissions@);
    SessionProfile {
        session_id: principal.session_id.clone(),
        user_id: principal.user_id,
        username: principal.username.clone(),
        full_name: principal.full_name.clone(),
        roles,
        permissions,
        locked_at: None,
    }
}

/// Login key of a user name: trimmed, then lower-cased.
pub fn normalize_username(username: &str) -> (r: String)
    ensures
        r@ == lower_of(trim(username@)),
{
    let t = trim_str(username);
    to_lower(t.as_str())
}

/// What the session store holds for a session id.
#[derive(Debug)]
pub struct SessionState {
    pub user_id: i64,
    pub active: bool,
    pub locked: bool,
}

/// Every protected command first checks the session: an active, unlocked
/// session answers with its user; a missing or ended session is
/// unauthorized; a locked one must be unlocked first.
pub fn gate_session(session: Option<SessionState>) -> (r: Result<i64, AppError>)
    ensures
        match session {
            None => r matches Err(AppError::Unauthorized(m)) && m@ == "session is not active"@,
            Some(s) => if !s.active {
                r matches Err(AppError::Unauthorized(m)) && m@ == "session is not active"@
            } else if s.locked {
                r matches Err(AppError::SessionLocked(m)) && m@ == "unlock this session before continuing"@
            } else {
                r == Ok::<i64, AppError>(s.user_id)
            },
        },
{
    match session {
        None => Err(unauthorized("session is not active")),
        Some(s) => {
            if !s.active {
                Err(unauthorized("session is not active"))
            } else if s.locked {
                Err(AppError::SessionLocked(owned("unlock this session before continuing")))
            } else {
                Ok(s.user_id)
            }
        },
    }
}

/// The user behind a session must still be active (`is_active` is non-zero).
pub fn gate_user(is_active: i64) -> (r: Result<(), AppError>)
    ensures
        r is Ok <==> is_active != 0,
        r matches Err(e) ==> e matches AppError::Unauthorized(m) && m@ == "user is deactivated"@,
{
    if is_active == 0 {
        Err(unauthorized("user is deactivated"))
    } else {
        Ok(())
    }
}

pub open spec fn session_active(session: Option<SessionState>) -> bool {
    match session {
        Some(s) => s.active,
        None => false,
    }
}

pub open spec fn session_unlocked(session: Option<SessionState>) -> bool {
    match session {
        Some(s) => !s.locked,
        None => false,
    }
}

pub open spec fn user_usable(user_active: Option<i64>) -> bool {
    match user_active {
        Some(a) => a != 0,
        None => false,
    }
}

/// Whether the shell sees a usable session: it exists, is active, and its
/// user still exists and is active. A locked session is still shown (with its
/// lock time); only an unlocked one is touched.
pub fn shell_session_visible(session: Option<SessionState>, user_active: Option<i64>) -> (r: (bool, bool))
    ensures
        r.0 == (session_active(session) && user_usable(user_active)),
        r.1 == (r.0 && session_unlocked(session)),
{
    match session {
        None => (false, false),
        Some(s) => {
            if !s.active {
                return (false, false);
            }
            match user_active {
                None => (false, false),
                Some(a) => if a == 0 { (false, false) } else { (true, !s.locked) },
            }
        },
    }
}

/// Unlocking a session: it must exist and be active, its user must be active,
/// and the password must match; then the session is unlocked.
pub fn unlock_decision(session: Option<SessionState>, user_active: i64, password_ok: bool) -> (r: Result<(), AppError>)
    ensures
        r is Ok <==> (session_active(session) && user_active != 0 && password_ok),
        (session_active(session) && user_active != 0 && !password_ok) ==> (r matches Err(e) && e is InvalidCredentials),
        !session_active(session) ==> (r matches Err(AppError::Unauthorized(m)) && m@ == "session is not active"@),
        session_active(session) && user_active == 0 ==> (r matches Err(AppError::Unauthorized(m))
            && m@ == "user is deactivated"@),
{
    match session {
        None => Err(unauthorized("session is not active")),
        Some(s) => {
            if !s.active {
                return Err(unauthorized("session is not active"));
            }
            if user_active == 0 {
                return Err(unauthorized("user is deactivated"));
            }
            if !password_ok {
                return Err(AppError::InvalidCredentials);
            }
            Ok(())
        },
    }
}

/// Seconds a throttled login is told to wait: the remaining lockout, capped at
/// an hour.
pub fn rate_limit_seconds(remaining: u64) -> (r: i64)
    ensures
        r == if remaining < 3600 { remaining as int } else { 3600 },
{
    if remaining < 3600 {
        remaining as i64
    } else {
        3600
    }
}

/// Outcome of a login attempt once the throttle has let it through: only an
/// existing, active user whose password verifies is let in; every other case
/// is the same invalid-credentials answer (and counts as a failure).
pub fn login_decision(user: Option<(i64, i64)>, password_ok: bool) -> (r: Result<i64, AppError>)
    ensures
        match user {
            Some((id, is_active)) => if is_active != 0 && password_ok {
                r == Ok::<i64, AppError>(id)
            } else {
                r matches Err(e) && e is InvalidCredentials
            },
            None => r matches Err(e) && e is InvalidCredentials,
        },
{
    match user {
        Some((id, is_active)) => {
            if is_active != 0 && password_ok {
                Ok(id)
            } else {
                Err(AppError::InvalidCredentials)
            }
        },
        None => Err(AppError::InvalidCredentials),
    }
}

} // verus!
