//! The administrator's session: who counts as the administrator on a
//! request, how a login is checked, and what a new session looks like.
use vstd::prelude::*;
use vstd::string::*;
use vstd::utf8::encode_utf8;
use crate::errors::{Errors, STATUS_INTERNAL_SERVER_ERROR, STATUS_UNAUTHORIZED};
use crate::hexcodec::{
    HexError, hex_decode, hex_decode_bytes, hex_encode, hex_lower, lemma_hex_roundtrip,
};
use argon2::password_hash::rand_core::OsRng;
use argon2::password_hash::{PasswordHash, PasswordVerifier};
use argon2::Argon2;
use rand::RngCore;

verus! {

/// The name of the cookie that carries the session id.
pub const SESSION_COOKIE: &'static str = "session";

/// The administrator's dashboard, where a login leads.
pub const DASHBOARD_URI: &'static str = "/dashboard";

/// The message of the error answered when the database cannot be reached.
pub const DB_UNAVAILABLE: &'static str = "Failed to connect to database!";

/// Whether the request comes from a logged-in administrator.
#[derive(Debug, Clone, Copy, PartialEq, Eq)]
pub struct AdminMaybe(pub bool);

/// Proof that the request comes from a logged-in administrator.
#[derive(Debug, Clone, Copy, PartialEq, Eq)]
pub struct AdminOnly;

/// The login form.
#[derive(Debug)]
pub struct Login {
    pub username: String,
    pub password: String,
}

/// What a request guard concludes: a value, an error with the status to
/// answer, or that the request should go to another route.
#[derive(Debug)]
pub enum GuardOutcome<T> {
    Success(T),
    Error(u16, Errors),
    Forward,
}

/// What was found out about the session of a request.
#[derive(Debug)]
pub enum SessionCheck {
    /// The request has no session cookie.
    NoCookie,
    /// It has one, but the database cannot be reached.
    NoDatabase,
    /// It has one, and looking it up gave this answer: whether the session
    /// exists and has not expired, or why the lookup failed.
    Checked(Result<bool, Errors>),
}

/// `out` is what the guard concludes from a session check: no cookie means
/// "not the administrator", an unreachable database is a server error with
/// its own message, and otherwise the lookup decides.
pub open spec fn admin_maybe_concludes(check: SessionCheck, out: GuardOutcome<AdminMaybe>) -> bool {
    match check {
        SessionCheck::NoCookie => out == GuardOutcome::Success(AdminMaybe(false)),
        SessionCheck::NoDatabase => out matches GuardOutcome::Error(status, Errors::Custom(msg, code))
            && status == STATUS_INTERNAL_SERVER_ERROR && code == STATUS_INTERNAL_SERVER_ERROR && msg@
            == DB_UNAVAILABLE@,
        SessionCheck::Checked(Ok(b)) => out == GuardOutcome::Success(AdminMaybe(b)),
        SessionCheck::Checked(Err(e)) => out == GuardOutcome::<AdminMaybe>::Error(
            STATUS_INTERNAL_SERVER_ERROR,
            e,
        ),
    }
}

/// `out` is what the administrator-only guard concludes from the first
/// guard: the administrator passes, anyone else is unauthorised, and an
/// error or a forward of the first guard is passed on.
pub open spec fn admin_only_concludes(maybe: GuardOutcome<AdminMaybe>, out: GuardOutcome<AdminOnly>) -> bool {
    match maybe {
        GuardOutcome::Success(AdminMaybe(true)) => out == GuardOutcome::Success(AdminOnly),
        GuardOutcome::Success(AdminMaybe(false)) => out == GuardOutcome::<AdminOnly>::Error(
            STATUS_UNAUTHORIZED,
            Errors::Authorization,
        ),
        GuardOutcome::Error(status, e) => out == GuardOutcome::<AdminOnly>::Error(status, e),
        GuardOutcome::Forward => out == GuardOutcome::<AdminOnly>::Forward,
    }
}

impl AdminMaybe {
    /// The session id a cookie value names, in hex; malformed hex is the
    /// client's error.
    pub fn session_id(cookie: &str) -> (r: Result<Vec<u8>, Errors>)
        ensures
            match r {
                Ok(id) => hex_decode_bytes(cookie.spec_bytes()) == Ok::<Seq<u8>, HexError>(id@),
                Err(e) => hex_decode_bytes(cookie.spec_bytes()) matches Err(h) && e == Errors::Hex(h),
            },
    {
        match hex_decode(cookie) {
            Ok(id) => Ok(id),
            Err(h) => Err(Errors::Hex(h)),
        }
    }

    /// Decides whether the request comes from the administrator.
    pub fn decide(check: SessionCheck) -> (out: GuardOutcome<AdminMaybe>)
        ensures
            admin_maybe_concludes(check, out),
    {
        match check {
            SessionCheck::NoCookie => GuardOutcome::Success(AdminMaybe(false)),
            SessionCheck::NoDatabase => GuardOutcome::Error(
                STATUS_INTERNAL_SERVER_ERROR,
                Errors::Custom(String::from_str(DB_UNAVAILABLE), STATUS_INTERNAL_SERVER_ERROR),
            ),
            SessionCheck::Checked(Ok(b)) => GuardOutcome::Success(AdminMaybe(b)),
            SessionCheck::Checked(Err(e)) => GuardOutcome::Error(STATUS_INTERNAL_SERVER_ERROR, e),
        }
    }
}

impl AdminOnly {
    /// Lets only the administrator through.
    pub fn decide(maybe: GuardOutcome<AdminMaybe>) -> (out: GuardOutcome<AdminOnly>)
        ensures
            admin_only_concludes(maybe, out),
    {
        match maybe {
            GuardOutcome::Success(AdminMaybe(is_admin)) => {
                if is_admin {
                    GuardOutcome::Success(AdminOnly)
                } else {
                    GuardOutcome::Error(STATUS_UNAUTHORIZED, Errors::Authorization)
                }
            },
            GuardOutcome::Error(status, e) => GuardOutcome::Error(status, e),
            GuardOutcome::Forward => GuardOutcome::Forward,
        }
    }
}

/// Law: a request passes the administrator-only guard exactly when it has a
/// session cookie whose session was found valid; any other request is
/// refused with an error.
pub proof fn lemma_admin_only_needs_valid_session(
    check: SessionCheck,
    maybe: GuardOutcome<AdminMaybe>,
    out: GuardOutcome<AdminOnly>,
)
    requires
        admin_maybe_concludes(check, maybe),
        admin_only_concludes(maybe, out),
    ensures
        out is Success <==> check matches SessionCheck::Checked(Ok(true)),
        !(out is Success) ==> out is Error,
{
}

/// Law: once the session lookup has answered, the first guard always
/// succeeds and says exactly what the lookup said; in particular a cookie
/// naming an unknown or expired session makes the visitor a mere
/// non-administrator (so the login form is still shown), never an error.
pub proof fn lemma_looked_up_session_never_fails(b: bool, out: GuardOutcome<AdminMaybe>)
    requires
        admin_maybe_concludes(SessionCheck::Checked(Ok(b)), out),
    ensures
        out matches GuardOutcome::Success(m) && m.0 == b,
        !b ==> out == GuardOutcome::Success(AdminMaybe(false)),
{
}

/// Where the login page sends the administrator, who is already logged in;
/// `None` shows the login form.
pub fn login_redirect(admin: &AdminMaybe) -> (r: Option<String>)
    ensures
        admin.0 ==> (r matches Some(uri) && uri@ == DASHBOARD_URI@),
        !admin.0 ==> r is None,
{
    if admin.0 {
        Some(String::from_str(DASHBOARD_URI))
    } else {
        None
    }
}

/// The name of whether a string parses as a password hash in the PHC string
/// format (`PasswordHash::new` succeeds on it).
pub uninterp spec fn phc_parses(hash: Seq<char>) -> bool;

/// The name of whether Argon2 with default settings accepts `password`
/// against the PHC string `hash`.
pub uninterp spec fn argon2_accepts(password: Seq<char>, hash: Seq<char>) -> bool;

/// Calls `PasswordHash::new` and reports whether it parsed the string; the
/// answer depends on the string alone and is named `phc_parses`.
#[verifier::external_body]
fn phc_hash_valid(hash: &str) -> (b: bool)
    ensures
        b == phc_parses(hash@),
{
    PasswordHash::new(hash).is_ok()
}

/// Calls `PasswordVerifier::verify_password` of `Argon2::default()` on the
/// password's bytes and the parsed hash, and reports whether it succeeded; the
/// answer depends on the two strings alone and is named `argon2_accepts`.
#[verifier::external_body]
fn argon2_verify(password: &str, hash: &str) -> (b: bool)
    requires
        phc_parses(hash@),
    ensures
        b == argon2_accepts(password@, hash@),
{
    match PasswordHash::new(hash) {
        Ok(parsed) => Argon2::default().verify_password(password.as_bytes(), &parsed).is_ok(),
        Err(_) => false,
    }
}

/// The stored hash of a user, if there is one, parses.
pub open spec fn stored_hash_parses(user: Option<(i32, String)>) -> bool {
    user matches Some((_, hash)) ==> phc_parses(hash@)
}

impl Login {
    /// Checks the login against the user found under its name (`None` when
    /// there is none): an unknown user or a wrong password is unauthorised,
    /// otherwise the user's id is returned.
    pub fn authenticate(&self, user: Option<(i32, String)>) -> (r: Result<i32, Errors>)
        requires
            stored_hash_parses(user),
        ensures
            match user {
                None => r == Err::<i32, Errors>(Errors::Authorization),
                Some((id, hash)) => if argon2_accepts(self.password@, hash@) {
                    r == Ok::<i32, Errors>(id)
                } else {
                    r == Err::<i32, Errors>(Errors::Authorization)
                },
            },
    {
        match user {
            None => Err(Errors::Authorization),
            Some((id, hash)) => {
                if argon2_verify(self.password.as_str(), hash.as_str()) {
                    Ok(id)
                } else {
                    Err(Errors::Authorization)
                }
            },
        }
    }

    /// Like `authenticate`, but first checks that the stored hash parses:
    /// `None` when it does not, where the login cannot be decided.
    pub fn try_authenticate(&self, user: Option<(i32, String)>) -> (r: Option<Result<i32, Errors>>)
        ensures
            r is None <==> !stored_hash_parses(user),
            r matches Some(res) ==> match user {
                None => res == Err::<i32, Errors>(Errors::Authorization),
                Some((id, hash)) => if argon2_accepts(self.password@, hash@) {
                    res == Ok::<i32, Errors>(id)
                } else {
                    res == Err::<i32, Errors>(Errors::Authorization)
                },
            },
    {
        let parses = match &user {
            None => true,
            Some((_, hash)) => phc_hash_valid(hash.as_str()),
        };
        if parses {
            Some(self.authenticate(user))
        } else {
            None
        }
    }
}

/// Calls `RngCore::try_fill_bytes` of the operating system's generator
/// `OsRng` on sixteen bytes; `None` when the system's random source fails.
/// Nothing is claimed of the bytes or of when the source fails.
#[verifier::external_body]
fn random_session_bytes() -> (id: Option<[u8; 16]>) {
    let mut id = [0u8; 16];
    match OsRng.try_fill_bytes(&mut id) {
        Ok(()) => Some(id),
        Err(_) => None,
    }
}

/// A new session: its random id, and the cookie value that carries it.
#[derive(Debug)]
pub struct NewSession {
    pub id: [u8; 16],
    pub cookie: String,
}

/// The session with id `id`; the cookie carries the id in hex.
pub fn session_for(id: [u8; 16]) -> (s: NewSession)
    ensures
        s.id == id,
        s.cookie@ == hex_lower(id@),
{
    let cookie = hex_encode(id.as_slice());
    NewSession { id, cookie }
}

/// Starts a new session with a random id, whose cookie carries the id in
/// hex; `None` when the system's random source fails.
pub fn new_session() -> (r: Option<NewSession>)
    ensures
        r matches Some(s) ==> s.cookie@ == hex_lower(s.id@),
{
    match random_session_bytes() {
        Some(id) => Some(session_for(id)),
        None => None,
    }
}

/// Law: the session id read back from the cookie of a new session is the id
/// that was stored for it, so a login is recognised on later requests.
pub proof fn lemma_session_cookie_roundtrip(id: Seq<u8>)
    ensures
        hex_decode_bytes(encode_utf8(hex_lower(id))) == Ok::<Seq<u8>, HexError>(id),
{
    lemma_hex_roundtrip(id);
}

} // verus!
