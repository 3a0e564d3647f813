use vstd::prelude::*;

verus! {

/// An account holder's credentials.
pub struct User {
    username: String,
    password: String,
}

impl User {
    pub fn new(username: String, password: String) -> (r: Self)
        ensures
            r.name() == username@,
            r.secret() == password@,
    {
        User { username, password }
    }

    /// The username, as contracts speak of it.
    pub closed spec fn name(&self) -> Seq<char> {
        self.username@
    }

    /// The password, as contracts speak of it.
    pub closed spec fn secret(&self) -> Seq<char> {
        self.password@
    }
}

/// An authentication backend; callers implement it, and nothing is assumed
/// of its verdicts.
pub trait OpenAuth {
    fn validate(&self, user: &User) -> bool;

    fn is_user_locked(&self, user: &User) -> bool;
}

/// A log sink; callers implement it.
pub trait Logger {
    fn log(&self, message: &str);
}

/// The four outcomes a login attempt can have, given what the backend
/// answered: a short username is turned away first, then a locked account,
/// then bad credentials; what is left is welcomed by name.
pub open spec fn login_outcome(
    r: Result<String, String>,
    name: Seq<char>,
    locked: bool,
    valid: bool,
) -> bool {
    if name.len() < 5 {
        r matches Err(e) && e@ == "Username too short"@
    } else if locked {
        r matches Err(e) && e@ == "Account is locked"@
    } else if valid {
        r matches Ok(m) && m@ == "Welcome, "@ + name + "!"@
    } else {
        r matches Err(e) && e@ == "Invalid credentials"@
    }
}

/// The decision rule with the backend's verdicts as plain inputs: maps a
/// username and the two answers to the attempt's outcome, exactly as
/// `login_outcome` fixes it.
pub fn decide_login(name: &str, locked: bool, valid: bool) -> (r: Result<String, String>)
    ensures
        login_outcome(r, name@, locked, valid),
{
    if name.unicode_len() < 5 {
        Err(String::from_str("Username too short"))
    } else if locked {
        Err(String::from_str("Account is locked"))
    } else if valid {
        let mut welcome = String::new();
        welcome.append("Welcome, ");
        welcome.append(name);
        welcome.append("!");
        proof {
            assert(welcome@ =~= "Welcome, "@ + name@ + "!"@);
        }
        Ok(welcome)
    } else {
        Err(String::from_str("Invalid credentials"))
    }
}

/// Checks a user against the backend: a username under five characters is
/// rejected outright, before the backend is asked anything; then a locked
/// account is turned away before credentials are checked; a successful
/// login is reported to the logger. Each path's result is `decide_login`'s
/// for the verdicts gathered on it.
pub fn login<A: OpenAuth, L: Logger>(auth: &A, logger: &L, user: &User) -> (r: Result<
    String,
    String,
>)
    ensures
        user.name().len() < 5 ==> (r matches Err(e) && e@ == "Username too short"@),
        exists|locked: bool, valid: bool| login_outcome(r, user.name(), locked, valid),
{
    if user.username.as_str().unicode_len() < 5 {
        let r = decide_login(user.username.as_str(), false, false);
        proof {
            assert(login_outcome(r, user.name(), false, false));
        }
        return r;
    }
    if auth.is_user_locked(user) {
        let r = decide_login(user.username.as_str(), true, false);
        proof {
            assert(login_outcome(r, user.name(), true, false));
        }
        return r;
    }
    let valid = auth.validate(user);
    if valid {
        let mut message = String::new();
        message.append("User ");
        message.append(user.username.as_str());
        message.append(" logged in");
        logger.log(message.as_str());
    }
    let r = decide_login(user.username.as_str(), false, valid);
    proof {
        assert(login_outcome(r, user.name(), false, valid));
    }
    r
}

} // verus!
