//! The user on whose behalf calls are made.
use vstd::prelude::*;
use vstd::string::StrSliceExecFns;
use crate::error::IpcError;

verus! {

/// The part of a principal name before its first `/` or `@`.
pub open spec fn short_name_of(name: Seq<char>) -> Seq<char>
    decreases name.len(),
{
    if name.len() == 0 || name[0] == '/' || name[0] == '@' {
        Seq::empty()
    } else {
        seq![name[0]] + short_name_of(name.drop_first())
    }
}

/// Relies on `whoami::username`: the name the operating system gives the
/// user running this process, or nothing where it cannot be read.
#[verifier::external_body]
fn os_user_name() -> (r: Option<String>) {
    whoami::username().ok()
}

fn is_separator(c: char) -> (r: bool)
    ensures
        r == (c == '/' || c == '@'),
{
    c == '/' || c == '@'
}

/// A principal: the full name of a user.
#[derive(Clone, Debug)]
pub struct User {
    name: String,
}

impl View for User {
    type V = Seq<char>;

    closed spec fn view(&self) -> Seq<char> {
        self.name@
    }
}

impl User {
    pub fn new(name: &str) -> (r: User)
        ensures
            r@ == name@,
    {
        User { name: name.to_owned() }
    }

    /// Get the full name of the user.
    pub fn get_name(&self) -> (r: String)
        ensures
            r@ == self@,
    {
        self.name.clone()
    }

    /// Get the user name up to the first '/' or '@'.
    pub fn get_short_name(&self) -> (r: String)
        ensures
            r@ == short_name_of(self@),
    {
        let name = self.name.as_str();
        let n = name.unicode_len();
        let mut i: usize = 0;
        proof {
            assert(name@.skip(0) =~= name@);
            assert(name@.subrange(0, 0) + short_name_of(name@) =~= short_name_of(name@));
        }
        while i < n && !is_separator(name.get_char(i))
            invariant
                n == name@.len(),
                name@ == self@,
                i <= n,
                short_name_of(name@) == name@.subrange(0, i as int) + short_name_of(name@.skip(i as int)),
            decreases n - i,
        {
            proof {
                let c = name@[i as int];
                let rest = name@.skip(i as int);
                assert(rest.drop_first() =~= name@.skip(i as int + 1));
                assert(name@.subrange(0, i as int) + (seq![c] + short_name_of(rest.drop_first()))
                    =~= name@.subrange(0, i as int + 1) + short_name_of(name@.skip(i as int + 1)));
            }
            i = i + 1;
        }
        proof {
            assert(short_name_of(name@.skip(i as int)) =~= Seq::<char>::empty());
            assert(name@.subrange(0, i as int) + Seq::<char>::empty() =~= name@.subrange(0, i as int));
        }
        name.substring_char(0, i).to_owned()
    }
}

/// The login user of this process, once logged in.
pub struct LoginUserCache {
    user: Option<UserGroupInformation>,
}

impl View for LoginUserCache {
    type V = Option<Seq<char>>;

    closed spec fn view(&self) -> Option<Seq<char>> {
        match self.user {
            Some(u) => Some(u@),
            None => None,
        }
    }
}

impl LoginUserCache {
    /// A cache in which no user is logged in yet.
    pub fn new() -> (r: LoginUserCache)
        ensures
            r@ is None,
    {
        LoginUserCache { user: None }
    }
}

/// User and group information of the caller.
#[derive(Clone, Debug)]
pub struct UserGroupInformation {
    user: User,
}

impl View for UserGroupInformation {
    type V = Seq<char>;

    closed spec fn view(&self) -> Seq<char> {
        self.user@
    }
}

impl UserGroupInformation {
    /// Information about the given user.
    pub fn from_user(user: User) -> (r: UserGroupInformation)
        ensures
            r@ == user@,
    {
        UserGroupInformation { user }
    }

    /// Logs in the user running this process.
    pub fn do_subject_login() -> (r: Result<UserGroupInformation, IpcError>)
        ensures
            r is Err ==> r == Err::<UserGroupInformation, IpcError>(IpcError::Auth),
    {
        UserGroupInformation::login_as(os_user_name())
    }

    /// The user logged in under the name the system gave, or an
    /// authentication error where it gave none.
    pub fn login_as(name: Option<String>) -> (r: Result<UserGroupInformation, IpcError>)
        ensures
            match name {
                Some(n) => r matches Ok(u) && u@ == n@,
                None => r == Err::<UserGroupInformation, IpcError>(IpcError::Auth),
            },
    {
        match name {
            Some(name) => Ok(UserGroupInformation { user: User { name } }),
            None => Err(IpcError::Auth),
        }
    }

    /// The login user: the user running this process, or, where
    /// `proxy_user` names someone, a proxy for that user.
    pub fn create_login_user(proxy_user: Option<&str>) -> (r: Result<UserGroupInformation, IpcError>)
        ensures
            r is Err ==> r == Err::<UserGroupInformation, IpcError>(IpcError::Auth),
    {
        let real_user = UserGroupInformation::do_subject_login()?;
        match proxy_user {
            Some(p) => {
                if p.unicode_len() > 0 {
                    Ok(UserGroupInformation::create_proxy_user(p, &real_user))
                } else {
                    Ok(real_user)
                }
            },
            None => Ok(real_user),
        }
    }

    /// Get the currently logged in user. The first success logs the user
    /// in, with `proxy_user` the proxy user named by the environment, if
    /// any, and keeps it in `cache`; every later call gives that user.
    pub fn get_login_user(cache: &mut LoginUserCache, proxy_user: Option<&str>) -> (r: Result<
        UserGroupInformation,
        IpcError,
    >)
        ensures
            old(cache)@ matches Some(n) ==> r matches Ok(u) && u@ == n && final(cache)@ == old(cache)@,
            old(cache)@ is None ==> match r {
                Ok(u) => final(cache)@ == Some(u@),
                Err(e) => e == IpcError::Auth && final(cache)@ is None,
            },
    {
        match &cache.user {
            Some(u) => Ok(UserGroupInformation::create_proxy_user("", u)),
            None => {
                let u = UserGroupInformation::create_login_user(proxy_user)?;
                cache.user = Some(UserGroupInformation::create_proxy_user("", &u));
                Ok(u)
            },
        }
    }

    /// Return the current user: the login user.
    pub fn get_current_user(cache: &mut LoginUserCache, proxy_user: Option<&str>) -> (r: Result<
        UserGroupInformation,
        IpcError,
    >)
        ensures
            old(cache)@ matches Some(n) ==> r matches Ok(u) && u@ == n && final(cache)@ == old(cache)@,
            old(cache)@ is None ==> match r {
                Ok(u) => final(cache)@ == Some(u@),
                Err(e) => e == IpcError::Auth && final(cache)@ is None,
            },
    {
        UserGroupInformation::get_login_user(cache, proxy_user)
    }

    /// A proxy user that acts for `user` with the credentials of
    /// `real_user`. Proxies are not distinguished yet: the real user is
    /// used.
    pub fn create_proxy_user(user: &str, real_user: &UserGroupInformation) -> (r: UserGroupInformation)
        ensures
            r@ == real_user@,
    {
        UserGroupInformation { user: User { name: real_user.user.name.clone() } }
    }

    /// Get the user's login name.
    pub fn get_short_user_name(&self) -> (r: String)
        ensures
            r@ == short_name_of(self@),
    {
        self.user.get_short_name()
    }

    /// Get the user's full principal name.
    pub fn get_user_name(&self) -> (r: String)
        ensures
            r@ == self@,
    {
        self.user.get_name()
    }
}

} // verus!
