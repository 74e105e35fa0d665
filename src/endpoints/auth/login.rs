use vstd::prelude::*;

verus! {

/// Body of a login request.
#[derive(Debug)]
pub struct Credentials {
    pub sessionstate: String,
    pub username: String,
    pub password: String,
}

/// The login request for `username` and `password`, asking for a read-only
/// session.
pub fn login_request(username: &str, password: &str) -> (r: Credentials)
    ensures
        r.sessionstate@ == "readonly"@,
        r.username@ == username@,
        r.password@ == password@,
{
    Credentials {
        sessionstate: String::from_str("readonly"),
        username: String::from_str(username),
        password: String::from_str(password),
    }
}

/// A role of the user that logged in, as the service sends it.
#[derive(Debug)]
pub struct AuthRoles {
    pub base_role: i32,
    pub fully_qualified_domain_name: String,
    pub user_id: i32,
}

/// The outcome of a login, as the service sends it.
#[derive(Debug)]
pub struct AuthData {
    pub two_factor_auth_required: bool,
    pub friendly_message: String,
    pub success: bool,
    pub technical_message: String,
    pub roles: Vec<AuthRoles>,
}

/// Represents authenticated user credentials.
#[derive(Debug)]
pub struct AuthenticatedUserCredentials {
    /// Indicates whether the authentication was successful.
    pub success: bool,
    /// The ID of the authenticated user.
    pub user_id: i32,
    /// The cookies associated with the authenticated session.
    pub cookies: String,
    /// The school id associated with the authenticated session.
    pub school_id: String,
}

/// One cookie as it stands in a `cookie` header: `name=value`.
pub open spec fn cookie_pair_text(c: (String, String)) -> Seq<char> {
    c.0@ + "="@ + c.1@
}

/// The cookies of a session, in the order they were received, each as
/// `name=value`, separated by `; `.
pub open spec fn cookie_list_text(cookies: Seq<(String, String)>) -> Seq<char>
    decreases cookies.len(),
{
    if cookies.len() == 0 {
        Seq::empty()
    } else if cookies.len() == 1 {
        cookie_pair_text(cookies[0])
    } else {
        cookie_list_text(cookies.drop_last()) + "; "@ + cookie_pair_text(cookies.last())
    }
}

/// The session cookies, given as (name, value) pairs, joined into the text
/// that later requests send in their `cookie` header.
pub fn join_cookies(cookies: &Vec<(String, String)>) -> (r: String)
    ensures
        r@ == cookie_list_text(cookies@),
{
    let mut out = String::new();
    let mut i: usize = 0;
    while i < cookies.len()
        invariant
            i <= cookies.len(),
            out@ == cookie_list_text(cookies@.take(i as int)),
        decreases cookies.len() - i,
    {
        let ghost before = out@;
        if i > 0 {
            out.append("; ");
        }
        out.append(cookies[i].0.as_str());
        out.append("=");
        out.append(cookies[i].1.as_str());
        proof {
            let next = cookies@.take(i + 1);
            assert(next.drop_last() =~= cookies@.take(i as int));
            assert(next.last() == cookies@[i as int]);
            if i == 0 {
                assert(before =~= Seq::<char>::empty());
            }
            assert(out@ =~= cookie_list_text(next));
        }
        i = i + 1;
    }
    assert(cookies@.take(cookies@.len() as int) =~= cookies@);
    out
}

/// The credentials of the session that a login opened: the outcome and the
/// user id of the first role the service reported, the session's cookies
/// joined for later requests, and the school they belong to.
pub fn credentials_from_auth(
    auth: AuthData,
    cookies: &Vec<(String, String)>,
    school_id: &str,
) -> (r: AuthenticatedUserCredentials)
    requires
        auth.roles.len() > 0,
    ensures
        r.success == auth.success,
        r.user_id == auth.roles@[0].user_id,
        r.cookies@ == cookie_list_text(cookies@),
        r.school_id@ == school_id@,
{
    AuthenticatedUserCredentials {
        success: auth.success,
        user_id: auth.roles[0].user_id,
        cookies: join_cookies(cookies),
        school_id: String::from_str(school_id),
    }
}

} // verus!
