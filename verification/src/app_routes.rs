//! The routes of the web application and their paths.
use vstd::prelude::*;

verus! {

/// A route of the web application.
#[derive(Debug, PartialEq, Eq, Clone, Copy, Structural)]
pub enum AppRoutes {
    Root,
    Login,
    Logout,
    SignUp,
    About,
    Dashboard,
    VerifyCode,
    ResendCode,
    RegisterPasskeyChallenge,
    RegisterPasskey,
    ConnectPasskey,
    VerifyPasskey,
}

/// The path of a route.
pub open spec fn route_path(route: AppRoutes) -> Seq<char> {
    match route {
        AppRoutes::Root => "/"@,
        AppRoutes::Login => "/login"@,
        AppRoutes::Logout => "/logout"@,
        AppRoutes::SignUp => "/signup"@,
        AppRoutes::About => "/about"@,
        AppRoutes::Dashboard => "/dashboard"@,
        AppRoutes::VerifyCode => "/verify-code"@,
        AppRoutes::ResendCode => "/resend-code"@,
        AppRoutes::RegisterPasskeyChallenge => "/passkey-challenge"@,
        AppRoutes::RegisterPasskey => "/register-passkey"@,
        AppRoutes::ConnectPasskey => "/connect-passkey"@,
        AppRoutes::VerifyPasskey => "/verify-passkey"@,
    }
}

impl AppRoutes {
    /// The path of the route.
    pub fn as_str(&self) -> (path: &'static str)
        ensures
            path@ == route_path(*self),
    {
        match self {
            Self::Root => "/",
            Self::Login => "/login",
            Self::Logout => "/logout",
            Self::SignUp => "/signup",
            Self::About => "/about",
            Self::Dashboard => "/dashboard",
            Self::VerifyCode => "/verify-code",
            Self::ResendCode => "/resend-code",
            Self::RegisterPasskeyChallenge => "/passkey-challenge",
            Self::RegisterPasskey => "/register-passkey",
            Self::ConnectPasskey => "/connect-passkey",
            Self::VerifyPasskey => "/verify-passkey",
        }
    }
}

/// Distinct routes have distinct paths, so a path names one route.
pub proof fn lemma_route_paths_distinct(a: AppRoutes, b: AppRoutes)
    requires
        a != b,
    ensures
        route_path(a) != route_path(b),
{
    reveal_strlit("/");
    reveal_strlit("/login");
    reveal_strlit("/logout");
    reveal_strlit("/signup");
    reveal_strlit("/about");
    reveal_strlit("/dashboard");
    reveal_strlit("/verify-code");
    reveal_strlit("/resend-code");
    reveal_strlit("/passkey-challenge");
    reveal_strlit("/register-passkey");
    reveal_strlit("/connect-passkey");
    reveal_strlit("/verify-passkey");
    let pa = route_path(a);
    let pb = route_path(b);
    if pa.len() == pb.len() {
        assert(pa[1] != pb[1] || pa[2] != pb[2] || pa[3] != pb[3] || pa[4] != pb[4] || pa[5] != pb[5]);
    }
}

} // verus!
