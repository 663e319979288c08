//! The home page.

use vstd::prelude::*;
use crate::users::models::AuthUser;

verus! {

pub struct HomePageTemplate {
    pub auth_user: Option<AuthUser>,
    pub signin_error: bool,
}

/// The query of the home page: `error` tells that a sign-in just failed.
pub struct HomePageQueryParams {
    pub error: Option<bool>,
}

/// The answer to a request for the home page.
pub enum HomePage {
    Redirect(String),
    Page(HomePageTemplate),
}

/// A logged-in user goes to the offers; anyone else sees the home page, with
/// the sign-in error shown when the query says so.
pub fn get_home_page(user: Option<AuthUser>, params: HomePageQueryParams) -> (res: HomePage)
    ensures
        user is Some ==> (res matches HomePage::Redirect(to) && to@ == "/offers"@),
        user is None ==> (res matches HomePage::Page(t) && t.auth_user is None && t.signin_error == match params.error {
            Some(e) => e,
            None => false,
        }),
{
    if user.is_some() {
        return HomePage::Redirect("/offers".to_owned());
    }
    let signin_error = match params.error {
        Some(e) => e,
        None => false,
    };
    HomePage::Page(HomePageTemplate { auth_user: None, signin_error })
}

} // verus!
