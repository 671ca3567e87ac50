//! The account's authentication state.

use vstd::prelude::*;

verus! {

/// `Init`: no valid session. `Login`: a login succeeded and the session
/// cookies are expected to be valid.
#[derive(Debug, Clone, Copy, PartialEq, Eq, Structural, PartialOrd)]
pub enum State {
    Init,
    Login,
}

impl State {
    /// The state's name, as it is shown and stored.
    pub fn to_string(&self) -> (r: String)
        ensures
            r@ == (match self {
                State::Init => "Init"@,
                State::Login => "Login"@,
            }),
    {
        match self {
            State::Init => String::from_str("Init"),
            State::Login => String::from_str("Login"),
        }
    }
}

} // verus!
