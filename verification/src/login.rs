//! The station's login state: one current operator and an unlocked flag.

use vstd::prelude::*;

verus! {

/// Mathematical model of the login state.
pub struct LoginView {
    pub user: Seq<char>,
    pub unlocked: bool,
}

impl LoginView {
    /// The state at process start and after every lock: nobody, locked.
    pub open spec fn locked() -> LoginView {
        LoginView { user: Seq::empty(), unlocked: false }
    }

    /// The state after `username` has unlocked the station.
    pub open spec fn unlocked_by(username: Seq<char>) -> LoginView {
        LoginView { user: username, unlocked: true }
    }

    /// A locked station remembers no operator.
    pub open spec fn consistent(self) -> bool {
        !self.unlocked ==> self.user.len() == 0
    }
}

/// Process-wide login state. Both fields change together, in one assignment,
/// so no reader ever sees a user without the matching flag.
pub struct LoginState {
    user: String,
    unlocked: bool,
}

impl View for LoginState {
    type V = LoginView;

    closed spec fn view(&self) -> LoginView {
        LoginView { user: self.user@, unlocked: self.unlocked }
    }
}

impl LoginState {
    #[verifier::type_invariant]
    spec fn inv(self) -> bool {
        self@.consistent()
    }

    /// The state at process start.
    pub fn new() -> (s: LoginState)
        ensures
            s@ == LoginView::locked(),
    {
        LoginState { user: String::new(), unlocked: false }
    }

    /// Makes `username` the current operator and unlocks the station.
    pub fn unlock(&mut self, username: String)
        ensures
            final(self)@ == LoginView::unlocked_by(username@),
    {
        *self = LoginState { user: username, unlocked: true };
    }

    /// Clears the current operator and locks the station.
    pub fn lock(&mut self)
        ensures
            final(self)@ == LoginView::locked(),
    {
        *self = LoginState { user: String::new(), unlocked: false };
    }

    /// Whether the station is unlocked.
    pub fn status(&self) -> (unlocked: bool)
        ensures
            unlocked == self@.unlocked,
    {
        self.unlocked
    }

    /// The current operator; empty while the station is locked.
    pub fn current_user(&self) -> (user: &String)
        ensures
            user@ == self@.user,
            self@.consistent(),
    {
        proof {
            use_type_invariant(self);
        }
        &self.user
    }
}

} // verus!
