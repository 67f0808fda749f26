//! Signing the user in: open the front page, bring back the stored session
//! if it belongs to a signed-in user, and fill in the login form only where
//! the page still offers to log in. The session cookie of a fresh login is
//! stored for the next run.

use crate::keystore::{cookie_is_signed_in, find_session_cookie, SESSION_COOKIE_NAME, SIGNED_IN_MARK};
use crate::text::{has_infix, names, optional_text};
use vstd::prelude::*;

verus! {

/// The page is given this many seconds to settle after a reload and after
/// the login form was sent.
pub const SIGN_IN_SETTLE_SECS: u64 = 2;

/// How the sign-in ended.
#[derive(Clone, Copy, Debug, PartialEq, Eq, Structural)]
pub enum SignInOutcome {
    /// The page offered no login: the user was signed in already.
    AlreadySignedIn,
    /// The login form was filled in and sent.
    LoggedIn,
}

/// Where the sign-in stands.
#[derive(Clone, Copy, Debug, PartialEq, Eq, Structural)]
pub enum SignInPhase {
    /// The front page is being opened.
    OpeningHome,
    /// The stored session is being brought back.
    RestoringSession,
    /// The login link is being looked for.
    FindingLogin,
    /// The login form is being filled in and sent.
    LoggingIn,
    /// The session cookie at this position is being stored.
    SavingSession(usize),
    /// The sign-in has ended.
    Done(SignInOutcome),
}

/// What has to be done next.
#[derive(Clone, Copy, Debug, PartialEq, Eq, Structural)]
pub enum SignInAction {
    /// Open the front page and read the stored session cookie, then call
    /// [`SignIn::home_opened`].
    OpenHome,
    /// Set the stored session cookie and reload the page, then call
    /// [`SignIn::session_restored`].
    RestoreSession,
    /// Look for the login link, then call [`SignIn::login_looked_for`].
    FindLogin,
    /// Follow the login link, fill in user name and password, send the form
    /// and read the cookies, then call [`SignIn::logged_in`].
    LogIn,
    /// Store the cookie at `position` among the cookies that were read,
    /// then call [`SignIn::session_saved`].
    SaveSession { position: usize },
    /// Stop: the sign-in has ended.
    Finish(SignInOutcome),
}

/// The phase that follows the opening of the front page: the stored session
/// is brought back where there is one and it belongs to a signed-in user.
pub open spec fn after_home(stored_session: Option<Seq<char>>) -> SignInPhase {
    match stored_session {
        Some(value) => if has_infix(value, SIGNED_IN_MARK@) {
            SignInPhase::RestoringSession
        } else {
            SignInPhase::FindingLogin
        },
        None => SignInPhase::FindingLogin,
    }
}

/// The phase that follows a login after which cookies with these names were
/// read: the first cookie that is named as the session cookie is stored.
pub open spec fn after_login(cookie_names: Seq<Seq<char>>) -> SignInPhase {
    if exists|p: int| first_session_cookie(cookie_names, p) {
        SignInPhase::SavingSession((choose|p: int| first_session_cookie(cookie_names, p)) as usize)
    } else {
        SignInPhase::Done(SignInOutcome::LoggedIn)
    }
}

/// Whether the cookie at `position` is the first that is named as the
/// session cookie.
pub open spec fn first_session_cookie(cookie_names: Seq<Seq<char>>, position: int) -> bool {
    &&& 0 <= position < cookie_names.len()
    &&& cookie_names[position] == SESSION_COOKIE_NAME@
    &&& forall|i: int| 0 <= i < position ==> cookie_names[i] != SESSION_COOKIE_NAME@
}

/// The sign-in of one run.
#[derive(Clone, Copy, Debug, PartialEq, Eq, Structural)]
pub struct SignIn {
    /// Where the sign-in stands.
    pub phase: SignInPhase,
}

impl SignIn {
    /// The sign-in in another phase, where it is in the phase `from`.
    pub open spec fn moved(self, from: SignInPhase, to: SignInPhase) -> SignIn {
        if self.phase == from {
            SignIn { phase: to }
        } else {
            self
        }
    }

    /// What has to be done next.
    pub open spec fn next_action(self) -> SignInAction {
        match self.phase {
            SignInPhase::OpeningHome => SignInAction::OpenHome,
            SignInPhase::RestoringSession => SignInAction::RestoreSession,
            SignInPhase::FindingLogin => SignInAction::FindLogin,
            SignInPhase::LoggingIn => SignInAction::LogIn,
            SignInPhase::SavingSession(position) => SignInAction::SaveSession { position },
            SignInPhase::Done(outcome) => SignInAction::Finish(outcome),
        }
    }

    /// Starts a sign-in.
    pub fn start() -> (sign_in: SignIn)
        ensures
            sign_in.phase == SignInPhase::OpeningHome,
    {
        SignIn { phase: SignInPhase::OpeningHome }
    }

    /// What has to be done next.
    pub fn action(&self) -> (action: SignInAction)
        ensures
            action == self.next_action(),
    {
        match self.phase {
            SignInPhase::OpeningHome => SignInAction::OpenHome,
            SignInPhase::RestoringSession => SignInAction::RestoreSession,
            SignInPhase::FindingLogin => SignInAction::FindLogin,
            SignInPhase::LoggingIn => SignInAction::LogIn,
            SignInPhase::SavingSession(position) => SignInAction::SaveSession { position },
            SignInPhase::Done(outcome) => SignInAction::Finish(outcome),
        }
    }

    /// Reports that the front page is open, with the value of the stored
    /// session cookie, if there is one. The session is brought back where
    /// it belongs to a signed-in user; otherwise the login link is looked
    /// for at once. Ignored where no page was due.
    pub fn home_opened(&mut self, stored_session: Option<&str>)
        ensures
            *final(self) == old(self).moved(
                SignInPhase::OpeningHome,
                after_home(optional_text(stored_session)),
            ),
    {
        match self.phase {
            SignInPhase::OpeningHome => {
                let restore = match stored_session {
                    Some(value) => cookie_is_signed_in(value),
                    None => false,
                };
                self.phase = if restore {
                    SignInPhase::RestoringSession
                } else {
                    SignInPhase::FindingLogin
                };
            },
            _ => {},
        }
    }

    /// Reports that the stored session was brought back: the login link is
    /// looked for next, since the session may have expired. Ignored where
    /// no session was due.
    pub fn session_restored(&mut self)
        ensures
            *final(self) == old(self).moved(
                SignInPhase::RestoringSession,
                SignInPhase::FindingLogin,
            ),
    {
        match self.phase {
            SignInPhase::RestoringSession => {
                self.phase = SignInPhase::FindingLogin;
            },
            _ => {},
        }
    }

    /// Reports whether the page offers to log in. A page that does not has
    /// a signed-in user; on one that does, the login form is filled in.
    /// Ignored where no login link was looked for.
    pub fn login_looked_for(&mut self, offered: bool)
        ensures
            *final(self) == old(self).moved(
                SignInPhase::FindingLogin,
                if offered {
                    SignInPhase::LoggingIn
                } else {
                    SignInPhase::Done(SignInOutcome::AlreadySignedIn)
                },
            ),
    {
        match self.phase {
            SignInPhase::FindingLogin => {
                self.phase = if offered {
                    SignInPhase::LoggingIn
                } else {
                    SignInPhase::Done(SignInOutcome::AlreadySignedIn)
                };
            },
            _ => {},
        }
    }

    /// Reports that the login form was sent, with the names of the cookies
    /// that the page holds now. The first cookie that is named as the
    /// session cookie is stored for the next run; without one the sign-in
    /// ends here. Ignored where no login was due.
    pub fn logged_in(&mut self, cookie_names: &Vec<String>)
        ensures
            *final(self) == old(self).moved(
                SignInPhase::LoggingIn,
                after_login(names(cookie_names@)),
            ),
    {
        match self.phase {
            SignInPhase::LoggingIn => {
                match find_session_cookie(cookie_names) {
                    Some(position) => {
                        proof {
                            lemma_first_session_cookie(names(cookie_names@), position as int);
                        }
                        self.phase = SignInPhase::SavingSession(position);
                    },
                    None => {
                        assert forall|p: int| !first_session_cookie(names(cookie_names@), p) by {
                            if first_session_cookie(names(cookie_names@), p) {
                                assert(names(cookie_names@)[p] == SESSION_COOKIE_NAME@);
                            }
                        }
                        self.phase = SignInPhase::Done(SignInOutcome::LoggedIn);
                    },
                }
            },
            _ => {},
        }
    }

    /// Reports that the session cookie was stored, which ends the sign-in.
    /// Ignored where no cookie was due.
    pub fn session_saved(&mut self)
        ensures
            *final(self) == (match old(self).phase {
                SignInPhase::SavingSession(_) => SignIn {
                    phase: SignInPhase::Done(SignInOutcome::LoggedIn),
                },
                _ => *old(self),
            }),
    {
        match self.phase {
            SignInPhase::SavingSession(_) => {
                self.phase = SignInPhase::Done(SignInOutcome::LoggedIn);
            },
            _ => {},
        }
    }
}

/// Among given cookies there is at most one first session cookie: where
/// `position` is it, the phase after a login stores the cookie at
/// `position`.
pub proof fn lemma_first_session_cookie(cookie_names: Seq<Seq<char>>, position: int)
    requires
        first_session_cookie(cookie_names, position),
        position <= usize::MAX,
    ensures
        after_login(cookie_names) == SignInPhase::SavingSession(position as usize),
{
    let chosen = choose|p: int| first_session_cookie(cookie_names, p);
    assert(first_session_cookie(cookie_names, chosen));
    if chosen < position {
        assert(cookie_names[chosen] != SESSION_COOKIE_NAME@);
    } else if position < chosen {
        assert(cookie_names[position] != SESSION_COOKIE_NAME@);
    }
}

} // verus!
