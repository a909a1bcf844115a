//! The issue of credentials.

use crate::certification::{
    days_of, decide_issue, gen_token, insert_passtoken, issue_decision, now, str_to_role_opt,
    well_shaped_token, Passtoken, PasstokenView, Role,
};
use crate::error_handling::{shown_view, QrError, QrErrorView, Result};
use crate::handler::{App, AppView};
use vstd::prelude::*;

verus! {

/// The credential of the role `role` with the token `token`, issued at the
/// time `now` for `limit` days.
pub open spec fn minted(role: Role, limit: usize, token: Seq<char>, now: i64) -> PasstokenView {
    PasstokenView { token, role, created_at: now, limit_days: days_of(limit) }
}

impl AppView {
    /// Whether a credential is owed to who names the role `role_str` and
    /// presents `key`, and of which role and for how many days. A name
    /// that is no role's is turned away as unauthorized.
    pub open spec fn issue_decision(self, role_str: Seq<char>, key: Seq<char>) -> std::result::Result<
        (Role, usize),
        QrErrorView,
    > {
        match Role::named(role_str) {
            None => Err(QrErrorView::Authorized),
            Some(role) => match issue_decision(role, key, self.settings.of(role)) {
                Ok(limit) => Ok((role, limit)),
                Err(e) => Err(e),
            },
        }
    }

    /// What the issue answers, with `token` as the new token and `now` as
    /// the time: the token, once the registry holds the credential.
    pub open spec fn issue_result(
        self,
        role_str: Seq<char>,
        key: Seq<char>,
        token: Seq<char>,
        now: i64,
    ) -> std::result::Result<Seq<char>, QrErrorView> {
        match self.issue_decision(role_str, key) {
            Err(e) => Err(e),
            Ok((role, limit)) => match self.conn.insert_passtoken_result(
                minted(role, limit, token, now),
            ) {
                Err(e) => Err(e),
                Ok(()) => Ok(token),
            },
        }
    }

    /// The service after the issue, with `token` as the new token and
    /// `now` as the time: with the credential in the registry where one
    /// was owed, else as before.
    pub open spec fn after_issue(
        self,
        role_str: Seq<char>,
        key: Seq<char>,
        token: Seq<char>,
        now: i64,
    ) -> AppView {
        match self.issue_decision(role_str, key) {
            Err(_) => self,
            Ok((role, limit)) => AppView {
                conn: self.conn.after_insert_passtoken(minted(role, limit, token, now)),
                ..self
            },
        }
    }
}

/// Issues a credential with the token `token` at the time `now` to who
/// names the role `role_str` and presents `key`, if one is owed, and
/// enters it in the registry.
pub fn issue_passtoken(role_str: &str, key: &str, token: String, now: i64, app: &mut App) -> (res:
    Result<String>)
    requires
        old(app).wf(),
    ensures
        final(app).wf(),
        final(app)@ == old(app)@.after_issue(role_str@, key@, token@, now),
        shown_view(res) == old(app)@.issue_result(role_str@, key@, token@, now),
{
    let role = match str_to_role_opt(role_str) {
        None => {
            return Err(QrError::Authorized);
        },
        Some(role) => role,
    };
    let limit = match decide_issue(role, key, &app.settings) {
        Err(e) => {
            return Err(e);
        },
        Ok(limit) => limit,
    };
    let told = token.clone();
    let passtoken = Passtoken::mint(role, limit, token, now);
    match insert_passtoken(&mut app.conn, passtoken) {
        Err(e) => Err(e),
        Ok(()) => Ok(told),
    }
}

/// Issues a credential, with a new random token and at the time of the
/// clock, to who names the role `role_str` and presents `key`, if one is
/// owed.
pub fn gen_passtoken(role_str: &str, key: &str, app: &mut App) -> (res: Result<String>)
    requires
        old(app).wf(),
    ensures
        final(app).wf(),
        exists|token: Seq<char>, now: i64|
            {
                &&& well_shaped_token(token)
                &&& final(app)@ == #[trigger] old(app)@.after_issue(role_str@, key@, token, now)
                &&& shown_view(res) == old(app)@.issue_result(role_str@, key@, token, now)
            },
{
    let now = now();
    let token = gen_token();
    let ghost chosen = token@;
    let res = issue_passtoken(role_str, key, token, now, app);
    proof {
        assert(well_shaped_token(chosen));
        assert(final(app)@ == old(app)@.after_issue(role_str@, key@, chosen, now));
    }
    res
}

} // verus!
