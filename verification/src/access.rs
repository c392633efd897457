use vstd::prelude::*;
use crate::user::User;
use crate::reply::{
    not_signed_in_response, spec_not_signed_in_response, spec_unauthorized_response,
    unauthorized_response, Reply, ReplyView,
};

verus! {

/// The API endpoints that the server routes to its handlers.
#[derive(Clone, Copy, Debug, PartialEq, Eq, Structural)]
pub enum Endpoint {
    /// `POST /api/v1/auth/create`
    AuthCreate,
    /// `POST /api/v1/auth/login`
    AuthLogin,
    /// `GET /logout`
    AuthLogout,
    /// `POST /api/v1/auth/passkey/register_start`
    PasskeyRegisterStart,
    /// `POST /api/v1/auth/passkey/register_finish`
    PasskeyRegisterFinish,
    /// `POST /api/v1/auth/passkey/auth_start/{username}`
    PasskeyAuthStart,
    /// `POST /api/v1/auth/passkey/auth_finish`
    PasskeyAuthFinish,
    /// `GET /api/v1/data/detail/{id}`
    DataDetail,
    /// `GET /api/v1/data/exists/{id}`
    DataExists,
    /// `GET /api/v1/data/brief/team/{args}*`
    DataBriefTeam,
    /// `GET /api/v1/data/brief/match/{args}*`
    DataBriefMatch,
    /// `GET /api/v1/data/brief/event/{args}*`
    DataBriefEvent,
    /// `GET /api/v1/data/brief/user/{args}*`
    DataBriefUser,
    /// `GET /api/v1/data/teams/{args}*`
    DataTeams,
    /// `POST /api/v1/data/submit`
    DataSubmit,
    /// `GET /api/v1/events/teams/{season}/{event}`
    EventTeams,
    /// `GET /api/v1/events/matches/{season}/{event}/{level}/{all}`
    EventMatches,
    /// `GET /api/v1/manage/submission_ids/{args}`
    ManageSubmissionIds,
    /// `GET /api/v1/manage/all_users`
    ManageAllUsers,
    /// `GET /api/v1/manage/team_users`
    ManageTeamUsers,
    /// `GET /api/v1/manage/all_access_keys`
    ManageAllAccessKeys,
    /// `DELETE /api/v1/manage/delete/{id}`
    ManageDeleteSubmission,
    /// `DELETE /api/v1/manage/user/delete/{user_id}`
    ManageDeleteUser,
    /// `DELETE /api/v1/manage/user/team_admin_delete/{user_id}`
    ManageTeamAdminDeleteUser,
    /// `DELETE /api/v1/manage/access_key/delete/{access_key_id}`
    ManageDeleteAccessKey,
    /// `PATCH /api/v1/manage/user/update_admin/{user_id}/{admin}`
    ManageUpdateAdmin,
    /// `PATCH /api/v1/manage/user/update_team_admin/{user_id}/{admin}`
    ManageUpdateTeamAdmin,
    /// `PATCH /api/v1/manage/user/update_points/{user_id}/{modify}`
    ManageUpdatePoints,
    /// `PATCH /api/v1/manage/access_key/update/{id}/{key}`
    ManageUpdateAccessKey,
    /// `POST /api/v1/manage/access_key/create/{key}/{team}`
    ManageCreateAccessKey,
    /// `GET /api/v1/transact/me`
    TransactMe,
    /// `GET /api/v1/whoami`
    WhoAmI,
    /// `GET /api/v1/points/all`
    PointsAll,
    /// `GET /api/v1/casino/spin_thing`
    CasinoSpin,
    /// `GET /api/v1/debug/user`
    DebugUser,
}

/// What an account must be to reach an endpoint.
#[derive(Clone, Copy, Debug, PartialEq, Eq, Structural)]
pub enum Clearance {
    /// Anyone, signed in or not.
    Anyone,
    /// Any signed-in account.
    SignedIn,
    /// A site administrator.
    Admin,
    /// A site administrator or the administrator of some team.
    AdminOrTeamAdmin,
    /// A site administrator, or the administrator of the team of the
    /// account that the request acts on.
    AdminOrTargetTeamAdmin,
}

/// What the server does with a request before running its handler.
#[derive(Clone, Copy, Debug, PartialEq, Eq, Structural)]
pub enum Verdict {
    /// Run the handler.
    Proceed,
    /// No account is signed in: answer `401` from the account extractor.
    NotSignedIn,
    /// The account may not do this: answer with `unauthorized_response`.
    Refused,
    /// Look up the team of the account the request acts on, then decide
    /// with `gate_on_target`.
    NeedTargetTeam,
}

impl Endpoint {
    /// The clearance each endpoint asks for.
    pub open spec fn spec_clearance(self) -> Clearance {
        match self {
            Endpoint::AuthCreate | Endpoint::AuthLogin | Endpoint::AuthLogout
            | Endpoint::PasskeyAuthStart | Endpoint::PasskeyAuthFinish
            | Endpoint::DataTeams => Clearance::Anyone,
            Endpoint::PasskeyRegisterStart | Endpoint::PasskeyRegisterFinish
            | Endpoint::DataDetail | Endpoint::DataExists | Endpoint::DataBriefTeam
            | Endpoint::DataBriefMatch | Endpoint::DataBriefEvent | Endpoint::DataBriefUser
            | Endpoint::DataSubmit | Endpoint::EventTeams | Endpoint::EventMatches
            | Endpoint::TransactMe | Endpoint::WhoAmI | Endpoint::PointsAll
            | Endpoint::CasinoSpin | Endpoint::DebugUser => Clearance::SignedIn,
            Endpoint::ManageSubmissionIds | Endpoint::ManageAllUsers
            | Endpoint::ManageAllAccessKeys | Endpoint::ManageDeleteSubmission
            | Endpoint::ManageDeleteUser | Endpoint::ManageDeleteAccessKey
            | Endpoint::ManageUpdateAdmin | Endpoint::ManageUpdateTeamAdmin
            | Endpoint::ManageUpdatePoints | Endpoint::ManageUpdateAccessKey
            | Endpoint::ManageCreateAccessKey => Clearance::Admin,
            Endpoint::ManageTeamUsers => Clearance::AdminOrTeamAdmin,
            Endpoint::ManageTeamAdminDeleteUser => Clearance::AdminOrTargetTeamAdmin,
        }
    }

    /// The clearance this endpoint asks for.
    pub fn clearance(&self) -> (c: Clearance)
        ensures
            c == self.spec_clearance(),
    {
        match self {
            Endpoint::AuthCreate | Endpoint::AuthLogin | Endpoint::AuthLogout
            | Endpoint::PasskeyAuthStart | Endpoint::PasskeyAuthFinish
            | Endpoint::DataTeams => Clearance::Anyone,
            Endpoint::PasskeyRegisterStart | Endpoint::PasskeyRegisterFinish
            | Endpoint::DataDetail | Endpoint::DataExists | Endpoint::DataBriefTeam
            | Endpoint::DataBriefMatch | Endpoint::DataBriefEvent | Endpoint::DataBriefUser
            | Endpoint::DataSubmit | Endpoint::EventTeams | Endpoint::EventMatches
            | Endpoint::TransactMe | Endpoint::WhoAmI | Endpoint::PointsAll
            | Endpoint::CasinoSpin | Endpoint::DebugUser => Clearance::SignedIn,
            Endpoint::ManageSubmissionIds | Endpoint::ManageAllUsers
            | Endpoint::ManageAllAccessKeys | Endpoint::ManageDeleteSubmission
            | Endpoint::ManageDeleteUser | Endpoint::ManageDeleteAccessKey
            | Endpoint::ManageUpdateAdmin | Endpoint::ManageUpdateTeamAdmin
            | Endpoint::ManageUpdatePoints | Endpoint::ManageUpdateAccessKey
            | Endpoint::ManageCreateAccessKey => Clearance::Admin,
            Endpoint::ManageTeamUsers => Clearance::AdminOrTeamAdmin,
            Endpoint::ManageTeamAdminDeleteUser => Clearance::AdminOrTargetTeamAdmin,
        }
    }
}

/// The check before an endpoint's handler runs, for the account of the request.
pub open spec fn spec_gate(endpoint: Endpoint, user: Option<User>) -> Verdict {
    match endpoint.spec_clearance() {
        Clearance::Anyone => Verdict::Proceed,
        clearance => match user {
            None => Verdict::NotSignedIn,
            Some(u) => match clearance {
                Clearance::Admin => if u.spec_is_admin() {
                    Verdict::Proceed
                } else {
                    Verdict::Refused
                },
                Clearance::AdminOrTeamAdmin => if u.spec_is_admin() || u.spec_is_team_admin() {
                    Verdict::Proceed
                } else {
                    Verdict::Refused
                },
                Clearance::AdminOrTargetTeamAdmin => if u.spec_is_admin() {
                    Verdict::Proceed
                } else if u.spec_is_team_admin() {
                    Verdict::NeedTargetTeam
                } else {
                    Verdict::Refused
                },
                _ => Verdict::Proceed,
            },
        },
    }
}

/// The second gate of a team administrator's request on another account,
/// once the team of that account is known.
pub open spec fn spec_gate_on_target(user: User, target_team: i64) -> Verdict {
    if user.spec_is_admin() || target_team == user.team_admin {
        Verdict::Proceed
    } else {
        Verdict::Refused
    }
}

/// Whether the handler runs, where `target_team` is the team of the account
/// that the request acts on (it matters only where that is looked up).
pub open spec fn spec_allowed(endpoint: Endpoint, user: Option<User>, target_team: i64) -> bool {
    match spec_gate(endpoint, user) {
        Verdict::Proceed => true,
        Verdict::NeedTargetTeam => match user {
            Some(u) => spec_gate_on_target(u, target_team) == Verdict::Proceed,
            None => false,
        },
        _ => false,
    }
}

/// The check before `endpoint`'s handler runs, for the account of the request, if any.
pub fn gate(endpoint: Endpoint, user: Option<&User>) -> (v: Verdict)
    ensures
        v == spec_gate(endpoint, match user {
            Some(u) => Some(*u),
            None => None,
        }),
{
    let clearance = endpoint.clearance();
    match clearance {
        Clearance::Anyone => Verdict::Proceed,
        _ => match user {
            None => Verdict::NotSignedIn,
            Some(u) => match clearance {
                Clearance::Admin => if u.is_admin() {
                    Verdict::Proceed
                } else {
                    Verdict::Refused
                },
                Clearance::AdminOrTeamAdmin => if u.is_admin() || u.is_team_admin() {
                    Verdict::Proceed
                } else {
                    Verdict::Refused
                },
                Clearance::AdminOrTargetTeamAdmin => if u.is_admin() {
                    Verdict::Proceed
                } else if u.is_team_admin() {
                    Verdict::NeedTargetTeam
                } else {
                    Verdict::Refused
                },
                _ => Verdict::Proceed,
            },
        },
    }
}

/// The second gate, once `target_team`, the team of the account that the
/// request acts on, is known.
pub fn gate_on_target(user: &User, target_team: i64) -> (v: Verdict)
    ensures
        v == spec_gate_on_target(*user, target_team),
{
    if user.is_admin() || target_team == user.team_admin {
        Verdict::Proceed
    } else {
        Verdict::Refused
    }
}


/// The answer that turns a request away at a check, `None` where the
/// handler runs or the check is not yet decided (a target team to look up).
pub open spec fn spec_answer(verdict: Verdict) -> Option<ReplyView> {
    match verdict {
        Verdict::NotSignedIn => Some(spec_not_signed_in_response()),
        Verdict::Refused => Some(spec_unauthorized_response()),
        _ => None,
    }
}

/// The answer that turns a request away after `verdict`, if it does.
pub fn answer(verdict: Verdict) -> (r: Option<Reply>)
    ensures
        match r {
            Some(reply) => spec_answer(verdict) == Some(reply@),
            None => spec_answer(verdict) == None::<ReplyView>,
        },
{
    match verdict {
        Verdict::NotSignedIn => Some(not_signed_in_response()),
        Verdict::Refused => Some(unauthorized_response()),
        _ => None,
    }
}

/// A request is turned away exactly when a check does not let it through,
/// always with a `401`: the unauthorized answer when its account is refused,
/// the not-signed-in answer when no account is signed in.
pub proof fn lemma_turned_away_answers(endpoint: Endpoint, user: Option<User>, target_team: i64)
    ensures
        spec_gate(endpoint, user) == Verdict::Refused ==> spec_answer(spec_gate(endpoint, user))
            == Some(spec_unauthorized_response()),
        spec_gate(endpoint, user) == Verdict::NotSignedIn ==> spec_answer(
            spec_gate(endpoint, user),
        ) == Some(spec_not_signed_in_response()),
        spec_answer(spec_gate(endpoint, user)) is None <==> (spec_gate(endpoint, user)
            == Verdict::Proceed || spec_gate(endpoint, user) == Verdict::NeedTargetTeam),
        (user matches Some(u) && spec_gate(endpoint, user) == Verdict::NeedTargetTeam) ==> (
        spec_answer(spec_gate_on_target(user->0, target_team)) is None <==> spec_allowed(
            endpoint,
            user,
            target_team,
        )),
        spec_answer(spec_gate(endpoint, user)) is Some ==> spec_answer(
            spec_gate(endpoint, user),
        )->0.status == 401,
{
}

/// A site administrator passes every gate: every endpoint's handler runs for
/// an administrator, and no target team is ever looked up for one.
pub proof fn lemma_admin_reaches_every_endpoint(endpoint: Endpoint, admin: User, target_team: i64)
    requires
        admin.spec_is_admin(),
    ensures
        spec_gate(endpoint, Some(admin)) == Verdict::Proceed,
        spec_allowed(endpoint, Some(admin), target_team),
{
}

/// Privileges only grow with administration: whatever some request may do,
/// with or without an account, an administrator may do too.
pub proof fn lemma_admin_may_do_what_anyone_may(
    endpoint: Endpoint,
    user: Option<User>,
    admin: User,
    target_team: i64,
)
    requires
        admin.spec_is_admin(),
    ensures
        spec_allowed(endpoint, user, target_team) ==> spec_allowed(
            endpoint,
            Some(admin),
            target_team,
        ),
{
}

/// Without a signed-in account only the public endpoints run, and every
/// other request is turned away as not signed in, never as refused.
pub proof fn lemma_signed_out_reaches_only_public(endpoint: Endpoint, target_team: i64)
    ensures
        spec_allowed(endpoint, None, target_team) <==> endpoint.spec_clearance()
            == Clearance::Anyone,
        endpoint.spec_clearance() != Clearance::Anyone ==> spec_gate(endpoint, None)
            == Verdict::NotSignedIn,
{
}

/// Any signed-in account reaches the public and the signed-in endpoints.
pub proof fn lemma_signed_in_reaches_member_endpoints(endpoint: Endpoint, user: User, target_team: i64)
    requires
        endpoint.spec_clearance() == Clearance::Anyone || endpoint.spec_clearance()
            == Clearance::SignedIn,
    ensures
        spec_allowed(endpoint, Some(user), target_team),
{
}

/// The management endpoints for administrators run exactly for site
/// administrators; a signed-in account that is not one is refused.
pub proof fn lemma_admin_endpoints_only_for_admins(endpoint: Endpoint, user: User, target_team: i64)
    requires
        endpoint.spec_clearance() == Clearance::Admin,
    ensures
        spec_allowed(endpoint, Some(user), target_team) <==> user.spec_is_admin(),
        !user.spec_is_admin() ==> spec_gate(endpoint, Some(user)) == Verdict::Refused,
{
}

/// The team's member list is shown to site administrators and to the
/// administrators of a team, and to no other account.
pub proof fn lemma_team_users_for_team_admins(user: User, target_team: i64)
    ensures
        spec_allowed(Endpoint::ManageTeamUsers, Some(user), target_team) <==> (user.spec_is_admin()
            || user.spec_is_team_admin()),
{
}

/// An account that is not a site administrator may remove exactly the
/// accounts of the team it administers, and none if it administers none.
pub proof fn lemma_team_admin_removes_only_own_members(user: User, target_team: i64)
    requires
        !user.spec_is_admin(),
    ensures
        spec_allowed(Endpoint::ManageTeamAdminDeleteUser, Some(user), target_team) <==> (
        user.spec_is_team_admin() && target_team == user.team_admin),
{
}

/// The team of another account is looked up only to decide a team
/// administrator's removal of that account.
pub proof fn lemma_lookup_only_for_team_admin_removal(endpoint: Endpoint, user: Option<User>)
    ensures
        spec_gate(endpoint, user) == Verdict::NeedTargetTeam <==> (endpoint
            == Endpoint::ManageTeamAdminDeleteUser && user is Some && !user->0.spec_is_admin()
            && user->0.spec_is_team_admin()),
{
}

/// The route table, read off the account fields: the sign-up, login,
/// logout and passkey-login routes and the event team list answer anyone;
/// every other route turns away a request without an account as not signed
/// in; the member routes serve every signed-in account; the management
/// routes serve an account whose `admin` text is `"true"` and refuse every
/// other; the team's member list also serves an account with a nonzero
/// `team_admin`; and removing an account as a team administrator asks for
/// the target's team exactly for a non-administrator with a nonzero
/// `team_admin`.
pub proof fn lemma_route_table(endpoint: Endpoint, user: User)
    ensures
        (endpoint == Endpoint::AuthCreate || endpoint == Endpoint::AuthLogin || endpoint
            == Endpoint::AuthLogout || endpoint == Endpoint::PasskeyAuthStart || endpoint
            == Endpoint::PasskeyAuthFinish || endpoint == Endpoint::DataTeams) ==> spec_gate(
            endpoint,
            None,
        ) == Verdict::Proceed && spec_gate(endpoint, Some(user)) == Verdict::Proceed,
        !(endpoint == Endpoint::AuthCreate || endpoint == Endpoint::AuthLogin || endpoint
            == Endpoint::AuthLogout || endpoint == Endpoint::PasskeyAuthStart || endpoint
            == Endpoint::PasskeyAuthFinish || endpoint == Endpoint::DataTeams) ==> spec_gate(
            endpoint,
            None,
        ) == Verdict::NotSignedIn,
        (endpoint == Endpoint::PasskeyRegisterStart || endpoint == Endpoint::PasskeyRegisterFinish
            || endpoint == Endpoint::DataDetail || endpoint == Endpoint::DataExists || endpoint
            == Endpoint::DataBriefTeam || endpoint == Endpoint::DataBriefMatch || endpoint
            == Endpoint::DataBriefEvent || endpoint == Endpoint::DataBriefUser || endpoint
            == Endpoint::DataSubmit || endpoint == Endpoint::EventTeams || endpoint
            == Endpoint::EventMatches || endpoint == Endpoint::TransactMe || endpoint
            == Endpoint::WhoAmI || endpoint == Endpoint::PointsAll || endpoint
            == Endpoint::CasinoSpin || endpoint == Endpoint::DebugUser) ==> spec_gate(
            endpoint,
            Some(user),
        ) == Verdict::Proceed,
        (endpoint == Endpoint::ManageSubmissionIds || endpoint == Endpoint::ManageAllUsers
            || endpoint == Endpoint::ManageAllAccessKeys || endpoint
            == Endpoint::ManageDeleteSubmission || endpoint == Endpoint::ManageDeleteUser
            || endpoint == Endpoint::ManageDeleteAccessKey || endpoint
            == Endpoint::ManageUpdateAdmin || endpoint == Endpoint::ManageUpdateTeamAdmin
            || endpoint == Endpoint::ManageUpdatePoints || endpoint
            == Endpoint::ManageUpdateAccessKey || endpoint == Endpoint::ManageCreateAccessKey)
            ==> spec_gate(endpoint, Some(user)) == (if user.admin@ == "true"@ {
            Verdict::Proceed
        } else {
            Verdict::Refused
        }),
        endpoint == Endpoint::ManageTeamUsers ==> spec_gate(endpoint, Some(user)) == (if user.admin@
            == "true"@ || user.team_admin != 0 {
            Verdict::Proceed
        } else {
            Verdict::Refused
        }),
        endpoint == Endpoint::ManageTeamAdminDeleteUser ==> spec_gate(endpoint, Some(user)) == (
        if user.admin@ == "true"@ {
            Verdict::Proceed
        } else if user.team_admin != 0 {
            Verdict::NeedTargetTeam
        } else {
            Verdict::Refused
        }),
{
}

/// The second check of a removal, read off the account fields: an account
/// whose `admin` text is `"true"` may remove an account of any team, whatever
/// team it administers; any other account exactly the accounts of the team
/// numbered by its `team_admin`.
pub proof fn lemma_second_check(user: User, target_team: i64)
    ensures
        user.admin@ == "true"@ ==> spec_gate_on_target(user, target_team) == Verdict::Proceed,
        user.admin@ != "true"@ ==> (spec_gate_on_target(user, target_team) == Verdict::Proceed
            <==> target_team == user.team_admin),
        spec_gate_on_target(user, target_team) == Verdict::Proceed || spec_gate_on_target(
            user,
            target_team,
        ) == Verdict::Refused,
{
}

/// The account checks, read off the fields: an account is a site
/// administrator exactly when its `admin` text is `"true"`, and administers
/// a team exactly when its `team_admin` is not zero, whatever that number.
pub proof fn lemma_account_checks(user: User)
    ensures
        user.spec_is_admin() <==> user.admin@ == "true"@,
        user.spec_is_team_admin() <==> user.team_admin != 0,
{
}

} // verus!
