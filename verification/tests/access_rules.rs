use bear_tracks::access::{answer, gate, gate_on_target, Clearance, Endpoint, Verdict};
use bear_tracks::user::User;

fn admin() -> User {
    User { admin: "true".to_string(), team_admin: 0 }
}

fn team_admin_of(team: i64) -> User {
    User { admin: "false".to_string(), team_admin: team }
}

fn scout() -> User {
    User { admin: "false".to_string(), team_admin: 0 }
}

const ALL: [Endpoint; 35] = [
    Endpoint::AuthCreate,
    Endpoint::AuthLogin,
    Endpoint::AuthLogout,
    Endpoint::PasskeyRegisterStart,
    Endpoint::PasskeyRegisterFinish,
    Endpoint::PasskeyAuthStart,
    Endpoint::PasskeyAuthFinish,
    Endpoint::DataDetail,
    Endpoint::DataExists,
    Endpoint::DataBriefTeam,
    Endpoint::DataBriefMatch,
    Endpoint::DataBriefEvent,
    Endpoint::DataBriefUser,
    Endpoint::DataTeams,
    Endpoint::DataSubmit,
    Endpoint::EventTeams,
    Endpoint::EventMatches,
    Endpoint::ManageSubmissionIds,
    Endpoint::ManageAllUsers,
    Endpoint::ManageTeamUsers,
    Endpoint::ManageAllAccessKeys,
    Endpoint::ManageDeleteSubmission,
    Endpoint::ManageDeleteUser,
    Endpoint::ManageTeamAdminDeleteUser,
    Endpoint::ManageDeleteAccessKey,
    Endpoint::ManageUpdateAdmin,
    Endpoint::ManageUpdateTeamAdmin,
    Endpoint::ManageUpdatePoints,
    Endpoint::ManageUpdateAccessKey,
    Endpoint::ManageCreateAccessKey,
    Endpoint::TransactMe,
    Endpoint::WhoAmI,
    Endpoint::PointsAll,
    Endpoint::CasinoSpin,
    Endpoint::DebugUser,
];

#[test]
fn admin_marker_is_the_text_true() {
    assert!(admin().is_admin());
    assert!(!scout().is_admin());
    let odd = User { admin: "True".to_string(), team_admin: 0 };
    assert!(!odd.is_admin());
    let empty = User { admin: String::new(), team_admin: 0 };
    assert!(!empty.is_admin());
}

#[test]
fn team_admin_flag_is_nonzero_team() {
    assert!(team_admin_of(254).is_team_admin());
    assert!(!scout().is_team_admin());
    let negative = User { admin: "false".to_string(), team_admin: -3 };
    assert!(negative.is_team_admin());
}

#[test]
fn admin_reaches_every_endpoint() {
    let a = admin();
    for e in ALL {
        assert_eq!(gate(e, Some(&a)), Verdict::Proceed);
    }
    assert_eq!(gate_on_target(&a, 1), Verdict::Proceed);
    assert_eq!(gate_on_target(&a, 9999), Verdict::Proceed);
}

#[test]
fn signed_out_reaches_only_public_endpoints() {
    for e in ALL {
        let v = gate(e, None);
        if e.clearance() == Clearance::Anyone {
            assert_eq!(v, Verdict::Proceed);
        } else {
            assert_eq!(v, Verdict::NotSignedIn);
        }
    }
    assert_eq!(gate(Endpoint::DataTeams, None), Verdict::Proceed);
    assert_eq!(gate(Endpoint::AuthLogin, None), Verdict::Proceed);
    assert_eq!(gate(Endpoint::WhoAmI, None), Verdict::NotSignedIn);
    assert_eq!(gate(Endpoint::ManageAllUsers, None), Verdict::NotSignedIn);
}

#[test]
fn scout_reaches_member_endpoints_and_is_refused_management() {
    let s = scout();
    for e in ALL {
        let v = gate(e, Some(&s));
        match e.clearance() {
            Clearance::Anyone | Clearance::SignedIn => assert_eq!(v, Verdict::Proceed),
            _ => assert_eq!(v, Verdict::Refused),
        }
    }
}

#[test]
fn admin_endpoints_refuse_team_admins() {
    let t = team_admin_of(1678);
    for e in ALL {
        if e.clearance() == Clearance::Admin {
            assert_eq!(gate(e, Some(&t)), Verdict::Refused);
        }
    }
    assert_eq!(gate(Endpoint::ManageDeleteUser, Some(&t)), Verdict::Refused);
    assert_eq!(gate(Endpoint::ManageUpdatePoints, Some(&t)), Verdict::Refused);
}

#[test]
fn team_users_listed_for_team_admins() {
    assert_eq!(gate(Endpoint::ManageTeamUsers, Some(&team_admin_of(1678))), Verdict::Proceed);
    assert_eq!(gate(Endpoint::ManageTeamUsers, Some(&admin())), Verdict::Proceed);
    assert_eq!(gate(Endpoint::ManageTeamUsers, Some(&scout())), Verdict::Refused);
}

#[test]
fn team_admin_removes_only_own_members() {
    let t = team_admin_of(1678);
    assert_eq!(gate(Endpoint::ManageTeamAdminDeleteUser, Some(&t)), Verdict::NeedTargetTeam);
    assert_eq!(gate_on_target(&t, 1678), Verdict::Proceed);
    assert_eq!(gate_on_target(&t, 1679), Verdict::Refused);
    assert_eq!(gate_on_target(&t, 0), Verdict::Refused);
    assert_eq!(gate(Endpoint::ManageTeamAdminDeleteUser, Some(&scout())), Verdict::Refused);
    assert_eq!(gate(Endpoint::ManageTeamAdminDeleteUser, Some(&admin())), Verdict::Proceed);
}

#[test]
fn lookup_only_for_team_admin_removal() {
    let t = team_admin_of(42);
    for e in ALL {
        let v = gate(e, Some(&t));
        assert_eq!(v == Verdict::NeedTargetTeam, e == Endpoint::ManageTeamAdminDeleteUser);
    }
}

#[test]
fn clearances_of_the_routes() {
    assert_eq!(Endpoint::DataTeams.clearance(), Clearance::Anyone);
    assert_eq!(Endpoint::PasskeyAuthStart.clearance(), Clearance::Anyone);
    assert_eq!(Endpoint::PasskeyRegisterStart.clearance(), Clearance::SignedIn);
    assert_eq!(Endpoint::DebugUser.clearance(), Clearance::SignedIn);
    assert_eq!(Endpoint::ManageSubmissionIds.clearance(), Clearance::Admin);
    assert_eq!(Endpoint::ManageTeamUsers.clearance(), Clearance::AdminOrTeamAdmin);
    assert_eq!(Endpoint::ManageTeamAdminDeleteUser.clearance(), Clearance::AdminOrTargetTeamAdmin);
}

#[test]
fn answers_to_each_verdict() {
    assert!(answer(Verdict::Proceed).is_none());
    assert!(answer(Verdict::NeedTargetTeam).is_none());
    let refused = answer(Verdict::Refused).unwrap();
    assert_eq!(refused.status, 401);
    assert_eq!(refused.headers, vec![("Cache-Control".to_string(), "no-cache".to_string())]);
    assert_eq!(refused.body, "{\"status\": \"unauthorized\"}");
    let signed_out = answer(Verdict::NotSignedIn).unwrap();
    assert_eq!(signed_out.status, 401);
    assert_eq!(
        signed_out.headers,
        vec![("content-type".to_string(), "text/plain; charset=utf-8".to_string())]
    );
}

#[test]
fn turned_away_requests_get_401() {
    let t = team_admin_of(1678);
    for e in ALL {
        for u in [None, Some(admin()), Some(scout()), Some(t.clone_fields())] {
            let v = gate(e, u.as_ref());
            match answer(v) {
                Some(r) => {
                    assert_eq!(r.status, 401);
                    assert!(v == Verdict::Refused || v == Verdict::NotSignedIn);
                }
                None => assert!(v == Verdict::Proceed || v == Verdict::NeedTargetTeam),
            }
        }
    }
    let v = gate_on_target(&t, 1679);
    assert_eq!(answer(v).map(|r| r.status), Some(401));
    assert!(answer(gate_on_target(&t, 1678)).is_none());
}

trait CloneFields {
    fn clone_fields(&self) -> User;
}

impl CloneFields for User {
    fn clone_fields(&self) -> User {
        User { admin: self.admin.clone(), team_admin: self.team_admin }
    }
}
