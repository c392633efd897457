use vstd::prelude::*;

verus! {

/// What the access rules read of a signed-in account.
///
/// `admin` holds the text `"true"` for site administrators; `team_admin`
/// is the number of the team the account administers, `0` for none.
#[derive(Debug)]
pub struct User {
    pub admin: String,
    pub team_admin: i64,
}

/// The text that marks a site administrator in the `admin` field.
pub open spec fn admin_marker() -> Seq<char> {
    "true"@
}

impl User {
    /// The account is a site administrator.
    pub open spec fn spec_is_admin(&self) -> bool {
        self.admin@ == admin_marker()
    }

    /// The account administers some team.
    pub open spec fn spec_is_team_admin(&self) -> bool {
        self.team_admin != 0
    }

    /// Whether the account is a site administrator.
    pub fn is_admin(&self) -> (r: bool)
        ensures
            r == self.spec_is_admin(),
    {
        let marker: String = "true".to_owned();
        self.admin == marker
    }

    /// Whether the account administers a team.
    pub fn is_team_admin(&self) -> (r: bool)
        ensures
            r == self.spec_is_team_admin(),
    {
        self.team_admin != 0
    }
}

} // verus!
