use vstd::prelude::*;
use vstd::hash_map::StringHashMap;

verus! {

/// The signed-in sessions: each session identity maps to its account `A`.
#[verifier::reject_recursive_types(A)]
pub struct Sessions<A> {
    user_map: StringHashMap<A>,
}

impl<A> View for Sessions<A> {
    type V = Map<Seq<char>, A>;

    closed spec fn view(&self) -> Map<Seq<char>, A> {
        self.user_map@
    }
}

/// The account that `identity` is signed in as in `sessions`, if any.
pub open spec fn signed_in_as<A>(sessions: Map<Seq<char>, A>, identity: Seq<char>) -> Option<A> {
    if sessions.contains_key(identity) {
        Some(sessions[identity])
    } else {
        None
    }
}

/// The account a request belongs to: none without an identity cookie,
/// else the one the identity is signed in as.
pub open spec fn spec_authenticate<A>(
    sessions: Map<Seq<char>, A>,
    identity: Option<Seq<char>>,
) -> Option<A> {
    match identity {
        Some(id) => signed_in_as(sessions, id),
        None => None,
    }
}

impl<A> Sessions<A> {
    /// No one signed in.
    pub fn new() -> (s: Sessions<A>)
        ensures
            s@ == Map::<Seq<char>, A>::empty(),
    {
        Sessions { user_map: StringHashMap::new() }
    }

    /// Records that `identity` is signed in as `user`, replacing any earlier
    /// account of that identity.
    pub fn sign_in(&mut self, identity: String, user: A)
        ensures
            final(self)@ == old(self)@.insert(identity@, user),
    {
        self.user_map.insert(identity, user);
    }

    /// Ends the session of `identity`, if there is one.
    pub fn sign_out(&mut self, identity: &str)
        ensures
            final(self)@ == old(self)@.remove(identity@),
    {
        self.user_map.remove(identity);
    }

    /// The account that `identity` is signed in as.
    pub fn user_for(&self, identity: &str) -> (r: Option<&A>)
        ensures
            match r {
                Some(u) => signed_in_as(self@, identity@) == Some(*u),
                None => signed_in_as(self@, identity@) == None::<A>,
            },
    {
        self.user_map.get(identity)
    }

    /// The account of a request whose identity cookie gave `identity`.
    pub fn authenticate(&self, identity: Option<&str>) -> (r: Option<&A>)
        ensures
            ({
                let expected = spec_authenticate(self@, match identity {
                    Some(id) => Some(id@),
                    None => None,
                });
                match r {
                    Some(u) => expected == Some(*u),
                    None => expected == None::<A>,
                }
            }),
    {
        match identity {
            Some(id) => self.user_for(id),
            None => None,
        }
    }
}

/// The account of a request on a server whose session store is `store`:
/// none where no store is set up, else as `spec_authenticate`.
pub open spec fn spec_authenticate_in<A>(
    store: Option<Map<Seq<char>, A>>,
    identity: Option<Seq<char>>,
) -> Option<A> {
    match store {
        Some(sessions) => spec_authenticate(sessions, identity),
        None => None,
    }
}

/// The account of a request whose identity cookie gave `identity`, on a
/// server whose session store is `store` (`None` where none is set up).
pub fn authenticate_in<'a, A>(store: Option<&'a Sessions<A>>, identity: Option<&str>) -> (r: Option<&'a A>)
    ensures
        ({
            let expected = spec_authenticate_in(
                match store {
                    Some(s) => Some(s@),
                    None => None,
                },
                match identity {
                    Some(id) => Some(id@),
                    None => None,
                },
            );
            match r {
                Some(u) => expected == Some(*u),
                None => expected == None::<A>,
            }
        }),
{
    match store {
        Some(sessions) => sessions.authenticate(identity),
        None => None,
    }
}

impl<A> Default for Sessions<A> {
    /// No one signed in.
    fn default() -> (s: Sessions<A>)
        ensures
            s@ == Map::<Seq<char>, A>::empty(),
    {
        Sessions::new()
    }
}

/// A read gives back what the last write left: right after `identity` signs
/// in as `user` it is signed in as `user`, right after it signs out it is
/// signed in as no one, and either leaves every other identity as it was.
pub proof fn lemma_sign_in_out_lookup<A>(
    sessions: Map<Seq<char>, A>,
    identity: Seq<char>,
    user: A,
    other: Seq<char>,
)
    ensures
        signed_in_as(sessions.insert(identity, user), identity) == Some(user),
        signed_in_as(sessions.remove(identity), identity) == None::<A>,
        other != identity ==> signed_in_as(sessions.insert(identity, user), other) == signed_in_as(
            sessions,
            other,
        ),
        other != identity ==> signed_in_as(sessions.remove(identity), other) == signed_in_as(
            sessions,
            other,
        ),
{
}

/// Resolving an identity, read off the session map: a request with an
/// identity gets exactly the account stored under that identity, whatever
/// the identity, and none where nothing is stored under it; a request
/// without one gets none; and a server with no store gives none.
pub proof fn lemma_resolution<A>(sessions: Map<Seq<char>, A>, identity: Seq<char>, user: A)
    ensures
        sessions.contains_key(identity) ==> spec_authenticate(sessions, Some(identity)) == Some(
            sessions[identity],
        ),
        !sessions.contains_key(identity) ==> spec_authenticate(sessions, Some(identity)) == None::<
            A,
        >,
        spec_authenticate(sessions, None) == None::<A>,
        spec_authenticate(sessions.insert(identity, user), Some(identity)) == Some(user),
        spec_authenticate(sessions.remove(identity), Some(identity)) == None::<A>,
        spec_authenticate_in(Some(sessions), Some(identity)) == spec_authenticate(
            sessions,
            Some(identity),
        ),
        spec_authenticate_in(None::<Map<Seq<char>, A>>, Some(identity)) == None::<A>,
{
}

} // verus!
