//! The token table consulted by the HTTP entry points, and the lookup of the
//! user that an in-band handshake names.
use vstd::prelude::*;
use crate::config::User;

verus! {

/// The set of tokens that the configured users hold.
#[derive(Clone)]
pub struct AuthState {
    tokens: Vec<String>,
}

/// A token passed in the query string (`?token=...`).
#[derive(Debug, Clone, Default)]
pub struct TokenQuery {
    pub token: Option<String>,
}

/// Some user in `users` holds `token`.
pub open spec fn token_known(users: Seq<User>, token: Seq<char>) -> bool {
    exists|i: int| 0 <= i < users.len() && #[trigger] users[i].token@ == token
}

/// `i` is the first user in `users` that holds `token`.
pub open spec fn is_first_holder(users: Seq<User>, token: Seq<char>, i: int) -> bool {
    &&& 0 <= i < users.len()
    &&& users[i].token@ == token
    &&& forall|m: int| 0 <= m < i ==> #[trigger] users[m].token@ != token
}

/// The user that a handshake presenting `token` authenticates as: the first
/// holder of the token, if any.
pub open spec fn holder_of(users: Seq<User>, token: Seq<char>) -> Option<User> {
    if exists|i: int| is_first_holder(users, token, i) {
        Some(users[choose|i: int| is_first_holder(users, token, i)])
    } else {
        None
    }
}

/// The token a request presents: the header's when there is one, else the query's.
pub open spec fn presented(header: Option<Seq<char>>, query: Option<Seq<char>>) -> Option<Seq<char>> {
    match header {
        Some(h) => Some(h),
        None => query,
    }
}

impl View for AuthState {
    type V = Set<Seq<char>>;

    closed spec fn view(&self) -> Set<Seq<char>> {
        Set::new(|t: Seq<char>| exists|i: int| 0 <= i < self.tokens@.len() && #[trigger] self.tokens@[i]@ == t)
    }
}

impl AuthState {
    /// The token table of `users`.
    pub fn new(users: &[User]) -> (r: Self)
        ensures
            forall|t: Seq<char>| #[trigger] r@.contains(t) <==> token_known(users@, t),
    {
        let mut tokens: Vec<String> = Vec::new();
        let mut i: usize = 0;
        while i < users.len()
            invariant
                i <= users@.len(),
                tokens@.len() == i,
                forall|k: int| 0 <= k < i ==> #[trigger] tokens@[k]@ == users@[k].token@,
            decreases users@.len() - i,
        {
            tokens.push(users[i].token.clone());
            i = i + 1;
        }
        let r = AuthState { tokens };
        assert forall|t: Seq<char>| #[trigger] r@.contains(t) <==> token_known(users@, t) by {
            if token_known(users@, t) {
                let i = choose|i: int| 0 <= i < users@.len() && #[trigger] users@[i].token@ == t;
                assert(r.tokens@[i]@ == t);
            }
            if r@.contains(t) {
                let i = choose|i: int| 0 <= i < r.tokens@.len() && #[trigger] r.tokens@[i]@ == t;
                assert(users@[i].token@ == t);
            }
        }
        r
    }

    /// Whether `token` is in the table.
    pub fn contains(&self, token: &String) -> (r: bool)
        ensures
            r == self@.contains(token@),
    {
        let mut i: usize = 0;
        while i < self.tokens.len()
            invariant
                i <= self.tokens@.len(),
                forall|k: int| 0 <= k < i ==> #[trigger] self.tokens@[k]@ != token@,
            decreases self.tokens@.len() - i,
        {
            if self.tokens[i] == *token {
                assert(self.tokens@[i as int]@ == token@);
                return true;
            }
            i = i + 1;
        }
        false
    }

    /// Whether a request is let through: the token in the `x-token` header is
    /// preferred, the query's is used otherwise, and the request passes exactly
    /// when a token is presented and is in the table.
    pub fn admits(&self, header: Option<&String>, query: &TokenQuery) -> (r: bool)
        ensures
            r == (match presented(
                match header {
                    Some(h) => Some(h@),
                    None => None,
                },
                match query.token {
                    Some(q) => Some(q@),
                    None => None,
                },
            ) {
                Some(t) => self@.contains(t),
                None => false,
            }),
    {
        match header {
            Some(h) => self.contains(h),
            None => match &query.token {
                Some(q) => self.contains(q),
                None => false,
            },
        }
    }
}

/// The first user that holds `token`, if any.
pub fn find_user(users: &Vec<User>, token: &String) -> (r: Option<User>)
    ensures
        r == holder_of(users@, token@),
        r is None <==> !token_known(users@, token@),
{
    let mut i: usize = 0;
    while i < users.len()
        invariant
            i <= users@.len(),
            forall|m: int| 0 <= m < i ==> #[trigger] users@[m].token@ != token@,
        decreases users@.len() - i,
    {
        if users[i].token == *token {
            assert(is_first_holder(users@, token@, i as int));
            assert forall|j: int| is_first_holder(users@, token@, j) implies j == i by {
                if j < i {
                } else if j > i {
                    assert(users@[i as int].token@ == token@);
                }
            }
            return Some(users[i].copy());
        }
        i = i + 1;
    }
    None
}

} // verus!
