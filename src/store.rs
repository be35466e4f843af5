//! The configuration store: one validated snapshot, replaced whole on reload.
use vstd::prelude::*;
use crate::config::{Config, ConfigError, users_valid};

verus! {

/// Holds the active configuration. Every snapshot it has held passed validation.
pub struct ConfigStore {
    current: Config,
}

/// The snapshot after a reload attempt with `candidate`: the candidate when it
/// is valid, the previous snapshot otherwise.
pub open spec fn reloaded(previous: Config, candidate: Config) -> Config {
    if users_valid(candidate.users@) {
        candidate
    } else {
        previous
    }
}

impl View for ConfigStore {
    type V = Config;

    closed spec fn view(&self) -> Config {
        self.current
    }
}

impl ConfigStore {
    /// The store holds a valid snapshot.
    pub open spec fn wf(&self) -> bool {
        users_valid(self@.users@)
    }

    /// A store holding `config`, if `config` passes validation.
    pub fn new(config: Config) -> (r: Result<Self, ConfigError>)
        ensures
            r is Ok <==> users_valid(config.users@),
            r matches Ok(s) ==> s@ == config && s.wf(),
    {
        match config.validate() {
            Ok(()) => Ok(ConfigStore { current: config }),
            Err(e) => Err(e),
        }
    }

    /// The active snapshot.
    pub fn current(&self) -> (r: &Config)
        ensures
            *r == self@,
    {
        &self.current
    }

    /// Replaces the snapshot with a configuration that has already passed
    /// validation; the swap itself checks nothing.
    pub fn replace(&mut self, candidate: Config)
        requires
            users_valid(candidate.users@),
        ensures
            final(self).wf(),
            final(self)@ == candidate,
    {
        self.current = candidate;
    }

    /// Replaces the snapshot with `candidate` if it passes validation and
    /// returns its number of users; otherwise keeps the snapshot and returns
    /// the validation error.
    pub fn reload(&mut self, candidate: Config) -> (r: Result<usize, ConfigError>)
        requires
            old(self).wf(),
        ensures
            final(self).wf(),
            final(self)@ == reloaded(old(self)@, candidate),
            r is Ok <==> users_valid(candidate.users@),
            r matches Ok(n) ==> n == candidate.users@.len(),
    {
        match candidate.validate() {
            Ok(()) => {
                let n = candidate.users.len();
                self.current = candidate;
                Ok(n)
            }
            Err(e) => Err(e),
        }
    }
}

/// A configuration in which two users share a token is refused, and a reload
/// with it leaves the previous snapshot active.
pub proof fn duplicate_tokens_keep_previous(previous: Config, candidate: Config, i: int, j: int)
    requires
        0 <= i < j < candidate.users@.len(),
        candidate.users@[i].token@ == candidate.users@[j].token@,
    ensures
        !users_valid(candidate.users@),
        reloaded(previous, candidate) == previous,
{
    assert(crate::config::repeats_token(candidate.users@, j));
}

} // verus!
