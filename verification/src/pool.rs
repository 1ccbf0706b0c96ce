//! The pool of backends and its round-robin rotation.

use vstd::prelude::*;

verus! {

/// Why a pool could not be built.
#[derive(Clone, Copy, Debug, PartialEq, Eq, Structural)]
pub enum ConfigError {
    /// The list of backends was empty.
    NoBackends,
}

/// Where the rotation stands: the index of the backend that is chosen next,
/// and how many choices were made so far.
struct Rotation {
    cursor: usize,
    served: Ghost<nat>,
}

/// An ordered, non-empty list of backend addresses with a rotation cursor.
///
/// The pool holds mutable state and no lock: calls of
/// [`BackendPool::get_next_backend`] from several threads need a lock around
/// the pool.
pub struct BackendPool {
    backends: Vec<String>,
    rotation: Rotation,
}

impl BackendPool {
    #[verifier::type_invariant]
    spec fn well_formed(self) -> bool {
        &&& self.backends@.len() > 0
        &&& self.rotation.cursor < self.backends@.len()
        &&& self.rotation.cursor == self.rotation.served@ % self.backends@.len()
    }

    /// The backend addresses, in the order in which they were configured.
    pub closed spec fn backends(self) -> Seq<String> {
        self.backends@
    }

    /// The index of the backend that the next call of
    /// [`BackendPool::get_next_backend`] returns.
    pub closed spec fn cursor(self) -> nat {
        self.rotation.cursor as nat
    }

    /// The number of choices made since the pool was built.
    pub closed spec fn served(self) -> nat {
        self.rotation.served@
    }

    /// Builds a pool whose rotation starts at the first backend. An empty
    /// list is refused.
    pub fn new(backends: Vec<String>) -> (r: Result<BackendPool, ConfigError>)
        ensures
            match r {
                Ok(pool) => {
                    &&& backends@.len() > 0
                    &&& pool.backends() == backends@
                    &&& pool.cursor() == 0
                    &&& pool.served() == 0
                },
                Err(error) => backends@.len() == 0 && error == ConfigError::NoBackends,
            },
    {
        if backends.len() == 0 {
            Err(ConfigError::NoBackends)
        } else {
            proof {
                lemma_rotation_start(backends@.len());
            }
            Ok(BackendPool { backends, rotation: Rotation { cursor: 0, served: Ghost(0) } })
        }
    }

    /// The number of backends.
    pub fn len(&self) -> (n: usize)
        ensures
            n == self.backends().len(),
            n > 0,
    {
        proof {
            use_type_invariant(self);
        }
        self.backends.len()
    }

    /// Returns the backend under the cursor and moves the cursor on by one,
    /// back to the first backend after the last. The choice made after `n`
    /// earlier ones is therefore backend `n` modulo the number of backends.
    pub fn get_next_backend(&mut self) -> (r: &String)
        ensures
            old(self).backends().len() > 0,
            old(self).cursor() == old(self).served() % old(self).backends().len(),
            *r == old(self).backends()[old(self).cursor() as int],
            *r == routed(old(self).backends(), old(self).served()),
            final(self).backends() == old(self).backends(),
            final(self).served() == old(self).served() + 1,
            final(self).cursor() == (old(self).cursor() + 1) % old(self).backends().len(),
            final(self).cursor() == (if old(self).cursor() + 1 == old(self).backends().len() {
                0
            } else {
                old(self).cursor() + 1
            }),
    {
        proof {
            use_type_invariant(&*self);
            lemma_rotation_step(self.rotation.served@, self.backends@.len());
        }
        let count: usize = self.backends.len();
        let at: usize = self.rotation.cursor;
        let next: usize = if at + 1 == count { 0 } else { at + 1 };
        self.rotation = Rotation { cursor: next, served: Ghost((self.rotation.served@ + 1) as nat) };
        &self.backends[at]
    }
}

/// The backend that a pool of these backends chooses after `served` earlier
/// choices.
pub open spec fn routed(backends: Seq<String>, served: nat) -> String
    recommends
        backends.len() > 0,
{
    backends[(served % backends.len()) as int]
}

/// Where the cursor of a pool of `count` backends stands after `served`
/// choices: it starts at the first backend and each choice moves it as
/// [`BackendPool::get_next_backend`] does.
pub open spec fn cursor_after(count: nat, served: nat) -> nat
    decreases served,
{
    if served == 0 {
        0
    } else {
        (cursor_after(count, (served - 1) as nat) + 1) % count
    }
}

/// Round robin: of the connections that a pool of `count` backends serves
/// one after the other, the one numbered `i`, counted from one, finds the
/// cursor at `(i - 1) % count`.
pub proof fn lemma_round_robin(count: nat, i: nat)
    requires
        count > 0,
        i >= 1,
    ensures
        cursor_after(count, (i - 1) as nat) == (i - 1) % (count as int),
    decreases i,
{
    if i == 1 {
        lemma_rotation_start(count);
    } else {
        lemma_round_robin(count, (i - 1) as nat);
        lemma_rotation_step((i - 2) as nat, count);
    }
}

/// A rotation that has made no choice stands at the first backend.
proof fn lemma_rotation_start(count: nat)
    requires
        count > 0,
    ensures
        0nat % count == 0,
{
    vstd::arithmetic::div_mod::lemma_small_mod(0, count);
}

/// One more choice moves the cursor on by one, and from the last backend to
/// the first.
proof fn lemma_rotation_step(served: nat, count: nat)
    requires
        count > 0,
    ensures
        served % count < count,
        (served + 1) % count == (if served % count + 1 == count { 0 } else { served % count + 1 }),
        (served + 1) % count == (served % count + 1) % count,
{
    vstd::arithmetic::div_mod::lemma_mod_bound(served as int, count as int);
    vstd::arithmetic::div_mod::lemma_fundamental_div_mod(served as int, count as int);
    let q = served as int / count as int;
    let r = served as int % count as int;
    if r + 1 == count {
        assert(served + 1 == (q + 1) * count + 0) by (nonlinear_arith)
            requires
                served == count * q + r,
                r + 1 == count,
        ;
        vstd::arithmetic::div_mod::lemma_fundamental_div_mod_converse(served as int + 1, count as int, q + 1, 0);
        vstd::arithmetic::div_mod::lemma_mod_self_0(count as int);
    } else {
        assert(served + 1 == q * count + (r + 1)) by (nonlinear_arith)
            requires
                served == count * q + r,
        ;
        vstd::arithmetic::div_mod::lemma_fundamental_div_mod_converse(served as int + 1, count as int, q, r + 1);
        vstd::arithmetic::div_mod::lemma_small_mod((r + 1) as nat, count);
    }
}

} // verus!
