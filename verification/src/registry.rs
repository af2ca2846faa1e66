//! Store of the session tokens whose control channel is currently live.
//!
//! The registry is the only state shared between connections. Claiming is a
//! single check-and-insert operation, so a caller that serializes calls (for
//! instance by keeping the registry behind one mutex and calling `try_claim`
//! inside one critical section) gets an atomic claim: there is no separate
//! "check" call whose answer could go stale before a separate "insert".

use vstd::prelude::*;

verus! {

/// The set of session tokens that an open control channel has claimed and
/// not yet released. A registry's view is the set of token byte strings it
/// holds.
pub struct Registry {
    tokens: Vec<Vec<u8>>,
}

impl View for Registry {
    type V = Set<Seq<u8>>;

    closed spec fn view(&self) -> Set<Seq<u8>> {
        Set::new(
            |s: Seq<u8>|
                exists|i: int| 0 <= i < self.tokens@.len() && #[trigger] self.tokens@[i]@ == s,
        )
    }
}

/// Abstract effect of one claim on a registry state `s`: whether the claim
/// is answered "control", and the state afterwards (the token is present
/// either way).
pub open spec fn spec_claim(s: Set<Seq<u8>>, t: Seq<u8>) -> (bool, Set<Seq<u8>>) {
    (!s.contains(t), s.insert(t))
}

/// Abstract effect of releasing a token from a registry state `s`.
pub open spec fn spec_release(s: Set<Seq<u8>>, t: Seq<u8>) -> Set<Seq<u8>> {
    s.remove(t)
}

fn tokens_equal(a: &Vec<u8>, b: &Vec<u8>) -> (r: bool)
    ensures
        r == (a@ == b@),
{
    if a.len() != b.len() {
        return false;
    }
    let mut i: usize = 0;
    while i < a.len()
        invariant
            i <= a@.len(),
            a@.len() == b@.len(),
            forall|j: int| 0 <= j < i ==> a@[j] == b@[j],
        decreases a@.len() - i,
    {
        if a[i] != b[i] {
            return false;
        }
        i += 1;
    }
    proof {
        assert(a@ =~= b@);
    }
    true
}

impl Registry {
    /// No token is stored twice.
    pub closed spec fn wf(&self) -> bool {
        forall|i: int, j: int|
            0 <= i < j < self.tokens@.len() ==> self.tokens@[i]@ != self.tokens@[j]@
    }

    /// An empty registry: no token is claimed.
    pub fn new() -> (r: Registry)
        ensures
            r.wf(),
            r@ == Set::<Seq<u8>>::empty(),
    {
        let r = Registry { tokens: Vec::new() };
        proof {
            assert(r@ =~= Set::<Seq<u8>>::empty());
        }
        r
    }

    /// The atomic check-and-insert that classifies a connection: answers
    /// true ("you are the control channel") exactly when `token` was absent,
    /// and then records it; answers false ("you are a data channel") when it
    /// was already claimed, changing nothing.
    pub fn try_claim(&mut self, token: Vec<u8>) -> (claimed: bool)
        requires
            old(self).wf(),
        ensures
            final(self).wf(),
            claimed == spec_claim(old(self)@, token@).0,
            final(self)@ == spec_claim(old(self)@, token@).1,
            !claimed ==> *final(self) == *old(self),
    {
        let n = self.tokens.len();
        let mut i: usize = 0;
        while i < n
            invariant
                old(self).wf(),
                n == self.tokens@.len(),
                i <= n,
                *self == *old(self),
                forall|j: int| 0 <= j < i ==> #[trigger] self.tokens@[j]@ != token@,
            decreases n - i,
        {
            if tokens_equal(&self.tokens[i], &token) {
                proof {
                    assert(self.tokens@[i as int]@ == token@);
                    assert(old(self)@.contains(token@));
                    assert(self@.insert(token@) =~= self@);
                }
                return false;
            }
            i += 1;
        }
        proof {
            assert(!old(self)@.contains(token@));
        }
        let ghost pre = *self;
        self.tokens.push(token);
        proof {
            assert forall|s: Seq<u8>| self@.contains(s) <==> pre@.insert(token@).contains(s) by {
                if self@.contains(s) {
                    let k = choose|k: int|
                        0 <= k < self.tokens@.len() && #[trigger] self.tokens@[k]@ == s;
                    if k < pre.tokens@.len() {
                        assert(pre.tokens@[k]@ == s);
                    } else {
                        assert(s == token@);
                    }
                }
                if pre@.contains(s) {
                    let k = choose|k: int|
                        0 <= k < pre.tokens@.len() && #[trigger] pre.tokens@[k]@ == s;
                    assert(self.tokens@[k]@ == s);
                }
                if s == token@ {
                    assert(self.tokens@[self.tokens@.len() - 1]@ == s);
                }
            }
            assert(self@ =~= pre@.insert(token@));
            assert forall|a: int, b: int|
                0 <= a < b < self.tokens@.len() implies self.tokens@[a]@ != self.tokens@[b]@ by {
                if b < pre.tokens@.len() {
                    assert(pre.tokens@[a]@ != pre.tokens@[b]@);
                } else {
                    assert(self.tokens@[b]@ == token@);
                    assert(pre.tokens@[a]@ != token@);
                }
            }
        }
        true
    }

    /// Removes `token`; a no-op when it is absent. Called by the control
    /// channel's driver after the end-of-test command, freeing the token for
    /// reuse.
    pub fn release(&mut self, token: &Vec<u8>)
        requires
            old(self).wf(),
        ensures
            final(self).wf(),
            final(self)@ == spec_release(old(self)@, token@),
    {
        let n = self.tokens.len();
        let mut i: usize = 0;
        while i < n
            invariant
                old(self).wf(),
                n == self.tokens@.len(),
                i <= n,
                *self == *old(self),
                forall|j: int| 0 <= j < i ==> #[trigger] self.tokens@[j]@ != token@,
            decreases n - i,
        {
            if tokens_equal(&self.tokens[i], token) {
                let ghost pre = *self;
                let ghost pos = i as int;
                self.tokens.remove(i);
                proof {
                    pre.tokens@.remove_ensures(pos);
                    assert(pre.tokens@[pos]@ == token@);
                    assert forall|s: Seq<u8>|
                        self@.contains(s) <==> pre@.remove(token@).contains(s) by {
                        if self@.contains(s) {
                            let k = choose|k: int|
                                0 <= k < self.tokens@.len() && #[trigger] self.tokens@[k]@ == s;
                            if k < pos {
                                assert(pre.tokens@[k]@ == s);
                            } else {
                                assert(pre.tokens@[k + 1]@ == s);
                            }
                            assert(pre@.contains(s));
                            if s == token@ {
                                // a second occurrence of the token would
                                // contradict well-formedness
                                if k < pos {
                                    assert(pre.tokens@[k]@ != pre.tokens@[pos]@);
                                } else {
                                    assert(pre.tokens@[pos]@ != pre.tokens@[k + 1]@);
                                }
                                assert(false);
                            }
                        }
                        if pre@.remove(token@).contains(s) {
                            let k = choose|k: int|
                                0 <= k < pre.tokens@.len() && #[trigger] pre.tokens@[k]@ == s;
                            if k < pos {
                                assert(self.tokens@[k]@ == s);
                            } else if k == pos {
                                assert(s == token@);
                                assert(false);
                            } else {
                                assert(self.tokens@[k - 1]@ == s);
                            }
                        }
                    }
                    assert(self@ =~= pre@.remove(token@));
                    assert forall|a: int, b: int|
                        0 <= a < b < self.tokens@.len() implies self.tokens@[a]@
                        != self.tokens@[b]@ by {
                        if b < pos {
                            assert(pre.tokens@[a]@ != pre.tokens@[b]@);
                        } else if a < pos {
                            assert(self.tokens@[a]@ == pre.tokens@[a]@);
                            assert(self.tokens@[b]@ == pre.tokens@[b + 1]@);
                        } else {
                            assert(self.tokens@[a]@ == pre.tokens@[a + 1]@);
                            assert(self.tokens@[b]@ == pre.tokens@[b + 1]@);
                        }
                    }
                }
                return;
            }
            i += 1;
        }
        proof {
            assert(!old(self)@.contains(token@));
            assert(self@ =~= old(self)@.remove(token@));
        }
    }

}

/// Token correlation law: starting from any registry state `s` that does not
/// know token `t`, a first claim of `t` is answered "control"; while `t`
/// stays registered, every further claim of it is answered "data" and
/// changes nothing; and once `t` is released, the next claim of `t` is
/// answered "control" again — reuse after release is indistinguishable from
/// first use.
pub proof fn lemma_token_correlation(s: Set<Seq<u8>>, t: Seq<u8>)
    requires
        !s.contains(t),
    ensures
        spec_claim(s, t).0,
        spec_claim(s, t).1.contains(t),
        forall|s2: Set<Seq<u8>>| s2.contains(t) ==> !(#[trigger] spec_claim(s2, t)).0,
        forall|s2: Set<Seq<u8>>| s2.contains(t) ==> (#[trigger] spec_claim(s2, t)).1 == s2,
        !spec_release(spec_claim(s, t).1, t).contains(t),
        spec_claim(spec_release(spec_claim(s, t).1, t), t).0,
{
    assert forall|s2: Set<Seq<u8>>|
        s2.contains(t) implies (#[trigger] spec_claim(s2, t)).1 == s2 by {
        assert(s2.insert(t) =~= s2);
    }
}

/// How many of `n` consecutive claims of token `t`, starting from state `s`,
/// are answered "control".
pub open spec fn control_claims(s: Set<Seq<u8>>, t: Seq<u8>, n: nat) -> nat
    decreases n,
{
    if n == 0 {
        0
    } else {
        let once = spec_claim(s, t);
        (if once.0 {
            1nat
        } else {
            0nat
        }) + control_claims(once.1, t, (n - 1) as nat)
    }
}

/// While a token stays claimed, no claim of it is answered "control".
pub proof fn lemma_no_control_while_claimed(s: Set<Seq<u8>>, t: Seq<u8>, n: nat)
    requires
        s.contains(t),
    ensures
        control_claims(s, t, n) == 0,
    decreases n,
{
    if n > 0 {
        assert(s.insert(t) =~= s);
        lemma_no_control_while_claimed(s, t, (n - 1) as nat);
    }
}

/// Concurrent claim atomicity: when `n >= 1` connections present a token
/// unknown to state `s` and their claims run in any serial order (each claim
/// being one atomic check-and-insert), exactly one connection is answered
/// "control" and the other `n - 1` are answered "data".
pub proof fn lemma_concurrent_claim_atomicity(s: Set<Seq<u8>>, t: Seq<u8>, n: nat)
    requires
        !s.contains(t),
        n >= 1,
    ensures
        control_claims(s, t, n) == 1,
{
    assert(s.insert(t).contains(t));
    lemma_no_control_while_claimed(s.insert(t), t, (n - 1) as nat);
}

} // verus!
