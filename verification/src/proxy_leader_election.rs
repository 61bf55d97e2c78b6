//! Round-robin leader election among the proxy validators.
//!
//! The leader of round `r` is validator `r mod n` of the ordered list of `n`
//! proxy validators.
use crate::types::{Author, Round};
use vstd::prelude::*;

verus! {

/// The leader of `round` among `validators`.
pub open spec fn leader_of(validators: Seq<Author>, round: Round) -> Author {
    validators[(round % (validators.len() as u64)) as int]
}

/// The first position of `a` in `validators`, if it occurs.
pub open spec fn first_position(validators: Seq<Author>, a: Author) -> Option<int>
    decreases validators.len(),
{
    if validators.len() == 0 {
        None
    } else {
        match first_position(validators.drop_last(), a) {
            Some(i) => Some(i),
            None => if validators.last() == a {
                Some(validators.len() - 1)
            } else {
                None
            },
        }
    }
}

/// The first round from `from_round` on whose leader position is `position`,
/// among `n` validators.
pub open spec fn next_round_at(position: int, from_round: Round, n: int) -> int {
    let current = from_round as int % n;
    if position >= current {
        from_round + (position - current)
    } else {
        from_round + (n - current + position)
    }
}

/// The round returned for `author`: the next round from `from_round` on
/// whose leader position is the author's first position.
pub open spec fn next_leader_round_spec(validators: Seq<Author>, author: Author, from_round: Round) -> Option<int> {
    match first_position(validators, author) {
        Some(p) => Some(next_round_at(p, from_round, validators.len() as int)),
        None => None,
    }
}

/// `first_position` finds an occurrence, and no earlier one.
proof fn lemma_first_position(validators: Seq<Author>, a: Author)
    ensures
        match first_position(validators, a) {
            Some(p) => 0 <= p < validators.len() && validators[p] == a && forall|k: int|
                0 <= k < p ==> validators[k] != a,
            None => !validators.contains(a),
        },
    decreases validators.len(),
{
    if validators.len() > 0 {
        let t = validators.drop_last();
        lemma_first_position(t, a);
        match first_position(t, a) {
            Some(p) => {
                assert(validators[p] == t[p]);
                assert forall|k: int| 0 <= k < p implies validators[k] != a by {
                    assert(validators[k] == t[k]);
                }
            },
            None => {
                if validators.last() == a {
                    assert forall|k: int| 0 <= k < validators.len() - 1 implies validators[k] != a by {
                        assert(validators[k] == t[k]);
                        assert(!t.contains(a));
                    }
                } else {
                    assert forall|k: int| 0 <= k < validators.len() implies validators[k] != a by {
                        if k < validators.len() - 1 {
                            assert(validators[k] == t[k]);
                        }
                    }
                }
            },
        }
    }
}

/// Whether `author` occurs in `validators`.
pub fn contains_author(validators: &[Author], author: &Author) -> (b: bool)
    ensures
        b == validators@.contains(*author),
{
    let mut i: usize = 0;
    while i < validators.len()
        invariant
            i <= validators@.len(),
            forall|k: int| 0 <= k < i ==> validators@[k] != *author,
        decreases validators@.len() - i,
    {
        if validators[i] == *author {
            assert(validators@[i as int] == *author);
            return true;
        }
        i = i + 1;
    }
    false
}

/// Simple round-robin leader election among proxy validators.
#[derive(Clone, Debug)]
pub struct ProxyLeaderElection {
    /// The ordered list of proxy validators.
    proxy_validators: Vec<Author>,
    /// This node's author address.
    author: Author,
}

/// The model of a [`ProxyLeaderElection`].
pub struct ProxyLeaderElectionView {
    pub validators: Seq<Author>,
    pub author: Author,
}

impl View for ProxyLeaderElection {
    type V = ProxyLeaderElectionView;

    closed spec fn view(&self) -> ProxyLeaderElectionView {
        ProxyLeaderElectionView { validators: self.proxy_validators@, author: self.author }
    }
}

impl ProxyLeaderElection {
    /// The well-formedness of an election: there is a validator, and their
    /// number fits a round.
    pub open spec fn wf(&self) -> bool {
        &&& 0 < self@.validators.len()
        &&& self@.validators.len() <= u64::MAX
    }

    /// The election among the given validators for this node's `author`; the
    /// list may not be empty.
    pub fn new(proxy_validators: Vec<Author>, author: Author) -> (e: Self)
        requires
            proxy_validators@.len() > 0,
        ensures
            e@ == (ProxyLeaderElectionView { validators: proxy_validators@, author }),
            e.wf(),
    {
        assert(proxy_validators@.len() == proxy_validators.len());
        ProxyLeaderElection { proxy_validators, author }
    }

    /// The leader of `round`: validator `round mod n`.
    pub fn get_leader(&self, round: Round) -> (a: Author)
        requires
            self.wf(),
        ensures
            a == leader_of(self@.validators, round),
    {
        let n = self.proxy_validators.len() as u64;
        let index = (round % n) as usize;
        self.proxy_validators[index]
    }

    /// Whether this node leads `round`.
    pub fn is_leader(&self, round: Round) -> (b: bool)
        requires
            self.wf(),
        ensures
            b == (leader_of(self@.validators, round) == self@.author),
    {
        self.get_leader(round) == self.author
    }

    /// The number of proxy validators.
    pub fn num_validators(&self) -> (n: usize)
        ensures
            n == self@.validators.len(),
    {
        self.proxy_validators.len()
    }

    /// The proxy validators, in order.
    pub fn validators(&self) -> (v: &[Author])
        ensures
            v@ == self@.validators,
    {
        self.proxy_validators.as_slice()
    }

    /// This node's author address.
    pub fn author(&self) -> (a: Author)
        ensures
            a == self@.author,
    {
        self.author
    }

    /// Whether `author` is a proxy validator.
    pub fn is_proxy_validator(&self, author: &Author) -> (b: bool)
        ensures
            b == self@.validators.contains(*author),
    {
        contains_author(self.proxy_validators.as_slice(), author)
    }

    /// The next round, from `from_round` on, that `author` leads (by its first
    /// position in the list); `None` if it is not a proxy validator.
    pub fn next_leader_round(&self, author: &Author, from_round: Round) -> (r: Option<Round>)
        requires
            self.wf(),
            next_leader_round_spec(self@.validators, *author, from_round) matches Some(x) ==> x
                <= u64::MAX,
        ensures
            match next_leader_round_spec(self@.validators, *author, from_round) {
                Some(x) => r == Some(x as Round),
                None => r is None,
            },
    {
        proof {
            lemma_first_position(self@.validators, *author);
        }
        let mut position: usize = 0;
        while position < self.proxy_validators.len() && self.proxy_validators[position] != *author
            invariant
                position <= self@.validators.len(),
                forall|k: int| 0 <= k < position ==> self@.validators[k] != *author,
            decreases self@.validators.len() - position,
        {
            position = position + 1;
        }
        if position == self.proxy_validators.len() {
            proof {
                assert forall|k: int| 0 <= k < self@.validators.len() implies self@.validators[k]
                    != *author by {}
            }
            return None;
        }
        proof {
            let p = first_position(self@.validators, *author)->0;
            assert(self@.validators[position as int] == *author);
            if position < p {
            }
            assert(p == position);
        }
        let n = self.proxy_validators.len() as u64;
        let current_position = from_round % n;
        let pos = position as u64;
        if pos >= current_position {
            Some(from_round + (pos - current_position))
        } else {
            Some(from_round + (n - current_position + pos))
        }
    }
}

/// Round-robin order: in the first `n` rounds each validator leads in turn,
/// validator `i` leading round `i`; round `r` is led by the same validator as
/// round `r mod n`.
pub proof fn lemma_leader_order(validators: Seq<Author>, round: Round)
    requires
        0 < validators.len() <= u64::MAX,
    ensures
        round < validators.len() ==> leader_of(validators, round) == validators[round as int],
        leader_of(validators, round) == leader_of(validators, (round % (validators.len() as u64)) as Round),
        validators.contains(leader_of(validators, round)),
{
    let n = validators.len() as u64;
    assert((round % n) < n);
    assert(((round % n) as u64) % n == round % n) by {
        vstd::arithmetic::div_mod::lemma_mod_twice(round as int, n as int);
    }
    if round < n {
        vstd::arithmetic::div_mod::lemma_small_mod(round as nat, n as nat);
    }
    assert(validators[(round % n) as int] == leader_of(validators, round));
}

/// Leadership rotates with period `n`: rounds `n` apart have the same leader.
pub proof fn lemma_leader_rotation(validators: Seq<Author>, round: Round)
    requires
        0 < validators.len() <= u64::MAX,
        round + validators.len() <= u64::MAX,
    ensures
        leader_of(validators, round) == leader_of(validators, (round + validators.len()) as Round),
{
    let n = validators.len() as u64;
    assert(((round + n) as int) % (n as int) == (round as int) % (n as int)) by {
        vstd::arithmetic::div_mod::lemma_mod_add_multiples_vanish(round as int, n as int);
    }
}

/// The round that `next_leader_round` returns is at or after `from_round`,
/// within `n` rounds of it, and led by the author; with no repeated
/// validator, no earlier round from `from_round` on is led by the author.
pub proof fn lemma_next_leader_round(validators: Seq<Author>, author: Author, from_round: Round)
    requires
        0 < validators.len() <= u64::MAX,
        validators.contains(author),
        next_leader_round_spec(validators, author, from_round)->0 <= u64::MAX,
    ensures
        next_leader_round_spec(validators, author, from_round) is Some,
        ({
            let r = next_leader_round_spec(validators, author, from_round)->0;
            &&& from_round <= r < from_round + validators.len()
            &&& leader_of(validators, r as Round) == author
            &&& validators.no_duplicates() ==> forall|q: Round|
                from_round <= q < r ==> leader_of(validators, q) != author
        }),
{
    lemma_first_position(validators, author);
    let n = validators.len() as int;
    let p = first_position(validators, author)->0;
    let r = next_leader_round_spec(validators, author, from_round)->0;
    let c = from_round as int % n;
    let q0 = from_round as int / n;
    vstd::arithmetic::div_mod::lemma_fundamental_div_mod(from_round as int, n);
    vstd::arithmetic::div_mod::lemma_mod_bound(from_round as int, n);
    if p >= c {
        assert(r == q0 * n + p);
    } else {
        assert(r == (q0 + 1) * n + p) by (nonlinear_arith)
            requires
                r == from_round + (n - c + p),
                from_round == n * q0 + c,
        ;
    }
    let k = if p >= c {
        q0
    } else {
        q0 + 1
    };
    assert(r == k * n + p);
    assert(r % n == p) by {
        vstd::arithmetic::div_mod::lemma_mod_multiples_vanish(k, p, n);
        vstd::arithmetic::div_mod::lemma_small_mod(p as nat, n as nat);
    }
    assert(((r as Round) % (n as u64)) as int == p);
    if validators.no_duplicates() {
        assert forall|q: Round| from_round <= q < r implies leader_of(validators, q) != author by {
            let qi = q as int % n;
            vstd::arithmetic::div_mod::lemma_mod_bound(q as int, n);
            assert(((q % (n as u64)) as int) == qi);
            if qi == p {
                // Rounds from `from_round` up to `r` with position `p` are only `r`.
                vstd::arithmetic::div_mod::lemma_fundamental_div_mod(q as int, n);
                let qq = q as int / n;
                assert(q as int == qq * n + p) by (nonlinear_arith)
                    requires
                        q as int == n * qq + qi,
                        qi == p,
                ;
                if p >= c {
                    assert(qq * n + p < q0 * n + p);
                    assert(qq < q0) by (nonlinear_arith)
                        requires
                            qq * n + p < q0 * n + p,
                            n > 0,
                    ;
                    assert(qq * n + p <= q0 * n - n + p) by (nonlinear_arith)
                        requires
                            qq < q0,
                            n > 0,
                    ;
                    assert(q0 * n - n + p < q0 * n + c) by (nonlinear_arith)
                        requires
                            p < n,
                            c >= 0,
                    ;
                } else {
                    assert(qq * n + p < (q0 + 1) * n + p);
                    assert(qq < q0 + 1) by (nonlinear_arith)
                        requires
                            qq * n + p < (q0 + 1) * n + p,
                            n > 0,
                    ;
                    assert(qq * n <= q0 * n) by (nonlinear_arith)
                        requires
                            qq <= q0,
                            n > 0,
                    ;
                }
            } else {
                if validators[qi] == author {
                    assert(validators[p] == author);
                }
            }
        }
    }
}

} // verus!
