//! Fallback over an ordered list of public endpoints: each candidate is
//! associated in turn, and the first one that yields a local IPv6 address wins.

use vstd::prelude::*;
use vstd::string::*;
use crate::config::opt_view;

verus! {

/// What the caller does next while probing.
pub enum ProbeAction {
    /// Associate with this endpoint and report the local IPv6 address, if any.
    Attempt(String),
    /// The address the host uses toward the last endpoint tried.
    Detected(String),
    /// Every candidate failed: the host has no global IPv6 connectivity.
    Exhausted,
}

/// The first success in a sequence of attempt outcomes.
pub open spec fn first_found(outs: Seq<Option<Seq<char>>>) -> Option<Seq<char>>
    decreases outs.len(),
{
    if outs.len() == 0 {
        None
    } else {
        match outs[0] {
            Some(a) => Some(a),
            None => first_found(outs.drop_first()),
        }
    }
}

/// An outcome appended to a sequence with no success yet decides it alone.
pub proof fn lemma_first_found_push(outs: Seq<Option<Seq<char>>>, o: Option<Seq<char>>)
    requires
        first_found(outs) is None,
    ensures
        first_found(outs.push(o)) == o,
    decreases outs.len(),
{
    assert(outs.push(o)[0] == if outs.len() > 0 { outs[0] } else { o });
    if outs.len() > 0 {
        assert(outs.push(o).drop_first() =~= outs.drop_first().push(o));
        lemma_first_found_push(outs.drop_first(), o);
    } else {
        assert(outs.push(o).drop_first() =~= Seq::<Option<Seq<char>>>::empty());
        reveal_with_fuel(first_found, 2);
    }
}

/// No address is detected exactly when every attempt failed.
pub proof fn lemma_none_iff_all_failed(outs: Seq<Option<Seq<char>>>)
    ensures
        first_found(outs) is None <==> forall|i: int| 0 <= i < outs.len() ==> (#[trigger] outs[i]) is None,
    decreases outs.len(),
{
    if outs.len() > 0 {
        lemma_none_iff_all_failed(outs.drop_first());
        if first_found(outs) is None {
            assert forall|i: int| 0 <= i < outs.len() implies (#[trigger] outs[i]) is None by {
                if i > 0 {
                    assert(outs[i] == outs.drop_first()[i - 1]);
                }
            }
        } else if forall|i: int| 0 <= i < outs.len() ==> (#[trigger] outs[i]) is None {
            assert(outs[0] is None);
            assert forall|i: int| 0 <= i < outs.len() - 1 implies (#[trigger] outs.drop_first()[i]) is None by {
                assert(outs[i + 1] is None);
            }
        }
    }
}

/// A detected address is the outcome of the earliest successful attempt.
pub proof fn lemma_found_is_earliest(outs: Seq<Option<Seq<char>>>, a: Seq<char>)
    requires
        first_found(outs) == Some(a),
    ensures
        exists|k: int|
            0 <= k < outs.len() && outs[k] == Some(a) && forall|j: int| 0 <= j < k ==> (#[trigger] outs[j]) is None,
    decreases outs.len(),
{
    if outs[0] == Some(a) {
        assert(outs[0] == Some(a) && forall|j: int| 0 <= j < 0 ==> (#[trigger] outs[j]) is None);
    } else {
        lemma_found_is_earliest(outs.drop_first(), a);
        let k = choose|k: int|
            0 <= k < outs.drop_first().len() && outs.drop_first()[k] == Some(a) && forall|j: int|
                0 <= j < k ==> (#[trigger] outs.drop_first()[j]) is None;
        assert forall|j: int| 0 <= j < k + 1 implies (#[trigger] outs[j]) is None by {
            if j > 0 {
                assert(outs[j] == outs.drop_first()[j - 1]);
            }
        }
        assert(outs[k + 1] == Some(a));
    }
}

/// The probe over a fixed, ordered list of endpoints, with the outcomes seen so far.
pub struct AddressProbe {
    candidates: Vec<String>,
    next: usize,
    outcomes: Ghost<Seq<Option<Seq<char>>>>,
}

impl AddressProbe {
    /// The endpoints, in the order they are tried.
    pub closed spec fn candidates(&self) -> Seq<Seq<char>> {
        self.candidates@.map_values(|s: String| s@)
    }

    /// The outcome of each attempt made so far, in order.
    pub closed spec fn outcomes(&self) -> Seq<Option<Seq<char>>> {
        self.outcomes@
    }

    pub closed spec fn wf(&self) -> bool {
        self.next == self.outcomes@.len() && self.next <= self.candidates@.len()
    }

    /// The probe stops at the first success or once every candidate was tried.
    pub open spec fn finished(&self) -> bool {
        first_found(self.outcomes()) is Some || self.outcomes().len() >= self.candidates().len()
    }

    /// A probe over `candidates` that has tried none of them yet.
    pub fn new(candidates: Vec<String>) -> (r: AddressProbe)
        ensures
            r.wf(),
            r.candidates() == candidates@.map_values(|s: String| s@),
            r.outcomes() == Seq::<Option<Seq<char>>>::empty(),
    {
        AddressProbe { candidates, next: 0, outcomes: Ghost(Seq::empty()) }
    }

    /// A probe over public resolvers of three independent operators, port 80.
    pub fn public_resolvers() -> (r: AddressProbe)
        ensures
            r.wf(),
            r.candidates() == seq![
                "[2001:4860:4860::8888]:80"@,
                "[2001:4860:4860::8844]:80"@,
                "[2606:4700:4700::1111]:80"@,
                "[2400:3200::1]:80"@,
            ],
            r.outcomes() == Seq::<Option<Seq<char>>>::empty(),
    {
        let candidates = vec![
            String::from_str("[2001:4860:4860::8888]:80"),
            String::from_str("[2001:4860:4860::8844]:80"),
            String::from_str("[2606:4700:4700::1111]:80"),
            String::from_str("[2400:3200::1]:80"),
        ];
        let r = AddressProbe::new(candidates);
        assert(r.candidates() =~= seq![
            "[2001:4860:4860::8888]:80"@,
            "[2001:4860:4860::8844]:80"@,
            "[2606:4700:4700::1111]:80"@,
            "[2400:3200::1]:80"@,
        ]);
        r
    }

    /// The first action: attempt the first candidate, or give up on an empty list.
    pub fn first_action(&self) -> (r: ProbeAction)
        requires
            self.wf(),
            self.outcomes().len() == 0,
        ensures
            self.candidates().len() > 0 ==> r is Attempt && r->Attempt_0@ == self.candidates()[0],
            self.candidates().len() == 0 ==> r is Exhausted,
    {
        if self.candidates.len() > 0 {
            ProbeAction::Attempt(self.candidates[0].clone())
        } else {
            ProbeAction::Exhausted
        }
    }

    /// Takes the outcome of the attempt on the current candidate (`Some` with
    /// the local IPv6 address, `None` on any failure) and says what comes next.
    pub fn observe(&mut self, outcome: Option<String>) -> (r: ProbeAction)
        requires
            old(self).wf(),
            !old(self).finished(),
        ensures
            final(self).wf(),
            final(self).candidates() == old(self).candidates(),
            final(self).outcomes() == old(self).outcomes().push(opt_view(outcome)),
            match outcome {
                Some(a) => r == ProbeAction::Detected(a),
                None => if final(self).outcomes().len() < final(self).candidates().len() {
                    r is Attempt && r->Attempt_0@ == final(self).candidates()[final(self).outcomes().len() as int]
                } else {
                    r is Exhausted
                },
            },
            r is Detected ==> Some(r->Detected_0@) == first_found(final(self).outcomes()),
            r is Exhausted ==> final(self).outcomes().len() == final(self).candidates().len()
                && first_found(final(self).outcomes()) is None,
            r is Attempt ==> !final(self).finished(),
    {
        proof {
            lemma_first_found_push(self.outcomes@, opt_view(outcome));
        }
        assert(self.next < self.candidates.len());
        self.outcomes = Ghost(self.outcomes@.push(opt_view(outcome)));
        self.next = self.next + 1;
        match outcome {
            Some(a) => ProbeAction::Detected(a),
            None => if self.next < self.candidates.len() {
                ProbeAction::Attempt(self.candidates[self.next].clone())
            } else {
                ProbeAction::Exhausted
            },
        }
    }
}

} // verus!
