//! Choosing one tunnel endpoint among the candidates by probing them.

use vstd::prelude::*;

use crate::codec::str_eq;
use crate::config::{STRATEGY_DEFAULT, STRATEGY_LATENCY};
use crate::error::Error;
use crate::resp::RespVpnInfo;

verus! {

/// How an endpoint is chosen.
#[derive(Debug, Clone, Copy, PartialEq, Eq, Structural)]
pub enum Strategy {
    /// Probe every candidate and keep the lowest latency.
    Latency,
    /// Probe in order and keep the first candidate that answers.
    FirstAvailable,
}

/// The strategy that a configured name stands for: none or `default` is
/// `FirstAvailable`, `latency` is `Latency`, anything else is an error.
pub open spec fn strategy_of(name: Option<Seq<char>>) -> Option<Strategy> {
    match name {
        None => Some(Strategy::FirstAvailable),
        Some(n) => if n == STRATEGY_LATENCY@ {
            Some(Strategy::Latency)
        } else if n == STRATEGY_DEFAULT@ {
            Some(Strategy::FirstAvailable)
        } else {
            None
        },
    }
}

/// Reads the configured strategy.
pub fn parse_strategy(name: &Option<String>) -> (r: Result<Strategy, Error>)
    ensures
        match strategy_of(
            match name {
                Some(n) => Some(n@),
                None => None,
            },
        ) {
            Some(s) => r == Ok::<Strategy, Error>(s),
            None => r == Err::<Strategy, Error>(Error::UnsupportedStrategy),
        },
{
    match name {
        None => Ok(Strategy::FirstAvailable),
        Some(n) => {
            if str_eq(n.as_str(), STRATEGY_LATENCY) {
                Ok(Strategy::Latency)
            } else if str_eq(n.as_str(), STRATEGY_DEFAULT) {
                Ok(Strategy::FirstAvailable)
            } else {
                Err(Error::UnsupportedStrategy)
            }
        },
    }
}

/// The index of the first probe that succeeded.
pub open spec fn first_success(results: Seq<Option<u64>>) -> Option<int>
    decreases results.len(),
{
    if results.len() == 0 {
        None
    } else {
        match first_success(results.drop_last()) {
            Some(i) => Some(i),
            None => if results.last() is Some {
                Some(results.len() - 1)
            } else {
                None
            },
        }
    }
}

/// The index of the lowest latency among the probes that succeeded; the
/// first one on ties.
pub open spec fn fastest(results: Seq<Option<u64>>) -> Option<int>
    decreases results.len(),
{
    if results.len() == 0 {
        None
    } else {
        let prev = fastest(results.drop_last());
        match results.last() {
            None => prev,
            Some(l) => match prev {
                None => Some(results.len() - 1),
                Some(i) => if l < results[i]->0 {
                    Some(results.len() - 1)
                } else {
                    prev
                },
            },
        }
    }
}

/// The candidate that a strategy picks from the probes made so far.
pub open spec fn chosen(strategy: Strategy, results: Seq<Option<u64>>) -> Option<int> {
    match strategy {
        Strategy::Latency => fastest(results),
        Strategy::FirstAvailable => first_success(results),
    }
}

/// Whether probing goes on after `results`, with `count` candidates.
pub open spec fn wants_probe(strategy: Strategy, count: nat, results: Seq<Option<u64>>) -> bool {
    results.len() < count && !(strategy == Strategy::FirstAvailable && first_success(
        results,
    ) is Some)
}

/// Drives the probing of `count` candidates: it names the next candidate to
/// probe, takes each probe's latency in milliseconds (`None` when it failed)
/// and then names the chosen candidate.
pub struct EndpointSelector {
    strategy: Strategy,
    count: usize,
    next: usize,
    best: Option<(usize, u64)>,
    results: Ghost<Seq<Option<u64>>>,
}

impl EndpointSelector {
    pub closed spec fn spec_strategy(&self) -> Strategy {
        self.strategy
    }

    pub closed spec fn spec_count(&self) -> nat {
        self.count as nat
    }

    /// The probe results recorded so far, in candidate order.
    pub closed spec fn results(&self) -> Seq<Option<u64>> {
        self.results@
    }

    pub closed spec fn wf(&self) -> bool {
        &&& self.next == self.results@.len()
        &&& self.next <= self.count
        &&& match chosen(self.strategy, self.results@) {
            None => self.best is None,
            Some(i) => self.best matches Some((j, l)) && j == i && 0 <= i < self.results@.len()
                && self.results@[i] == Some(l),
        }
    }

    /// A selector for `count` candidates that has probed none.
    pub fn new(strategy: Strategy, count: usize) -> (r: Self)
        ensures
            r.wf(),
            r.spec_strategy() == strategy,
            r.spec_count() == count,
            r.results() == Seq::<Option<u64>>::empty(),
    {
        EndpointSelector { strategy, count, next: 0, best: None, results: Ghost(Seq::empty()) }
    }

    /// The candidate to probe next, or `None` when probing is over.
    pub fn next_probe(&self) -> (r: Option<usize>)
        requires
            self.wf(),
        ensures
            wants_probe(self.spec_strategy(), self.spec_count(), self.results()) ==> r == Some(
                self.results().len() as usize,
            ),
            !wants_probe(self.spec_strategy(), self.spec_count(), self.results()) ==> r is None,
    {
        if self.next >= self.count {
            None
        } else if self.strategy == Strategy::FirstAvailable && self.best.is_some() {
            None
        } else {
            Some(self.next)
        }
    }

    /// Records the outcome of the probe that `next_probe` asked for.
    pub fn record(&mut self, latency: Option<u64>)
        requires
            old(self).wf(),
            wants_probe(old(self).spec_strategy(), old(self).spec_count(), old(self).results()),
        ensures
            final(self).wf(),
            final(self).spec_strategy() == old(self).spec_strategy(),
            final(self).spec_count() == old(self).spec_count(),
            final(self).results() == old(self).results().push(latency),
    {
        let ghost old_results = self.results@;
        let ghost new_results = old_results.push(latency);
        assert(new_results.drop_last() == old_results);
        match latency {
            Some(l) => {
                match self.best {
                    None => {
                        self.best = Some((self.next, l));
                    },
                    Some((_, b)) => {
                        if self.strategy == Strategy::Latency && l < b {
                            self.best = Some((self.next, l));
                        }
                    },
                }
            },
            None => {},
        }
        self.results = Ghost(new_results);
        self.next = self.next + 1;
    }

    /// The chosen candidate among those probed so far.
    pub fn selected(&self) -> (r: Option<usize>)
        requires
            self.wf(),
        ensures
            match chosen(self.spec_strategy(), self.results()) {
                Some(i) => r == Some(i as usize),
                None => r is None,
            },
    {
        match self.best {
            Some((i, _)) => Some(i),
            None => None,
        }
    }
}

/// Under the latency strategy the chosen candidate is one whose probe
/// succeeded, no other succeeded with a lower latency, and none before it
/// succeeded with the same latency; nothing is chosen only when every probe
/// failed.
pub proof fn lemma_fastest_is_minimal(results: Seq<Option<u64>>)
    ensures
        fastest(results) is None <==> forall|j: int| 0 <= j < results.len() ==> #[trigger] results[j] is None,
        fastest(results) matches Some(i) ==> {
            &&& 0 <= i < results.len()
            &&& results[i] is Some
            &&& forall|j: int| 0 <= j < results.len() && #[trigger] results[j] is Some ==> results[i]->0 <= results[j]->0
            &&& forall|j: int| 0 <= j < i && #[trigger] results[j] is Some ==> results[i]->0 < results[j]->0
        },
    decreases results.len(),
{
    if results.len() > 0 {
        let prev = results.drop_last();
        let n = results.len() - 1;
        lemma_fastest_is_minimal(prev);
        assert forall|j: int| 0 <= j < prev.len() implies prev[j] == results[j] by {}
        match fastest(prev) {
            Some(i) => {
                assert(prev[i] == results[i]);
                assert forall|j: int| 0 <= j < results.len() && #[trigger] results[j] is Some implies results[fastest(results)->0]->0 <= results[j]->0 by {
                    if j < n {
                        assert(prev[j] == results[j]);
                    }
                }
                assert forall|j: int| 0 <= j < fastest(results)->0 && #[trigger] results[j] is Some implies results[fastest(results)->0]->0 < results[j]->0 by {
                    if j < n {
                        assert(prev[j] == results[j]);
                    }
                }
            },
            None => {
                assert forall|j: int| 0 <= j < n implies #[trigger] results[j] is None by {
                    assert(prev[j] == results[j]);
                }
            },
        }
    }
}

/// Under the first-available strategy probing stops at the first candidate
/// that answers, and that candidate is the one chosen: every probe before it
/// failed.
pub proof fn lemma_first_available_stops(count: nat, results: Seq<Option<u64>>)
    ensures
        first_success(results) matches Some(i) ==> {
            &&& 0 <= i < results.len()
            &&& results[i] is Some
            &&& forall|j: int| 0 <= j < i ==> #[trigger] results[j] is None
            &&& !wants_probe(Strategy::FirstAvailable, count, results)
        },
        first_success(results) is None ==> forall|j: int| 0 <= j < results.len() ==> #[trigger] results[j] is None,
    decreases results.len(),
{
    if results.len() > 0 {
        let prev = results.drop_last();
        let n = results.len() - 1;
        lemma_first_available_stops(count, prev);
        assert forall|j: int| 0 <= j < prev.len() implies prev[j] == results[j] by {}
        match first_success(prev) {
            Some(i) => {
                assert(prev[i] == results[i]);
                assert forall|j: int| 0 <= j < i implies #[trigger] results[j] is None by {
                    assert(prev[j] == results[j]);
                }
            },
            None => {
                assert forall|j: int| 0 <= j < n implies #[trigger] results[j] is None by {
                    assert(prev[j] == results[j]);
                }
            },
        }
    }
}

/// Whether a candidate is kept: it matches the pinned name, if one is
/// configured, and its transport mode is one of the two known modes.
pub open spec fn keep_candidate(v: RespVpnInfo, pinned: Option<Seq<char>>) -> bool {
    &&& (pinned matches Some(p) ==> v.en_name@ == p)
    &&& (v.protocol_mode == 1 || v.protocol_mode == 2)
}

/// The candidates that are kept, in their order.
pub open spec fn kept(vpns: Seq<RespVpnInfo>, pinned: Option<Seq<char>>) -> Seq<RespVpnInfo>
    decreases vpns.len(),
{
    if vpns.len() == 0 {
        Seq::empty()
    } else if keep_candidate(vpns[0], pinned) {
        seq![vpns[0]] + kept(vpns.drop_first(), pinned)
    } else {
        kept(vpns.drop_first(), pinned)
    }
}

/// Drops the candidates that do not match the pinned name, if one is
/// configured, and those whose transport mode is not known.
pub fn filter_vpn(vpns: Vec<RespVpnInfo>, pinned: &Option<String>) -> (r: Vec<RespVpnInfo>)
    ensures
        r@ == kept(
            vpns@,
            match pinned {
                Some(p) => Some(p@),
                None => None,
            },
        ),
{
    let ghost pin = match pinned {
        Some(p) => Some(p@),
        None => None::<Seq<char>>,
    };
    let mut rest = vpns;
    let mut out: Vec<RespVpnInfo> = Vec::new();
    while rest.len() > 0
        invariant
            out@ + kept(rest@, pin) == kept(vpns@, pin),
            pin == match pinned {
                Some(p) => Some(p@),
                None => None,
            },
        decreases rest@.len(),
    {
        let ghost before = rest@;
        let v = rest.remove(0);
        assert(rest@ == before.drop_first());
        let name_ok = match pinned {
            Some(p) => v.en_name == *p,
            None => true,
        };
        if name_ok && (v.protocol_mode == 1 || v.protocol_mode == 2) {
            out.push(v);
            assert(out@ + kept(rest@, pin) =~= kept(vpns@, pin));
        }
    }
    assert(out@ =~= out@ + kept(rest@, pin));
    out
}

} // verus!
