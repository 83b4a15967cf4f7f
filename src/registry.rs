use vstd::prelude::*;

use crate::address::IpAddress;

verus! {

/// The addresses that have completed the handshake. Addresses are only ever
/// added.
pub struct AuthorizedSet {
    addrs: Vec<IpAddress>,
}

impl View for AuthorizedSet {
    type V = Set<IpAddress>;

    closed spec fn view(&self) -> Set<IpAddress> {
        self.addrs@.to_set()
    }
}

impl AuthorizedSet {
    /// An empty set.
    pub fn new() -> (r: Self)
        ensures
            r@ == Set::<IpAddress>::empty(),
    {
        let r = AuthorizedSet { addrs: Vec::new() };
        assert(r.addrs@.to_set() =~= Set::<IpAddress>::empty());
        r
    }

    /// Whether `a` has been registered.
    pub fn is_authorized(&self, a: IpAddress) -> (r: bool)
        ensures
            r == self@.contains(a),
    {
        let mut i: usize = 0;
        while i < self.addrs.len()
            invariant
                i <= self.addrs.len(),
                forall|k: int| 0 <= k < i ==> self.addrs@[k] != a,
            decreases self.addrs.len() - i,
        {
            if self.addrs[i] == a {
                assert(self.addrs@.to_set().contains(a)) by {
                    assert(self.addrs@.contains(a));
                }
                return true;
            }
            i = i + 1;
        }
        assert(!self.addrs@.to_set().contains(a));
        false
    }

    /// Adds `a`; registering an address twice changes nothing the second time.
    pub fn register(&mut self, a: IpAddress)
        ensures
            final(self)@ == old(self)@.insert(a),
    {
        if self.is_authorized(a) {
            assert(self@.insert(a) =~= self@);
        } else {
            let ghost before = self.addrs@;
            self.addrs.push(a);
            assert(self.addrs@.to_set() =~= before.to_set().insert(a)) by {
                assert(forall|x: IpAddress| #[trigger]
                    self.addrs@.contains(x) <==> before.contains(x) || x == a) by {
                    assert forall|x: IpAddress| #[trigger]
                        self.addrs@.contains(x) implies before.contains(x) || x == a by {
                        let k = choose|k: int| 0 <= k < self.addrs@.len() && self.addrs@[k] == x;
                        if k < before.len() {
                            assert(before[k] == x);
                        }
                    }
                    assert forall|x: IpAddress| before.contains(x) || x == a implies #[trigger]
                        self.addrs@.contains(x) by {
                        if x == a {
                            assert(self.addrs@[before.len() as int] == a);
                        } else {
                            let k = choose|k: int| 0 <= k < before.len() && before[k] == x;
                            assert(self.addrs@[k] == x);
                        }
                    }
                }
            }
        }
    }
}

/// The set reached from `start` by registering the addresses of `history`
/// one after the other, as the set's lock lets them through.
pub open spec fn registered(start: Set<IpAddress>, history: Seq<IpAddress>) -> Set<IpAddress>
    decreases history.len(),
{
    if history.len() == 0 {
        start
    } else {
        registered(start, history.drop_last()).insert(history.last())
    }
}

/// Registering a sequence of addresses adds exactly those addresses.
pub proof fn lemma_registered_union(start: Set<IpAddress>, history: Seq<IpAddress>)
    ensures
        registered(start, history) == start.union(history.to_set()),
    decreases history.len(),
{
    if history.len() == 0 {
        assert(history.to_set() =~= Set::<IpAddress>::empty());
        assert(start.union(history.to_set()) =~= start);
    } else {
        let prefix = history.drop_last();
        lemma_registered_union(start, prefix);
        assert forall|x: IpAddress| #[trigger] history.contains(x) <==> prefix.contains(x) || x
            == history.last() by {
            if history.contains(x) {
                let k = choose|k: int| 0 <= k < history.len() && history[k] == x;
                if k < prefix.len() {
                    assert(prefix[k] == x);
                }
            }
            if prefix.contains(x) {
                let k = choose|k: int| 0 <= k < prefix.len() && prefix[k] == x;
                assert(history[k] == x);
            }
            if x == history.last() {
                assert(history[history.len() - 1] == x);
            }
        }
        assert(registered(start, history) =~= start.union(history.to_set()));
    }
}

/// Starting from the empty set, an address is authorized exactly when some
/// registration of it has happened, and an address once authorized stays
/// authorized whatever registrations follow.
pub proof fn lemma_authorized_iff_registered(
    history: Seq<IpAddress>,
    later: Seq<IpAddress>,
    a: IpAddress,
)
    ensures
        registered(Set::empty(), history).contains(a) <==> history.contains(a),
        registered(Set::empty(), history).contains(a) ==> registered(
            Set::empty(),
            history + later,
        ).contains(a),
{
    lemma_registered_union(Set::empty(), history);
    lemma_registered_union(Set::empty(), history + later);
    if history.contains(a) {
        let k = choose|k: int| 0 <= k < history.len() && history[k] == a;
        assert((history + later)[k] == a);
    }
}

/// However concurrent registrations are ordered, the result is the same,
/// and every registered address is in it: none is lost.
pub proof fn lemma_registration_order_irrelevant(
    start: Set<IpAddress>,
    one_order: Seq<IpAddress>,
    other_order: Seq<IpAddress>,
)
    requires
        one_order.to_multiset() == other_order.to_multiset(),
    ensures
        registered(start, one_order) == registered(start, other_order),
        forall|a: IpAddress| #[trigger]
            one_order.contains(a) ==> registered(start, one_order).contains(a),
{
    lemma_registered_union(start, one_order);
    lemma_registered_union(start, other_order);
    assert forall|a: IpAddress| #[trigger] one_order.contains(a) <==> other_order.contains(a) by {
        one_order.to_multiset_ensures();
        other_order.to_multiset_ensures();
        assert(one_order.contains(a) <==> one_order.to_multiset().count(a) > 0);
        assert(other_order.contains(a) <==> other_order.to_multiset().count(a) > 0);
    }
    assert(one_order.to_set() =~= other_order.to_set());
}

} // verus!
