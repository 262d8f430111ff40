//! The live order book of a market, keyed by order id: filled from the
//! order listing and kept current from the event stream.

use vstd::prelude::*;

use crate::client::markets::Order;

verus! {

/// Whether no two orders of `s` share an id.
pub open spec fn ids_unique(s: Seq<Order>) -> bool {
    forall|i: int, j: int| 0 <= i < s.len() && 0 <= j < s.len() && i != j ==> #[trigger] s[i].id@ != #[trigger] s[j].id@
}

/// Whether some order of `s` has the id `id`.
pub open spec fn has_id(s: Seq<Order>, id: Seq<char>) -> bool {
    exists|i: int| 0 <= i < s.len() && #[trigger] s[i].id@ == id
}

/// The position of the order with id `id` in `s`.
pub open spec fn index_of(s: Seq<Order>, id: Seq<char>) -> int {
    choose|i: int| 0 <= i < s.len() && #[trigger] s[i].id@ == id
}

/// The orders of `s` keyed by their ids.
pub open spec fn map_of(s: Seq<Order>) -> Map<Seq<char>, Order> {
    Map::new(|id: Seq<char>| has_id(s, id), |id: Seq<char>| s[index_of(s, id)])
}

/// In a sequence with unique ids, the position of an id is the one where
/// it occurs.
proof fn lemma_index_of(s: Seq<Order>, id: Seq<char>, i: int)
    requires
        ids_unique(s),
        0 <= i < s.len(),
        s[i].id@ == id,
    ensures
        index_of(s, id) == i,
{
    assert(has_id(s, id));
    let c = index_of(s, id);
    assert(0 <= c < s.len() && s[c].id@ == id);
}

/// The order book: the orders of a market keyed by their ids, so that each
/// id occurs at most once.
pub struct OrderBook {
    orders: Vec<Order>,
}

impl View for OrderBook {
    type V = Map<Seq<char>, Order>;

    closed spec fn view(&self) -> Map<Seq<char>, Order> {
        map_of(self.orders@)
    }
}

impl OrderBook {
    /// The orders of the book in the order in which they are listed.
    pub closed spec fn entries(&self) -> Seq<Order> {
        self.orders@
    }

    /// No two orders of the book share an id: the invariant every book
    /// keeps.
    #[verifier::type_invariant]
    pub closed spec fn wf(&self) -> bool {
        ids_unique(self.orders@)
    }

    /// The listing holds exactly the orders of the book, each once.
    pub proof fn lemma_entries(&self)
        requires
            self.wf(),
        ensures
            ids_unique(self.entries()),
            self@ == map_of(self.entries()),
            self@.dom().finite(),
            self@.len() == self.entries().len(),
    {
        let s = self.orders@;
        lemma_map_of_len(s);
    }

    /// An empty book.
    pub fn new() -> (book: OrderBook)
        ensures
            book@ == Map::<Seq<char>, Order>::empty(),
    {
        let book = OrderBook { orders: Vec::new() };
        assert(book@ =~= Map::<Seq<char>, Order>::empty());
        book
    }

    /// Empties the book.
    pub fn clear(&mut self)
        ensures
            final(self)@ == Map::<Seq<char>, Order>::empty(),
    {
        self.orders = Vec::new();
        assert(self@ =~= Map::<Seq<char>, Order>::empty());
    }

    /// The position of the order with id `id`, if the book holds one.
    fn find(&self, id: &String) -> (pos: Option<usize>)
        requires
            self.wf(),
        ensures
            match pos {
                Some(i) => i < self.orders@.len() && self.orders@[i as int].id@ == id@,
                None => !has_id(self.orders@, id@),
            },
    {
        let n = self.orders.len();
        let mut i: usize = 0;
        while i < n
            invariant
                i <= n,
                n == self.orders@.len(),
                forall|j: int| 0 <= j < i ==> #[trigger] self.orders@[j].id@ != id@,
            decreases n - i,
        {
            if self.orders[i].id == *id {
                return Some(i);
            }
            i = i + 1;
        }
        None
    }

    /// The number of orders in the book.
    pub fn len(&self) -> (n: usize)
        ensures
            n == self@.len(),
    {
        proof {
            use_type_invariant(self);
            lemma_map_of_len(self.orders@);
        }
        self.orders.len()
    }

    /// The order with id `id`, if the book holds one.
    pub fn get(&self, id: &String) -> (order: Option<&Order>)
        ensures
            match order {
                Some(o) => self@.dom().contains(id@) && *o == self@[id@],
                None => !self@.dom().contains(id@),
            },
    {
        proof {
            use_type_invariant(self);
        }
        match self.find(id) {
            Some(i) => {
                proof {
                    lemma_index_of(self.orders@, id@, i as int);
                }
                Some(&self.orders[i])
            },
            None => None,
        }
    }

    /// The orders of the book, each once, in the order of the book.
    pub fn orders(&self) -> (orders: &Vec<Order>)
        ensures
            orders@ == self.entries(),
            ids_unique(orders@),
            self@ == map_of(orders@),
    {
        proof {
            use_type_invariant(self);
        }
        &self.orders
    }

    /// Adds an order, replacing the order with the same id if there is one.
    pub fn insert(&mut self, order: Order)
        ensures
            final(self)@ == old(self)@.insert(order.id@, order),
    {
        proof {
            use_type_invariant(&*self);
        }
        let ghost s = self.orders@;
        let pos = self.find(&order.id);
        let mut orders: Vec<Order> = Vec::new();
        std::mem::swap(&mut orders, &mut self.orders);
        match pos {
            Some(i) => {
                orders.set(i, order);
                proof {
                    lemma_map_of_update(s, i as int, order);
                }
            },
            None => {
                orders.push(order);
                proof {
                    lemma_map_of_push(s, order);
                }
            },
        }
        self.orders = orders;
    }

    /// Removes the order with id `id`, giving it back if the book held it.
    pub fn remove(&mut self, id: &String) -> (removed: Option<Order>)
        ensures
            final(self)@ == old(self)@.remove(id@),
            match removed {
                Some(o) => old(self)@.dom().contains(id@) && o == old(self)@[id@],
                None => !old(self)@.dom().contains(id@),
            },
    {
        proof {
            use_type_invariant(&*self);
        }
        let ghost s = self.orders@;
        match self.find(id) {
            Some(i) => {
                proof {
                    lemma_index_of(s, id@, i as int);
                    lemma_map_of_remove(s, i as int);
                }
                let mut orders: Vec<Order> = Vec::new();
                std::mem::swap(&mut orders, &mut self.orders);
                let o = orders.remove(i);
                self.orders = orders;
                Some(o)
            },
            None => {
                assert(self@ =~= self@.remove(id@));
                None
            },
        }
    }

    /// Sets the quantity of the order with id `id`, when the book holds one;
    /// tells whether it did.
    pub fn set_quantity(&mut self, id: &String, quantity: String) -> (found: bool)
        ensures
            found == old(self)@.dom().contains(id@),
            found ==> final(self)@ == old(self)@.insert(
                id@,
                Order { quantity: quantity, ..old(self)@[id@] },
            ),
            !found ==> final(self)@ == old(self)@,
    {
        proof {
            use_type_invariant(&*self);
        }
        let ghost s = self.orders@;
        match self.find(id) {
            Some(i) => {
                proof {
                    lemma_index_of(s, id@, i as int);
                }
                let mut orders: Vec<Order> = Vec::new();
                std::mem::swap(&mut orders, &mut self.orders);
                let old_order = orders.remove(i);
                let ghost before = old_order;
                let updated = Order {
                    id: old_order.id,
                    side: old_order.side,
                    price: old_order.price,
                    quantity,
                    timestamp: old_order.timestamp,
                };
                assert(updated == Order { quantity: quantity, ..before });
                orders.insert(i, updated);
                proof {
                    assert(orders@ =~= s.update(i as int, updated));
                    lemma_map_of_update(s, i as int, updated);
                }
                self.orders = orders;
                true
            },
            None => false,
        }
    }
}

/// Replacing an order by one with the same id keeps the ids unique and
/// replaces that id's entry of the map.
proof fn lemma_map_of_update(s: Seq<Order>, i: int, order: Order)
    requires
        ids_unique(s),
        0 <= i < s.len(),
        s[i].id@ == order.id@,
    ensures
        ids_unique(s.update(i, order)),
        map_of(s.update(i, order)) == map_of(s).insert(order.id@, order),
{
    let t = s.update(i, order);
    assert forall|a: int, b: int| 0 <= a < t.len() && 0 <= b < t.len() && a != b implies #[trigger] t[a].id@
        != #[trigger] t[b].id@ by {
        assert(s[a].id@ != s[b].id@);
    }
    let m = map_of(s).insert(order.id@, order);
    assert forall|k: Seq<char>| #[trigger] map_of(t).dom().contains(k) <==> m.dom().contains(k) by {
        if has_id(t, k) {
            let j = choose|j: int| 0 <= j < t.len() && #[trigger] t[j].id@ == k;
            if j != i {
                assert(s[j].id@ == k);
            }
        }
        if has_id(s, k) {
            let j = choose|j: int| 0 <= j < s.len() && #[trigger] s[j].id@ == k;
            assert(t[j].id@ == k);
        }
        if k == order.id@ {
            assert(t[i].id@ == k);
        }
    }
    assert forall|k: Seq<char>| #[trigger] map_of(t).dom().contains(k) implies map_of(t)[k] == m[k] by {
        let j = choose|j: int| 0 <= j < t.len() && #[trigger] t[j].id@ == k;
        lemma_index_of(t, k, j);
        if j != i {
            assert(s[j].id@ == k);
            lemma_index_of(s, k, j);
        }
    }
    assert(map_of(t) =~= m);
}

/// Appending an order with a new id keeps the ids unique and adds that
/// id's entry to the map.
proof fn lemma_map_of_push(s: Seq<Order>, order: Order)
    requires
        ids_unique(s),
        !has_id(s, order.id@),
    ensures
        ids_unique(s.push(order)),
        map_of(s.push(order)) == map_of(s).insert(order.id@, order),
{
    let t = s.push(order);
    let n = s.len() as int;
    assert forall|a: int, b: int| 0 <= a < t.len() && 0 <= b < t.len() && a != b implies #[trigger] t[a].id@
        != #[trigger] t[b].id@ by {
        if a < n && b < n {
            assert(s[a].id@ != s[b].id@);
        } else if a < n {
            assert(s[a].id@ != order.id@);
        } else {
            assert(s[b].id@ != order.id@);
        }
    }
    let m = map_of(s).insert(order.id@, order);
    assert forall|k: Seq<char>| #[trigger] map_of(t).dom().contains(k) <==> m.dom().contains(k) by {
        if has_id(t, k) {
            let j = choose|j: int| 0 <= j < t.len() && #[trigger] t[j].id@ == k;
            if j < n {
                assert(s[j].id@ == k);
            }
        }
        if has_id(s, k) {
            let j = choose|j: int| 0 <= j < s.len() && #[trigger] s[j].id@ == k;
            assert(t[j].id@ == k);
        }
        if k == order.id@ {
            assert(t[n].id@ == k);
        }
    }
    assert forall|k: Seq<char>| #[trigger] map_of(t).dom().contains(k) implies map_of(t)[k] == m[k] by {
        let j = choose|j: int| 0 <= j < t.len() && #[trigger] t[j].id@ == k;
        lemma_index_of(t, k, j);
        if j < n {
            assert(s[j].id@ == k);
            lemma_index_of(s, k, j);
        }
    }
    assert(map_of(t) =~= m);
}

/// Removing the order at a position keeps the ids unique and removes that
/// id's entry from the map.
proof fn lemma_map_of_remove(s: Seq<Order>, i: int)
    requires
        ids_unique(s),
        0 <= i < s.len(),
    ensures
        ids_unique(s.remove(i)),
        map_of(s.remove(i)) == map_of(s).remove(s[i].id@),
{
    let t = s.remove(i);
    let id = s[i].id@;
    assert forall|a: int, b: int| 0 <= a < t.len() && 0 <= b < t.len() && a != b implies #[trigger] t[a].id@
        != #[trigger] t[b].id@ by {
        let sa = if a < i { a } else { a + 1 };
        let sb = if b < i { b } else { b + 1 };
        assert(t[a] == s[sa]);
        assert(t[b] == s[sb]);
        assert(s[sa].id@ != s[sb].id@);
    }
    let m = map_of(s).remove(id);
    assert forall|k: Seq<char>| #[trigger] map_of(t).dom().contains(k) <==> m.dom().contains(k) by {
        if has_id(t, k) {
            let j = choose|j: int| 0 <= j < t.len() && #[trigger] t[j].id@ == k;
            let sj = if j < i { j } else { j + 1 };
            assert(t[j] == s[sj]);
            assert(s[sj].id@ == k);
            assert(s[i].id@ != s[sj].id@);
        }
        if has_id(s, k) && k != id {
            let j = choose|j: int| 0 <= j < s.len() && #[trigger] s[j].id@ == k;
            assert(j != i);
            let tj = if j < i { j } else { j - 1 };
            assert(t[tj] == s[j]);
            assert(t[tj].id@ == k);
        }
    }
    assert forall|k: Seq<char>| #[trigger] map_of(t).dom().contains(k) implies map_of(t)[k] == m[k] by {
        let j = choose|j: int| 0 <= j < t.len() && #[trigger] t[j].id@ == k;
        lemma_index_of(t, k, j);
        let sj = if j < i { j } else { j + 1 };
        assert(t[j] == s[sj]);
        lemma_index_of(s, k, sj);
    }
    assert(map_of(t) =~= m);
}

/// The map of a sequence with unique ids has one entry per order.
proof fn lemma_map_of_len(s: Seq<Order>)
    requires
        ids_unique(s),
    ensures
        map_of(s).dom().finite(),
        map_of(s).len() == s.len(),
    decreases s.len(),
{
    if s.len() == 0 {
        assert(map_of(s) =~= Map::<Seq<char>, Order>::empty());
    } else {
        let p = s.drop_last();
        let last = s.last();
        assert(ids_unique(p)) by {
            assert forall|a: int, b: int| 0 <= a < p.len() && 0 <= b < p.len() && a != b implies #[trigger] p[a].id@
                != #[trigger] p[b].id@ by {
                assert(s[a].id@ != s[b].id@);
            }
        }
        assert(!has_id(p, last.id@)) by {
            if has_id(p, last.id@) {
                let j = choose|j: int| 0 <= j < p.len() && #[trigger] p[j].id@ == last.id@;
                assert(s[j].id@ != s[s.len() - 1].id@);
            }
        }
        lemma_map_of_len(p);
        lemma_map_of_push(p, last);
        assert(p.push(last) =~= s);
    }
}

/// Inserting an order makes its id read back as that order, and grows the
/// book by one order exactly when the id was not in it yet.
pub proof fn law_insert_then_get(before: OrderBook, after: OrderBook, order: Order)
    requires
        before.wf(),
        after.wf(),
        after@ == before@.insert(order.id@, order),
    ensures
        after@.dom().contains(order.id@),
        after@[order.id@] == order,
        after@.len() == if before@.dom().contains(order.id@) {
            before@.len()
        } else {
            before@.len() + 1
        },
{
    before.lemma_entries();
}

/// Removing an id makes it absent from the book, and shrinks the book by
/// one order exactly when the id was in it.
pub proof fn law_remove_then_absent(before: OrderBook, after: OrderBook, id: Seq<char>)
    requires
        before.wf(),
        after.wf(),
        after@ == before@.remove(id),
    ensures
        !after@.dom().contains(id),
        after@.len() == if before@.dom().contains(id) {
            before@.len() - 1
        } else {
            before@.len() as int
        },
{
    before.lemma_entries();
}

/// Removing the id of an order that was just inserted under a new id
/// gives back the book as it was.
pub proof fn law_remove_undoes_insert(before: OrderBook, order: Order)
    requires
        before.wf(),
        !before@.dom().contains(order.id@),
    ensures
        before@.insert(order.id@, order).remove(order.id@) == before@,
{
    assert(before@.insert(order.id@, order).remove(order.id@) =~= before@);
}

} // verus!
