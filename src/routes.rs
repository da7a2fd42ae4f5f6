//! Route tables: route names mapped to the handlers registered for them.
use vstd::prelude::*;

verus! {

/// One registration: a route name and the handler registered under it.
pub struct RouteEntry {
    pub name: String,
    pub handler: u64,
}

/// A route table. Registrations are kept in order; a later registration
/// under a name shadows every earlier one.
pub struct RouteTable {
    entries: Vec<RouteEntry>,
}

/// The map that a sequence of registrations yields, the last one winning.
pub open spec fn registrations_map(s: Seq<(Seq<char>, u64)>) -> Map<Seq<char>, u64>
    decreases s.len(),
{
    if s.len() == 0 {
        Map::empty()
    } else {
        registrations_map(s.drop_last()).insert(s.last().0, s.last().1)
    }
}

impl View for RouteTable {
    type V = Map<Seq<char>, u64>;

    /// The handler reachable under each route name.
    closed spec fn view(&self) -> Map<Seq<char>, u64> {
        registrations_map(self.registrations())
    }
}

impl RouteTable {
    pub closed spec fn registrations(&self) -> Seq<(Seq<char>, u64)> {
        self.entries@.map_values(|e: RouteEntry| (e.name@, e.handler))
    }

    pub fn new() -> (r: RouteTable)
        ensures
            r@ == Map::<Seq<char>, u64>::empty(),
    {
        let r = RouteTable { entries: Vec::new() };
        assert(r.registrations() =~= Seq::<(Seq<char>, u64)>::empty());
        r
    }

    /// Registers `handler` under `name`, replacing any handler registered
    /// there before.
    pub fn register(&mut self, name: &str, handler: u64)
        ensures
            final(self)@ == old(self)@.insert(name@, handler),
    {
        let ghost before = self.registrations();
        self.entries.push(RouteEntry { name: name.to_owned(), handler });
        assert(self.registrations().drop_last() =~= before);
    }

    /// The handler registered under `name`, if any.
    pub fn lookup(&self, name: &str) -> (r: Option<u64>)
        ensures
            r == (if self@.contains_key(name@) { Some(self@[name@]) } else { None::<u64> }),
    {
        let key = name.to_owned();
        let ghost s = self.registrations();
        proof {
            lemma_registered_map(s, name@);
        }
        let ghost answer = registered(s, name@);
        let mut i: usize = self.entries.len();
        assert(s.subrange(0, i as int) =~= s);
        while i > 0
            invariant
                i <= self.entries@.len(),
                s == self.registrations(),
                answer == registered(s, name@),
                answer == (if self@.contains_key(name@) { Some(self@[name@]) } else { None::<u64> }),
                key@ == name@,
                registered(s, name@) == registered(s.subrange(0, i as int), name@),
            decreases i,
        {
            let e = &self.entries[i - 1];
            assert(s.subrange(0, i as int).drop_last() =~= s.subrange(0, i - 1 as int));
            assert(s.subrange(0, i as int).last() == (e.name@, e.handler));
            if e.name == key {
                return Some(e.handler);
            }
            i = i - 1;
        }
        None
    }
}

/// The handler that the last registration under `k` gives, if any.
pub open spec fn registered(s: Seq<(Seq<char>, u64)>, k: Seq<char>) -> Option<u64>
    decreases s.len(),
{
    if s.len() == 0 {
        None
    } else if s.last().0 == k {
        Some(s.last().1)
    } else {
        registered(s.drop_last(), k)
    }
}

proof fn lemma_registered_map(s: Seq<(Seq<char>, u64)>, k: Seq<char>)
    ensures
        registered(s, k) == (if registrations_map(s).contains_key(k) {
            Some(registrations_map(s)[k])
        } else {
            None::<u64>
        }),
    decreases s.len(),
{
    if s.len() > 0 {
        lemma_registered_map(s.drop_last(), k);
    }
}

/// Registering two handlers under one route name leaves only the second
/// reachable there: the table is as if the first had never been registered.
pub proof fn route_overwrite(table: Map<Seq<char>, u64>, name: Seq<char>, first: u64, second: u64)
    ensures
        table.insert(name, first).insert(name, second) == table.insert(name, second),
        table.insert(name, first).insert(name, second)[name] == second,
{
    assert(table.insert(name, first).insert(name, second) =~= table.insert(name, second));
}

} // verus!
