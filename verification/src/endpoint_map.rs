//! The route table: which resolved route answers on which path and method.

use crate::proxy_item::{item_of, ProxyItem, ProxyItemView};
use crate::route_config::{method_names_differ, EndpointConfigFile, HttpMethod, RouteConfig};
use vstd::prelude::*;

verus! {

/// A route key as plain values: the path and the lower-case method name.
pub type KeyView = (Seq<char>, Seq<char>);

/// The key of a route: its exact path and the name of the method it answers
/// on.
#[derive(Debug, PartialEq, Eq, Hash)]
pub struct EndpointKey {
    pub path: String,
    pub method: String,
}

impl View for EndpointKey {
    type V = KeyView;

    open spec fn view(&self) -> KeyView {
        (self.path@, self.method@)
    }
}

impl Clone for EndpointKey {
    fn clone(&self) -> (r: EndpointKey)
        ensures
            r@ == self@,
    {
        EndpointKey { path: self.path.clone(), method: self.method.clone() }
    }
}

impl EndpointKey {
    /// The key for an exact path and a method name.
    pub fn new(path: &str, method: &str) -> (r: EndpointKey)
        ensures
            r@ == (path@, method@),
    {
        EndpointKey { method: method.to_owned(), path: path.to_owned() }
    }

    /// Whether two keys name the same path and the same method.
    pub fn same_as(&self, other: &EndpointKey) -> (r: bool)
        ensures
            r == (self@ == other@),
    {
        self.path == other.path && self.method == other.method
    }
}

/// The key under which a configured route is registered: its path, and the
/// name of its method, GET where it names none.
pub open spec fn key_of(route: RouteConfig) -> KeyView {
    (route.path@, route.spec_inbound_method().name())
}

/// The key that a request for `path` with `method` is looked up under.
pub open spec fn request_key(path: Seq<char>, method: HttpMethod) -> KeyView {
    (path, method.name())
}

/// The table that a list of configured routes builds: each route is
/// registered under its key in turn, so of two routes with one key the
/// later stays.
pub open spec fn table_of(routes: Seq<RouteConfig>) -> Map<KeyView, ProxyItemView>
    decreases routes.len(),
{
    if routes.len() == 0 {
        Map::empty()
    } else {
        table_of(routes.drop_last()).insert(key_of(routes.last()), item_of(routes.last()))
    }
}

/// A collection of routes that can be built from the configuration file.
pub trait EndpointMap: Sized {
    /// The routes held, by key.
    spec fn routes(&self) -> Map<KeyView, ProxyItemView>;

    /// Builds the collection from the configured routes, in their order.
    fn from_config(config: EndpointConfigFile) -> (r: Self)
        ensures
            r.routes() == table_of(config.proxy_urls@),
    ;
}

/// The mapping that a list of entries stands for, later entries first.
pub open spec fn entries_map(s: Seq<(EndpointKey, ProxyItem)>) -> Map<KeyView, ProxyItemView>
    decreases s.len(),
{
    if s.len() == 0 {
        Map::empty()
    } else {
        entries_map(s.drop_last()).insert(s.last().0@, s.last().1@)
    }
}

/// No key stands twice in the list.
pub open spec fn distinct_keys(s: Seq<(EndpointKey, ProxyItem)>) -> bool {
    forall|i: int, j: int| 0 <= i < j < s.len() ==> (#[trigger] s[i]).0@ != (#[trigger] s[j]).0@
}

proof fn lemma_absent(s: Seq<(EndpointKey, ProxyItem)>, k: KeyView)
    requires
        forall|i: int| 0 <= i < s.len() ==> (#[trigger] s[i]).0@ != k,
    ensures
        !entries_map(s).contains_key(k),
    decreases s.len(),
{
    if s.len() > 0 {
        lemma_absent(s.drop_last(), k);
    }
}

proof fn lemma_present(s: Seq<(EndpointKey, ProxyItem)>, i: int)
    requires
        distinct_keys(s),
        0 <= i < s.len(),
    ensures
        entries_map(s).contains_key(s[i].0@),
        entries_map(s)[s[i].0@] == s[i].1@,
    decreases s.len(),
{
    if i < s.len() - 1 {
        lemma_present(s.drop_last(), i);
    }
}

proof fn lemma_replace(s: Seq<(EndpointKey, ProxyItem)>, i: int, e: (EndpointKey, ProxyItem))
    requires
        distinct_keys(s),
        0 <= i < s.len(),
        e.0@ == s[i].0@,
    ensures
        entries_map(s.update(i, e)) == entries_map(s).insert(e.0@, e.1@),
        distinct_keys(s.update(i, e)),
    decreases s.len(),
{
    let t = s.update(i, e);
    if i == s.len() - 1 {
        assert(t.drop_last() =~= s.drop_last());
        assert(entries_map(t) =~= entries_map(s).insert(e.0@, e.1@));
    } else {
        lemma_replace(s.drop_last(), i, e);
        assert(t.drop_last() =~= s.drop_last().update(i, e));
        assert(s[i].0@ != s[s.len() - 1].0@);
        assert(entries_map(t) =~= entries_map(s).insert(e.0@, e.1@));
    }
}

/// The route table: at most one resolved route for each path and method.
pub struct RouteTable {
    entries: Vec<(EndpointKey, ProxyItem)>,
}

impl View for RouteTable {
    type V = Map<KeyView, ProxyItemView>;

    closed spec fn view(&self) -> Map<KeyView, ProxyItemView> {
        entries_map(self.entries@)
    }
}

impl RouteTable {
    #[verifier::type_invariant]
    spec fn well_formed(&self) -> bool {
        distinct_keys(self.entries@)
    }

    /// The table without routes.
    pub fn new() -> (r: RouteTable)
        ensures
            r@ == Map::<KeyView, ProxyItemView>::empty(),
    {
        RouteTable { entries: Vec::new() }
    }

    fn position(&self, key: &EndpointKey) -> (r: Option<usize>)
        ensures
            match r {
                Some(i) => i < self.entries@.len() && self.entries@[i as int].0@ == key@,
                None => forall|j: int|
                    0 <= j < self.entries@.len() ==> (#[trigger] self.entries@[j]).0@ != key@,
            },
    {
        let mut i: usize = 0;
        while i < self.entries.len()
            invariant
                i <= self.entries@.len(),
                forall|j: int| 0 <= j < i ==> (#[trigger] self.entries@[j]).0@ != key@,
            decreases self.entries.len() - i,
        {
            if self.entries[i].0.same_as(key) {
                return Some(i);
            }
            i = i + 1;
        }
        None
    }

    /// Registers `item` under `key`. A route already registered under that
    /// key is replaced; every other route stays.
    pub fn insert(&mut self, key: EndpointKey, item: ProxyItem)
        ensures
            final(self)@ == old(self)@.insert(key@, item@),
    {
        proof {
            use_type_invariant(&*self);
        }
        let found = self.position(&key);
        let mut entries: Vec<(EndpointKey, ProxyItem)> = Vec::new();
        std::mem::swap(&mut entries, &mut self.entries);
        let ghost before = entries@;
        match found {
            Some(i) => {
                proof {
                    lemma_replace(before, i as int, (key, item));
                }
                entries.set(i, (key, item));
            },
            None => {
                entries.push((key, item));
                assert(entries@.drop_last() =~= before);
            },
        }
        std::mem::swap(&mut entries, &mut self.entries);
    }

    /// The route registered under `key`, if there is one.
    pub fn get(&self, key: &EndpointKey) -> (r: Option<&ProxyItem>)
        ensures
            r is Some <==> self@.contains_key(key@),
            r is Some ==> r->Some_0@ == self@[key@],
    {
        proof {
            use_type_invariant(self);
        }
        match self.position(key) {
            Some(i) => {
                proof {
                    lemma_present(self.entries@, i as int);
                }
                Some(&self.entries[i].1)
            },
            None => {
                proof {
                    lemma_absent(self.entries@, key@);
                }
                None
            },
        }
    }

    /// The route that answers a request for exactly `path` with `method`.
    /// There is no match by prefix or pattern, and a path registered for
    /// another method only is not found.
    pub fn lookup(&self, path: &str, method: HttpMethod) -> (r: Option<&ProxyItem>)
        ensures
            r is Some <==> self@.contains_key(request_key(path@, method)),
            r is Some ==> r->Some_0@ == self@[request_key(path@, method)],
    {
        let key = EndpointKey::new(path, method.as_str());
        self.get(&key)
    }
}

impl EndpointMap for RouteTable {
    open spec fn routes(&self) -> Map<KeyView, ProxyItemView> {
        self@
    }

    fn from_config(config: EndpointConfigFile) -> (r: RouteTable) {
        let mut table = RouteTable::new();
        let mut i: usize = 0;
        assert(config.proxy_urls@.take(0) =~= Seq::empty());
        while i < config.proxy_urls.len()
            invariant
                i <= config.proxy_urls@.len(),
                table@ == table_of(config.proxy_urls@.take(i as int)),
            decreases config.proxy_urls.len() - i,
        {
            let route = &config.proxy_urls[i];
            let item = ProxyItem::from_route(route);
            let method_key = route.inbound_method().to_string();
            let key = EndpointKey::new(route.path.as_str(), method_key.as_str());
            assert(config.proxy_urls@.take(i as int + 1).drop_last() =~= config.proxy_urls@.take(
                i as int,
            ));
            table.insert(key, item);
            i = i + 1;
        }
        assert(config.proxy_urls@.take(i as int) =~= config.proxy_urls@);
        table
    }
}

/// Two requests are looked up under the same key exactly when they name the
/// same path and the same method.
pub proof fn request_keys_differ(p1: Seq<char>, m1: HttpMethod, p2: Seq<char>, m2: HttpMethod)
    ensures
        request_key(p1, m1) == request_key(p2, m2) <==> (p1 == p2 && m1 == m2),
{
    method_names_differ(m1, m2);
}

/// A request for the path and method of any configured route is found.
pub proof fn registered_route_is_found(routes: Seq<RouteConfig>, i: int)
    requires
        0 <= i < routes.len(),
    ensures
        table_of(routes).contains_key(
            request_key(routes[i].path@, routes[i].spec_inbound_method()),
        ),
    decreases routes.len(),
{
    if i < routes.len() - 1 {
        registered_route_is_found(routes.drop_last(), i);
    }
}

/// A request for the path and method of a configured route resolves to
/// that route, provided that no later route is configured for the same path
/// and method: of several, the last one answers.
pub proof fn registered_route_resolves(routes: Seq<RouteConfig>, i: int)
    requires
        0 <= i < routes.len(),
        forall|j: int| i < j < routes.len() ==> key_of(#[trigger] routes[j]) != key_of(routes[i]),
    ensures
        table_of(routes).contains_key(
            request_key(routes[i].path@, routes[i].spec_inbound_method()),
        ),
        table_of(routes)[request_key(routes[i].path@, routes[i].spec_inbound_method())] == item_of(
            routes[i],
        ),
    decreases routes.len(),
{
    if i < routes.len() - 1 {
        registered_route_resolves(routes.drop_last(), i);
    }
}

/// A request whose path and method no configured route has is not found.
pub proof fn unregistered_request_not_found(
    routes: Seq<RouteConfig>,
    path: Seq<char>,
    method: HttpMethod,
)
    requires
        forall|j: int|
            0 <= j < routes.len() ==> !((#[trigger] routes[j]).path@ == path
                && routes[j].spec_inbound_method() == method),
    ensures
        !table_of(routes).contains_key(request_key(path, method)),
    decreases routes.len(),
{
    if routes.len() > 0 {
        unregistered_request_not_found(routes.drop_last(), path, method);
        method_names_differ(routes.last().spec_inbound_method(), method);
    }
}

} // verus!
