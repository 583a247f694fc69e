//! The router: the table of host handlers and the serving of requests.

use vstd::prelude::*;
use vstd::string::StringExecFns;
use crate::error::Error;
use crate::msg_channel::{recv_within, MsgChannel, Received, MAX_WAIT_MS};
use crate::text::{occurs, occurs_at};
use crate::value::JsonValue;

verus! {

/// A host handler: takes the arguments of a call and produces its result or
/// a message that says why it failed.
pub trait Processor {
    fn call(&self, args: JsonValue) -> (r: Result<JsonValue, String>);
}

/// The handler that answers every call with its arguments.
#[derive(Clone, Copy, Debug)]
pub struct Echo;

impl Processor for Echo {
    fn call(&self, args: JsonValue) -> (r: Result<JsonValue, String>)
        ensures
            r == Ok::<JsonValue, String>(args),
    {
        Ok(args)
    }
}

/// The full name of a route: namespace, a dot, name.
pub open spec fn route_name(ns: Seq<char>, name: Seq<char>) -> Seq<char> {
    ns + "."@ + name
}

/// The message that answers a call to a route without a handler.
pub open spec fn not_found_message(ns: Seq<char>, name: Seq<char>) -> Seq<char> {
    route_name(ns, name) + " not found"@
}

/// The message that answers a call to a route without a handler holds the
/// namespace, the name, the route's full name and the words `not found`.
pub proof fn lemma_not_found_names_route(ns: Seq<char>, name: Seq<char>)
    ensures
        occurs(not_found_message(ns, name), ns),
        occurs(not_found_message(ns, name), name),
        occurs(not_found_message(ns, name), route_name(ns, name)),
        occurs(not_found_message(ns, name), "not found"@),
{
    reveal_strlit(".");
    reveal_strlit(" not found");
    reveal_strlit("not found");
    let route = route_name(ns, name);
    let m = not_found_message(ns, name);
    let words = "not found"@;
    let a: int = ns.len() as int + 1;
    let b: int = route.len() as int + 1;
    assert(occurs_at(m, ns, 0)) by {
        assert(m.subrange(0, ns.len() as int) =~= ns);
    }
    assert(occurs_at(m, name, a)) by {
        assert(m.subrange(a, a + name.len()) =~= name);
    }
    assert(occurs_at(m, route, 0)) by {
        assert(m.subrange(0, route.len() as int) =~= route);
    }
    assert(occurs_at(m, words, b)) by {
        assert(m.subrange(b, b + words.len()) =~= words);
    }
}

/// Builds the full name of a route.
pub fn full_route_name(ns: &String, name: &String) -> (r: String)
    ensures
        r@ == route_name(ns@, name@),
{
    let mut out = ns.clone();
    out.append(".");
    out.append(name.as_str());
    out
}

/// Builds the message that answers a call to a route without a handler.
pub fn not_found(ns: &String, name: &String) -> (r: String)
    ensures
        r@ == not_found_message(ns@, name@),
{
    let mut out = full_route_name(ns, name);
    out.append(" not found");
    out
}

/// One entry of the router's table.
pub struct Route<P> {
    pub namespace: String,
    pub name: String,
    pub handler: P,
}

/// The namespace and name of each entry, in order.
pub open spec fn route_keys<P>(routes: Seq<Route<P>>) -> Seq<(Seq<char>, Seq<char>)> {
    Seq::new(routes.len(), |i: int| (routes[i].namespace@, routes[i].name@))
}

/// The namespace and name of each registration, in order.
pub open spec fn registration_keys<P>(entries: Seq<(String, String, P)>) -> Seq<
    (Seq<char>, Seq<char>),
> {
    Seq::new(entries.len(), |i: int| (entries[i].0@, entries[i].1@))
}

/// No namespace and name occur together twice.
pub open spec fn distinct_keys(keys: Seq<(Seq<char>, Seq<char>)>) -> bool {
    forall|i: int, j: int| 0 <= i < j < keys.len() ==> keys[i] != keys[j]
}

/// Whether `j` is the first position whose namespace and name occurred before.
pub open spec fn first_duplicate(keys: Seq<(Seq<char>, Seq<char>)>, j: int) -> bool {
    &&& 0 <= j < keys.len()
    &&& distinct_keys(keys.take(j))
    &&& exists|i: int| 0 <= i < j && keys[i] == keys[j]
}

/// Whether a handler is registered under the namespace and name.
pub open spec fn has_route(keys: Seq<(Seq<char>, Seq<char>)>, ns: Seq<char>, name: Seq<char>) -> bool {
    exists|i: int| 0 <= i < keys.len() && keys[i] == (ns, name)
}

/// Finds the position of the entry under the namespace and name.
fn find_route<P>(routes: &Vec<Route<P>>, ns: &String, name: &String) -> (r: Option<usize>)
    ensures
        r.is_some() == has_route(route_keys(routes@), ns@, name@),
        r matches Some(i) ==> i < routes.len() && route_keys(routes@)[i as int] == (ns@, name@),
{
    let mut i: usize = 0;
    while i < routes.len()
        invariant
            i <= routes.len(),
            forall|j: int| 0 <= j < i ==> route_keys(routes@)[j] != (ns@, name@),
        decreases routes.len() - i,
    {
        if routes[i].namespace == *ns && routes[i].name == *name {
            assert(route_keys(routes@)[i as int] == (ns@, name@));
            return Some(i);
        }
        i += 1;
    }
    None
}

/// Why the router stopped serving.
#[derive(Clone, Copy, Debug, PartialEq, Eq, Structural)]
pub enum Stop {
    /// It has served as many requests as it was asked to.
    Limit,
    /// No request arrived within the wait.
    Idle,
    /// The queue is closed: no request will arrive any more.
    Closed,
}

/// Whether serving stops after a wait on the queue, and why.
pub open spec fn after_wait_spec(received: Received<MsgChannel>) -> Option<Stop> {
    match received {
        Received::Message(_) => None,
        Received::TimedOut => Some(Stop::Idle),
        Received::Closed => Some(Stop::Closed),
    }
}

/// Says what the router does after a wait on its queue: it goes on when a
/// request arrived, stops as idle when the wait ran out, and stops for good
/// when the queue is closed.
pub fn after_wait(received: &Received<MsgChannel>) -> (stop: Option<Stop>)
    ensures
        stop == after_wait_spec(*received),
{
    match received {
        Received::Message(_) => None,
        Received::TimedOut => Some(Stop::Idle),
        Received::Closed => Some(Stop::Closed),
    }
}

/// The table of handlers, fixed once it is built: each namespace and name
/// leads to at most one handler.
pub struct Router<P: Processor> {
    routes: Vec<Route<P>>,
}

impl<P: Processor> Router<P> {
    #[verifier::type_invariant]
    spec fn unique(&self) -> bool {
        distinct_keys(route_keys(self.routes@))
    }

    /// The entries of the table, in the order of registration.
    pub closed spec fn table(&self) -> Seq<Route<P>> {
        self.routes@
    }

    /// Builds the table from the registrations.
    ///
    /// Succeeds when no namespace and name are registered twice; the table
    /// then holds the registrations in their order. Otherwise fails with
    /// `DuplicateRoute`, naming the first registration that repeats an
    /// earlier one.
    pub fn new(processors: Vec<(String, String, P)>) -> (r: Result<Self, Error>)
        ensures
            distinct_keys(registration_keys(processors@)) ==> (r matches Ok(router)
                && router.table().len() == processors.len() && forall|i: int|
                0 <= i < processors.len() ==> {
                    &&& (#[trigger] router.table()[i]).namespace == processors[i].0
                    &&& router.table()[i].name == processors[i].1
                    &&& router.table()[i].handler == processors[i].2
                }),
            !distinct_keys(registration_keys(processors@)) ==> (r matches Err(
                Error::DuplicateRoute { route },
            ) && exists|j: int|
                first_duplicate(registration_keys(processors@), j) && route@ == route_name(
                    processors[j].0@,
                    processors[j].1@,
                )),
    {
        let ghost given = processors@;
        let ghost keys = registration_keys(given);
        let mut rest = processors;
        crate::util::reverse(&mut rest);
        let ghost reversed = rest@;
        let mut routes: Vec<Route<P>> = Vec::new();
        while rest.len() > 0
            invariant
                given == processors@,
                reversed.len() == given.len(),
                forall|j: int| 0 <= j < given.len() ==> reversed[j] == given[given.len() - 1 - j],
                rest.len() <= given.len(),
                rest@ == reversed.take(rest.len() as int),
                keys == registration_keys(given),
                routes.len() == given.len() - rest.len(),
                forall|i: int|
                    0 <= i < routes.len() ==> {
                        &&& (#[trigger] routes[i]).namespace == given[i].0
                        &&& routes[i].name == given[i].1
                        &&& routes[i].handler == given[i].2
                    },
                distinct_keys(route_keys(routes@)),
            decreases rest.len(),
        {
            let ghost n = rest.len() as int;
            let ghost done = given.len() - n;
            let (namespace, name, handler) = rest.pop().unwrap();
            assert(rest@ =~= reversed.take(n - 1));
            assert((namespace, name, handler) == given[done]);
            assert(route_keys(routes@) =~= keys.take(done));
            match find_route(&routes, &namespace, &name) {
                Some(i) => {
                    proof {
                        assert(keys[i as int] == keys[done]);
                        assert(first_duplicate(keys, done));
                        assert(!distinct_keys(keys));
                    }
                    return Err(Error::DuplicateRoute { route: full_route_name(&namespace, &name) });
                },
                None => {
                    routes.push(Route { namespace, name, handler });
                    assert(route_keys(routes@) =~= keys.take(done + 1));
                    assert(distinct_keys(keys.take(done + 1))) by {
                        let upto = keys.take(done + 1);
                        assert forall|i: int, j: int| 0 <= i < j < done + 1 implies (
                        #[trigger] upto[i]) != (#[trigger] upto[j]) by {
                            if j < done {
                                assert(keys.take(done)[i] != keys.take(done)[j]);
                            } else {
                                assert(keys.take(done)[i] == keys[i]);
                            }
                        }
                    }
                },
            }
        }
        assert(route_keys(routes@) =~= keys);
        Ok(Router { routes })
    }

    /// The number of registered handlers.
    pub fn len(&self) -> (n: usize)
        ensures
            n == self.table().len(),
    {
        self.routes.len()
    }

    /// Finds the handler registered under the namespace and name: the
    /// handler of the one entry with that namespace and name, and none where
    /// there is no such entry.
    pub fn lookup(&self, ns: &String, name: &String) -> (r: Option<&P>)
        ensures
            r.is_some() == has_route(route_keys(self.table()), ns@, name@),
            forall|i: int|
                0 <= i < self.table().len() && route_keys(self.table())[i] == (ns@, name@) ==> r
                    == Some(&self.table()[i].handler),
    {
        proof {
            use_type_invariant(self);
        }
        match find_route(&self.routes, ns, name) {
            Some(p) => {
                assert forall|i: int|
                    0 <= i < self.routes.len() && route_keys(self.routes@)[i] == (
                        ns@,
                        name@,
                    ) implies i == p by {
                    let keys = route_keys(self.routes@);
                    if i < p {
                        assert(keys[i] != keys[p as int]);
                    } else if p < i {
                        assert(keys[p as int] != keys[i]);
                    }
                }
                Some(&self.routes[p].handler)
            },
            None => None,
        }
    }

    /// Answers one call.
    ///
    /// Where a handler is registered under the namespace and name, it is
    /// called with the arguments and the answer is what that call returns.
    /// Where none is, the answer is the failure message that names the
    /// route.
    pub fn answer(&self, ns: &String, name: &String, args: JsonValue) -> (reply: Result<
        JsonValue,
        String,
    >)
        ensures
            forall|i: int|
                0 <= i < self.table().len() && route_keys(self.table())[i] == (ns@, name@)
                    ==> call_ensures(P::call, (&self.table()[i].handler, args), reply),
            !has_route(route_keys(self.table()), ns@, name@) ==> (reply matches Err(m) && m@
                == not_found_message(ns@, name@)),
    {
        match self.lookup(ns, name) {
            Some(handler) => handler.call(args),
            None => Err(not_found(ns, name)),
        }
    }

    /// Serves requests from the queue in the order of their arrival, one at
    /// a time, until it has served `max` of them, or none arrives within
    /// `idle_ms` milliseconds, or the queue is closed. Returns how many it
    /// served and why it stopped. A reply that nobody waits for is let pass.
    ///
    /// The queue and the clock decide what each wait ends with;
    /// [`after_wait`] says what the router does then.
    pub fn serve(&self, queue: &flume::Receiver<MsgChannel>, max: usize, idle_ms: u64) -> (r: (
        usize,
        Stop,
    ))
        requires
            idle_ms <= MAX_WAIT_MS,
        ensures
            r.0 <= max,
            r.1 is Limit <==> r.0 == max,
    {
        let mut served: usize = 0;
        while served < max
            invariant
                served <= max,
                idle_ms <= MAX_WAIT_MS,
            decreases max - served,
        {
            let received = recv_within(queue, idle_ms);
            match after_wait(&received) {
                Some(stop) => {
                    return (served, stop);
                },
                None => {},
            }
            if let Received::Message(msg) = received {
                self.process(msg);
            }
            served += 1;
        }
        (served, Stop::Limit)
    }

    /// Serves one request: answers the call and sends the answer to the
    /// request's mailbox. Returns whether the answer was delivered; it is
    /// not when the caller has stopped waiting, which the router lets pass.
    pub fn process(&self, msg: MsgChannel) -> (delivered: bool) {
        let MsgChannel { namespace, name, args, res } = msg;
        let reply = self.answer(&namespace, &name, args);
        res.send(reply)
    }
}

} // verus!
