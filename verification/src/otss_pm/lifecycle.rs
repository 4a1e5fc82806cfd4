//! Service lifecycle: the service interface and a manager that starts and
//! stops services in order.
use vstd::prelude::*;

verus! {

/// The lifecycle state of a service.
#[derive(Debug, Clone, Copy, PartialEq, Eq, Structural)]
pub enum ServiceState {
    NotStarted,
    Starting,
    Running,
    Stopping,
    Stopped,
    Error,
}

/// A service that the manager runs.
pub trait Service: Send + Sync {
    /// The service's name.
    fn name(&self) -> &str;

    /// Starts the service.
    fn start(&mut self) -> Result<(), anyhow::Error>;

    /// Stops the service.
    fn stop(&mut self) -> Result<(), anyhow::Error>;

    /// The service's state.
    fn state(&self) -> ServiceState;
}

impl<T: Service + ?Sized> Service for Box<T> {
    fn name(&self) -> &str {
        (**self).name()
    }

    fn start(&mut self) -> Result<(), anyhow::Error> {
        (**self).start()
    }

    fn stop(&mut self) -> Result<(), anyhow::Error> {
        (**self).stop()
    }

    fn state(&self) -> ServiceState {
        (**self).state()
    }
}

/// Runs services: starts them in the order added, stops them in reverse.
pub struct ServiceManager<S: Service> {
    services: Vec<S>,
}

impl<S: Service> ServiceManager<S> {
    /// The services, in the order added.
    pub closed spec fn services_spec(self) -> Seq<S> {
        self.services@
    }

    pub open spec fn count(self) -> nat {
        self.services_spec().len()
    }

    /// No services.
    pub fn new() -> (r: ServiceManager<S>)
        ensures
            r.count() == 0,
    {
        ServiceManager { services: Vec::new() }
    }

    /// Adds a service after the others.
    pub fn add_service(&mut self, service: S)
        ensures
            final(self).services_spec() == old(self).services_spec().push(service),
    {
        self.services.push(service);
    }

    /// The number of services.
    pub fn service_count(&self) -> (r: usize)
        ensures
            r == self.count(),
    {
        self.services.len()
    }

    /// Starts every service, first added first; a service that fails to
    /// start is passed over and the others are still started. Each service
    /// is handed to `start` once and keeps its place: for each position there
    /// is one call of `start`, with its argument and result, whose contract
    /// (the implementation's `ensures`) relates the service before and after.
    pub fn start_all(&mut self)
        ensures
            final(self).count() == old(self).count(),
            exists|calls: Seq<(&mut S, Result<(), anyhow::Error>)>|
                #![trigger calls.len()]
                calls.len() == old(self).count() && forall|j: int|
                    0 <= j < old(self).count() ==> #[trigger] call_ensures(S::start, (calls[j].0,), calls[j].1)
                        && mut_ref_current(calls[j].0) == old(self).services_spec()[j] && mut_ref_future(calls[j].0)
                        == final(self).services_spec()[j],
    {
        let ghost before = self.services@;
        let n = self.services.len();
        let mut i: usize = 0;
        while i < n
            invariant
                i <= n,
                n == before.len(),
                self.services@.len() == n,
                forall|j: int|
                    #![trigger before[j]]
                    0 <= j < i ==> exists|a: &mut S, q: Result<(), anyhow::Error>|
                        #[trigger] call_ensures(S::start, (a,), q) && mut_ref_current(a) == before[j] && mut_ref_future(a)
                            == self.services@[j],
                forall|j: int| i <= j < n ==> #[trigger] self.services@[j] == before[j],
            decreases n - i,
        {
            let ghost prev = self.services@;
            let service = vstd::std_specs::vec::vec_index_mut(&mut self.services, i);
            let start = S::start;
            let r = start(service);
            let ghost fin = mut_ref_future(service);
            proof {
                assert(exists|a: &mut S, q: Result<(), anyhow::Error>|
                    #[trigger] call_ensures(S::start, (a,), q) && mut_ref_current(a) == before[i as int]
                        && mut_ref_future(a) == fin);
            }
            proof {
                assert(self.services@ == prev.update(i as int, fin));
            }
            i = i + 1;
        }
        proof {
            let calls = Seq::new(
                n as nat,
                |j: int|
                    choose|p: (&mut S, Result<(), anyhow::Error>)|
                        #[trigger] call_ensures(S::start, (p.0,), p.1) && mut_ref_current(p.0) == before[j]
                            && mut_ref_future(p.0) == self.services@[j],
            );
            assert forall|j: int|
                0 <= j < n implies #[trigger] call_ensures(S::start, (calls[j].0,), calls[j].1)
                    && mut_ref_current(calls[j].0) == before[j] && mut_ref_future(calls[j].0) == self.services@[j] by {
                assert(before[j] == before[j]);
                let (a, q) = choose|a: &mut S, q: Result<(), anyhow::Error>|
                    #[trigger] call_ensures(S::start, (a,), q) && mut_ref_current(a) == before[j] && mut_ref_future(a)
                        == self.services@[j];
                assert(call_ensures(S::start, ((a, q).0,), (a, q).1));
            }
            assert(calls.len() == n);
        }
    }

    /// Stops every service, last added first; a service that fails to stop
    /// is passed over and the others are still stopped. Each service is
    /// handed to `stop` once and keeps its place: for each position there is
    /// one call of `stop`, with its argument and result, whose contract (the
    /// implementation's `ensures`) relates the service before and after.
    pub fn stop_all(&mut self)
        ensures
            final(self).count() == old(self).count(),
            exists|calls: Seq<(&mut S, Result<(), anyhow::Error>)>|
                #![trigger calls.len()]
                calls.len() == old(self).count() && forall|j: int|
                    0 <= j < old(self).count() ==> #[trigger] call_ensures(S::stop, (calls[j].0,), calls[j].1)
                        && mut_ref_current(calls[j].0) == old(self).services_spec()[j] && mut_ref_future(calls[j].0)
                        == final(self).services_spec()[j],
    {
        let ghost before = self.services@;
        let n = self.services.len();
        let mut i: usize = n;
        while i > 0
            invariant
                i <= n,
                n == before.len(),
                self.services@.len() == n,
                forall|j: int|
                    #![trigger before[j]]
                    i <= j < n ==> exists|a: &mut S, q: Result<(), anyhow::Error>|
                        #[trigger] call_ensures(S::stop, (a,), q) && mut_ref_current(a) == before[j] && mut_ref_future(a)
                            == self.services@[j],
                forall|j: int| 0 <= j < i ==> #[trigger] self.services@[j] == before[j],
            decreases i,
        {
            i = i - 1;
            let ghost prev = self.services@;
            let service = vstd::std_specs::vec::vec_index_mut(&mut self.services, i);
            let stop = S::stop;
            let r = stop(service);
            let ghost fin = mut_ref_future(service);
            proof {
                assert(exists|a: &mut S, q: Result<(), anyhow::Error>|
                    #[trigger] call_ensures(S::stop, (a,), q) && mut_ref_current(a) == before[i as int]
                        && mut_ref_future(a) == fin);
            }
            proof {
                assert(self.services@ == prev.update(i as int, fin));
            }
        }
        proof {
            let calls = Seq::new(
                n as nat,
                |j: int|
                    choose|p: (&mut S, Result<(), anyhow::Error>)|
                        #[trigger] call_ensures(S::stop, (p.0,), p.1) && mut_ref_current(p.0) == before[j]
                            && mut_ref_future(p.0) == self.services@[j],
            );
            assert forall|j: int|
                0 <= j < n implies #[trigger] call_ensures(S::stop, (calls[j].0,), calls[j].1)
                    && mut_ref_current(calls[j].0) == before[j] && mut_ref_future(calls[j].0) == self.services@[j] by {
                assert(before[j] == before[j]);
                let (a, q) = choose|a: &mut S, q: Result<(), anyhow::Error>|
                    #[trigger] call_ensures(S::stop, (a,), q) && mut_ref_current(a) == before[j] && mut_ref_future(a)
                        == self.services@[j];
                assert(call_ensures(S::stop, ((a, q).0,), (a, q).1));
            }
            assert(calls.len() == n);
        }
    }

    /// The first service whose name is `name`, if any. Each service is asked
    /// for its name once, in the order added; [`first_named`] picks the first
    /// name equal to `name`. What `name()` answers is the implementation's:
    /// the contract speaks of the answers its `ensures` allows.
    pub fn get_service(&self, name: &str) -> (r: Option<&S>)
        ensures
            match r {
                Some(s) => exists|k: int|
                    {
                        &&& 0 <= k < self.count()
                        &&& *s == self.services_spec()[k]
                        &&& answers_name(self.services_spec()[k], name@)
                        &&& forall|j: int| 0 <= j < k ==> answers_other_name(#[trigger] self.services_spec()[j], name@)
                    },
                None => forall|j: int|
                    0 <= j < self.count() ==> answers_other_name(#[trigger] self.services_spec()[j], name@),
            },
    {
        let mut names: Vec<String> = Vec::new();
        let ghost mut answers: Seq<&str> = Seq::empty();
        let mut i: usize = 0;
        while i < self.services.len()
            invariant
                i <= self.services@.len(),
                names@.len() == i,
                answers.len() == i,
                forall|j: int|
                    0 <= j < i ==> #[trigger] call_ensures(S::name, (&self.services@[j],), answers[j])
                        && answers[j]@ == names@[j]@,
            decreases self.services@.len() - i,
        {
            let ask = S::name;
            let t = ask(&self.services[i]);
            proof {
                answers = answers.push(t);
            }
            names.push(String::from_str(t));
            i = i + 1;
        }
        match first_named(&names, name) {
            Some(k) => {
                let service = &self.services[k];
                proof {
                    assert(*service == self.services_spec()[k as int]);
                    assert(call_ensures(S::name, (&self.services@[k as int],), answers[k as int]));
                    assert(answers_name(self.services_spec()[k as int], name@));
                    assert forall|j: int| 0 <= j < k implies answers_other_name(
                        #[trigger] self.services_spec()[j],
                        name@,
                    ) by {
                        assert(names@[j]@ != name@);
                        assert(call_ensures(S::name, (&self.services@[j],), answers[j]));
                    }
                }
                Some(service)
            },
            None => {
                proof {
                    assert forall|j: int| 0 <= j < self.count() implies answers_other_name(
                        #[trigger] self.services_spec()[j],
                        name@,
                    ) by {
                        assert(names@[j]@ != name@);
                        assert(call_ensures(S::name, (&self.services@[j],), answers[j]));
                    }
                }
                None
            },
        }
    }
}

/// `name()` may answer `name` for the service `s`, by the implementation's
/// contract.
pub open spec fn answers_name<S: Service>(s: S, name: Seq<char>) -> bool {
    exists|t: &str| #[trigger] call_ensures(S::name, (&s,), t) && t@ == name
}

/// `name()` may answer for the service `s` a name other than `name`, by the
/// implementation's contract.
pub open spec fn answers_other_name<S: Service>(s: S, name: Seq<char>) -> bool {
    exists|t: &str| #[trigger] call_ensures(S::name, (&s,), t) && t@ != name
}

/// The index of the first of `names` equal to `name`, or `None` when none is.
pub fn first_named(names: &Vec<String>, name: &str) -> (r: Option<usize>)
    ensures
        match r {
            Some(k) => {
                &&& k < names@.len()
                &&& names@[k as int]@ == name@
                &&& forall|j: int| 0 <= j < k ==> #[trigger] names@[j]@ != name@
            },
            None => forall|j: int| 0 <= j < names@.len() ==> #[trigger] names@[j]@ != name@,
        },
{
    let target = String::from_str(name);
    let mut i: usize = 0;
    while i < names.len()
        invariant
            i <= names@.len(),
            target@ == name@,
            forall|j: int| 0 <= j < i ==> #[trigger] names@[j]@ != name@,
        decreases names@.len() - i,
    {
        if names[i] == target {
            return Some(i);
        }
        i = i + 1;
    }
    None
}

impl<S: Service> Default for ServiceManager<S> {
    fn default() -> (r: ServiceManager<S>)
        ensures
            r.count() == 0,
    {
        ServiceManager::new()
    }
}

/// A service's name and state.
#[derive(Debug, Clone)]
pub struct ServiceHandle {
    pub name: String,
    pub state: ServiceState,
}

} // verus!
