//! The controller composition accumulator.
//!
//! An app is built by repeatedly registering controllers — each bound to one
//! resource kind and, for namespaced services, one namespace — starting from
//! the empty app, which trivially starts. Running the app runs preflight for
//! every registration concurrently (the embedding process makes the cluster
//! calls) and aggregates the outcomes: the app starts only if every child
//! starts, and a startup failure names exactly the registrations that
//! failed. A single misconfigured controller prevents the whole process from
//! starting.

use vstd::prelude::*;

use crate::errors::PreflightError;

verus! {

/// One entry in the composition accumulator: the resource kind a controller
/// watches and, for namespaced services, its target namespace.
pub struct ControllerRegistration {
    pub resource_kind: String,
    pub namespace: Option<String>,
}

/// Model of one registration.
pub struct RegistrationModel {
    pub resource_kind: Seq<char>,
    pub namespace: Option<Seq<char>>,
}

impl View for ControllerRegistration {
    type V = RegistrationModel;

    open spec fn view(&self) -> RegistrationModel {
        RegistrationModel {
            resource_kind: self.resource_kind@,
            namespace: match self.namespace {
                Some(ns) => Some(ns@),
                None => None,
            },
        }
    }
}

impl DeepView for ControllerRegistration {
    type V = RegistrationModel;

    open spec fn deep_view(&self) -> RegistrationModel {
        self.view()
    }
}

/// The registrations whose preflight failed, each with its position in the
/// accumulator, in registration order.
pub open spec fn spec_startup_failures(results: Seq<Result<(), PreflightError>>) -> Seq<
    (usize, PreflightError),
>
    decreases results.len(),
{
    if results.len() == 0 {
        Seq::empty()
    } else {
        let prefix = spec_startup_failures(results.drop_last());
        match results.last() {
            Ok(u) => prefix,
            Err(e) => prefix.push((((results.len() - 1) as usize), e)),
        }
    }
}

/// The composition accumulator: the controllers registered so far, in
/// registration order.
pub struct App {
    registrations: Vec<ControllerRegistration>,
}

impl App {
    /// The registrations accumulated so far.
    pub closed spec fn spec_registrations(self) -> Seq<RegistrationModel> {
        self.registrations.deep_view()
    }

    /// The empty app: no controllers registered; running it trivially
    /// succeeds with an already-complete task.
    pub fn new() -> (r: App)
        ensures
            r.spec_registrations() == Seq::<RegistrationModel>::empty(),
    {
        let r = App { registrations: Vec::new() };
        proof {
            assert(r.spec_registrations() =~= Seq::<RegistrationModel>::empty());
        }
        r
    }

    /// How many controllers are registered.
    pub fn len(&self) -> (r: usize)
        ensures
            r == self.spec_registrations().len(),
    {
        self.registrations.len()
    }
}

impl Default for App {
    /// The empty app, as [`App::new`] builds it.
    fn default() -> (r: App)
        ensures
            r.spec_registrations() == Seq::<RegistrationModel>::empty(),
    {
        App::new()
    }
}

impl App {
    /// Register a cluster-scoped service watching the given resource kind.
    pub fn cluster_service(self, resource_kind: String) -> (r: App)
        ensures
            r.spec_registrations() == self.spec_registrations().push(
                RegistrationModel { resource_kind: resource_kind@, namespace: None },
            ),
    {
        let ghost before = self.spec_registrations();
        let mut registrations = self.registrations;
        registrations.push(ControllerRegistration { resource_kind, namespace: None });
        let r = App { registrations };
        proof {
            assert(r.spec_registrations() =~= before.push(
                RegistrationModel { resource_kind: resource_kind@, namespace: None },
            ));
        }
        r
    }

    /// Register a namespaced service watching the given resource kind in the
    /// given namespace.
    pub fn namespaced_service(self, namespace: &str, resource_kind: String) -> (r: App)
        ensures
            r.spec_registrations() == self.spec_registrations().push(
                RegistrationModel { resource_kind: resource_kind@, namespace: Some(namespace@) },
            ),
    {
        let ghost before = self.spec_registrations();
        let mut registrations = self.registrations;
        registrations.push(
            ControllerRegistration { resource_kind, namespace: Some(namespace.to_owned()) },
        );
        let r = App { registrations };
        proof {
            assert(r.spec_registrations() =~= before.push(
                RegistrationModel { resource_kind: resource_kind@, namespace: Some(namespace@) },
            ));
        }
        r
    }

    /// Aggregate the preflight outcomes of every registered controller, one
    /// outcome per registration in registration order. The app may start
    /// only if every child passed; otherwise the failure lists exactly the
    /// registrations whose preflight failed, with their positions.
    pub fn run(&self, preflights: &Vec<Result<(), PreflightError>>) -> (r: Result<
        (),
        Vec<(usize, PreflightError)>,
    >)
        requires
            preflights@.len() == self.spec_registrations().len(),
        ensures
            r is Ok <==> (forall|i: int|
                0 <= i < preflights@.len() ==> preflights@[i] is Ok),
            r is Err ==> r->Err_0@ == spec_startup_failures(preflights@),
            r is Err ==> r->Err_0@.len() > 0,
    {
        let mut failures: Vec<(usize, PreflightError)> = Vec::new();
        let mut i: usize = 0;
        proof {
            assert(preflights@.take(0) =~= Seq::<Result<(), PreflightError>>::empty());
            assert(failures@ =~= spec_startup_failures(preflights@.take(0)));
        }
        while i < preflights.len()
            invariant
                0 <= i <= preflights@.len(),
                failures@ == spec_startup_failures(preflights@.take(i as int)),
                failures@.len() == 0 <==> (forall|k: int|
                    0 <= k < i ==> preflights@[k] is Ok),
            decreases preflights@.len() - i,
        {
            let ghost prefix = preflights@.take(i as int);
            let ghost longer = preflights@.take(i as int + 1);
            proof {
                assert(longer.drop_last() =~= prefix);
                assert(longer.last() == preflights@[i as int]);
            }
            match preflights[i] {
                Ok(u) => (),
                Err(e) => {
                    failures.push((i, e));
                },
            }
            i += 1;
        }
        proof {
            assert(preflights@.take(preflights@.len() as int) =~= preflights@);
        }
        if failures.len() == 0 {
            Ok(())
        } else {
            Err(failures)
        }
    }
}

/// Law: aggregated startup is all-or-nothing. With every preflight outcome
/// supplied in registration order, the failure list is empty exactly when
/// every child passed, and otherwise holds one entry per failed child,
/// carrying its position and its error, in order.
pub proof fn lemma_startup_failures_exact(results: Seq<Result<(), PreflightError>>)
    requires
        results.len() <= usize::MAX,
    ensures
        spec_startup_failures(results).len() == 0 <==> (forall|i: int|
            0 <= i < results.len() ==> results[i] is Ok),
        forall|j: int|
            0 <= j < spec_startup_failures(results).len() ==> ({
                let entry = #[trigger] spec_startup_failures(results)[j];
                &&& entry.0 < results.len()
                &&& results[entry.0 as int] == Err::<(), PreflightError>(entry.1)
            }),
    decreases results.len(),
{
    if results.len() == 0 {
    } else {
        lemma_startup_failures_exact(results.drop_last());
        let prefix = spec_startup_failures(results.drop_last());
        let whole = spec_startup_failures(results);
        assert(forall|i: int| 0 <= i < results.len() - 1 ==> results.drop_last()[i] == results[i]);
        assert forall|j: int| 0 <= j < whole.len() implies ({
            let entry = #[trigger] whole[j];
            &&& entry.0 < results.len()
            &&& results[entry.0 as int] == Err::<(), PreflightError>(entry.1)
        }) by {
            match results.last() {
                Ok(u) => {
                    assert(whole == prefix);
                    assert(whole[j] == prefix[j]);
                },
                Err(e) => {
                    assert(whole == prefix.push((((results.len() - 1) as usize), e)));
                    if j < prefix.len() {
                        assert(whole[j] == prefix[j]);
                    } else {
                        assert(j == prefix.len());
                        assert(whole[j] == whole.last());
                        assert(whole.last() == (((results.len() - 1) as usize), e));
                        assert(results[results.len() - 1] == Err::<(), PreflightError>(e));
                    }
                },
            }
        }
    }
}

} // verus!
