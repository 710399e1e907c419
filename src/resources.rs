use std::collections::HashMap;
use vstd::prelude::*;
use crate::kind::ObjectKind;
use crate::world::World;

verus! {

broadcast use vstd::std_specs::hash::group_hash_axioms;

/// A host callback named a resource that was never created, or was already
/// destroyed.
#[derive(Clone, Copy, Debug, PartialEq, Eq, Structural)]
pub enum ResourceError {
    UnknownResource { resource: usize },
}

/// The application instances of every loaded resource, keyed by the host's
/// resource handle, so that one process can host several logic modules.
pub struct ResourceRegistry<A> {
    apps: HashMap<usize, A>,
}

impl<A> ResourceRegistry<A> {
    pub closed spec fn view(&self) -> Map<usize, A> {
        self.apps@
    }

    /// A registry with no resource.
    pub fn new() -> (r: ResourceRegistry<A>)
        ensures
            r.view() == Map::<usize, A>::empty(),
    {
        ResourceRegistry { apps: HashMap::new() }
    }

    /// Host create callback, given what loading the module produced: stores
    /// the instance and reports success, or stores nothing and reports
    /// failure when loading failed.
    pub fn on_create(&mut self, resource: usize, loaded: Option<A>) -> (r: bool)
        ensures
            r == loaded.is_some(),
            match loaded {
                Some(app) => final(self).view() == old(self).view().insert(resource, app),
                None => final(self).view() == old(self).view(),
            },
    {
        match loaded {
            Some(app) => {
                self.apps.insert(resource, app);
                true
            },
            None => false,
        }
    }

    /// Host destroy callback: removes the instance of `resource` and hands it
    /// back to be dropped; `None` when there was none.
    pub fn on_destroy(&mut self, resource: usize) -> (r: Option<A>)
        ensures
            r == (if old(self).view().contains_key(resource) {
                Some(old(self).view()[resource])
            } else {
                None
            }),
            final(self).view() == old(self).view().remove(resource),
    {
        self.apps.remove(&resource)
    }

    /// Whether `resource` has an instance.
    pub fn contains(&self, resource: usize) -> (r: bool)
        ensures
            r == self.view().contains_key(resource),
    {
        self.apps.contains_key(&resource)
    }

    /// The instance of `resource`, for reads.
    pub fn get(&self, resource: usize) -> (r: Option<&A>)
        ensures
            r == (if self.view().contains_key(resource) {
                Some(&self.view()[resource])
            } else {
                None
            }),
    {
        self.apps.get(&resource)
    }

    /// Takes the instance of `resource` out to run a callback on it; it goes
    /// back with `restore`. Fails when `resource` is unknown.
    pub fn take(&mut self, resource: usize) -> (r: Result<A, ResourceError>)
        ensures
            match r {
                Ok(app) => {
                    &&& old(self).view().contains_key(resource)
                    &&& app == old(self).view()[resource]
                    &&& final(self).view() == old(self).view().remove(resource)
                },
                Err(err) => {
                    &&& !old(self).view().contains_key(resource)
                    &&& err == ResourceError::UnknownResource { resource }
                    &&& final(self).view() == old(self).view()
                },
            },
    {
        match self.apps.remove(&resource) {
            Some(app) => Ok(app),
            None => Err(ResourceError::UnknownResource { resource }),
        }
    }

    /// Puts the instance of `resource` back after a callback ran on it.
    pub fn restore(&mut self, resource: usize, app: A)
        ensures
            final(self).view() == old(self).view().insert(resource, app),
    {
        self.apps.insert(resource, app);
    }
}

/// Resources are independent: creating, destroying, taking out or putting
/// back the instance of one resource leaves the instance of every other
/// resource as it was.
pub proof fn lemma_resources_independent<A>(m: Map<usize, A>, r1: usize, r2: usize, app: A)
    requires
        r1 != r2,
    ensures
        m.insert(r1, app).contains_key(r2) == m.contains_key(r2),
        m.remove(r1).contains_key(r2) == m.contains_key(r2),
        m.contains_key(r2) ==> m.insert(r1, app)[r2] == m[r2] && m.remove(r1)[r2] == m[r2],
{
}

/// Multiplexing: with the worlds of two resources `r1 != r2` registered,
/// destroying `r1` leaves every lookup in the world of `r2` as it was.
pub proof fn lemma_destroy_keeps_other_lookups(
    m: Map<usize, World>,
    r1: usize,
    r2: usize,
    kind: ObjectKind,
    handle: usize,
)
    requires
        r1 != r2,
        m.contains_key(r1),
        m.contains_key(r2),
    ensures
        m.remove(r1).contains_key(r2),
        m.remove(r1)[r2].view().lookup(kind, handle) == m[r2].view().lookup(kind, handle),
{
    lemma_resources_independent(m, r1, r2, m[r1]);
}

} // verus!
