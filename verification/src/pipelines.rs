//! The named graphics pipelines: registration at startup, lookup by name.

use vstd::prelude::*;

verus! {

/// Whether `names` holds `name`.
pub open spec fn has_name(names: Seq<Seq<char>>, name: Seq<char>) -> bool {
    exists|i: int| 0 <= i < names.len() && #[trigger] names[i] == name
}

/// Whether `slot` is where `names` holds `name`.
pub open spec fn is_slot_of(names: Seq<Seq<char>>, name: Seq<char>, slot: int) -> bool {
    0 <= slot < names.len() && names[slot] == name
}

/// Why a pipeline could not be registered.
#[derive(Clone, Copy, Debug, PartialEq, Eq, Structural)]
pub enum PipelineError {
    /// Startup is over: the registry takes no more pipelines.
    Sealed,
}

/// The names of the registered pipelines. Each name stands for the slot it
/// was registered in, under which the owner keeps the compiled pipeline.
/// Pipelines are registered at startup; once sealed, the registry stays as
/// it is.
pub struct PipelineRegistry {
    names: Vec<String>,
    sealed: bool,
}

impl View for PipelineRegistry {
    type V = Seq<Seq<char>>;

    closed spec fn view(&self) -> Seq<Seq<char>> {
        Seq::new(self.names@.len(), |i: int| self.names@[i]@)
    }
}

impl PipelineRegistry {
    /// Whether startup is over.
    pub closed spec fn sealed(&self) -> bool {
        self.sealed
    }

    /// The registry's invariant: no name is registered twice.
    pub open spec fn wf(&self) -> bool {
        forall|i: int, j: int| 0 <= i < j < self@.len() ==> #[trigger] self@[i] != #[trigger] self@[j]
    }

    /// A registry without pipelines, open for registration.
    pub fn new() -> (registry: PipelineRegistry)
        ensures
            registry.wf(),
            !registry.sealed(),
            registry@ == Seq::<Seq<char>>::empty(),
    {
        let registry = PipelineRegistry { names: Vec::new(), sealed: false };
        assert(registry@ =~= Seq::<Seq<char>>::empty());
        registry
    }

    /// Ends startup: from now on the registry refuses registrations.
    pub fn seal(&mut self)
        ensures
            final(self).sealed(),
            final(self)@ == old(self)@,
    {
        self.sealed = true;
    }

    /// Whether startup is over.
    pub fn is_sealed(&self) -> (sealed: bool)
        ensures
            sealed == self.sealed(),
    {
        self.sealed
    }

    /// The number of registered pipelines.
    pub fn len(&self) -> (n: usize)
        ensures
            n == self@.len(),
    {
        self.names.len()
    }

    /// The slot of the pipeline registered as `name`, if there is one.
    pub fn find(&self, name: &str) -> (slot: Option<usize>)
        ensures
            slot.is_some() <==> has_name(self@, name@),
            slot.is_some() ==> is_slot_of(self@, name@, slot.unwrap() as int),
    {
        let wanted: String = name.to_owned();
        let mut i: usize = 0;
        while i < self.names.len()
            invariant
                i <= self@.len(),
                wanted@ == name@,
                forall|k: int| 0 <= k < i ==> #[trigger] self@[k] != name@,
            decreases self@.len() - i,
        {
            if self.names[i] == wanted {
                assert(self@[i as int] == name@);
                return Some(i);
            }
            i += 1;
        }
        None
    }

    /// Registers a pipeline as `name` and returns its slot. A name that is
    /// registered already keeps its slot, whose pipeline the new one
    /// replaces. A sealed registry refuses, and stays as it is.
    pub fn register(&mut self, name: &str) -> (slot: Result<usize, PipelineError>)
        requires
            old(self).wf(),
        ensures
            final(self).wf(),
            final(self).sealed() == old(self).sealed(),
            slot.is_err() <==> old(self).sealed(),
            slot.is_err() ==> final(self)@ == old(self)@,
            slot.is_ok() ==> is_slot_of(final(self)@, name@, slot.unwrap() as int) && final(self)@
                == if has_name(old(self)@, name@) {
                old(self)@
            } else {
                old(self)@.push(name@)
            },
    {
        if self.sealed {
            return Err(PipelineError::Sealed);
        }
        match self.find(name) {
            Some(slot) => Ok(slot),
            None => {
                let ghost before = self@;
                let slot = self.names.len();
                self.names.push(name.to_owned());
                assert(self@ =~= before.push(name@));
                Ok(slot)
            },
        }
    }

    /// The slot of the pipeline registered as `name`. To ask for a name that
    /// was never registered is a mistake of the caller.
    pub fn get_pipeline(&self, name: &str) -> (slot: usize)
        requires
            has_name(self@, name@),
        ensures
            is_slot_of(self@, name@, slot as int),
    {
        self.find(name).unwrap()
    }
}

/// Where no name is registered twice, a name has one slot only.
pub proof fn lemma_slot_unique(registry: PipelineRegistry, name: Seq<char>, a: int, b: int)
    requires
        registry.wf(),
        is_slot_of(registry@, name, a),
        is_slot_of(registry@, name, b),
    ensures
        a == b,
{
    if a < b {
        assert(registry@[a] != registry@[b]);
    } else if b < a {
        assert(registry@[b] != registry@[a]);
    }
}

} // verus!
