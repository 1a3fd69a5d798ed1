//! The module's entry side: the dispatch from class identifiers to class
//! factories, the factories themselves, and the count of live objects and
//! locks that decides whether the module may be unloaded.
use vstd::prelude::*;

use crate::error::ComError;
use crate::guids::{Guid, NETPBM_DECODER_ID, PROPERTY_STORE_CLASS_ID};
use crate::platform_ids::{interface_of, interface_spec, Interface};
use crate::property_store::{store_interface, PropertyStore};

verus! {

/// The result that tells the host it may unload the module.
pub const S_OK: i32 = 0;

/// The result that tells the host to keep the module loaded.
pub const S_FALSE: i32 = 1;

/// The classes that this module makes.
#[derive(Clone, Copy, Debug, PartialEq, Eq, Structural)]
pub enum ClassKind {
    Decoder,
    PropertyStore,
}

/// The class that a class identifier names, if it is one of ours.
pub open spec fn class_spec(class_id: Guid) -> Option<ClassKind> {
    if class_id.value == NETPBM_DECODER_ID {
        Some(ClassKind::Decoder)
    } else if class_id.value == PROPERTY_STORE_CLASS_ID {
        Some(ClassKind::PropertyStore)
    } else {
        None
    }
}

/// The interface of a class factory that `iid` names, or `NoSuchInterface`.
pub open spec fn factory_interface(iid: Guid) -> Result<Interface, ComError> {
    match interface_spec(iid) {
        Some(Interface::Unknown) => Ok(Interface::Unknown),
        Some(Interface::ClassFactory) => Ok(Interface::ClassFactory),
        _ => Err(ComError::NoSuchInterface),
    }
}

/// What the module-wide state is: the objects handed out and not yet
/// released, and the locks that the host holds on the module.
pub struct Server {
    live: u64,
    locks: u64,
    created: Ghost<nat>,
    released: Ghost<nat>,
}

impl Server {
    pub closed spec fn live(&self) -> nat {
        self.live as nat
    }

    pub closed spec fn locks(&self) -> nat {
        self.locks as nat
    }

    /// How many objects the factories of this module have handed out.
    pub closed spec fn created(&self) -> nat {
        self.created@
    }

    /// How many of those have been given back.
    pub closed spec fn released(&self) -> nat {
        self.released@
    }

    /// The live count is what was handed out and not given back.
    pub closed spec fn wf(&self) -> bool {
        &&& self.released@ <= self.created@
        &&& self.live as nat == self.created@ - self.released@
    }

    /// The module may be unloaded when no object is live and no lock held.
    pub open spec fn idle(&self) -> bool {
        self.live() == 0 && self.locks() == 0
    }

    /// The state of a module just loaded.
    pub fn new() -> (r: Server)
        ensures
            r.wf(),
            r.live() == 0,
            r.locks() == 0,
            r.created() == 0,
            r.released() == 0,
    {
        Server { live: 0, locks: 0, created: Ghost(0), released: Ghost(0) }
    }

    pub fn live_instances(&self) -> (r: u64)
        ensures
            r == self.live(),
    {
        self.live
    }

    pub fn lock_count(&self) -> (r: u64)
        ensures
            r == self.locks(),
    {
        self.locks
    }

    /// The factory of the class `class_id`, narrowed to the interface `iid`.
    pub fn get_class_object(&self, class_id: &Guid, iid: &Guid) -> (r: Result<ClassFactory, ComError>)
        ensures
            class_spec(*class_id) is None ==> r == Err::<ClassFactory, ComError>(
                ComError::ClassNotAvailable,
            ),
            class_spec(*class_id) is Some ==> match factory_interface(*iid) {
                Ok(_) => r == Ok::<ClassFactory, ComError>(
                    ClassFactory { kind: class_spec(*class_id)->0 },
                ),
                Err(e) => r == Err::<ClassFactory, ComError>(e),
            },
    {
        let kind = if class_id.value == NETPBM_DECODER_ID {
            ClassKind::Decoder
        } else if class_id.value == PROPERTY_STORE_CLASS_ID {
            ClassKind::PropertyStore
        } else {
            return Err(ComError::ClassNotAvailable);
        };
        let factory = ClassFactory { kind };
        match factory.query_interface(iid) {
            Ok(_) => Ok(factory),
            Err(e) => Err(e),
        }
    }

    /// Takes back an object that a factory of this module handed out.
    pub fn release(&mut self, store: PropertyStore)
        requires
            old(self).wf(),
            old(self).live() > 0,
        ensures
            final(self).wf(),
            final(self).live() == old(self).live() - 1,
            final(self).locks() == old(self).locks(),
            final(self).created() == old(self).created(),
            final(self).released() == old(self).released() + 1,
    {
        self.live = self.live - 1;
        self.released = Ghost(self.released@ + 1);
    }

    /// Whether the host may unload the module now.
    pub fn can_unload_now(&self) -> (r: bool)
        ensures
            r == self.idle(),
    {
        self.live == 0 && self.locks == 0
    }
}

/// A class factory of this module.
#[derive(Clone, Copy, Debug, PartialEq, Eq, Structural)]
pub struct ClassFactory {
    pub kind: ClassKind,
}

impl ClassFactory {
    /// Narrows the factory to the interface `iid`.
    pub fn query_interface(&self, iid: &Guid) -> (r: Result<Interface, ComError>)
        ensures
            r == factory_interface(*iid),
    {
        match interface_of(iid) {
            Some(Interface::Unknown) => Ok(Interface::Unknown),
            Some(Interface::ClassFactory) => Ok(Interface::ClassFactory),
            _ => Err(ComError::NoSuchInterface),
        }
    }

    /// Makes a fresh object of the factory's class, narrowed to `iid`, and
    /// counts it as live. An outer object (`aggregate`) is refused before
    /// anything is made. Only property stores can be made: the decoder's
    /// objects are not available.
    pub fn create_instance(&self, server: &mut Server, aggregate: bool, iid: &Guid) -> (r: Result<
        PropertyStore,
        ComError,
    >)
        requires
            old(server).wf(),
            old(server).live() < u64::MAX,
        ensures
            final(server).wf(),
            r is Ok ==> final(server).created() == old(server).created() + 1,
            r is Err ==> final(server).created() == old(server).created(),
            final(server).released() == old(server).released(),
            aggregate ==> r == Err::<PropertyStore, ComError>(ComError::NoAggregation),
            !aggregate && self.kind is Decoder ==> r == Err::<PropertyStore, ComError>(
                ComError::ClassNotAvailable,
            ),
            !aggregate && self.kind is PropertyStore ==> match store_interface(*iid) {
                Ok(_) => r matches Ok(p) && p.wf() && !p.is_initialized(),
                Err(e) => r == Err::<PropertyStore, ComError>(e),
            },
            r is Ok ==> final(server).live() == old(server).live() + 1,
            r is Err ==> final(server).live() == old(server).live(),
            final(server).locks() == old(server).locks(),
    {
        if aggregate {
            return Err(ComError::NoAggregation);
        }
        match self.kind {
            ClassKind::Decoder => Err(ComError::ClassNotAvailable),
            ClassKind::PropertyStore => {
                let store = PropertyStore::new();
                match store.query_interface(iid) {
                    Ok(_) => {
                        server.live = server.live + 1;
                        server.created = Ghost(server.created@ + 1);
                        Ok(store)
                    },
                    Err(e) => Err(e),
                }
            },
        }
    }

    /// Takes (`lock`) or gives back a lock on the module. Giving back a lock
    /// that is not held is refused with `InvalidArgument`.
    pub fn lock_server(&self, server: &mut Server, lock: bool) -> (r: Result<(), ComError>)
        requires
            old(server).wf(),
            lock ==> old(server).locks() < u64::MAX,
        ensures
            final(server).wf(),
            final(server).created() == old(server).created(),
            final(server).released() == old(server).released(),
            lock ==> r is Ok && final(server).locks() == old(server).locks() + 1,
            !lock && old(server).locks() > 0 ==> r is Ok && final(server).locks() == old(
                server,
            ).locks() - 1,
            !lock && old(server).locks() == 0 ==> r == Err::<(), ComError>(
                ComError::InvalidArgument,
            ) && final(server).locks() == 0,
            final(server).live() == old(server).live(),
    {
        if lock {
            server.locks = server.locks + 1;
            Ok(())
        } else if server.locks > 0 {
            server.locks = server.locks - 1;
            Ok(())
        } else {
            Err(ComError::InvalidArgument)
        }
    }
}

/// The module-unload answer as the host reads it: `S_OK` when nothing is
/// live and no lock is held, `S_FALSE` otherwise.
#[allow(non_snake_case)]
pub fn DllCanUnloadNow(server: &Server) -> (r: i32)
    ensures
        r == if server.idle() { S_OK } else { S_FALSE },
{
    if server.can_unload_now() {
        S_OK
    } else {
        S_FALSE
    }
}

/// With no lock held, the module may be unloaded exactly when every object
/// that its factories handed out has been given back: after `n` objects
/// made and `m` given back, it stays loaded while `n - m > 0`.
pub proof fn lemma_unload_after_all_released(s: &Server)
    requires
        s.wf(),
        s.locks() == 0,
    ensures
        s.idle() <==> s.created() == s.released(),
        s.created() - s.released() > 0 ==> !s.idle(),
{
}

} // verus!
