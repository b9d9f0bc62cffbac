//! The per-process module state machine: active, cleared, or failed.
//!
//! The state owns the module snapshot. A fresh initialization outcome is
//! handed in by the caller, since probing the operating system for the
//! executable is its work; everything decided from that outcome is here.

use crate::module::{Module, ModuleInitError};
use vstd::prelude::*;

verus! {

/// The state of the per-process module singleton.
#[derive(Debug, Clone, PartialEq, Eq)]
pub enum ModuleState {
    /// The module is initialized and active.
    Active(Module),
    /// The module was explicitly cleared; the next access reinitializes.
    Cleared,
    /// The module failed to initialize.
    FailedInit(ModuleInitError),
}

/// Failures of reaching the active module.
#[derive(Debug, Clone, Copy, PartialEq, Eq, Structural, Hash)]
pub enum ModuleStateError {
    /// A holder of the state's lock failed while holding it.
    ModuleLockIsPoisoned,
    /// The module has been cleared and was not reinitialized.
    ModuleHasBeenCleared,
    /// The module failed to initialize.
    FailedInit { source: ModuleInitError },
}

impl ModuleState {
    /// The state a fresh initialization outcome yields.
    pub fn init(fresh: Result<Module, ModuleInitError>) -> (r: Self)
        ensures
            r == (match fresh {
                Ok(m) => ModuleState::Active(m),
                Err(e) => ModuleState::FailedInit(e),
            }),
    {
        match fresh {
            Ok(module) => ModuleState::Active(module),
            Err(err) => ModuleState::FailedInit(err),
        }
    }

    /// Applies a function to the module while it is active; a cleared or
    /// failed state reports its error instead.
    pub fn map_active<T, F: FnOnce(&Module) -> T>(&self, f: F) -> (r: Result<T, ModuleStateError>)
        requires
            forall|m: &Module| call_requires(f, (m,)),
        ensures
            match self {
                ModuleState::Active(m) => r is Ok && call_ensures(f, (m,), r->Ok_0),
                ModuleState::Cleared => r == Err::<T, ModuleStateError>(
                    ModuleStateError::ModuleHasBeenCleared,
                ),
                ModuleState::FailedInit(e) => r == Err::<T, ModuleStateError>(
                    ModuleStateError::FailedInit { source: *e },
                ),
            },
    {
        match self {
            ModuleState::Active(module) => Ok(f(module)),
            ModuleState::Cleared => Err(ModuleStateError::ModuleHasBeenCleared),
            ModuleState::FailedInit(err) => Err(ModuleStateError::FailedInit { source: *err }),
        }
    }

    /// Applies a function to the active module, installing the fresh
    /// initialization outcome first where the state is not active: a
    /// successful outcome becomes the active module, a failed one is
    /// recorded and reported.
    pub fn map_or_init<T, F: FnOnce(&Module) -> T>(
        &mut self,
        fresh: Result<Module, ModuleInitError>,
        f: F,
    ) -> (r: Result<T, ModuleStateError>)
        requires
            forall|m: &Module| call_requires(f, (m,)),
        ensures
            match *old(self) {
                ModuleState::Active(m) => *final(self) == *old(self) && r is Ok && call_ensures(
                    f,
                    (&m,),
                    r->Ok_0,
                ),
                _ => match fresh {
                    Ok(m) => *final(self) == ModuleState::Active(m) && r is Ok && call_ensures(
                        f,
                        (&m,),
                        r->Ok_0,
                    ),
                    Err(e) => *final(self) == ModuleState::FailedInit(e) && r == Err::<
                        T,
                        ModuleStateError,
                    >(ModuleStateError::FailedInit { source: e }),
                },
            },
    {
        match self {
            ModuleState::Active(module) => Ok(f(module)),
            _ => {
                match fresh {
                    Ok(module) => {
                        let ret = f(&module);
                        *self = ModuleState::Active(module);
                        Ok(ret)
                    },
                    Err(err) => {
                        *self = ModuleState::FailedInit(err);
                        Err(ModuleStateError::FailedInit { source: err })
                    },
                }
            },
        }
    }

    /// Clears the module; the next access reinitializes.
    pub fn reset(&mut self) -> (r: Result<(), ModuleStateError>)
        ensures
            *final(self) == ModuleState::Cleared,
            r is Ok,
    {
        *self = ModuleState::Cleared;
        Ok(())
    }
}

} // verus!
