//! The state that the runtime keeps for the loaded mod: the mod's module data,
//! the game's ABI, and the runtime on which a daemon module runs.
use vstd::prelude::*;

verus! {

/// The version of the interface between the game and the runtime.
pub const ABI_VERSION: u32 = 1;

/// The data that a mod's module registers: its name, and, for a module that
/// runs as a daemon, the function that runs it.
pub struct TRMModuleData<R> {
    pub module_name: String,
    pub run: Option<R>,
}

/// The runtime's state. `T` is the daemon's running runtime, `R` the module's
/// run function, `A` the game's ABI.
pub struct TRMSystem<T, R, A> {
    rt: Option<T>,
    module_data: Option<TRMModuleData<R>>,
    abi: Option<A>,
}

impl<T, R, A> TRMSystem<T, R, A> {
    /// The daemon's runtime, while one runs.
    pub closed spec fn spec_rt(self) -> Option<T> {
        self.rt
    }

    /// The registered module data, if any.
    pub closed spec fn spec_module_data(self) -> Option<TRMModuleData<R>> {
        self.module_data
    }

    /// The game's ABI, once the game has loaded the mod.
    pub closed spec fn spec_abi(self) -> Option<A> {
        self.abi
    }

    /// The module runs as a daemon: module data is registered and has a run
    /// function.
    pub open spec fn spec_is_daemon(self) -> bool {
        self.spec_module_data() matches Some(d) && d.run is Some
    }

    /// Starting leaves the module data and the ABI as they were and, for a
    /// daemon, installs a runtime; else it changes nothing.
    pub open spec fn run_step(pre: Self, post: Self) -> bool {
        &&& post.spec_module_data() == pre.spec_module_data()
        &&& post.spec_abi() == pre.spec_abi()
        &&& if pre.spec_is_daemon() {
            post.spec_rt() is Some
        } else {
            post.spec_rt() == pre.spec_rt()
        }
    }

    /// Loading keeps the game's ABI and then starts as `run_step` does.
    pub open spec fn initialize_step(pre: Self, post: Self, abi: A) -> bool {
        &&& post.spec_module_data() == pre.spec_module_data()
        &&& post.spec_abi() == Some(abi)
        &&& if pre.spec_is_daemon() {
            post.spec_rt() is Some
        } else {
            post.spec_rt() == pre.spec_rt()
        }
    }

    /// Shutting down leaves the module data and the ABI as they were and, for a
    /// daemon with a runtime, removes the runtime; else it changes nothing.
    pub open spec fn shutdown_step(pre: Self, post: Self) -> bool {
        &&& post.spec_module_data() == pre.spec_module_data()
        &&& post.spec_abi() == pre.spec_abi()
        &&& if pre.spec_is_daemon() && pre.spec_rt() is Some {
            post.spec_rt() is None
        } else {
            post.spec_rt() == pre.spec_rt()
        }
    }

    /// A runtime runs only for a daemon module.
    pub open spec fn runtime_only_for_daemon(self) -> bool {
        self.spec_rt() is Some ==> self.spec_is_daemon()
    }

    /// The state before any module registers: no runtime, no module data, no ABI.
    pub fn new() -> (s: Self)
        ensures
            s.spec_rt() is None,
            s.spec_module_data() is None,
            s.spec_abi() is None,
    {
        TRMSystem { rt: None, module_data: None, abi: None }
    }

    /// The game's ABI, once the game has loaded the mod.
    pub fn abi(&self) -> (res: &Option<A>)
        ensures
            *res == self.spec_abi(),
    {
        &self.abi
    }

    /// Whether the registered module runs as a daemon.
    pub fn is_daemon(&self) -> (res: bool)
        ensures
            res == self.spec_is_daemon(),
    {
        match &self.module_data {
            Some(d) => d.run.is_some(),
            None => false,
        }
    }

    /// For a daemon module, starts a runtime that runs the module's run
    /// function, by `start`, and keeps it; for another module does nothing.
    pub fn run<F: FnOnce(&R) -> T>(&mut self, start: F)
        requires
            forall|r: &R| start.requires((r,)),
        ensures
            Self::run_step(*old(self), *final(self)),
            old(self).spec_is_daemon() ==> start.ensures(
                (&old(self).spec_module_data()->0.run->0,),
                final(self).spec_rt()->0,
            ),
    {
        if self.is_daemon() {
            let started = match &self.module_data {
                Some(d) => match &d.run {
                    Some(r) => start(r),
                    None => return ,
                },
                None => return ,
            };
            self.rt = Some(started);
        }
    }

    /// For a daemon module with a running runtime, takes the runtime and stops
    /// it by `stop`; else does nothing.
    pub fn shutdown<G: FnOnce(T)>(&mut self, stop: G)
        requires
            forall|t: T| stop.requires((t,)),
        ensures
            Self::shutdown_step(*old(self), *final(self)),
            (old(self).spec_is_daemon() && old(self).spec_rt() is Some) ==> stop.ensures(
                (old(self).spec_rt()->0,),
                (),
            ),
    {
        if self.is_daemon() {
            if let Some(rt) = self.rt.take() {
                stop(rt);
            }
        }
    }

    /// Registers the module's data, in place of any registered before.
    pub fn _set_module_data_once(&mut self, module_data: TRMModuleData<R>)
        ensures
            final(self).spec_module_data() == Some(module_data),
            final(self).spec_rt() == old(self).spec_rt(),
            final(self).spec_abi() == old(self).spec_abi(),
    {
        self.module_data = Some(module_data);
    }

    /// The registered module's name, if a module is registered.
    pub fn module_name(&self) -> (res: Option<&String>)
        ensures
            match self.spec_module_data() {
                Some(d) => res matches Some(n) && *n == d.module_name,
                None => res is None,
            },
    {
        match &self.module_data {
            Some(d) => Some(&d.module_name),
            None => None,
        }
    }

    /// The game loads the mod: keeps the game's ABI, confirms the load to the
    /// game by `confirm_load`, then starts the daemon, if any, by `start`.
    pub fn initialize<C: FnOnce(&A), F: FnOnce(&R) -> T>(
        &mut self,
        abi: A,
        confirm_load: C,
        start: F,
    ) -> (res: bool)
        requires
            forall|a: &A| confirm_load.requires((a,)),
            forall|r: &R| start.requires((r,)),
        ensures
            res,
            Self::initialize_step(*old(self), *final(self), abi),
            confirm_load.ensures((&abi,), ()),
            old(self).spec_is_daemon() ==> start.ensures(
                (&old(self).spec_module_data()->0.run->0,),
                final(self).spec_rt()->0,
            ),
    {
        self.abi = Some(abi);
        match &self.abi {
            Some(a) => confirm_load(a),
            None => {},
        }
        self.run(start);
        true
    }

    /// The game unloads the mod: stops the daemon's runtime, if one runs.
    pub fn deinitialize<G: FnOnce(T)>(&mut self, stop: G) -> (res: bool)
        requires
            forall|t: T| stop.requires((t,)),
        ensures
            res,
            Self::shutdown_step(*old(self), *final(self)),
            (old(self).spec_is_daemon() && old(self).spec_rt() is Some) ==> stop.ensures(
                (old(self).spec_rt()->0,),
                (),
            ),
    {
        self.shutdown(stop);
        true
    }

    /// For a daemon module, starting and then shutting down leaves no runtime
    /// and the module data and ABI as they were.
    pub proof fn law_daemon_run_then_shutdown(s0: Self, s1: Self, s2: Self)
        requires
            s0.spec_is_daemon(),
            Self::run_step(s0, s1),
            Self::shutdown_step(s1, s2),
        ensures
            s1.spec_rt() is Some,
            s2.spec_rt() is None,
            s2.spec_module_data() == s0.spec_module_data(),
            s2.spec_abi() == s0.spec_abi(),
    {
    }

    /// For a module that does not run as a daemon, starting and shutting down
    /// change nothing.
    pub proof fn law_non_daemon_unchanged(s0: Self, s1: Self, s2: Self)
        requires
            !s0.spec_is_daemon(),
            Self::run_step(s0, s1),
            Self::shutdown_step(s1, s2),
        ensures
            s1 == s0,
            s2 == s0,
    {
    }

    /// Shutting down a second time changes nothing.
    pub proof fn law_shutdown_idempotent(s0: Self, s1: Self, s2: Self)
        requires
            Self::shutdown_step(s0, s1),
            Self::shutdown_step(s1, s2),
        ensures
            s2 == s1,
    {
    }

    /// A fresh state runs no runtime; starting, loading and shutting down keep
    /// a runtime only for a daemon module, and after starting or loading a
    /// runtime runs exactly when the module is a daemon.
    pub proof fn law_runtime_only_for_daemon(s0: Self, s1: Self, abi: A)
        requires
            s0.runtime_only_for_daemon(),
            Self::run_step(s0, s1) || Self::initialize_step(s0, s1, abi) || Self::shutdown_step(
                s0,
                s1,
            ),
        ensures
            s1.runtime_only_for_daemon(),
            (Self::run_step(s0, s1) || Self::initialize_step(s0, s1, abi)) ==> (s1.spec_rt() is Some
                <==> s1.spec_is_daemon()),
    {
    }

    /// A daemon module without a runtime, loaded and then unloaded, runs a
    /// runtime while loaded and none after, keeping its module data and the
    /// game's ABI.
    pub proof fn law_initialize_then_deinitialize(s0: Self, s1: Self, s2: Self, abi: A)
        requires
            s0.spec_is_daemon(),
            s0.spec_rt() is None,
            Self::initialize_step(s0, s1, abi),
            Self::shutdown_step(s1, s2),
        ensures
            s1.spec_rt() is Some,
            s2.spec_rt() is None,
            s2.spec_module_data() == s0.spec_module_data(),
            s2.spec_abi() == Some(abi),
    {
    }

    /// Starting and shutting down never change whether the module runs as a
    /// daemon.
    pub proof fn law_daemon_status_kept(s0: Self, s1: Self)
        requires
            Self::run_step(s0, s1) || Self::shutdown_step(s0, s1),
        ensures
            s1.spec_is_daemon() == s0.spec_is_daemon(),
    {
    }
}

/// The runtime's own class, through which the game checks the interface version.
pub trait TRMSysIdClassVmt {
    fn trm__test(&self) -> (v: u32)
        ensures
            v == ABI_VERSION,
    ;
}

/// The runtime's class object as the game sees it.
pub struct TRMSysIdClass {}

impl TRMSysIdClassVmt for TRMSysIdClass {
    fn trm__test(&self) -> (v: u32) {
        ABI_VERSION
    }
}

/// The interface version that the runtime reports to the game.
pub fn trm__abi_version() -> (v: u32)
    ensures
        v == ABI_VERSION,
{
    ABI_VERSION
}

} // verus!
