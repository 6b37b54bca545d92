//! Owned holders for the handles that the firmware creates once at startup
//! (the storage partition, the peripherals, the system event loop) and lends
//! out afterwards.

use vstd::prelude::*;

verus! {

/// Holds the identity storage handle once it has been opened.
pub struct NvsProvider<N> {
    nvs: Option<N>,
}

impl<N> NvsProvider<N> {
    pub closed spec fn held(&self) -> Option<N> {
        self.nvs
    }

    /// A provider that holds nothing yet.
    pub fn new() -> (r: Self)
        ensures
            r.held() is None,
    {
        NvsProvider { nvs: None }
    }

    /// Stores the handle, replacing any earlier one.
    pub fn set_nvs(&mut self, nvs: N)
        ensures
            final(self).held() == Some(nvs),
    {
        self.nvs = Some(nvs);
    }

    /// Runs `f` on the held handle; `None` when no handle was set.
    pub fn with_nvs<F, R>(&mut self, f: F) -> (r: Option<R>)
        where
            F: FnOnce(&mut N) -> R,
        requires
            forall|n: &mut N| f.requires((n,)),
        ensures
            old(self).held() is None <==> r is None,
            old(self).held() is None ==> final(self).held() is None,
            old(self).held() is Some ==> final(self).held() is Some,
    {
        match &mut self.nvs {
            Some(nvs) => Some(f(nvs)),
            None => None,
        }
    }
}

/// Holds the board's peripherals until a subsystem takes them.
pub struct PeripheralsProvider<P> {
    peripherals: Option<P>,
}

impl<P> PeripheralsProvider<P> {
    pub closed spec fn held(&self) -> Option<P> {
        self.peripherals
    }

    /// A provider that holds nothing yet.
    pub fn new() -> (r: Self)
        ensures
            r.held() is None,
    {
        PeripheralsProvider { peripherals: None }
    }

    /// Stores the peripherals, replacing any earlier value.
    pub fn set_peripherals(&mut self, peripherals: P)
        ensures
            final(self).held() == Some(peripherals),
    {
        self.peripherals = Some(peripherals);
    }

    /// Hands out the held peripherals and leaves the provider empty.
    pub fn take_peripherals(&mut self) -> (r: Option<P>)
        ensures
            r == old(self).held(),
            final(self).held() is None,
    {
        self.peripherals.take()
    }

    /// Runs `f` on the held peripherals; `None` when nothing is held.
    pub fn with_peripherals<F, R>(&mut self, f: F) -> (r: Option<R>)
        where
            F: FnOnce(&mut P) -> R,
        requires
            forall|p: &mut P| f.requires((p,)),
        ensures
            old(self).held() is None <==> r is None,
            old(self).held() is None ==> final(self).held() is None,
            old(self).held() is Some ==> final(self).held() is Some,
    {
        match &mut self.peripherals {
            Some(peripherals) => Some(f(peripherals)),
            None => None,
        }
    }
}

/// Holds the system event loop handle.
pub struct EventLoopProvider<E> {
    event_loop: Option<E>,
}

impl<E> EventLoopProvider<E> {
    pub closed spec fn held(&self) -> Option<E> {
        self.event_loop
    }

    /// A provider that holds nothing yet.
    pub fn new() -> (r: Self)
        ensures
            r.held() is None,
    {
        EventLoopProvider { event_loop: None }
    }

    /// Stores the event loop handle, replacing any earlier one.
    pub fn set_event_loop(&mut self, event_loop: E)
        ensures
            final(self).held() == Some(event_loop),
    {
        self.event_loop = Some(event_loop);
    }

    /// Runs `f` on the held handle; `None` when no handle was set.
    pub fn with_event_loop<F, R>(&mut self, f: F) -> (r: Option<R>)
        where
            F: FnOnce(&mut E) -> R,
        requires
            forall|e: &mut E| f.requires((e,)),
        ensures
            old(self).held() is None <==> r is None,
            old(self).held() is None ==> final(self).held() is None,
            old(self).held() is Some ==> final(self).held() is Some,
    {
        match &mut self.event_loop {
            Some(event_loop) => Some(f(event_loop)),
            None => None,
        }
    }
}

} // verus!
