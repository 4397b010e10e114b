//! The configuration shared by the UI thread and the worker thread, and
//! the events that wake the UI loop.

use vstd::prelude::*;
use vstd::rwlock::RwLock;
use vstd::rwlock::RwLockPredicate;

use crate::channel::EventSender;
use crate::MAX_CELLS;

verus! {

/// An event delivered to the UI loop to wake it.
#[derive(Clone, Copy, Debug, PartialEq, Eq, Structural)]
pub enum CustomEvent {
    /// New data is available; the window should redraw.
    RequestRedraw,
    /// The shared configuration changed; widgets should re-read it.
    UpdateSharedData,
    /// A user asked to start (`false` was showing) or stop (`true` was
    /// showing) the worker, with the lattice edge length to use.
    StartStop(bool, usize),
}

/// Configuration shared between the UI thread and the worker thread.
#[derive(Clone, Copy, Debug)]
pub struct GeneralParams {
    /// Rows and columns of the orientation grid.
    pub lattice_dimension: (usize, usize),
    /// Whether a worker is currently active.
    pub algorithm_started: bool,
}

impl GeneralParams {
    /// Both dimensions are positive and the cell count stays small enough
    /// that a frame can be allocated.
    pub open spec fn wf(self) -> bool {
        &&& 0 < self.lattice_dimension.0
        &&& 0 < self.lattice_dimension.1
        &&& self.cell_count() <= MAX_CELLS
    }

    /// The number of cells a frame for these dimensions holds.
    pub open spec fn cell_count(self) -> int {
        self.lattice_dimension.0 * self.lattice_dimension.1
    }
}

/// The invariant every value stored in the shared lock satisfies.
pub struct ParamsInv {}

impl RwLockPredicate<GeneralParams> for ParamsInv {
    open spec fn inv(self, params: GeneralParams) -> bool {
        params.wf()
    }
}

/// Relies on `std::sync::Arc::clone`: the clone is a second handle to the
/// same allocation, so it dereferences to the same value.
#[verifier::external_body]
fn arc_clone<T>(arc: &std::sync::Arc<T>) -> (r: std::sync::Arc<T>)
    ensures
        r == *arc,
{
    std::sync::Arc::clone(arc)
}

/// Process-wide shared state: a handle to wake the UI loop, and the
/// lock-guarded configuration. Reference-counted, so that every thread
/// holds the same lock; every value the lock ever stores satisfies
/// `GeneralParams::wf`.
pub struct SharedContext {
    event_proxy: EventSender,
    params: std::sync::Arc<RwLock<GeneralParams, ParamsInv>>,
}

impl SharedContext {
    /// Creates the shared state: the given dimensions, not running.
    /// Beyond being positive, the dimensions must describe at most
    /// `MAX_CELLS` cells — an allocation limit, since every frame stores
    /// eight bytes per cell.
    pub fn new(event_proxy: EventSender, dimensions: (usize, usize)) -> (r: SharedContext)
        requires
            0 < dimensions.0,
            0 < dimensions.1,
            dimensions.0 * dimensions.1 <= MAX_CELLS,
        ensures
            r.events() == event_proxy.events(),
    {
        let params = GeneralParams { lattice_dimension: dimensions, algorithm_started: false };
        SharedContext {
            event_proxy,
            params: std::sync::Arc::new(RwLock::new(params, Ghost(ParamsInv {}))),
        }
    }

    /// A consistent copy of the configuration, taken under the lock.
    pub fn read(&self) -> (p: GeneralParams)
        ensures
            p.wf(),
    {
        let read_handle = self.params.acquire_read();
        let p = *read_handle.borrow();
        read_handle.release_read();
        p
    }

    /// Sets the running flag under the lock, leaving the dimensions as
    /// they were, and notifies the UI that the shared state changed.
    pub fn set_running(&mut self, running: bool) -> (p: GeneralParams)
        ensures
            p.wf(),
            p.algorithm_started == running,
            final(self).events() == old(self).events().push(CustomEvent::UpdateSharedData),
    {
        let (mut p, write_handle) = self.params.acquire_write();
        p.algorithm_started = running;
        write_handle.release_write(p);
        self.event_proxy.notify(CustomEvent::UpdateSharedData);
        p
    }

    /// Sets the dimensions under the lock, refusing the change while a
    /// worker is running or when the dimensions are unusable — resizing
    /// requires stop, reconfigure, start. Notifies the UI on success.
    pub fn set_dimensions(&mut self, dimensions: (usize, usize)) -> (r: Option<GeneralParams>)
        ensures
            match r {
                Some(p) => {
                    &&& p.wf()
                    &&& p.lattice_dimension == dimensions
                    &&& !p.algorithm_started
                    &&& final(self).events() == old(self).events().push(
                        CustomEvent::UpdateSharedData,
                    )
                },
                None => {
                    &&& final(self).events() == old(self).events()
                },
            },
            final(self).lock() == old(self).lock(),
            !(0 < dimensions.0 && 0 < dimensions.1 && dimensions.0 * dimensions.1 <= MAX_CELLS)
                ==> r is None,
    {
        let usable = dimensions.0 > 0 && dimensions.1 > 0 && dimensions.0 <= MAX_CELLS
            / dimensions.1;
        let (mut p, write_handle) = self.params.acquire_write();
        if !usable || p.algorithm_started {
            let unchanged = p;
            write_handle.release_write(unchanged);
            None
        } else {
            proof {
                vstd::arithmetic::div_mod::lemma_fundamental_div_mod(
                    MAX_CELLS as int,
                    dimensions.1 as int,
                );
                assert(dimensions.0 * dimensions.1 <= MAX_CELLS) by (nonlinear_arith)
                    requires
                        0 < dimensions.1,
                        dimensions.0 <= MAX_CELLS as int / dimensions.1 as int,
                        MAX_CELLS as int == (MAX_CELLS as int / dimensions.1 as int)
                            * dimensions.1 + MAX_CELLS as int % dimensions.1 as int,
                        0 <= MAX_CELLS as int % dimensions.1 as int,
                ;
            }
            p.lattice_dimension = dimensions;
            write_handle.release_write(p);
            self.event_proxy.notify(CustomEvent::UpdateSharedData);
            Some(p)
        }
    }

    /// The notifications issued through this handle's event proxy.
    pub closed spec fn events(self) -> Seq<CustomEvent> {
        self.event_proxy.events()
    }

    /// A fresh handle to the event channel, for a component of its own.
    pub fn event_proxy_duplicate(&self) -> (r: EventSender)
        ensures
            r.events() == Seq::<CustomEvent>::empty(),
    {
        self.event_proxy.duplicate()
    }

    /// The lock both handles guard their configuration with.
    pub closed spec fn lock(self) -> RwLock<GeneralParams, ParamsInv> {
        *self.params
    }
}

impl Clone for SharedContext {
    /// A second handle to the same lock; its event log starts empty.
    fn clone(&self) -> (r: SharedContext)
        ensures
            r.lock() == self.lock(),
            r.events() == Seq::<CustomEvent>::empty(),
    {
        SharedContext {
            event_proxy: self.event_proxy.duplicate(),
            params: arc_clone(&self.params),
        }
    }
}

} // verus!
