use vstd::prelude::*;
use std::collections::HashMap;
use crate::action::{Action, ActionView};
use crate::error::CoreError;
use crate::surface::{CoreSurface, SurfaceAction, SurfaceActionView, SurfaceEvent, SurfaceView};
use crate::util::{find_device_index, first_of_kind, PhysicalDeviceType};
use crate::widget::Extent;

verus! {

broadcast use vstd::std_specs::hash::group_hash_axioms;

/// The state of the whole program: the device that draws and, by the
/// number of its window, the surface of every open window.
pub struct CoreState {
    /// The place of the chosen device among the devices of the machine.
    pub physical_index: usize,
    pub surfaces: HashMap<u64, CoreSurface>,
}

/// What a `CoreState` holds, as plain values.
pub struct CoreView {
    pub physical_index: usize,
    pub surfaces: Map<u64, SurfaceView>,
}

impl View for CoreState {
    type V = CoreView;

    open spec fn view(&self) -> CoreView {
        CoreView {
            physical_index: self.physical_index,
            surfaces: self.surfaces@.map_values(|s: CoreSurface| s@),
        }
    }
}

impl CoreView {
    /// The state after `event` has come in for the window `id`, and what
    /// the caller has to do next for that window. An event for a window
    /// that is not known changes nothing and asks for nothing. The surface
    /// of a window that asks to be closed is let go of.
    pub open spec fn next(self, id: u64, event: SurfaceEvent) -> (CoreView, Option<
        SurfaceActionView,
    >) {
        if !self.surfaces.contains_key(id) {
            (self, None)
        } else {
            let (surface, action) = self.surfaces[id].next(event);
            (
                CoreView {
                    surfaces: if event is CloseRequested {
                        self.surfaces.remove(id)
                    } else {
                        self.surfaces.insert(id, surface)
                    },
                    ..self
                },
                Some(action),
            )
        }
    }

    /// Whether no window is left, so that the program is to end.
    pub open spec fn finished(self) -> bool {
        self.surfaces.dom() =~= Set::empty()
    }
}

impl CoreState {
    /// The state of a program that has opened no window yet and draws with
    /// the first integrated device among `devices`.
    pub fn new(devices: &Vec<PhysicalDeviceType>) -> (r: Result<CoreState, CoreError>)
        ensures
            match r {
                Ok(state) => {
                    &&& first_of_kind(
                        devices@,
                        PhysicalDeviceType::IntegratedGpu,
                        state.physical_index as int,
                    )
                    &&& state@.surfaces == Map::<u64, SurfaceView>::empty()
                },
                Err(e) => {
                    &&& e == CoreError::NoSupportedPhysicalDevice
                    &&& forall|j: int|
                        0 <= j < devices.len() ==> devices[j] != PhysicalDeviceType::IntegratedGpu
                },
            },
    {
        match find_device_index(devices, PhysicalDeviceType::IntegratedGpu) {
            Err(e) => Err(e),
            Ok(physical_index) => {
                let state = CoreState { physical_index, surfaces: HashMap::new() };
                assert(state@.surfaces =~= Map::<u64, SurfaceView>::empty());
                Ok(state)
            },
        }
    }

    /// Takes `surface` in as the surface of the window `id`, in place of
    /// the one that the window had, if it had one.
    pub fn insert(&mut self, id: u64, surface: CoreSurface)
        ensures
            final(self)@ == (CoreView {
                surfaces: old(self)@.surfaces.insert(id, surface@),
                ..old(self)@
            }),
    {
        self.surfaces.insert(id, surface);
        assert(self@.surfaces =~= old(self)@.surfaces.insert(id, surface@));
    }

    /// Whether the window `id` has a surface.
    pub fn contains(&self, id: u64) -> (b: bool)
        ensures
            b == self@.surfaces.contains_key(id),
    {
        self.surfaces.contains_key(&id)
    }

    /// The surface of the window `id`.
    pub fn surface(&self, id: u64) -> (r: Option<&CoreSurface>)
        ensures
            match r {
                Some(s) => self@.surfaces.contains_key(id) && self@.surfaces[id] == s@,
                None => !self@.surfaces.contains_key(id),
            },
    {
        self.surfaces.get(&id)
    }

    /// Hands `event` to the surface of the window `id` and says what to do
    /// next for it; see `CoreView::next`.
    pub fn handle(&mut self, id: u64, event: SurfaceEvent) -> (action: Option<SurfaceAction>)
        ensures
            final(self)@ == old(self)@.next(id, event).0,
            match action {
                Some(a) => old(self)@.next(id, event).1 == Some(a@),
                None => old(self)@.next(id, event).1 is None,
            },
    {
        let closing = match &event {
            SurfaceEvent::CloseRequested => true,
            _ => false,
        };
        match self.surfaces.remove(&id) {
            None => {
                assert(self@.surfaces =~= old(self)@.surfaces);
                None
            },
            Some(mut surface) => {
                let action = surface.step(event);
                if !closing {
                    self.surfaces.insert(id, surface);
                    assert(self@.surfaces =~= old(self)@.surfaces.insert(id, surface@));
                } else {
                    assert(self@.surfaces =~= old(self)@.surfaces.remove(id));
                }
                Some(action)
            },
        }
    }

    /// Draws the window `surface_id`, whose current size is `size`: starts
    /// a frame on its surface and says what to do next.
    pub fn draw(&mut self, surface_id: u64, size: Extent) -> (action: Option<SurfaceAction>)
        ensures
            final(self)@ == old(self)@.next(surface_id, SurfaceEvent::RedrawRequested(size)).0,
            match action {
                Some(a) => old(self)@.next(surface_id, SurfaceEvent::RedrawRequested(size)).1
                    == Some(a@),
                None => old(self)@.next(surface_id, SurfaceEvent::RedrawRequested(size)).1 is None,
            },
    {
        self.handle(surface_id, SurfaceEvent::RedrawRequested(size))
    }

    /// The actions to run when the primary mouse button is let go over the
    /// window `id`: those of the buttons under the cursor, in the order of
    /// the buttons, and none for a window that is not known.
    pub fn released(&self, id: u64) -> (run: Vec<&Action>)
        ensures
            run.deep_view() == if self@.surfaces.contains_key(id) {
                self@.surfaces[id].released_over()
            } else {
                Seq::<ActionView>::empty()
            },
    {
        match self.surfaces.get(&id) {
            Some(surface) => surface.released(),
            None => {
                let run: Vec<&Action> = Vec::new();
                assert(run.deep_view() =~= Seq::empty());
                run
            },
        }
    }

    /// Whether no window is left, so that the program is to end.
    pub fn finished(&self) -> (b: bool)
        ensures
            b == self@.finished(),
    {
        let b = self.surfaces.is_empty();
        assert(self@.surfaces.dom() =~= self.surfaces@.dom());
        b
    }
}

} // verus!
