//! The engine: the state and the scheduler, kept in step. Every event goes
//! through here; where the scheduler decides on a reconfiguration, the state
//! takes the size before the caller configures the surface.

use vstd::prelude::*;
use crate::matrix::Mat4;
use crate::scheduler::{transition, Action, Event, FrameScheduler, Phase};
use crate::state::{FramePlan, State};
use crate::uniform::holds_vertex_uniforms;

verus! {

/// The engine's state together with its scheduler.
pub struct Engine {
    state: State,
    scheduler: FrameScheduler,
}

impl Engine {
    /// The engine's state.
    pub closed spec fn spec_state(&self) -> State {
        self.state
    }

    /// The engine's scheduler.
    pub closed spec fn spec_scheduler(&self) -> FrameScheduler {
        self.scheduler
    }

    /// The scheduler's last known size is the size of the context.
    pub open spec fn in_step(&self) -> bool {
        self.spec_scheduler().size == self.spec_state().init.spec_size()
    }

    /// An engine on the given state, with an idle scheduler.
    pub fn new(state: State) -> (engine: Self)
        ensures
            engine.in_step(),
            engine.spec_state() == state,
            engine.spec_scheduler() == (FrameScheduler {
                phase: Phase::Idle,
                size: state.init.spec_size(),
            }),
    {
        let scheduler = FrameScheduler::new(state.init.size());
        Engine { state, scheduler }
    }

    /// The engine's state.
    pub fn state(&self) -> (state: &State)
        ensures
            *state == self.spec_state(),
    {
        &self.state
    }

    /// The engine's scheduler.
    pub fn scheduler(&self) -> (scheduler: FrameScheduler)
        ensures
            scheduler == self.spec_scheduler(),
    {
        self.scheduler
    }

    /// Takes one event and says what to do next, as the scheduler decides.
    /// Where that is a reconfiguration, the state has already taken the size
    /// and computed the projection for it, so that the caller has only the
    /// surface left to configure; on every other action the state is
    /// untouched. The projection is asked for in no other case.
    pub fn handle<P: Fn(u32, u32) -> Mat4>(&mut self, event: Event, project: &P) -> (action: Action)
        requires
            old(self).in_step(),
            transition(old(self).spec_scheduler(), event).1 matches Action::Reconfigure(size)
                ==> call_requires(*project, (size.width, size.height)),
        ensures
            final(self).in_step(),
            (final(self).spec_scheduler(), action) == transition(old(self).spec_scheduler(), event),
            match action {
                Action::Reconfigure(size) => {
                    &&& size.spec_is_drawable()
                    &&& final(self).spec_state().resized_from(
                        &old(self).spec_state(),
                        size,
                        *project,
                    )
                },
                _ => final(self).spec_state() == old(self).spec_state(),
            },
    {
        // The context's size is drawable, and the scheduler's is the same.
        let _ = self.state.init.size();
        let action = self.scheduler.step(event);
        match action {
            Action::Reconfigure(size) => {
                let _ = self.state.resize(size, project);
            },
            _ => {},
        }
        action
    }

    /// Offers an event to the state before the scheduler sees it. The state
    /// handles none, and nothing changes.
    pub fn input(&mut self, event: &Event) -> (handled: bool)
        ensures
            !handled,
            *final(self) == *old(self),
    {
        self.state.input(event)
    }

    /// Rewrites the per-frame uniforms of the state: the three matrices go
    /// to bytes 0, 64 and 128 of the vertex region. Nothing else changes.
    pub fn update(&mut self, model_mat: &Mat4, view_project_mat: &Mat4, normal_mat: &Mat4)
        requires
            old(self).in_step(),
        ensures
            final(self).in_step(),
            final(self).spec_scheduler() == old(self).spec_scheduler(),
            holds_vertex_uniforms(
                final(self).spec_state().uniform_bind_group.vertex@,
                *model_mat,
                *view_project_mat,
                *normal_mat,
            ),
            final(self).spec_state() == (State {
                uniform_bind_group: final(self).spec_state().uniform_bind_group,
                ..old(self).spec_state()
            }),
            final(self).spec_state().uniform_bind_group.fragment
                == old(self).spec_state().uniform_bind_group.fragment,
            final(self).spec_state().uniform_bind_group.light
                == old(self).spec_state().uniform_bind_group.light,
    {
        self.state.update(model_mat, view_project_mat, normal_mat);
    }

    /// Plans the frame to record in the current state.
    pub fn render(&self) -> (plan: FramePlan)
        ensures
            self.spec_state().plans(&plan),
    {
        self.state.render()
    }
}

} // verus!
