//! The event-loop driver: a state machine that turns each native
//! notification into the ordered dispatch steps of the native callback
//! model.
//!
//! The driver is a pure function of its state and the incoming
//! notification.  The embedding layer owns the blocking native dispatch
//! primitive: it converts each native notification into a plain-value
//! [`NativeEvent`] (querying the runtime where the handler would) and
//! feeds it to [`EventLoop::run_event`], which routes it to the
//! application callbacks and afterwards reports whether an exit was
//! requested — the explicit post-callback check that breaks the loop.

use vstd::prelude::*;

use crate::active_loop::{ActiveEventLoop, ControlFlow};
use crate::events::{
    DispatchAction, FingerId, NativeEvent, PhysicalSize, StartCause, WindowEvent, WindowId,
    GLOBAL_WINDOW_RAW,
};
use crate::normalizer::{input_events, normalize_input, primary_after_input};

verus! {

/// The application callback interface.  Each method is invoked
/// synchronously on the dispatch thread, in the order events are
/// dequeued, and is expected to return promptly; the context object lets
/// a callback mutate the shared control-flow and exit state the driver
/// reads afterwards.
pub trait ApplicationHandler {
    /// A new iteration of the loop has started.
    fn new_events(&mut self, event_loop: &mut ActiveEventLoop, cause: StartCause);

    /// The runtime is ready for surfaces to be created.
    fn can_create_surfaces(&mut self, event_loop: &mut ActiveEventLoop);

    /// The runtime is about to destroy its surfaces.
    fn destroy_surfaces(&mut self, event_loop: &mut ActiveEventLoop);

    /// The application moved to the foreground.
    fn resumed(&mut self, event_loop: &mut ActiveEventLoop);

    /// The application moved to the background.
    fn suspended(&mut self, event_loop: &mut ActiveEventLoop);

    /// The system is low on memory.
    fn memory_warning(&mut self, event_loop: &mut ActiveEventLoop);

    /// A window event was produced for the one window.
    fn window_event(
        &mut self,
        event_loop: &mut ActiveEventLoop,
        window_id: WindowId,
        event: WindowEvent,
    );
}

/// The event-loop driver state.
#[derive(Clone, Debug, PartialEq, Eq)]
pub struct EventLoop {
    /// The shared context handed to application callbacks.
    pub window_target: ActiveEventLoop,
    /// Whether the blocking dispatch call has been entered.
    pub running: bool,
    /// The cause reported to `new_events` for the current iteration.
    pub cause: StartCause,
    /// The finger tracked as the primary pointer, if any.
    pub primary_pointer: Option<FingerId>,
}

/// The size a resize notification reports: the queried surface size, or
/// zero when no surface was available — the read failure degrades to a
/// fallback rather than failing the iteration.
pub open spec fn resized_size(size: Option<PhysicalSize>) -> PhysicalSize {
    match size {
        Some(s) => s,
        None => PhysicalSize { width: 0, height: 0 },
    }
}

/// The dispatch table: the ordered steps one native notification asks of
/// the embedding layer.  Lifecycle placeholders (`Resume`, `Pause`,
/// `SaveState`, `Destroy`), the content-rect change, unknown
/// notifications, and configuration changes without a surface produce no
/// step; they are modelled explicitly so that future extension is
/// additive, with logging left to the embedding layer.
pub open spec fn dispatch_actions(state: EventLoop, event: NativeEvent) -> Seq<DispatchAction> {
    match event {
        NativeEvent::SurfaceCreate => seq![DispatchAction::CanCreateSurfaces],
        NativeEvent::SurfaceDestroy => seq![DispatchAction::DestroySurfaces],
        NativeEvent::WindowResize { size } => seq![
            DispatchAction::Emit(WindowEvent::SurfaceResized(resized_size(size))),
        ],
        NativeEvent::WindowRedraw => seq![DispatchAction::Emit(WindowEvent::RedrawRequested)],
        NativeEvent::ContentRectChange => Seq::empty(),
        NativeEvent::GainedFocus => seq![DispatchAction::Emit(WindowEvent::Focused(true))],
        NativeEvent::LostFocus => seq![DispatchAction::Emit(WindowEvent::Focused(false))],
        NativeEvent::ConfigChanged { surface } => match surface {
            Some(v) => seq![
                DispatchAction::Emit(
                    WindowEvent::ScaleFactorChanged {
                        scale_factor: v.scale_factor,
                        surface_size: v.size,
                    },
                ),
            ],
            None => Seq::empty(),
        },
        NativeEvent::LowMemory => seq![DispatchAction::MemoryWarning],
        NativeEvent::Start => seq![DispatchAction::Resumed],
        NativeEvent::Resume => Seq::empty(),
        NativeEvent::SaveState => Seq::empty(),
        NativeEvent::Pause => Seq::empty(),
        NativeEvent::Stop => seq![DispatchAction::Suspended],
        NativeEvent::Destroy => Seq::empty(),
        NativeEvent::Input(input) => input_events(state.primary_pointer, input).map_values(
            |e: WindowEvent| DispatchAction::Emit(e),
        ),
        NativeEvent::Unknown => Seq::empty(),
    }
}

/// The driver state after one native notification: focus notifications
/// update the focus flag, surface notifications record the last known
/// surface size, input updates the tracked primary pointer; everything
/// else leaves the state unchanged.
pub open spec fn state_after(state: EventLoop, event: NativeEvent) -> EventLoop {
    match event {
        NativeEvent::GainedFocus => EventLoop {
            window_target: ActiveEventLoop { focus: true, ..state.window_target },
            ..state
        },
        NativeEvent::LostFocus => EventLoop {
            window_target: ActiveEventLoop { focus: false, ..state.window_target },
            ..state
        },
        NativeEvent::WindowResize { size } => match size {
            Some(s) => EventLoop {
                window_target: ActiveEventLoop {
                    surface_size: Some(s),
                    ..state.window_target
                },
                ..state
            },
            None => state,
        },
        NativeEvent::ConfigChanged { surface } => match surface {
            Some(v) => EventLoop {
                window_target: ActiveEventLoop {
                    surface_size: Some(v.size),
                    ..state.window_target
                },
                ..state
            },
            None => state,
        },
        NativeEvent::Input(input) => EventLoop {
            primary_pointer: primary_after_input(state.primary_pointer, input),
            ..state
        },
        _ => state,
    }
}

impl EventLoop {
    /// A fresh driver: not yet running, first iteration caused by
    /// initialization, no primary pointer, and a fresh context.
    pub fn new() -> (r: Self)
        ensures
            r == (EventLoop {
                window_target: ActiveEventLoop::initial(),
                running: false,
                cause: StartCause::Init,
                primary_pointer: None,
            }),
    {
        EventLoop {
            window_target: ActiveEventLoop::new(),
            running: false,
            cause: StartCause::Init,
            primary_pointer: None,
        }
    }

    /// The context handed to application callbacks.
    pub fn window_target(&self) -> (r: &ActiveEventLoop)
        ensures
            r == self.window_target,
    {
        &self.window_target
    }

    /// Turn one native notification into its ordered dispatch steps,
    /// updating the driver state exactly as the dispatch table says.
    pub fn process_event(&mut self, event: &NativeEvent) -> (actions: Vec<DispatchAction>)
        ensures
            actions@ == dispatch_actions(*old(self), *event),
            *final(self) == state_after(*old(self), *event),
    {
        let mut actions: Vec<DispatchAction> = Vec::new();
        match event {
            NativeEvent::SurfaceCreate => {
                actions.push(DispatchAction::CanCreateSurfaces);
            },
            NativeEvent::SurfaceDestroy => {
                actions.push(DispatchAction::DestroySurfaces);
            },
            NativeEvent::WindowResize { size } => {
                let reported: PhysicalSize = match size {
                    Some(s) => {
                        self.window_target.surface_size = Some(*s);
                        *s
                    },
                    None => PhysicalSize { width: 0, height: 0 },
                };
                actions.push(DispatchAction::Emit(WindowEvent::SurfaceResized(reported)));
            },
            NativeEvent::WindowRedraw => {
                actions.push(DispatchAction::Emit(WindowEvent::RedrawRequested));
            },
            NativeEvent::ContentRectChange => {
            },
            NativeEvent::GainedFocus => {
                self.window_target.focus = true;
                actions.push(DispatchAction::Emit(WindowEvent::Focused(true)));
            },
            NativeEvent::LostFocus => {
                self.window_target.focus = false;
                actions.push(DispatchAction::Emit(WindowEvent::Focused(false)));
            },
            NativeEvent::ConfigChanged { surface } => {
                match surface {
                    Some(v) => {
                        self.window_target.surface_size = Some(v.size);
                        actions.push(DispatchAction::Emit(WindowEvent::ScaleFactorChanged {
                            scale_factor: v.scale_factor,
                            surface_size: v.size,
                        }));
                    },
                    None => {
                    },
                }
            },
            NativeEvent::LowMemory => {
                actions.push(DispatchAction::MemoryWarning);
            },
            NativeEvent::Start => {
                actions.push(DispatchAction::Resumed);
            },
            NativeEvent::Resume => {
            },
            NativeEvent::SaveState => {
            },
            NativeEvent::Pause => {
            },
            NativeEvent::Stop => {
                actions.push(DispatchAction::Suspended);
            },
            NativeEvent::Destroy => {
            },
            NativeEvent::Input(input) => {
                let ghost previous: Option<FingerId> = self.primary_pointer;
                let events = normalize_input(&mut self.primary_pointer, input);
                let mut i: usize = 0;
                proof {
                    assert(actions@ =~= input_events(previous, *input).map_values(
                        |e: WindowEvent| DispatchAction::Emit(e),
                    ).take(0));
                }
                while i < events.len()
                    invariant
                        i <= events.len(),
                        events@ == input_events(previous, *input),
                        actions@ == input_events(previous, *input).map_values(
                            |e: WindowEvent| DispatchAction::Emit(e),
                        ).take(i as int),
                    decreases events.len() - i,
                {
                    actions.push(DispatchAction::Emit(events[i]));
                    i = i + 1;
                    proof {
                        assert(actions@ =~= input_events(previous, *input).map_values(
                            |e: WindowEvent| DispatchAction::Emit(e),
                        ).take(i as int));
                    }
                }
                proof {
                    assert(actions@ =~= input_events(previous, *input).map_values(
                        |e: WindowEvent| DispatchAction::Emit(e),
                    ));
                }
            },
            NativeEvent::Unknown => {
            },
        }
        proof {
            assert(actions@ =~= dispatch_actions(*old(self), *event));
        }
        actions
    }

    /// Route one native notification to the application callbacks, in
    /// the order the dispatch table gives, and report whether the loop
    /// should keep running: `false` exactly when a callback (or an
    /// earlier iteration) requested an exit — the explicit post-callback
    /// exit check.  Callbacks receive only the shared context; the
    /// driver's own bookkeeping ends up exactly as the dispatch model
    /// says.
    pub fn run_event<A: ApplicationHandler>(
        &mut self,
        event: &NativeEvent,
        app: &mut A,
    ) -> (keep_running: bool)
        ensures
            keep_running == !final(self).window_target.exit,
            final(self).primary_pointer == state_after(*old(self), *event).primary_pointer,
            final(self).cause == old(self).cause,
            final(self).running == old(self).running,
    {
        let actions = self.process_event(event);
        let mut i: usize = 0;
        while i < actions.len()
            invariant
                i <= actions.len(),
                self.primary_pointer == state_after(*old(self), *event).primary_pointer,
                self.cause == old(self).cause,
                self.running == old(self).running,
            decreases actions.len() - i,
        {
            let action = actions[i];
            match action {
                DispatchAction::CanCreateSurfaces => {
                    app.can_create_surfaces(&mut self.window_target);
                },
                DispatchAction::DestroySurfaces => {
                    app.destroy_surfaces(&mut self.window_target);
                },
                DispatchAction::Emit(window_event) => {
                    app.window_event(
                        &mut self.window_target,
                        WindowId { raw: GLOBAL_WINDOW_RAW },
                        window_event,
                    );
                },
                DispatchAction::MemoryWarning => {
                    app.memory_warning(&mut self.window_target);
                },
                DispatchAction::Resumed => {
                    app.resumed(&mut self.window_target);
                },
                DispatchAction::Suspended => {
                    app.suspended(&mut self.window_target);
                },
            }
            i = i + 1;
        }
        !self.window_target.exiting()
    }

    /// Begin a run: mark the driver as running and report the first
    /// iteration to the application, with the stored start cause.
    pub fn begin_run<A: ApplicationHandler>(&mut self, app: &mut A)
        ensures
            final(self).running,
            final(self).cause == old(self).cause,
            final(self).primary_pointer == old(self).primary_pointer,
    {
        self.running = true;
        let cause = self.cause;
        app.new_events(&mut self.window_target, cause);
    }

    /// The control-flow preference most recently recorded by a callback.
    pub fn control_flow(&self) -> (r: ControlFlow)
        ensures
            r == self.window_target.control_flow,
    {
        self.window_target.control_flow()
    }

    /// Whether a callback has requested an exit.
    pub fn exiting(&self) -> (r: bool)
        ensures
            r == self.window_target.exit,
    {
        self.window_target.exiting()
    }
}

/// The focus flag reflects exactly the most recent focus notification: a
/// gained-focus notification sets it, a lost-focus notification clears
/// it, the portable event delivered alongside carries the same value, and
/// no other notification touches the flag — so a read between two focus
/// notifications always sees the most recent one.
pub proof fn lemma_focus_tracks_notifications(state: EventLoop)
    ensures
        state_after(state, NativeEvent::GainedFocus).window_target.focus,
        !state_after(state, NativeEvent::LostFocus).window_target.focus,
        dispatch_actions(state, NativeEvent::GainedFocus)
            == seq![DispatchAction::Emit(WindowEvent::Focused(true))],
        dispatch_actions(state, NativeEvent::LostFocus)
            == seq![DispatchAction::Emit(WindowEvent::Focused(false))],
        forall|event: NativeEvent|
            event != NativeEvent::GainedFocus && event != NativeEvent::LostFocus
                ==> #[trigger] state_after(state, event).window_target.focus
                    == state.window_target.focus,
{
}

} // verus!
