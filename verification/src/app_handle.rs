//! The application handle: the composition root. It owns the render engine,
//! the input bridge and the frame scheduler, offers the application's outward
//! operations, and on disposal gives up every listener and the render loop in
//! one step.

use crate::error::{AppError, HostElement};
use crate::input::{InputBridge, InputModel, Listener};
use crate::layout::{BufferSize, LayoutRect};
use crate::render::{command_models, frame_commands, DrawCommand, DrawingApp, DrawingAppModel};
use crate::scalar::Scalar;
use crate::scheduler::{FrameScheduler, LoopPhase, SchedulerModel};
use crate::state::{cleared, shape_added, DrawingState};
use vstd::prelude::*;

verus! {

/// What the host document holds of what the application is mounted on.
#[derive(Clone, Copy, Debug)]
pub struct HostProbe {
    /// Whether the container element was found.
    pub container: bool,
    /// Whether the clear button is in place.
    pub clear_button: bool,
    /// The buffer size of the drawing surface, if the surface is in place.
    pub surface: Option<BufferSize>,
}

impl HostProbe {
    /// The first element that is missing, in the order container, clear
    /// button, surface.
    pub open spec fn missing(self) -> Option<HostElement> {
        if !self.container {
            Some(HostElement::Container)
        } else if !self.clear_button {
            Some(HostElement::ClearButton)
        } else if self.surface is None {
            Some(HostElement::Surface)
        } else {
            None
        }
    }
}

/// What one tick of the host asks of the caller.
#[derive(Debug)]
pub enum FramePlan {
    /// The loop is not running: paint nothing and ask for no frame.
    Halt,
    /// The loop runs. Resize the buffer where `resize` gives a size, then
    /// carry out the commands of `paint` or report its error, and in either
    /// case ask the host for the next frame.
    Frame { resize: Option<BufferSize>, paint: Result<Vec<DrawCommand>, AppError> },
}

/// What disposal asks of the caller.
#[derive(Debug)]
pub struct Teardown {
    /// The frame to cancel, if the loop was waiting for one.
    pub cancel_frame: Option<i32>,
    /// The listeners to remove from the host document.
    pub listeners: Vec<Listener>,
}

/// What the application handle is, to the contracts.
pub struct AppHandleModel {
    pub app: DrawingAppModel,
    pub input: InputModel,
    pub scheduler: SchedulerModel,
}

impl AppHandleModel {
    /// Whether the handle holds neither a listener nor a live render loop.
    pub open spec fn disposed(self) -> bool {
        &&& self.input == self.input.released()
        &&& self.scheduler == self.scheduler.released()
    }

    /// The handle after disposal: the drawing stays, every listener and the
    /// render loop are given up.
    pub open spec fn after_dispose(self) -> AppHandleModel {
        AppHandleModel {
            app: self.app,
            input: self.input.released(),
            scheduler: self.scheduler.released(),
        }
    }

    /// The handle after a tick with the surface laid out at `rect`: a live
    /// loop brings a ready engine's buffer to the size of `rect` in whole
    /// pixels and no longer waits for the frame that fired; any other
    /// handle is unchanged.
    pub open spec fn after_frame(self, rect: LayoutRect) -> AppHandleModel {
        if self.scheduler.runs_frame() {
            AppHandleModel {
                app: if self.app.ready {
                    DrawingAppModel { buffer: rect.spec_pixel_size(), ..self.app }
                } else {
                    self.app
                },
                input: self.input,
                scheduler: self.scheduler.after_frame(),
            }
        } else {
            self
        }
    }

    /// The handle after `ticks`, each given as the surface's layout at the
    /// tick and the handle that the host gives for the frame after it.
    pub open spec fn after_ticks(self, ticks: Seq<(LayoutRect, i32)>) -> AppHandleModel
        decreases ticks.len(),
    {
        if ticks.len() == 0 {
            self
        } else {
            let earlier = self.after_ticks(ticks.drop_last()).after_frame(ticks.last().0);
            AppHandleModel { scheduler: earlier.scheduler.rescheduled(ticks.last().1), ..earlier }
        }
    }
}

/// The running application.
#[derive(Debug)]
pub struct AppHandle {
    app: DrawingApp,
    input: InputBridge,
    scheduler: FrameScheduler,
}

impl View for AppHandle {
    type V = AppHandleModel;

    closed spec fn view(&self) -> AppHandleModel {
        AppHandleModel { app: self.app@, input: self.input@, scheduler: self.scheduler@ }
    }
}

/// Mounts the application on the host document that `host` describes. Where
/// an element is missing the mount fails with the first such element and
/// nothing is mounted; else the application starts out with an empty
/// drawing, no rendering context, both listeners registered and the render
/// loop not started.
pub fn mount_app(host: HostProbe) -> (mounted: Result<AppHandle, AppError>)
    ensures
        host.missing() is Some ==> mounted is Err && mounted->Err_0
            == AppError::MissingHostElement(host.missing()->Some_0),
        host.missing() is None ==> mounted is Ok && mounted->Ok_0@ == (AppHandleModel {
            app: DrawingAppModel {
                shapes: Seq::empty(),
                buffer: host.surface->Some_0,
                ready: false,
            },
            input: InputModel::subscribed(),
            scheduler: SchedulerModel::idle(),
        }),
{
    if !host.container {
        return Err(AppError::MissingHostElement(HostElement::Container));
    }
    if !host.clear_button {
        return Err(AppError::MissingHostElement(HostElement::ClearButton));
    }
    match host.surface {
        None => Err(AppError::MissingHostElement(HostElement::Surface)),
        Some(buffer) => Ok(
            AppHandle {
                app: DrawingApp::new(buffer),
                input: InputBridge::new(),
                scheduler: FrameScheduler::new(),
            },
        ),
    }
}

impl AppHandle {
    /// The render engine.
    pub fn app(&self) -> (app: &DrawingApp)
        ensures
            app@ == self@.app,
    {
        &self.app
    }

    /// Where the render loop stands.
    pub fn loop_phase(&self) -> (phase: LoopPhase)
        ensures
            phase == self@.scheduler.phase,
    {
        self.scheduler.phase()
    }

    /// The registered listeners, the surface's first.
    pub fn listeners(&self) -> (listeners: Vec<Listener>)
        ensures
            listeners@ == self@.input.listeners(),
    {
        self.input.listeners()
    }

    /// Binds the rendering context, if the host gave one; else fails with
    /// `ContextUnavailable` and changes nothing.
    pub fn initialize_renderer(&mut self, context_available: bool) -> (result: Result<
        (),
        AppError,
    >)
        ensures
            context_available ==> result == Ok::<(), AppError>(()) && final(self)@ == (
            AppHandleModel {
                app: DrawingAppModel { ready: true, ..old(self)@.app },
                ..old(self)@
            }),
            !context_available ==> result == Err::<(), AppError>(AppError::ContextUnavailable)
                && final(self)@ == old(self)@,
    {
        self.app.initialize_renderer(context_available)
    }

    /// Starts the render loop, which now waits for `first_frame`, the frame
    /// that the caller has asked the host for. The loop is started once.
    pub fn start(&mut self, first_frame: i32)
        requires
            old(self)@.scheduler.phase == LoopPhase::Idle,
        ensures
            final(self)@ == (AppHandleModel {
                scheduler: old(self)@.scheduler.started(first_frame),
                ..old(self)@
            }),
    {
        self.scheduler.start(first_frame);
    }

    /// Adds a circle at `(x, y)` with the given radius and a freshly drawn
    /// colour. Works whether or not the render loop runs.
    pub fn add_circle_at_point(&mut self, x: Scalar, y: Scalar, radius: Scalar)
        ensures
            shape_added(
                old(self)@.app.shapes,
                final(self)@.app.shapes,
                x.bits,
                y.bits,
                radius.bits,
            ),
            final(self)@.app.buffer == old(self)@.app.buffer,
            final(self)@.app.ready == old(self)@.app.ready,
            final(self)@.input == old(self)@.input,
            final(self)@.scheduler == old(self)@.scheduler,
    {
        self.app.add_circle_at_point(x, y, radius);
    }

    /// Removes every shape. Works whether or not the render loop runs.
    pub fn clear_canvas(&mut self)
        ensures
            final(self)@ == (AppHandleModel {
                app: DrawingAppModel { shapes: cleared(old(self)@.app.shapes), ..old(self)@.app },
                ..old(self)@
            }),
    {
        self.app.clear_canvas();
    }

    /// A copy of the drawing, for export.
    pub fn get_drawing_state(&self) -> (snapshot: DrawingState)
        ensures
            snapshot@ == self@.app.shapes,
    {
        self.app.get_drawing_state()
    }

    /// A pointer was pressed on the surface, which lies at `rect` in the
    /// document; `(x, y)` is the pointer's position in buffer space and
    /// `radius` the radius drawn for the new circle. Returns whether a
    /// circle was added: one is, unless the listener was given up or `rect`
    /// has no width or no height.
    pub fn on_pointer_down(&mut self, rect: LayoutRect, x: Scalar, y: Scalar, radius: Scalar) -> (added:
        bool)
        ensures
            added == (old(self)@.input.pointer_down && !rect.spec_is_degenerate()),
            added ==> shape_added(
                old(self)@.app.shapes,
                final(self)@.app.shapes,
                x.bits,
                y.bits,
                radius.bits,
            ),
            added ==> final(self)@.app.buffer == old(self)@.app.buffer && final(self)@.app.ready
                == old(self)@.app.ready,
            !added ==> final(self)@.app == old(self)@.app,
            final(self)@.input == old(self)@.input,
            final(self)@.scheduler == old(self)@.scheduler,
    {
        self.input.pointer_down(&mut self.app, rect, x, y, radius)
    }

    /// The clear button was activated. Returns whether the drawing was
    /// cleared: it is, unless the listener was given up.
    pub fn on_clear_click(&mut self) -> (done: bool)
        ensures
            done == old(self)@.input.clear_click,
            done ==> final(self)@.app == (DrawingAppModel {
                shapes: cleared(old(self)@.app.shapes),
                ..old(self)@.app
            }),
            !done ==> final(self)@.app == old(self)@.app,
            final(self)@.input == old(self)@.input,
            final(self)@.scheduler == old(self)@.scheduler,
    {
        self.input.clear_click(&mut self.app)
    }

    /// The host's frame callback fired, with the surface laid out at
    /// `rect`. A loop that is not running halts: nothing changes and no
    /// frame is asked for. A running loop brings the buffer to the size of
    /// `rect` in whole pixels and paints the whole drawing; before the
    /// renderer is initialized the frame fails with `NotInitialized`
    /// instead, and the loop goes on all the same.
    pub fn on_frame(&mut self, rect: LayoutRect) -> (plan: FramePlan)
        ensures
            final(self)@ == old(self)@.after_frame(rect),
            !old(self)@.scheduler.runs_frame() ==> plan is Halt,
            old(self)@.scheduler.runs_frame() ==> plan is Frame,
            old(self)@.scheduler.runs_frame() && !old(self)@.app.ready ==> plan->resize is None
                && plan->paint == Err::<Vec<DrawCommand>, AppError>(AppError::NotInitialized),
            old(self)@.scheduler.runs_frame() && old(self)@.app.ready ==> {
                &&& plan->resize == (if old(self)@.app.buffer != rect.spec_pixel_size() {
                    Some(rect.spec_pixel_size())
                } else {
                    None
                })
                &&& plan->paint is Ok
                &&& command_models(plan->paint->Ok_0@) == frame_commands(
                    rect.spec_pixel_size(),
                    old(self)@.app.shapes,
                )
            },
    {
        if !self.scheduler.on_frame() {
            return FramePlan::Halt;
        }
        let resize = match self.app.resize_canvas(rect) {
            Ok(true) => Some(self.app.buffer()),
            _ => None,
        };
        let paint = self.app.render_frame();
        FramePlan::Frame { resize, paint }
    }

    /// The host gave `frame` as the handle of the next frame. Returns
    /// whether the loop waits for it; a loop that was released meanwhile
    /// does not, and the caller cancels the frame.
    pub fn frame_scheduled(&mut self, frame: i32) -> (kept: bool)
        ensures
            kept == old(self)@.scheduler.runs_frame(),
            final(self)@ == (AppHandleModel {
                scheduler: old(self)@.scheduler.rescheduled(frame),
                ..old(self)@
            }),
    {
        self.scheduler.frame_scheduled(frame)
    }

    /// Gives up every listener and the render loop, in one step. Returns
    /// what the caller has to undo in the host document: the frame to
    /// cancel and the listeners to remove. Disposing again changes nothing
    /// and asks for nothing.
    pub fn dispose(&mut self) -> (teardown: Teardown)
        ensures
            final(self)@ == old(self)@.after_dispose(),
            final(self)@.disposed(),
            teardown.cancel_frame == old(self)@.scheduler.pending,
            teardown.listeners@ == old(self)@.input.listeners(),
    {
        let cancel_frame = self.scheduler.release();
        let listeners = self.input.release();
        Teardown { cancel_frame, listeners }
    }
}

/// After disposal no tick is observable: whatever frames the host still
/// delivers, and however the surface is laid out, the handle stays exactly
/// as disposal left it, its loop runs no frame and waits for none.
pub proof fn lemma_disposed_handle_stays_silent(
    handle: AppHandleModel,
    ticks: Seq<(LayoutRect, i32)>,
)
    ensures
        handle.after_dispose().after_ticks(ticks) == handle.after_dispose(),
        !handle.after_dispose().after_ticks(ticks).scheduler.runs_frame(),
        handle.after_dispose().after_ticks(ticks).scheduler.pending is None,
        handle.after_dispose().after_ticks(ticks).input.listeners() == Seq::<Listener>::empty(),
    decreases ticks.len(),
{
    if ticks.len() > 0 {
        lemma_disposed_handle_stays_silent(handle, ticks.drop_last());
    }
    assert(handle.after_dispose().input.listeners() =~= Seq::<Listener>::empty());
}

/// Frames only read the drawing: whatever ticks arrive, the shapes stay as
/// they are, and an engine that is ready stays ready.
pub proof fn lemma_frames_keep_the_drawing(handle: AppHandleModel, ticks: Seq<(LayoutRect, i32)>)
    ensures
        handle.after_ticks(ticks).app.shapes == handle.app.shapes,
        handle.after_ticks(ticks).app.ready == handle.app.ready,
        handle.after_ticks(ticks).input == handle.input,
        handle.after_ticks(ticks).scheduler.phase == handle.scheduler.phase,
    decreases ticks.len(),
{
    if ticks.len() > 0 {
        lemma_frames_keep_the_drawing(handle, ticks.drop_last());
    }
}

/// Disposal is safe to repeat: a disposed handle is left as it is, with no
/// frame to cancel and no listener to remove.
pub proof fn lemma_dispose_idempotent(handle: AppHandleModel)
    ensures
        handle.after_dispose().disposed(),
        handle.after_dispose().after_dispose() == handle.after_dispose(),
        handle.after_dispose().scheduler.pending is None,
        handle.after_dispose().input.listeners() == Seq::<Listener>::empty(),
        handle.after_dispose().app == handle.app,
{
    assert(handle.after_dispose().input.listeners() =~= Seq::<Listener>::empty());
}

} // verus!
