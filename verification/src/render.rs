//! The render engine: the drawing, the surface's buffer size and the binding
//! to a rendering context. It is `Uninitialized` until a context is bound and
//! `Ready` from then on; resizing and painting are refused before that.

use crate::error::AppError;
use crate::layout::{BufferSize, LayoutRect};
use crate::scalar::Scalar;
use crate::state::{cleared, shape_added, DrawingState, Shape, ShapeModel};
use vstd::prelude::*;

verus! {

/// One step of painting a frame.
#[derive(Debug)]
pub enum DrawCommand {
    /// Clear the rectangle from the origin to `(width, height)`.
    Clear { width: u32, height: u32 },
    /// Fill the full circle that the shape describes, in its colour.
    FillCircle(Shape),
}

/// What a draw command is, to the contracts.
pub enum DrawCommandModel {
    Clear { width: u32, height: u32 },
    FillCircle(ShapeModel),
}

impl View for DrawCommand {
    type V = DrawCommandModel;

    open spec fn view(&self) -> DrawCommandModel {
        match self {
            DrawCommand::Clear { width, height } => DrawCommandModel::Clear {
                width: *width,
                height: *height,
            },
            DrawCommand::FillCircle(shape) => DrawCommandModel::FillCircle(shape@),
        }
    }
}

/// The commands that paint `shapes` on a buffer of size `buffer`: the whole
/// buffer is cleared, then every shape is filled, first added first, so that
/// later shapes cover earlier ones.
pub open spec fn frame_commands(buffer: BufferSize, shapes: Seq<ShapeModel>) -> Seq<
    DrawCommandModel,
> {
    seq![DrawCommandModel::Clear { width: buffer.width, height: buffer.height }]
        + shapes.map_values(|shape: ShapeModel| DrawCommandModel::FillCircle(shape))
}

/// The views of a sequence of commands.
pub open spec fn command_models(commands: Seq<DrawCommand>) -> Seq<DrawCommandModel> {
    commands.map_values(|command: DrawCommand| command@)
}

/// What the render engine is, to the contracts.
pub struct DrawingAppModel {
    /// The drawing.
    pub shapes: Seq<ShapeModel>,
    /// The size of the surface's backing buffer.
    pub buffer: BufferSize,
    /// Whether a rendering context is bound.
    pub ready: bool,
}

/// The drawing application's core: the drawing together with the surface it
/// is painted on.
#[derive(Debug)]
pub struct DrawingApp {
    state: DrawingState,
    buffer: BufferSize,
    context_bound: bool,
}

impl View for DrawingApp {
    type V = DrawingAppModel;

    closed spec fn view(&self) -> DrawingAppModel {
        DrawingAppModel { shapes: self.state@, buffer: self.buffer, ready: self.context_bound }
    }
}

impl DrawingApp {
    /// The engine for a surface whose buffer has size `buffer`: an empty
    /// drawing and no rendering context yet.
    pub fn new(buffer: BufferSize) -> (app: DrawingApp)
        ensures
            app@ == (DrawingAppModel { shapes: Seq::empty(), buffer, ready: false }),
    {
        DrawingApp { state: DrawingState::new(), buffer, context_bound: false }
    }

    /// Whether a rendering context is bound.
    pub fn is_ready(&self) -> (ready: bool)
        ensures
            ready == self@.ready,
    {
        self.context_bound
    }

    /// The size of the surface's backing buffer.
    pub fn buffer(&self) -> (buffer: BufferSize)
        ensures
            buffer == self@.buffer,
    {
        self.buffer
    }

    /// The drawing.
    pub fn state(&self) -> (state: &DrawingState)
        ensures
            state@ == self@.shapes,
    {
        &self.state
    }

    /// Binds the rendering context, if the host gave one. With a context
    /// the engine is ready from now on; without one the request fails with
    /// `ContextUnavailable` and the engine stays as it was.
    pub fn initialize_renderer(&mut self, context_available: bool) -> (result: Result<
        (),
        AppError,
    >)
        ensures
            context_available ==> result == Ok::<(), AppError>(()) && final(self)@ == (
            DrawingAppModel { ready: true, ..old(self)@ }),
            !context_available ==> result == Err::<(), AppError>(AppError::ContextUnavailable)
                && final(self)@ == old(self)@,
    {
        if context_available {
            self.context_bound = true;
            Ok(())
        } else {
            Err(AppError::ContextUnavailable)
        }
    }

    /// Brings the buffer to the size of the surface's layout rectangle,
    /// `rect`, rounded to whole pixels. Returns whether the buffer had to
    /// be resized: resizing discards what was painted, so a repaint must
    /// follow. Before a context is bound the request fails with
    /// `NotInitialized` and nothing changes.
    pub fn resize_canvas(&mut self, rect: LayoutRect) -> (result: Result<bool, AppError>)
        ensures
            !old(self)@.ready ==> result == Err::<bool, AppError>(AppError::NotInitialized)
                && final(self)@ == old(self)@,
            old(self)@.ready ==> result == Ok::<bool, AppError>(
                old(self)@.buffer != rect.spec_pixel_size(),
            ) && final(self)@ == (DrawingAppModel {
                buffer: rect.spec_pixel_size(),
                ..old(self)@
            }),
    {
        if !self.context_bound {
            return Err(AppError::NotInitialized);
        }
        let layout = rect.pixel_size();
        let resized = self.buffer.width != layout.width || self.buffer.height != layout.height;
        if resized {
            self.buffer = layout;
        }
        Ok(resized)
    }

    /// The commands that paint the current drawing, or `NotInitialized`
    /// before a context is bound.
    pub fn render_frame(&self) -> (result: Result<Vec<DrawCommand>, AppError>)
        ensures
            !self@.ready ==> result == Err::<Vec<DrawCommand>, AppError>(AppError::NotInitialized),
            self@.ready ==> result is Ok && command_models(result->Ok_0@) == frame_commands(
                self@.buffer,
                self@.shapes,
            ),
    {
        if !self.context_bound {
            return Err(AppError::NotInitialized);
        }
        let mut commands: Vec<DrawCommand> = Vec::new();
        commands.push(DrawCommand::Clear { width: self.buffer.width, height: self.buffer.height });
        let mut i: usize = 0;
        while i < self.state.shapes.len()
            invariant
                i <= self.state.shapes.len(),
                commands@.len() == i + 1,
                command_models(commands@) == frame_commands(
                    self.buffer,
                    self.state@.take(i as int),
                ),
            decreases self.state.shapes.len() - i,
        {
            let ghost before = command_models(commands@);
            let ghost shape = self.state@[i as int];
            commands.push(DrawCommand::FillCircle(self.state.shapes[i].duplicate()));
            i = i + 1;
            proof {
                let painted = frame_commands(self.buffer, self.state@.take(i as int));
                assert(command_models(commands@) =~= before.push(
                    DrawCommandModel::FillCircle(shape),
                ));
                assert(self.state@.take(i as int) =~= self.state@.take(i - 1).push(shape));
                assert(painted =~= before.push(DrawCommandModel::FillCircle(shape)));
            }
        }
        assert(self.state@.take(i as int) =~= self.state@);
        Ok(commands)
    }

    /// Adds a circle at `(x, y)` with the given radius and a freshly drawn
    /// colour, to be painted over all others.
    pub fn add_circle_at_point(&mut self, x: Scalar, y: Scalar, radius: Scalar)
        ensures
            shape_added(old(self)@.shapes, final(self)@.shapes, x.bits, y.bits, radius.bits),
            final(self)@.buffer == old(self)@.buffer,
            final(self)@.ready == old(self)@.ready,
    {
        self.state.add_shape(x, y, radius);
    }

    /// Removes every shape from the drawing.
    pub fn clear_canvas(&mut self)
        ensures
            final(self)@ == (DrawingAppModel { shapes: cleared(old(self)@.shapes), ..old(self)@ }),
    {
        self.state.clear_shapes();
    }

    /// A copy of the drawing, for export. It shares nothing with the live
    /// drawing.
    pub fn get_drawing_state(&self) -> (snapshot: DrawingState)
        ensures
            snapshot@ == self@.shapes,
    {
        self.state.snapshot()
    }
}

} // verus!
