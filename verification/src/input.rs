//! The input bridge: the two listeners that turn events of the host document
//! into changes of the drawing. A press on the surface adds a circle where
//! the pointer is; a click on the clear button empties the drawing.

use crate::error::HostElement;
use crate::layout::{CoordinateMapper, LayoutRect};
use crate::render::{DrawingApp, DrawingAppModel};
use crate::scalar::Scalar;
use crate::state::{cleared, shape_added};
use vstd::prelude::*;

verus! {

/// A listener of the input bridge.
#[derive(Clone, Copy, Debug, PartialEq, Eq, Structural)]
pub enum Listener {
    /// A pointer was pressed on the surface.
    PointerDown,
    /// The clear button was activated.
    ClearClick,
}

impl Listener {
    /// The element that the listener is registered on.
    pub open spec fn spec_target(self) -> HostElement {
        match self {
            Listener::PointerDown => HostElement::Surface,
            Listener::ClearClick => HostElement::ClearButton,
        }
    }

    /// The element that the listener is registered on.
    #[verifier::when_used_as_spec(spec_target)]
    pub fn target(self) -> (target: HostElement)
        ensures
            target == self.spec_target(),
    {
        match self {
            Listener::PointerDown => HostElement::Surface,
            Listener::ClearClick => HostElement::ClearButton,
        }
    }

    /// The name of the event that the listener waits for.
    pub open spec fn spec_event_name(self) -> Seq<char> {
        match self {
            Listener::PointerDown => "mousedown"@,
            Listener::ClearClick => "click"@,
        }
    }

    /// The name of the event that the listener waits for.
    pub fn event_name(self) -> (name: &'static str)
        ensures
            name@ == self.spec_event_name(),
    {
        match self {
            Listener::PointerDown => "mousedown",
            Listener::ClearClick => "click",
        }
    }
}

/// What the input bridge is, to the contracts: which of its two listeners
/// are registered.
pub struct InputModel {
    pub pointer_down: bool,
    pub clear_click: bool,
}

impl InputModel {
    /// The bridge as it is constructed: exactly the two listeners.
    pub open spec fn subscribed() -> InputModel {
        InputModel { pointer_down: true, clear_click: true }
    }

    /// The bridge after release: no listener.
    pub open spec fn released(self) -> InputModel {
        InputModel { pointer_down: false, clear_click: false }
    }

    /// The registered listeners, the surface's first.
    pub open spec fn listeners(self) -> Seq<Listener> {
        (if self.pointer_down {
            seq![Listener::PointerDown]
        } else {
            Seq::empty()
        }) + (if self.clear_click {
            seq![Listener::ClearClick]
        } else {
            Seq::empty()
        })
    }
}

/// The listeners that connect the host's events to the drawing.
#[derive(Debug)]
pub struct InputBridge {
    pointer_down: bool,
    clear_click: bool,
}

impl View for InputBridge {
    type V = InputModel;

    closed spec fn view(&self) -> InputModel {
        InputModel { pointer_down: self.pointer_down, clear_click: self.clear_click }
    }
}

impl InputBridge {
    /// The bridge with its two listeners registered. Listeners are
    /// registered here and nowhere else.
    pub fn new() -> (bridge: InputBridge)
        ensures
            bridge@ == InputModel::subscribed(),
    {
        InputBridge { pointer_down: true, clear_click: true }
    }

    /// The registered listeners, the surface's first.
    pub fn listeners(&self) -> (listeners: Vec<Listener>)
        ensures
            listeners@ == self@.listeners(),
    {
        let mut listeners: Vec<Listener> = Vec::new();
        if self.pointer_down {
            listeners.push(Listener::PointerDown);
        }
        if self.clear_click {
            listeners.push(Listener::ClearClick);
        }
        assert(listeners@ =~= self@.listeners());
        listeners
    }

    /// A pointer was pressed on the surface, which lies at `rect` in the
    /// document; `(x, y)` is the pointer's position in buffer space and
    /// `radius` the radius drawn for the new circle. Returns whether a
    /// circle was added. One is added for every press, unless the listener
    /// is no longer registered or `rect` has no width or no height; then
    /// the press is passed over and the drawing is unchanged.
    pub fn pointer_down(
        &self,
        app: &mut DrawingApp,
        rect: LayoutRect,
        x: Scalar,
        y: Scalar,
        radius: Scalar,
    ) -> (added: bool)
        ensures
            added == (self@.pointer_down && !rect.spec_is_degenerate()),
            added ==> shape_added(
                old(app)@.shapes,
                final(app)@.shapes,
                x.bits,
                y.bits,
                radius.bits,
            ),
            added ==> final(app)@.buffer == old(app)@.buffer && final(app)@.ready == old(
                app,
            )@.ready,
            !added ==> final(app)@ == old(app)@,
    {
        if !self.pointer_down {
            return false;
        }
        match CoordinateMapper::new(rect, app.buffer()) {
            Ok(_) => {
                app.add_circle_at_point(x, y, radius);
                true
            },
            Err(_) => false,
        }
    }

    /// The clear button was activated. Returns whether the drawing was
    /// cleared: it is, unless the listener is no longer registered.
    pub fn clear_click(&self, app: &mut DrawingApp) -> (done: bool)
        ensures
            done == self@.clear_click,
            done ==> final(app)@ == (DrawingAppModel {
                shapes: cleared(old(app)@.shapes),
                ..old(app)@
            }),
            !done ==> final(app)@ == old(app)@,
    {
        if !self.clear_click {
            return false;
        }
        app.clear_canvas();
        true
    }

    /// Gives up both listeners. Returns those that were registered, which
    /// the caller removes from the host document.
    pub fn release(&mut self) -> (removed: Vec<Listener>)
        ensures
            removed@ == old(self)@.listeners(),
            final(self)@ == old(self)@.released(),
    {
        let removed = self.listeners();
        self.pointer_down = false;
        self.clear_click = false;
        removed
    }
}

/// The bridge registers exactly two listeners, one on the surface and one on
/// the clear button, and after release none is left; releasing again
/// removes nothing.
pub proof fn lemma_listeners_registered_once(bridge: InputModel)
    ensures
        InputModel::subscribed().listeners() == seq![Listener::PointerDown, Listener::ClearClick],
        InputModel::subscribed().listeners()[0].spec_target() == HostElement::Surface,
        InputModel::subscribed().listeners()[1].spec_target() == HostElement::ClearButton,
        bridge.released().listeners() == Seq::<Listener>::empty(),
        bridge.released().released() == bridge.released(),
{
    assert(InputModel::subscribed().listeners() =~= seq![
        Listener::PointerDown,
        Listener::ClearClick,
    ]);
    assert(bridge.released().listeners() =~= Seq::<Listener>::empty());
}

} // verus!
