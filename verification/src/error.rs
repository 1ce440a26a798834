//! The ways in which the engine refuses a request.

use vstd::prelude::*;
use vstd::string::*;

verus! {

/// An element of the host document that the engine is mounted on.
#[derive(Clone, Copy, Debug, PartialEq, Eq, Structural)]
pub enum HostElement {
    /// The element that the application is mounted in.
    Container,
    /// The button that clears the drawing.
    ClearButton,
    /// The drawing surface.
    Surface,
}

/// Why a request was refused.
#[derive(Clone, Copy, Debug, PartialEq, Eq, Structural)]
pub enum AppError {
    /// An element of the host document was not found. Fatal at mount.
    MissingHostElement(HostElement),
    /// Painting or resizing was asked for before the renderer was
    /// initialized.
    NotInitialized,
    /// The surface's bounding rectangle has no width or no height, so no
    /// point of the document maps into the buffer.
    DegenerateLayout,
    /// The host gave no rendering context. Fatal at initialization.
    ContextUnavailable,
}

/// The identifier of the element that the application is mounted in.
pub const CONTAINER_ID: &'static str = "main-app-container";

/// The identifier that the clear button is created with.
pub const CLEAR_BUTTON_ID: &'static str = "clear-btn";

/// The identifier that the drawing surface is created with.
pub const SURFACE_ID: &'static str = "drawing-canvas";

impl HostElement {
    /// The word that reports name the element's kind by.
    pub open spec fn spec_kind(self) -> Seq<char> {
        match self {
            HostElement::Container => "Container"@,
            HostElement::ClearButton => "Button"@,
            HostElement::Surface => "Canvas"@,
        }
    }

    /// The word that reports name the element's kind by.
    pub fn kind(self) -> (kind: &'static str)
        ensures
            kind@ == self.spec_kind(),
    {
        match self {
            HostElement::Container => "Container",
            HostElement::ClearButton => "Button",
            HostElement::Surface => "Canvas",
        }
    }

    /// The identifier of the element in the host document.
    pub open spec fn spec_id(self) -> Seq<char> {
        match self {
            HostElement::Container => CONTAINER_ID@,
            HostElement::ClearButton => CLEAR_BUTTON_ID@,
            HostElement::Surface => SURFACE_ID@,
        }
    }

    /// The identifier of the element in the host document.
    pub fn id(self) -> (id: &'static str)
        ensures
            id@ == self.spec_id(),
    {
        match self {
            HostElement::Container => CONTAINER_ID,
            HostElement::ClearButton => CLEAR_BUTTON_ID,
            HostElement::Surface => SURFACE_ID,
        }
    }
}

impl AppError {
    /// The text of the error, as it is reported to the host.
    pub open spec fn spec_message(self) -> Seq<char> {
        match self {
            AppError::MissingHostElement(element) => element.spec_kind() + " element '"@
                + element.spec_id() + "' not found"@,
            AppError::NotInitialized => "Rendering context not initialized"@,
            AppError::DegenerateLayout => "Surface layout has no area"@,
            AppError::ContextUnavailable => "Failed to get 2D context"@,
        }
    }

    /// The text of the error, as it is reported to the host.
    pub fn message(self) -> (text: String)
        ensures
            text@ == self.spec_message(),
    {
        match self {
            AppError::MissingHostElement(element) => {
                let mut text = String::from_str(element.kind());
                text.append(" element '");
                text.append(element.id());
                text.append("' not found");
                text
            },
            AppError::NotInitialized => String::from_str("Rendering context not initialized"),
            AppError::DegenerateLayout => String::from_str("Surface layout has no area"),
            AppError::ContextUnavailable => String::from_str("Failed to get 2D context"),
        }
    }
}

} // verus!
