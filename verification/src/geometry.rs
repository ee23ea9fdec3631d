//! The editor view's rectangle and the decisions that the host's window takes
//! around it.
use vstd::prelude::*;
use crate::result_code::{tresult_code, TResult};

verus! {

/// A rectangle in the editor view's coordinates, as VST 3 passes it.
#[derive(Debug, Clone, Copy, PartialEq, Eq, Structural)]
pub struct ViewRect {
    pub left: i32,
    pub top: i32,
    pub right: i32,
    pub bottom: i32,
}

/// The rectangle at the origin that spans `width` by `height`, each taken as
/// `i32` the way Rust's `as` does.
pub open spec fn rect_of_size(width: u32, height: u32) -> ViewRect {
    ViewRect { left: 0, top: 0, right: width as i32, bottom: height as i32 }
}

/// The width and height that a rectangle spans from the origin.
pub open spec fn rect_extent(r: ViewRect) -> (i32, i32) {
    (r.right, r.bottom)
}

/// A rectangle made from any window size is anchored at the origin, and for a
/// size that fits in `i32` it spans exactly that width and height.
pub proof fn lemma_rect_of_size_spans_size(width: u32, height: u32)
    ensures
        rect_of_size(width, height).left == 0,
        rect_of_size(width, height).top == 0,
        width <= i32::MAX ==> rect_of_size(width, height).right - rect_of_size(width, height).left
            == width,
        height <= i32::MAX ==> rect_of_size(width, height).bottom - rect_of_size(
            width,
            height,
        ).top == height,
{
}

/// A rectangle made from a window size that fits in `i32` gives that size back.
pub proof fn lemma_extent_of_size(width: u32, height: u32)
    requires
        width <= i32::MAX,
        height <= i32::MAX,
    ensures
        rect_extent(rect_of_size(width, height)).0 == width,
        rect_extent(rect_of_size(width, height)).1 == height,
{
}

impl ViewRect {
    /// The rectangle of a window area of `width` by `height` pixels, anchored
    /// at the origin; each extent is taken as `i32` the way Rust's `as` does
    /// (wrapping above `i32::MAX`).
    pub fn from_size(width: u32, height: u32) -> (r: ViewRect)
        ensures
            r == rect_of_size(width, height),
    {
        ViewRect {
            left: 0,
            top: 0,
            right: #[verifier::truncate] (width as i32),
            bottom: #[verifier::truncate] (height as i32),
        }
    }

    /// Whether two rectangles have the same four sides.
    pub fn eq(&self, other: &ViewRect) -> (r: bool)
        ensures
            r <==> *self == *other,
    {
        self.right == other.right && self.bottom == other.bottom && self.top == other.top
            && self.left == other.left
    }

    /// The width and height that a window shows for this rectangle: its right
    /// and bottom sides, measured from the origin.
    pub fn extent(&self) -> (r: (i32, i32))
        ensures
            r == rect_extent(*self),
    {
        (self.right, self.bottom)
    }
}

/// The host's answer when the plugin asks for its view to be resized.
#[derive(Debug, Clone, Copy, PartialEq, Eq)]
pub struct ResizeReply {
    /// The `tresult` code returned to the plugin.
    pub result: i32,
    /// The inner size (width, height) to ask of the window, if any.
    pub request: Option<(i32, i32)>,
}

/// A plugin asks for its view to be resized to `new_size`: without a window
/// the host answers `kResultFalse`; with one it asks the window for the
/// rectangle's extent and answers `kResultOk`.
pub fn resize_reply(has_window: bool, new_size: &ViewRect) -> (r: ResizeReply)
    ensures
        !has_window ==> r.result == tresult_code(TResult::KResultFalse) && r.request is None,
        has_window ==> r.result == tresult_code(TResult::KResultOk) && r.request == Some(
            (new_size.right, new_size.bottom),
        ),
{
    if !has_window {
        ResizeReply { result: TResult::KResultFalse.to_i32(), request: None }
    } else {
        ResizeReply { result: TResult::KResultOk.to_i32(), request: Some(new_size.extent()) }
    }
}

/// Whether the window must be made not resizable, given what the plugin's view
/// answered when asked whether it can be resized: exactly when it answered
/// `kResultFalse`.
pub fn keeps_fixed_size(can_resize: i32) -> (r: bool)
    ensures
        r <==> can_resize == tresult_code(TResult::KResultFalse),
{
    can_resize == TResult::KResultFalse.to_i32()
}

/// The windowing systems whose handles the host tells apart.
#[derive(Debug, Clone, Copy, PartialEq, Eq, Structural)]
pub enum WindowSystem {
    AppKit,
    Other,
}

/// The platform type string under which a plugin view is attached to a window
/// of the given system; the host supports AppKit's `NSView` only.
pub fn platform_type(system: WindowSystem) -> (r: Option<&'static str>)
    ensures
        system == WindowSystem::AppKit <==> r is Some,
        r matches Some(s) ==> s@ == "NSView"@,
{
    match system {
        WindowSystem::AppKit => Some("NSView"),
        WindowSystem::Other => None,
    }
}

/// The window events that the host tells apart.
#[derive(Debug, Clone, Copy, PartialEq, Eq, Structural)]
pub enum WindowEventKind {
    Focused(bool),
    ScaleFactorChanged,
    RedrawRequested,
    CloseRequested,
    Resized,
    Other,
}

/// What the host does on a window event.
#[derive(Debug, Clone, Copy, PartialEq, Eq, Structural)]
pub enum WindowResponse {
    /// Log that the window gained (true) or lost (false) the focus.
    LogFocus(bool),
    /// Log the new scale factor.
    LogScaleFactor,
    /// Log the new size.
    LogResize,
    /// Detach the plugin's view and end the program.
    RemoveViewAndExit,
    /// Nothing.
    Nothing,
}

/// The host's response to a window event: closing the window detaches the
/// plugin's view and ends the program; focus, scale and size changes are
/// logged; anything else is let pass.
pub fn respond_to_window_event(event: WindowEventKind) -> (r: WindowResponse)
    ensures
        r == match event {
            WindowEventKind::Focused(f) => WindowResponse::LogFocus(f),
            WindowEventKind::ScaleFactorChanged => WindowResponse::LogScaleFactor,
            WindowEventKind::Resized => WindowResponse::LogResize,
            WindowEventKind::CloseRequested => WindowResponse::RemoveViewAndExit,
            WindowEventKind::RedrawRequested | WindowEventKind::Other => WindowResponse::Nothing,
        },
{
    match event {
        WindowEventKind::Focused(f) => WindowResponse::LogFocus(f),
        WindowEventKind::ScaleFactorChanged => WindowResponse::LogScaleFactor,
        WindowEventKind::Resized => WindowResponse::LogResize,
        WindowEventKind::CloseRequested => WindowResponse::RemoveViewAndExit,
        WindowEventKind::RedrawRequested => WindowResponse::Nothing,
        WindowEventKind::Other => WindowResponse::Nothing,
    }
}

} // verus!
