//! The decisions of a window with a GPU surface: its frame rate, its cursor,
//! the size its surface is configured with, how it answers window events and
//! what it does with the state of the surface when a frame is due.
use vstd::prelude::*;
use crate::error::Error;

verus! {

/// The cursor shapes a window can show.
#[derive(Debug, PartialEq, Eq, Structural, Clone, Copy)]
pub enum Cursor {
    Default,
    ContextMenu,
    Help,
    Pointer,
    Progress,
    Wait,
    Cell,
    Crosshair,
    Text,
    VerticalText,
    Alias,
    Copy,
    Move,
    NoDrop,
    NotAllowed,
    Grab,
    Grabbing,
    EResize,
    NResize,
    NeResize,
    NwResize,
    SResize,
    SeResize,
    SwResize,
    WResize,
    EwResize,
    NsResize,
    NeswResize,
    NwseResize,
    ColResize,
    RowResize,
    AllScroll,
    ZoomIn,
    ZoomOut,
    DndAsk,
    AllResize,
}

/// The graphics backends an instance is created with.
#[derive(Debug, PartialEq, Eq, Structural, Clone, Copy)]
pub enum Backends {
    /// DirectX 12 only.
    Dx12,
    /// Every backend the platform offers.
    All,
}

/// The backends of a new instance: DirectX 12 on Windows, all others elsewhere.
pub fn instance_backends(on_windows: bool) -> (b: Backends)
    ensures
        b == (if on_windows { Backends::Dx12 } else { Backends::All }),
{
    if on_windows {
        Backends::Dx12
    } else {
        Backends::All
    }
}

/// The size a surface is configured with. Neither side is ever zero.
pub struct SurfaceExtent {
    width: u32,
    height: u32,
}

impl View for SurfaceExtent {
    type V = (u32, u32);

    closed spec fn view(&self) -> (u32, u32) {
        (self.width, self.height)
    }
}

/// A side of a new surface: a zero side is configured as one.
pub open spec fn at_least_one(x: u32) -> u32 {
    if x == 0 { 1 } else { x }
}

impl SurfaceExtent {
    #[verifier::type_invariant]
    closed spec fn inv(&self) -> bool {
        self.width > 0 && self.height > 0
    }

    /// The extent of a new surface for a window of the given size.
    pub fn for_window(width: u32, height: u32) -> (e: Self)
        ensures
            e@ == (at_least_one(width), at_least_one(height)),
            width > 0 ==> e@.0 == width,
            width == 0 ==> e@.0 == 1,
            height > 0 ==> e@.1 == height,
            height == 0 ==> e@.1 == 1,
    {
        let width = if width == 0 { 1 } else { width };
        let height = if height == 0 { 1 } else { height };
        SurfaceExtent { width, height }
    }

    pub fn width(&self) -> (w: u32)
        ensures
            w == self@.0,
            w > 0,
    {
        proof {
            use_type_invariant(self);
        }
        self.width
    }

    pub fn height(&self) -> (h: u32)
        ensures
            h == self@.1,
            h > 0,
    {
        proof {
            use_type_invariant(self);
        }
        self.height
    }

    /// The window was resized. A size with a zero side leaves the extent as
    /// it is; any other size becomes the extent, and the surface has to be
    /// configured again (the result says whether).
    pub fn resize(&mut self, width: u32, height: u32) -> (reconfigure: bool)
        ensures
            reconfigure == (width != 0 && height != 0),
            reconfigure ==> final(self)@ == (width, height),
            !reconfigure ==> final(self)@ == old(self)@,
    {
        if width == 0 || height == 0 {
            return false;
        }
        *self = SurfaceExtent { width, height };
        true
    }
}

/// The state of a surface texture when a frame is requested.
#[derive(Debug, PartialEq, Eq, Structural, Clone, Copy)]
pub enum SurfaceStatus {
    Success,
    Suboptimal,
    Timeout,
    Occluded,
    Outdated,
    Lost,
    Validation,
}

/// What to do with the frame.
#[derive(Debug)]
pub enum FramePlan {
    /// Clear the texture, let the handler draw into it, submit and present it.
    Draw,
    /// Skip the frame.
    Skip,
    /// Configure the surface again and skip the frame.
    Reconfigure,
    /// Fail with the error.
    Fail(Error),
}

/// What a frame does for each state of the surface texture.
pub open spec fn frame_plan(status: SurfaceStatus) -> FramePlan {
    match status {
        SurfaceStatus::Success | SurfaceStatus::Suboptimal => FramePlan::Draw,
        SurfaceStatus::Timeout | SurfaceStatus::Occluded => FramePlan::Skip,
        SurfaceStatus::Outdated => FramePlan::Reconfigure,
        SurfaceStatus::Lost => FramePlan::Fail(Error::SurfaceLost),
        SurfaceStatus::Validation => FramePlan::Fail(Error::SurfaceValidation),
    }
}

/// Decides what a frame does once the state of the surface texture is known.
pub fn plan_frame(status: SurfaceStatus) -> (plan: FramePlan)
    ensures
        plan == frame_plan(status),
{
    match status {
        SurfaceStatus::Success | SurfaceStatus::Suboptimal => FramePlan::Draw,
        SurfaceStatus::Timeout | SurfaceStatus::Occluded => FramePlan::Skip,
        SurfaceStatus::Outdated => FramePlan::Reconfigure,
        SurfaceStatus::Lost => FramePlan::Fail(Error::SurfaceLost),
        SurfaceStatus::Validation => FramePlan::Fail(Error::SurfaceValidation),
    }
}

/// The result of a drawn frame, from the result of the handler's drawing: a
/// failure of the handler (given by its message) is a user error, and the
/// frame is then neither submitted nor presented.
pub fn finish_frame(drawn: Result<(), String>) -> (r: Result<(), Error>)
    ensures
        match drawn {
            Ok(()) => r is Ok,
            Err(m) => r == Err::<(), Error>(Error::User(m)),
        },
{
    match drawn {
        Ok(()) => Ok(()),
        Err(m) => Err(Error::User(m)),
    }
}

/// A window event, as far as the window distinguishes them.
#[derive(Debug, PartialEq, Eq, Structural, Clone, Copy)]
pub enum WindowEventKind {
    CloseRequested,
    Resized { width: u32, height: u32 },
    ScaleFactorChanged,
    RedrawRequested,
    /// Any other event.
    Other,
}

/// How a window answers an event.
#[derive(Debug, PartialEq, Eq, Structural, Clone, Copy)]
pub enum WindowResponse {
    /// Tell the handler that the window closes, then end the event loop.
    Close,
    /// Resize the surface (see `SurfaceExtent::resize`), tell the handler the
    /// new size, then ask for a redraw.
    Resize { width: u32, height: u32 },
    /// Tell the handler the new scale factor, then ask for a redraw.
    Rescale,
    /// Render a frame; if that fails, end the event loop.
    Render,
    /// Hand the event to the handler, then update the cursor.
    Forward,
}

/// The answer to each kind of window event.
pub open spec fn window_response(event: WindowEventKind) -> WindowResponse {
    match event {
        WindowEventKind::CloseRequested => WindowResponse::Close,
        WindowEventKind::Resized { width, height } => WindowResponse::Resize { width, height },
        WindowEventKind::ScaleFactorChanged => WindowResponse::Rescale,
        WindowEventKind::RedrawRequested => WindowResponse::Render,
        WindowEventKind::Other => WindowResponse::Forward,
    }
}

/// A new surface has the window's size; only a side that is zero becomes one.
pub proof fn law_new_surface_has_window_size(width: u32, height: u32)
    ensures
        width > 0 ==> at_least_one(width) == width,
        height > 0 ==> at_least_one(height) == height,
        at_least_one(0) == 1,
        at_least_one(width) >= 1,
        at_least_one(height) >= 1,
{
}

/// A resize event is answered with a resize to exactly the event's size, and
/// every other kind of event with its own response.
pub proof fn law_event_responses(width: u32, height: u32)
    ensures
        window_response(WindowEventKind::Resized { width, height }) == (WindowResponse::Resize {
            width,
            height,
        }),
        window_response(WindowEventKind::CloseRequested) == WindowResponse::Close,
        window_response(WindowEventKind::ScaleFactorChanged) == WindowResponse::Rescale,
        window_response(WindowEventKind::RedrawRequested) == WindowResponse::Render,
        window_response(WindowEventKind::Other) == WindowResponse::Forward,
{
}

/// Decides how a window answers an event.
pub fn respond_to_event(event: WindowEventKind) -> (r: WindowResponse)
    ensures
        r == window_response(event),
        event matches WindowEventKind::Resized { width, height } ==> r == (WindowResponse::Resize {
            width,
            height,
        }),
        event == WindowEventKind::CloseRequested ==> r == WindowResponse::Close,
        event == WindowEventKind::ScaleFactorChanged ==> r == WindowResponse::Rescale,
        event == WindowEventKind::RedrawRequested ==> r == WindowResponse::Render,
        event == WindowEventKind::Other ==> r == WindowResponse::Forward,
{
    match event {
        WindowEventKind::CloseRequested => WindowResponse::Close,
        WindowEventKind::Resized { width, height } => WindowResponse::Resize { width, height },
        WindowEventKind::ScaleFactorChanged => WindowResponse::Rescale,
        WindowEventKind::RedrawRequested => WindowResponse::Render,
        WindowEventKind::Other => WindowResponse::Forward,
    }
}

/// What a window does after its handler's per-frame update.
#[derive(Debug, PartialEq, Eq, Structural, Clone, Copy)]
pub struct UpdatePlan {
    /// Show the handler's cursor (it differs from the one shown).
    pub set_cursor: bool,
    /// Ask for a redraw.
    pub request_redraw: bool,
}

/// The state a window keeps besides its GPU objects: its frame rate, which is
/// never zero, and the cursor it shows.
pub struct WindowState {
    max_frame_rate: u32,
    cursor: Cursor,
}

/// The state as the contracts see it: frame rate and cursor.
pub ghost struct WindowStateView {
    pub max_frame_rate: u32,
    pub cursor: Cursor,
}

impl View for WindowState {
    type V = WindowStateView;

    closed spec fn view(&self) -> WindowStateView {
        WindowStateView { max_frame_rate: self.max_frame_rate, cursor: self.cursor }
    }
}

impl WindowState {
    #[verifier::type_invariant]
    closed spec fn inv(&self) -> bool {
        self.max_frame_rate > 0
    }

    /// The state of a new window: a zero frame rate is refused; the window
    /// starts with the default cursor.
    pub fn new(max_frame_rate: u32) -> (r: Result<Self, Error>)
        ensures
            max_frame_rate == 0 ==> (r matches Err(Error::InvalidFrameRate)),
            max_frame_rate != 0 ==> (r matches Ok(s) && s@ == (WindowStateView {
                max_frame_rate,
                cursor: Cursor::Default,
            })),
    {
        if max_frame_rate == 0 {
            return Err(Error::InvalidFrameRate);
        }
        Ok(WindowState { max_frame_rate, cursor: Cursor::Default })
    }

    pub fn max_frame_rate(&self) -> (r: u32)
        ensures
            r == self@.max_frame_rate,
            r > 0,
    {
        proof {
            use_type_invariant(self);
        }
        self.max_frame_rate
    }

    pub fn cursor(&self) -> (c: Cursor)
        ensures
            c == self@.cursor,
    {
        self.cursor
    }

    /// The handler wants `desired` to be shown. The result says whether it
    /// differs from the cursor shown, that is whether the window has to set
    /// it; afterwards it is the cursor shown.
    pub fn update_cursor(&mut self, desired: Cursor) -> (changed: bool)
        ensures
            changed == (old(self)@.cursor != desired),
            final(self)@ == (WindowStateView { cursor: desired, ..old(self)@ }),
    {
        proof {
            use_type_invariant(&*self);
        }
        if self.cursor != desired {
            self.cursor = desired;
            true
        } else {
            false
        }
    }

    /// After the handler's per-frame update, which asked for a redraw or not
    /// and wants `desired` as cursor: the cursor is updated, and a redraw is
    /// asked for exactly when the handler asked.
    pub fn after_update(&mut self, needs_redraw: bool, desired: Cursor) -> (plan: UpdatePlan)
        ensures
            plan == (UpdatePlan { set_cursor: old(self)@.cursor != desired, request_redraw: needs_redraw }),
            final(self)@ == (WindowStateView { cursor: desired, ..old(self)@ }),
    {
        let set_cursor = self.update_cursor(desired);
        UpdatePlan { set_cursor, request_redraw: needs_redraw }
    }
}

} // verus!
