use vstd::prelude::*;
use crate::error::PlayerError;

verus! {

/// A host-provided display surface, one variant per platform family.
/// Pointers are carried as their addresses.
#[derive(Clone, Copy, Debug, PartialEq, Eq, Structural)]
pub enum SurfaceHandle {
    /// A desktop-compositor view (AppKit `NSView`).
    AppKit { ns_view: usize },
    /// A mobile-compositor view (UIKit `UIView`).
    UiKit { ui_view: usize },
    /// An X11 window id; zero means the window is not realized yet.
    Xlib { window: u64 },
    /// A Win32 window handle.
    Win32 { hwnd: isize },
    /// Any surface kind that the engine cannot render into.
    Unsupported,
}

/// The native binding call that a surface handle maps to.
#[derive(Clone, Copy, Debug, PartialEq, Eq, Structural)]
pub enum SurfaceTarget {
    /// Bind as a native view object (`set_nsobject`).
    NsObject(usize),
    /// Bind as an X window (`set_xwindow`), which takes a 32-bit id.
    XWindow(u32),
    /// Bind as a Win32 window (`set_hwnd`).
    Hwnd(isize),
}

/// What binding a given surface handle yields.
pub open spec fn target_of(handle: SurfaceHandle) -> Result<SurfaceTarget, PlayerError> {
    match handle {
        SurfaceHandle::AppKit { ns_view } => Ok(SurfaceTarget::NsObject(ns_view)),
        SurfaceHandle::UiKit { ui_view } => Ok(SurfaceTarget::NsObject(ui_view)),
        SurfaceHandle::Xlib { window } => if window == 0 {
            Err(PlayerError::SurfaceUnavailable)
        } else {
            Ok(SurfaceTarget::XWindow(window as u32))
        },
        SurfaceHandle::Win32 { hwnd } => Ok(SurfaceTarget::Hwnd(hwnd)),
        SurfaceHandle::Unsupported => Err(PlayerError::UnsupportedPlatform),
    }
}

/// Chooses the native binding call for a surface handle. An X11 window id of
/// zero is refused as not yet realized; an unsupported handle is refused.
pub fn surface_target(handle: &SurfaceHandle) -> (r: Result<SurfaceTarget, PlayerError>)
    ensures
        r == target_of(*handle),
{
    match *handle {
        SurfaceHandle::AppKit { ns_view } => Ok(SurfaceTarget::NsObject(ns_view)),
        SurfaceHandle::UiKit { ui_view } => Ok(SurfaceTarget::NsObject(ui_view)),
        SurfaceHandle::Xlib { window } => {
            if window == 0 {
                Err(PlayerError::SurfaceUnavailable)
            } else {
                Ok(SurfaceTarget::XWindow(window as u32))
            }
        },
        SurfaceHandle::Win32 { hwnd } => Ok(SurfaceTarget::Hwnd(hwnd)),
        SurfaceHandle::Unsupported => Err(PlayerError::UnsupportedPlatform),
    }
}

/// A zero X11 window id is always refused as unavailable, and any other id
/// reaches the X-window binding with that id.
pub proof fn lemma_xlib_zero_refused(window: u64)
    ensures
        window == 0 ==> target_of(SurfaceHandle::Xlib { window }) == Err::<SurfaceTarget, PlayerError>(
            PlayerError::SurfaceUnavailable,
        ),
        window != 0 ==> target_of(SurfaceHandle::Xlib { window }) == Ok::<SurfaceTarget, PlayerError>(
            SurfaceTarget::XWindow(window as u32),
        ),
{
}

} // verus!
