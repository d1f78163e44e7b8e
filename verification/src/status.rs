//! The status overlay: what it shows, where it is anchored, and the script
//! that hands a payload to its web view.
use vstd::prelude::*;

use crate::platform::StatusSurfaceMode;
use crate::text::concat3;

verus! {

/// Where the status surface of a recording session is anchored.
#[derive(Clone, Copy, Debug, PartialEq, Eq, Structural)]
pub enum SessionAnchor {
    Tray,
}

/// The icon the overlay shows beside its message.
#[derive(Clone, Copy, Debug, PartialEq, Eq, Structural)]
pub enum OverlayKind {
    Mic,
    Spinner,
    Success,
    Error,
}

impl OverlayKind {
    /// The name of the kind in the overlay's payload.
    pub open spec fn spec_name(self) -> Seq<char> {
        match self {
            OverlayKind::Mic => "mic"@,
            OverlayKind::Spinner => "spinner"@,
            OverlayKind::Success => "success"@,
            OverlayKind::Error => "error"@,
        }
    }

    pub fn as_str(self) -> (name: &'static str)
        ensures
            name@ == self.spec_name(),
    {
        match self {
            OverlayKind::Mic => "mic",
            OverlayKind::Spinner => "spinner",
            OverlayKind::Success => "success",
            OverlayKind::Error => "error",
        }
    }
}

/// A session is anchored to the tray exactly when the platform prefers the tray.
pub fn capture_session_anchor(surface_mode: StatusSurfaceMode) -> (anchor: Option<SessionAnchor>)
    ensures
        anchor == (match surface_mode {
            StatusSurfaceMode::TrayPreferred => Some(SessionAnchor::Tray),
            StatusSurfaceMode::FloatingWindow => None::<SessionAnchor>,
        }),
{
    match surface_mode {
        StatusSurfaceMode::TrayPreferred => Some(SessionAnchor::Tray),
        StatusSurfaceMode::FloatingWindow => None,
    }
}

/// How the overlay is positioned.
#[derive(Clone, Copy, Debug, PartialEq, Eq, Structural)]
pub enum SurfacePlacement {
    /// Below the tray icon, or on the primary monitor when the tray has no position.
    BelowTrayElsePrimaryMonitor,
    /// In the top right corner of the primary monitor.
    PrimaryMonitor,
}

/// Picks the placement of the overlay from the platform's surface mode and the
/// session's anchor (a tray-preferring platform anchors to the tray by default).
pub fn surface_placement(surface_mode: StatusSurfaceMode, anchor: Option<SessionAnchor>) -> (placement:
    SurfacePlacement)
    ensures
        placement == (match surface_mode {
            StatusSurfaceMode::TrayPreferred => SurfacePlacement::BelowTrayElsePrimaryMonitor,
            StatusSurfaceMode::FloatingWindow => SurfacePlacement::PrimaryMonitor,
        }),
{
    match surface_mode {
        StatusSurfaceMode::TrayPreferred => {
            let anchor = match anchor {
                Some(a) => a,
                None => SessionAnchor::Tray,
            };
            match anchor {
                SessionAnchor::Tray => SurfacePlacement::BelowTrayElsePrimaryMonitor,
            }
        },
        StatusSurfaceMode::FloatingWindow => SurfacePlacement::PrimaryMonitor,
    }
}

/// Which monitor's scale factor converts a tray rectangle to physical pixels.
#[derive(Clone, Copy, Debug, PartialEq, Eq, Structural)]
pub enum ScaleSource {
    /// No conversion is needed.
    Unscaled,
    /// The monitor that holds the rectangle's logical position.
    LogicalPosition,
    /// The monitor that holds the rectangle's physical position.
    PhysicalPosition,
}

/// How a tray rectangle, reported in logical or physical units, becomes physical.
#[derive(Clone, Copy, Debug, PartialEq, Eq, Structural)]
pub struct RectConversion {
    pub scale_source: ScaleSource,
    pub scale_position: bool,
    pub scale_size: bool,
}

/// Plans the conversion of a tray rectangle whose position and size are each
/// logical or physical: the logical parts are scaled, by the factor of the monitor
/// found from the position (in the units the position came in).
pub fn rect_conversion(position_is_logical: bool, size_is_logical: bool) -> (conversion:
    RectConversion)
    ensures
        conversion.scale_position == position_is_logical,
        conversion.scale_size == size_is_logical,
        conversion.scale_source == (if !position_is_logical && !size_is_logical {
            ScaleSource::Unscaled
        } else if position_is_logical {
            ScaleSource::LogicalPosition
        } else {
            ScaleSource::PhysicalPosition
        }),
{
    if !position_is_logical && !size_is_logical {
        RectConversion {
            scale_source: ScaleSource::Unscaled,
            scale_position: false,
            scale_size: false,
        }
    } else if position_is_logical && size_is_logical {
        RectConversion {
            scale_source: ScaleSource::LogicalPosition,
            scale_position: true,
            scale_size: true,
        }
    } else if !position_is_logical {
        RectConversion {
            scale_source: ScaleSource::PhysicalPosition,
            scale_position: false,
            scale_size: true,
        }
    } else {
        RectConversion {
            scale_source: ScaleSource::LogicalPosition,
            scale_position: true,
            scale_size: false,
        }
    }
}

/// The script that hands a JSON payload to the overlay page.
pub open spec fn spec_overlay_script(payload_json: Seq<char>) -> Seq<char> {
    "window.setWhisperingStatus && window.setWhisperingStatus("@ + payload_json + ");"@
}

/// Builds the script that hands a JSON payload to the overlay page.
pub fn overlay_script(payload_json: &str) -> (script: String)
    ensures
        script@ == spec_overlay_script(payload_json@),
{
    concat3("window.setWhisperingStatus && window.setWhisperingStatus(", payload_json, ");")
}

} // verus!
