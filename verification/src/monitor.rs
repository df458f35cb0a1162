//! Monitor and video-mode handles.
//!
//! The platform exposes no real multi-monitor support: enumeration is
//! always empty, so the adapter never hands out a handle of either type.
//! The queries below exist for interface completeness and return the
//! documented stub values.

use vstd::prelude::*;

use crate::events::{PhysicalPosition, PhysicalSize};

verus! {

/// A handle to a monitor.  The adapter never produces one: monitor
/// enumeration is always empty.
#[derive(Clone, Copy, Debug, PartialEq, Eq, PartialOrd, Ord, Hash, Structural)]
pub struct MonitorHandle;

impl MonitorHandle {
    /// No monitor name is known.
    pub fn name(&self) -> (r: Option<String>)
        ensures
            r is None,
    {
        None
    }

    /// No monitor position is known.
    pub fn position(&self) -> (r: Option<PhysicalPosition>)
        ensures
            r is None,
    {
        None
    }

    /// No video mode is current.
    pub fn current_video_mode(&self) -> (r: Option<VideoModeHandle>)
        ensures
            r is None,
    {
        None
    }

    /// Video-mode enumeration is stubbed empty.
    pub fn video_modes(&self) -> (r: Vec<VideoModeHandle>)
        ensures
            r@ == Seq::<VideoModeHandle>::empty(),
    {
        let modes: Vec<VideoModeHandle> = Vec::new();
        proof {
            assert(modes@ =~= Seq::<VideoModeHandle>::empty());
        }
        modes
    }
}

/// A handle to a video mode of a monitor.  Like [`MonitorHandle`], the
/// adapter never produces one.
#[derive(Clone, Copy, Debug, Eq, Hash, PartialEq, Structural)]
pub struct VideoModeHandle;

impl VideoModeHandle {
    /// No mode size is known; a zero size is the stub value.
    pub fn size(&self) -> (r: PhysicalSize)
        ensures
            r == (PhysicalSize { width: 0, height: 0 }),
    {
        PhysicalSize { width: 0, height: 0 }
    }

    /// No bit depth is known.
    pub fn bit_depth(&self) -> (r: Option<u16>)
        ensures
            r is None,
    {
        None
    }

    /// No refresh rate is known.
    pub fn refresh_rate_millihertz(&self) -> (r: Option<u32>)
        ensures
            r is None,
    {
        None
    }

    /// The monitor a mode belongs to.
    pub fn monitor(&self) -> (r: MonitorHandle)
        ensures
            r == MonitorHandle,
    {
        MonitorHandle
    }
}

} // verus!
