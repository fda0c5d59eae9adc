//! Screen capture backends.
//!
//! The Linux and the Windows backend work without a display server: they
//! report one display of 1920 by 1080 pixels and capture black frames of that
//! size, stamped with the time of the capture.

use crate::clock::current_timestamp;
use crate::error::CaptureError;
use crate::models::{DisplayInfo, FrameFormat, Platform, ScreenFrame, ScreenFrameView};
use crate::ports::ScreenCapture;
use vstd::prelude::*;

verus! {

/// The width of the display that the Linux and Windows backends report.
pub const BLANK_WIDTH: u32 = 1920;

/// The height of the display that the Linux and Windows backends report.
pub const BLANK_HEIGHT: u32 = 1080;

/// The number of bytes of a raw RGBA image of the given size.
pub open spec fn raw_frame_len(width: u32, height: u32) -> int {
    4 * (width as int) * (height as int)
}

/// True if a frame is the black frame captured at `timestamp`: a raw frame
/// of 1920 by 1080 pixels, all bytes zero.
pub open spec fn is_blank_frame(frame: ScreenFrameView, timestamp: u64) -> bool {
    &&& frame.sequence == 0
    &&& frame.timestamp == timestamp
    &&& frame.width == BLANK_WIDTH
    &&& frame.height == BLANK_HEIGHT
    &&& frame.format == FrameFormat::Raw
    &&& frame.data.len() == raw_frame_len(BLANK_WIDTH, BLANK_HEIGHT)
    &&& forall|i: int| 0 <= i < frame.data.len() ==> frame.data[i] == 0
}

/// The black frame captured at `timestamp`.
pub fn blank_frame(timestamp: u64) -> (frame: ScreenFrame)
    ensures
        is_blank_frame(frame@, timestamp),
{
    ScreenFrame {
        sequence: 0,
        timestamp,
        data: vec![0u8; 8294400],
        width: BLANK_WIDTH,
        height: BLANK_HEIGHT,
        format: FrameFormat::Raw,
    }
}

/// True if `displays` is one display of 1920 by 1080 pixels, the primary
/// one, under `name`.
pub open spec fn is_sole_display(displays: Seq<DisplayInfo>, name: Seq<char>) -> bool {
    &&& displays.len() == 1
    &&& displays[0].id == 0
    &&& displays[0].name@ == name
    &&& displays[0].width == BLANK_WIDTH
    &&& displays[0].height == BLANK_HEIGHT
    &&& displays[0].x == 0
    &&& displays[0].y == 0
    &&& displays[0].is_primary
}

fn sole_display(name: &str) -> (displays: Vec<DisplayInfo>)
    ensures
        is_sole_display(displays@, name@),
{
    let mut displays: Vec<DisplayInfo> = Vec::new();
    displays.push(
        DisplayInfo {
            id: 0,
            name: name.to_owned(),
            width: BLANK_WIDTH,
            height: BLANK_HEIGHT,
            x: 0,
            y: 0,
            is_primary: true,
        },
    );
    displays
}

/// Screen capture on Linux.
#[derive(Debug, Clone, Copy, PartialEq, Eq, Structural)]
pub struct LinuxScreenCapture {
    display_id: u32,
}

impl LinuxScreenCapture {
    /// The display that is captured.
    pub closed spec fn target(&self) -> u32 {
        self.display_id
    }

    /// A backend that captures display 0.
    pub fn new() -> (res: Result<LinuxScreenCapture, CaptureError>)
        ensures
            res matches Ok(capture) && capture.target() == 0,
    {
        Ok(LinuxScreenCapture { display_id: 0 })
    }
}

impl ScreenCapture for LinuxScreenCapture {
    fn capture(&mut self) -> (res: Result<ScreenFrame, CaptureError>)
        ensures
            final(self).target() == old(self).target(),
            res matches Ok(frame) && is_blank_frame(frame@, frame@.timestamp),
    {
        Ok(blank_frame(current_timestamp()))
    }

    fn get_displays(&self) -> (res: Result<Vec<DisplayInfo>, CaptureError>)
        ensures
            res matches Ok(displays) && is_sole_display(displays@, "X11 Display"@),
    {
        Ok(sole_display("X11 Display"))
    }

    fn set_target_display(&mut self, display_id: u32) -> (res: Result<(), CaptureError>)
        ensures
            res is Ok,
            final(self).target() == display_id,
    {
        self.display_id = display_id;
        Ok(())
    }
}

/// Screen capture on Windows.
#[derive(Debug, Clone, Copy, PartialEq, Eq, Structural)]
pub struct WindowsScreenCapture {
    display_id: u32,
}

impl WindowsScreenCapture {
    /// The display that is captured.
    pub closed spec fn target(&self) -> u32 {
        self.display_id
    }

    /// A backend that captures display 0.
    pub fn new() -> (res: Result<WindowsScreenCapture, CaptureError>)
        ensures
            res matches Ok(capture) && capture.target() == 0,
    {
        Ok(WindowsScreenCapture { display_id: 0 })
    }
}

impl ScreenCapture for WindowsScreenCapture {
    fn capture(&mut self) -> (res: Result<ScreenFrame, CaptureError>)
        ensures
            final(self).target() == old(self).target(),
            res matches Ok(frame) && is_blank_frame(frame@, frame@.timestamp),
    {
        Ok(blank_frame(current_timestamp()))
    }

    fn get_displays(&self) -> (res: Result<Vec<DisplayInfo>, CaptureError>)
        ensures
            res matches Ok(displays) && is_sole_display(displays@, "Primary Display"@),
    {
        Ok(sole_display("Primary Display"))
    }

    fn set_target_display(&mut self, display_id: u32) -> (res: Result<(), CaptureError>)
        ensures
            res is Ok,
            final(self).target() == display_id,
    {
        self.display_id = display_id;
        Ok(())
    }
}

/// The capture backend of a platform.
#[derive(Debug, Clone, Copy, PartialEq, Eq, Structural)]
pub enum CaptureBackend {
    Windows,
    Linux,
    MacOS,
}

/// The capture backend for a platform. There is one for Windows, Linux and
/// macOS, and none for any other platform.
pub fn create_screen_capture(platform: Platform) -> (res: Result<CaptureBackend, CaptureError>)
    ensures
        match platform {
            Platform::Windows => res == Ok::<CaptureBackend, CaptureError>(CaptureBackend::Windows),
            Platform::Linux => res == Ok::<CaptureBackend, CaptureError>(CaptureBackend::Linux),
            Platform::MacOS => res == Ok::<CaptureBackend, CaptureError>(CaptureBackend::MacOS),
            _ => res == Err::<CaptureBackend, CaptureError>(CaptureError::UnsupportedPlatform),
        },
{
    match platform {
        Platform::Windows => Ok(CaptureBackend::Windows),
        Platform::Linux => Ok(CaptureBackend::Linux),
        Platform::MacOS => Ok(CaptureBackend::MacOS),
        _ => Err(CaptureError::UnsupportedPlatform),
    }
}

/// The display to capture: the one with the wanted identifier, or the first
/// where no display has it. `ids` are the identifiers of the displays that
/// there are, in the order in which the system lists them.
pub fn choose_display(ids: &Vec<u32>, wanted: u32) -> (res: Result<usize, CaptureError>)
    ensures
        match res {
            Ok(index) => {
                &&& index < ids@.len()
                &&& if exists|i: int| 0 <= i < ids@.len() && ids@[i] == wanted {
                    ids@[index as int] == wanted && forall|i: int|
                        0 <= i < index ==> ids@[i] != wanted
                } else {
                    index == 0
                }
            },
            Err(e) => ids@.len() == 0 && e == CaptureError::DisplayNotFound(0),
        },
{
    if ids.len() == 0 {
        return Err(CaptureError::DisplayNotFound(0));
    }
    let mut i: usize = 0;
    while i < ids.len()
        invariant
            i <= ids@.len(),
            forall|j: int| 0 <= j < i ==> ids@[j] != wanted,
        decreases ids@.len() - i,
    {
        if ids[i] == wanted {
            return Ok(i);
        }
        i = i + 1;
    }
    Ok(0)
}

} // verus!
