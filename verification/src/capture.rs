//! Capture session state machine: per-session settings, the per-frame stop
//! decision, and the status record a finished session leaves behind.
//!
//! The sensor handle and the thread that pulls frames live outside the
//! library; they drive this state and obey its decisions.

use vstd::prelude::*;

verus! {

use crate::container::OpenMode;

/// Shared capture-session state: what the control loop requests and what the
/// capture loop reports back.
#[derive(Debug, Clone)]
pub struct CaptureInfo {
    pub track_id: u32,
    pub capture_id: u32,
    pub capture_dir: String,
    pub request: bool,
    pub autofocus_request: bool,
    pub change_resolution: bool,
    pub resolution: u32,
    pub wait_focus: bool,
    pub status: bool,
    pub width: usize,
    pub height: usize,
    pub size: usize,
    pub capturing_duration: i32,
    pub open_mode: OpenMode,
    pub direct_write_mode: bool,
    pub jpeg_quality: u32,
}

/// Stop condition of the per-frame capture loop, re-checked after each frame:
/// a positive duration bounds the burst by elapsed seconds, zero means exactly
/// one frame, negative means capture until stopped from outside.
pub open spec fn spec_capture_should_stop(capturing_duration: i32, elapsed_secs: u64) -> bool {
    if capturing_duration > 0 {
        elapsed_secs >= capturing_duration
    } else if capturing_duration < 0 {
        false
    } else {
        true
    }
}

impl CaptureInfo {
    /// Fresh session state for captures stored under `dir`, defaulting to
    /// append-mode writes and queued (not direct) storage.
    pub fn new(dir: &str) -> (r: CaptureInfo)
        ensures
            r.track_id == 0,
            r.capture_id == 0,
            r.capture_dir@ == dir@,
            !r.request,
            !r.autofocus_request,
            !r.change_resolution,
            !r.wait_focus,
            !r.status,
            r.width == 0,
            r.height == 0,
            r.size == 0,
            r.capturing_duration == 0,
            r.open_mode == OpenMode::Append,
            !r.direct_write_mode,
            r.jpeg_quality == 12,
    {
        CaptureInfo {
            track_id: 0,
            capture_id: 0,
            capture_dir: dir.to_owned(),
            request: false,
            autofocus_request: false,
            change_resolution: false,
            resolution: 0,
            wait_focus: false,
            status: false,
            width: 0,
            height: 0,
            size: 0,
            capturing_duration: 0,
            open_mode: OpenMode::Append,
            direct_write_mode: false,
            jpeg_quality: 12,
        }
    }

    pub fn set_capture_dir(&mut self, dir: &str)
        ensures
            *final(self) == (CaptureInfo { capture_dir: final(self).capture_dir, ..*old(self) }),
            final(self).capture_dir@ == dir@,
    {
        self.capture_dir = dir.to_owned();
    }

    /// Ask the capture loop to run one session for the given track; clears the
    /// completion flag the previous session may have left set.
    pub fn capture_request(&mut self, track_id: u32, id: u32)
        ensures
            *final(self) == (CaptureInfo {
                track_id,
                capture_id: id,
                request: true,
                status: false,
                ..*old(self)
            }),
    {
        self.track_id = track_id;
        self.request = true;
        self.status = false;
        self.capture_id = id;
    }

    /// True once the last requested capture has completed.
    pub fn get_capture_status(&self) -> (r: bool)
        ensures
            r == self.status,
    {
        self.status
    }

    /// A copy of the whole session state.
    pub fn get_capture_info(&self) -> (r: CaptureInfo)
        ensures
            r == *self,
    {
        CaptureInfo {
            track_id: self.track_id,
            capture_id: self.capture_id,
            capture_dir: self.capture_dir.clone(),
            request: self.request,
            autofocus_request: self.autofocus_request,
            change_resolution: self.change_resolution,
            resolution: self.resolution,
            wait_focus: self.wait_focus,
            status: self.status,
            width: self.width,
            height: self.height,
            size: self.size,
            capturing_duration: self.capturing_duration,
            open_mode: self.open_mode,
            direct_write_mode: self.direct_write_mode,
            jpeg_quality: self.jpeg_quality,
        }
    }

    pub fn wait_focus(&mut self, wait: bool)
        ensures
            *final(self) == (CaptureInfo { wait_focus: wait, ..*old(self) }),
    {
        self.wait_focus = wait;
    }

    pub fn get_resolution(&self) -> (r: u32)
        ensures
            r == self.resolution,
    {
        self.resolution
    }

    /// Request a sensor reconfiguration; the capture loop applies it at the
    /// next session boundary together with a mandatory re-autofocus pass.
    pub fn change_resolution(&mut self, resolution: u32)
        ensures
            *final(self) == (CaptureInfo {
                change_resolution: true,
                resolution,
                ..*old(self)
            }),
    {
        self.change_resolution = true;
        self.resolution = resolution;
    }

    pub fn autofocus_request(&mut self)
        ensures
            *final(self) == (CaptureInfo { autofocus_request: true, ..*old(self) }),
    {
        self.autofocus_request = true;
    }

    pub fn set_capturing_duration(&mut self, duration: i32)
        ensures
            *final(self) == (CaptureInfo { capturing_duration: duration, ..*old(self) }),
    {
        self.capturing_duration = duration;
    }

    /// Overwriting a saved track means opening its container in write
    /// (truncate-header) mode; otherwise new records are appended.
    pub fn set_overwrite_saved(&mut self, overwrite: bool)
        ensures
            *final(self) == (CaptureInfo {
                open_mode: if overwrite { OpenMode::Write } else { OpenMode::Append },
                ..*old(self)
            }),
    {
        let mode = if overwrite {
            OpenMode::Write
        } else {
            OpenMode::Append
        };
        self.open_mode = mode;
    }

    pub fn get_capture_id(&self) -> (r: u32)
        ensures
            r == self.capture_id,
    {
        self.capture_id
    }

    pub fn set_direct_write_mode(&mut self, mode: bool)
        ensures
            *final(self) == (CaptureInfo { direct_write_mode: mode, ..*old(self) }),
    {
        self.direct_write_mode = mode;
    }

    pub fn set_jpeg_quality(&mut self, quality: u32)
        ensures
            *final(self) == (CaptureInfo { jpeg_quality: quality, ..*old(self) }),
    {
        self.jpeg_quality = quality;
    }

    /// Record what a finished session produced: the id of the last image
    /// written, the last frame's dimensions and byte size, and the completion
    /// flag; the request flag is cleared so the loop goes idle.
    pub fn finish_session(&mut self, write_images: u32, width: usize, height: usize, size: usize)
        ensures
            *final(self) == (CaptureInfo {
                capture_id: if write_images > 0 { (write_images - 1) as u32 } else { 0u32 },
                width,
                height,
                size,
                status: true,
                request: false,
                ..*old(self)
            }),
    {
        self.capture_id = if write_images > 0 {
            write_images - 1
        } else {
            0
        };
        self.size = size;
        self.width = width;
        self.height = height;
        self.status = true;
        self.request = false;
    }
}

/// Sessions only ever write: a read-mode setting falls back to append, the
/// mode that preserves what an earlier session stored.
pub fn session_open_mode(mode: OpenMode) -> (r: OpenMode)
    ensures
        r == (if mode == OpenMode::Write { OpenMode::Write } else { OpenMode::Append }),
{
    match mode {
        OpenMode::Append => OpenMode::Append,
        OpenMode::Write => OpenMode::Write,
        OpenMode::Read => OpenMode::Append,
    }
}

/// What one iteration of the per-frame capture loop does.
#[derive(Debug, PartialEq, Eq, Structural, Clone, Copy)]
pub enum CaptureStep {
    /// Write the frame and pull the next one.
    WriteAndContinue,
    /// Write the frame, then stop: the bounded duration is reached, or the
    /// single shot is taken. Stopping flushes and finalizes the container.
    WriteAndStop,
    /// The sensor returned no frame: the burst ends early — non-fatal, the
    /// next scheduled cycle retries — and the session still stops and
    /// finalizes, so the partial data stays readable.
    StopEarly,
}

/// One decision of the per-frame capture loop, from whether the sensor
/// produced a frame and the elapsed-time stop condition re-checked after
/// each frame. Every outcome that stops leads to a finalized container.
pub fn capture_step(frame_available: bool, capturing_duration: i32, elapsed_secs: u64) -> (r:
    CaptureStep)
    ensures
        r == (if !frame_available {
            CaptureStep::StopEarly
        } else if spec_capture_should_stop(capturing_duration, elapsed_secs) {
            CaptureStep::WriteAndStop
        } else {
            CaptureStep::WriteAndContinue
        }),
{
    if !frame_available {
        CaptureStep::StopEarly
    } else if capture_should_stop(capturing_duration, elapsed_secs) {
        CaptureStep::WriteAndStop
    } else {
        CaptureStep::WriteAndContinue
    }
}

/// Whether the capture loop must stop after the frame it just wrote.
pub fn capture_should_stop(capturing_duration: i32, elapsed_secs: u64) -> (r: bool)
    ensures
        r == spec_capture_should_stop(capturing_duration, elapsed_secs),
{
    if capturing_duration > 0 {
        elapsed_secs >= capturing_duration as u64
    } else if capturing_duration < 0 {
        false
    } else {
        true
    }
}

} // verus!
