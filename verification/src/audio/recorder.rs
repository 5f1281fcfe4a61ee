//! The recorder's state: what is kept of a recording, and what is handed on.
use crate::audio::devices;
use crate::audio::devices::{resolve_input_device, DeviceChoice};
use crate::audio::pcm;
use crate::audio::pcm::first_channel;
use crate::search;
use vstd::prelude::*;

verus! {

/// A recorder for one device.
#[derive(Debug)]
pub struct AudioRecorder<T> {
    pub device: DeviceChoice,
    /// The device delivers samples.
    pub running: bool,
    /// Samples are handed on as they come.
    pub streaming: bool,
    /// Everything since the recording began.
    pub raw: Vec<T>,
}

impl<T: Copy> AudioRecorder<T> {
    /// A recorder for the system's choice of device.
    pub fn new(names: &Vec<String>, has_default: bool) -> (r: Result<Self, String>)
        ensures
            match devices::chosen_device(None, search::texts(names@), has_default) {
                Some(d) => r is Ok && r->Ok_0.device == d && r->Ok_0.idle(),
                None => r is Err && r->Err_0@ == "未找到可用的麦克风设备"@,
            },
    {
        Self::new_with_device(None, names, has_default)
    }

    /// Nothing is recorded, and nothing is kept.
    pub open spec fn idle(self) -> bool {
        !self.running && !self.streaming && self.raw@.len() == 0
    }

    /// A recorder for the device that the user has chosen, or else for the
    /// system's choice.
    pub fn new_with_device(configured: Option<&str>, names: &Vec<String>, has_default: bool) -> (r:
        Result<Self, String>)
        ensures
            match devices::chosen_device(
                match configured {
                    Some(c) => Some(c@),
                    None => None,
                },
                search::texts(names@),
                has_default,
            ) {
                Some(d) => r is Ok && r->Ok_0.device == d && r->Ok_0.idle(),
                None => r is Err && r->Err_0@ == "未找到可用的麦克风设备"@,
            },
    {
        match resolve_input_device(configured, names, has_default) {
            Ok(device) => Ok(
                AudioRecorder { device, running: false, streaming: false, raw: Vec::new() },
            ),
            Err(e) => Err(e),
        }
    }

    /// Begins a recording. Whether the device has still to be set going comes back.
    pub fn start(&mut self, streaming: bool) -> (r: bool)
        ensures
            r == !old(self).running,
            final(self).device == old(self).device,
            final(self).running == old(self).running,
            final(self).streaming == streaming,
            final(self).raw@.len() == 0,
    {
        self.raw = Vec::new();
        self.streaming = streaming;
        !self.running
    }

    /// The device was set going, or could not be: the next recording tries again.
    pub fn opened(&mut self, success: bool)
        ensures
            *final(self) == (AudioRecorder { running: success, ..*old(self) }),
    {
        self.running = success;
    }

    /// Takes samples of the device, `channels` to a frame. While they are
    /// handed on, those of the first channel come back.
    pub fn feed(&mut self, frames: &[T], channels: usize) -> (r: Option<Vec<T>>)
        ensures
            final(self).device == old(self).device,
            final(self).running == old(self).running,
            final(self).streaming == old(self).streaming,
            final(self).raw@ == old(self).raw@ + frames@,
            match r {
                Some(mono) => old(self).streaming && mono@ == pcm::first_of_frames(
                    frames@,
                    if channels == 0 {
                        1
                    } else {
                        channels as nat
                    },
                ),
                None => !old(self).streaming,
            },
    {
        let ghost before = self.raw@;
        for i in 0..frames.len()
            invariant
                self.device == old(self).device,
                self.running == old(self).running,
                self.streaming == old(self).streaming,
                self.raw@ == before + frames@.take(i as int),
        {
            self.raw.push(frames[i]);
            assert(before + frames@.take(i + 1) =~= (before + frames@.take(i as int)).push(
                frames@[i as int],
            ));
        }
        assert(frames@.take(frames@.len() as int) == frames@);
        if self.streaming {
            Some(first_channel(frames, channels))
        } else {
            None
        }
    }

    /// Ends a recording; everything that was recorded comes back.
    pub fn stop(&mut self) -> (r: Vec<T>)
        ensures
            r@ == old(self).raw@,
            final(self).device == old(self).device,
            final(self).idle(),
    {
        let mut out: Vec<T> = Vec::new();
        std::mem::swap(&mut out, &mut self.raw);
        self.running = false;
        self.streaming = false;
        out
    }

    /// Ends a recording and throws it away.
    pub fn discard(&mut self)
        ensures
            final(self).device == old(self).device,
            final(self).idle(),
    {
        self.raw = Vec::new();
        self.running = false;
        self.streaming = false;
    }
}

} // verus!
