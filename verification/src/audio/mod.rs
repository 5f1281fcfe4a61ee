//! Recorded sound: devices, buffers, and the formats that it is handed on in.
//!
//! What a sample is does not matter to buffers and recorders, which therefore
//! take samples of any type; the formats are of samples of sixteen bits.
pub mod devices;
pub mod listener;
pub mod pcm;
pub mod recorder;
pub mod ring;

pub use devices::{list_input_devices, resolve_input_device, DeviceChoice};
pub use listener::{WakeListener, WakeNext};
pub use pcm::{encode_wav, first_channel, make_silence_wav, pcm_bytes, pcm_samples};
pub use recorder::AudioRecorder;
pub use ring::{RingBuffer, TailReader};
