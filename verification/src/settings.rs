//! The part of the streamer's settings that is made of whole numbers, flags
//! and names. The dashboard shows and edits these; the streamer reads them.

use vstd::prelude::*;

verus! {

/// A setting that has a value only while it is switched on.
#[derive(Clone, Debug, PartialEq, Eq)]
pub enum Switch<T> {
    Enabled(T),
    Disabled,
}

impl<T> Switch<T> {
    /// The value, if the switch is on.
    pub fn as_option(&self) -> (value: Option<&T>)
        ensures
            value == match self {
                Switch::Enabled(t) => Some(t),
                Switch::Disabled => None,
            },
    {
        match self {
            Switch::Enabled(t) => Some(t),
            Switch::Disabled => None,
        }
    }

    /// The value, if the switch is on.
    pub fn into_option(self) -> (value: Option<T>)
        ensures
            value == match self {
                Switch::Enabled(t) => Some(t),
                Switch::Disabled => None,
            },
    {
        match self {
            Switch::Enabled(t) => Some(t),
            Switch::Disabled => None,
        }
    }
}

#[derive(Clone, Copy, Debug, PartialEq, Eq, Structural)]
pub enum EncoderQualityPreset {
    Quality,
    Balanced,
    Speed,
}

impl EncoderQualityPreset {
    /// The number the encoder knows this preset by.
    pub open spec fn spec_code(self) -> u32 {
        match self {
            EncoderQualityPreset::Quality => 0,
            EncoderQualityPreset::Balanced => 1,
            EncoderQualityPreset::Speed => 2,
        }
    }

    /// The number the encoder knows this preset by.
    pub fn code(self) -> (code: u32)
        ensures
            code == self.spec_code(),
    {
        match self {
            EncoderQualityPreset::Quality => 0,
            EncoderQualityPreset::Balanced => 1,
            EncoderQualityPreset::Speed => 2,
        }
    }
}

#[derive(Clone, Copy, Debug, PartialEq, Eq, Structural)]
pub enum NvencTuningPreset {
    HighQuality,
    LowLatency,
    UltraLowLatency,
    Lossless,
}

impl NvencTuningPreset {
    /// The number the encoder knows this preset by.
    pub open spec fn spec_code(self) -> u32 {
        match self {
            NvencTuningPreset::HighQuality => 1,
            NvencTuningPreset::LowLatency => 2,
            NvencTuningPreset::UltraLowLatency => 3,
            NvencTuningPreset::Lossless => 4,
        }
    }

    /// The number the encoder knows this preset by.
    pub fn code(self) -> (code: u32)
        ensures
            code == self.spec_code(),
    {
        match self {
            NvencTuningPreset::HighQuality => 1,
            NvencTuningPreset::LowLatency => 2,
            NvencTuningPreset::UltraLowLatency => 3,
            NvencTuningPreset::Lossless => 4,
        }
    }
}

#[derive(Clone, Copy, Debug, PartialEq, Eq, Structural)]
pub enum NvencMultiPass {
    Disabled,
    /// Shown as "1/4 resolution".
    QuarterResolution,
    FullResolution,
}

impl NvencMultiPass {
    /// The number the encoder knows this mode by.
    pub open spec fn spec_code(self) -> u32 {
        match self {
            NvencMultiPass::Disabled => 0,
            NvencMultiPass::QuarterResolution => 1,
            NvencMultiPass::FullResolution => 2,
        }
    }

    /// The number the encoder knows this mode by.
    pub fn code(self) -> (code: u32)
        ensures
            code == self.spec_code(),
    {
        match self {
            NvencMultiPass::Disabled => 0,
            NvencMultiPass::QuarterResolution => 1,
            NvencMultiPass::FullResolution => 2,
        }
    }
}

#[derive(Clone, Copy, Debug, PartialEq, Eq, Structural)]
pub enum NvencAdaptiveQuantizationMode {
    Disabled,
    Spatial,
    Temporal,
}

impl NvencAdaptiveQuantizationMode {
    /// The number the encoder knows this mode by.
    pub open spec fn spec_code(self) -> u32 {
        match self {
            NvencAdaptiveQuantizationMode::Disabled => 0,
            NvencAdaptiveQuantizationMode::Spatial => 1,
            NvencAdaptiveQuantizationMode::Temporal => 2,
        }
    }

    /// The number the encoder knows this mode by.
    pub fn code(self) -> (code: u32)
        ensures
            code == self.spec_code(),
    {
        match self {
            NvencAdaptiveQuantizationMode::Disabled => 0,
            NvencAdaptiveQuantizationMode::Spatial => 1,
            NvencAdaptiveQuantizationMode::Temporal => 2,
        }
    }
}

#[derive(Clone, Copy, Debug, PartialEq, Eq, Structural)]
pub enum RateControlMode {
    /// Constant bitrate, shown as "CBR".
    Cbr,
    /// Variable bitrate, shown as "VBR".
    Vbr,
}

impl RateControlMode {
    /// The number the encoder knows this mode by.
    pub open spec fn spec_code(self) -> u8 {
        match self {
            RateControlMode::Cbr => 0,
            RateControlMode::Vbr => 1,
        }
    }

    /// The number the encoder knows this mode by.
    pub fn code(self) -> (code: u8)
        ensures
            code == self.spec_code(),
    {
        match self {
            RateControlMode::Cbr => 0,
            RateControlMode::Vbr => 1,
        }
    }
}

#[derive(Clone, Copy, Debug, PartialEq, Eq, Structural)]
pub enum EntropyCoding {
    /// Shown as "CAVLC".
    Cavlc,
    /// Shown as "CABAC".
    Cabac,
}

impl EntropyCoding {
    /// The number the encoder knows this coding by. CABAC is 0 and CAVLC is
    /// 1, against the order of the names.
    pub open spec fn spec_code(self) -> u8 {
        match self {
            EntropyCoding::Cavlc => 1,
            EntropyCoding::Cabac => 0,
        }
    }

    /// The number the encoder knows this coding by.
    pub fn code(self) -> (code: u8)
        ensures
            code == self.spec_code(),
    {
        match self {
            EntropyCoding::Cavlc => 1,
            EntropyCoding::Cabac => 0,
        }
    }
}

/// Except for the preset, a value of -1 in these fields means "leave the
/// encoder's own choice".
#[derive(Clone, Debug, PartialEq, Eq)]
pub struct NvencOverrides {
    pub tuning_preset: NvencTuningPreset,
    /// Reduces compression artifacts at the cost of a small performance
    /// penalty.
    pub multi_pass: NvencMultiPass,
    /// Spatial helps against color banding, but scenes of high complexity
    /// might look worse. Temporal helps the overall quality at a very small
    /// cost in speed.
    pub adaptive_quantization_mode: NvencAdaptiveQuantizationMode,
    pub low_delay_key_frame_scale: i64,
    pub refresh_rate: i64,
    pub enable_intra_refresh: bool,
    pub intra_refresh_period: i64,
    pub intra_refresh_count: i64,
    pub max_num_ref_frames: i64,
    pub gop_length: i64,
    pub p_frame_strategy: i64,
    pub rate_control_mode: i64,
    pub rc_buffer_size: i64,
    pub rc_initial_delay: i64,
    pub rc_max_bitrate: i64,
    pub rc_average_bitrate: i64,
    pub enable_weighted_prediction: bool,
}

#[derive(Clone, Debug, PartialEq, Eq)]
pub struct AmfControls {
    pub enable_vbaq: bool,
    pub use_preproc: bool,
    /// From 0 to 10.
    pub preproc_sigma: u32,
    /// From 0 to 10.
    pub preproc_tor: u32,
}

#[derive(Clone, Copy, Debug, PartialEq, Eq, Structural)]
pub enum OculusFovetionLevel {
    /// No foveation.
    NoFoveation,
    Low,
    Medium,
    High,
    HighTop,
}

impl OculusFovetionLevel {
    /// The number the headset knows this level by.
    pub open spec fn spec_code(self) -> u8 {
        match self {
            OculusFovetionLevel::NoFoveation => 0,
            OculusFovetionLevel::Low => 1,
            OculusFovetionLevel::Medium => 2,
            OculusFovetionLevel::High => 3,
            OculusFovetionLevel::HighTop => 4,
        }
    }

    /// The number the headset knows this level by.
    pub fn code(self) -> (code: u8)
        ensures
            code == self.spec_code(),
    {
        match self {
            OculusFovetionLevel::NoFoveation => 0,
            OculusFovetionLevel::Low => 1,
            OculusFovetionLevel::Medium => 2,
            OculusFovetionLevel::High => 3,
            OculusFovetionLevel::HighTop => 4,
        }
    }
}

#[derive(Clone, Copy, Debug, PartialEq, Eq, Structural)]
pub enum CodecType {
    /// Shown as "h264".
    H264,
    /// Shown as "HEVC". It may look better at the cost of more encoder
    /// latency.
    Hevc,
}

impl CodecType {
    /// The number the encoder knows this codec by.
    pub open spec fn spec_code(self) -> u8 {
        match self {
            CodecType::H264 => 0,
            CodecType::Hevc => 1,
        }
    }

    /// The number the encoder knows this codec by.
    pub fn code(self) -> (code: u8)
        ensures
            code == self.spec_code(),
    {
        match self {
            CodecType::H264 => 0,
            CodecType::Hevc => 1,
        }
    }
}

#[derive(Clone, Debug, PartialEq, Eq)]
pub enum AudioDeviceId {
    Default,
    Name(String),
    Index(u64),
}

#[derive(Clone, Debug, PartialEq, Eq)]
pub struct AudioBufferingConfig {
    /// From 0 to 200 milliseconds.
    pub average_buffering_ms: u64,
    /// From 1 to 20 milliseconds.
    pub batch_ms: u64,
}

#[derive(Clone, Debug, PartialEq, Eq)]
pub struct GameAudioDesc {
    pub device_id: AudioDeviceId,
    pub mute_when_streaming: bool,
    pub buffering_config: AudioBufferingConfig,
}

/// The sample rate of the microphone is free, because both ends can
/// resample. For the game audio it is not: the streamer cannot resample.
#[derive(Clone, Debug, PartialEq, Eq)]
pub struct MicrophoneDesc {
    pub input_device_id: AudioDeviceId,
    /// Not used on Linux.
    pub output_device_id: AudioDeviceId,
    pub buffering_config: AudioBufferingConfig,
}

#[derive(Clone, Copy, Debug, PartialEq, Eq, Structural)]
pub enum LinuxAudioBackend {
    /// Shown as "ALSA". Recommended for most setups based on PulseAudio or
    /// PipeWire.
    Alsa,
    Jack,
}

#[derive(Clone, Debug, PartialEq, Eq)]
pub struct AudioSection {
    pub linux_backend: LinuxAudioBackend,
    pub game_audio: Switch<GameAudioDesc>,
    pub microphone: Switch<MicrophoneDesc>,
}

#[derive(Clone, Copy, Debug, PartialEq, Eq, Structural)]
pub enum RotationRecenteringMode {
    /// The orientation of the playspace follows the room-scale guardian.
    Disabled,
    /// The forward direction is reset by a long press of the menu button.
    Yaw,
    /// The world is tilted by a long press of the menu button, for use
    /// while lying down.
    Tilted,
}

#[derive(Clone, Copy, Debug, PartialEq, Eq, Structural)]
pub enum SocketProtocol {
    /// Faster, but less stable than TCP.
    Udp,
    /// Slower than UDP, but more stable.
    Tcp,
}

#[derive(Clone, Debug, PartialEq, Eq)]
pub struct DiscoveryConfig {
    /// Lets untrusted clients connect without confirmation. Not recommended.
    pub auto_trust_clients: bool,
}

#[derive(Clone, Copy, Debug, PartialEq, Eq, Structural)]
pub enum SocketBufferSize {
    Default,
    Maximum,
    /// In bytes.
    Custom(u32),
}

#[derive(Clone, Debug, PartialEq, Eq)]
pub struct DisconnectionCriteria {
    /// From 20 to 1000 milliseconds.
    pub latency_threshold_ms: u64,
    pub sustain_duration_s: u64,
}

#[derive(Clone, Debug, PartialEq, Eq)]
pub struct ConnectionDesc {
    pub client_discovery: Switch<DiscoveryConfig>,
    /// The port on which the server answers the dashboard.
    pub web_server_port: u16,
    pub stream_protocol: SocketProtocol,
    pub server_send_buffer_bytes: SocketBufferSize,
    pub server_recv_buffer_bytes: SocketBufferSize,
    pub client_send_buffer_bytes: SocketBufferSize,
    pub client_recv_buffer_bytes: SocketBufferSize,
    pub stream_port: u16,
    /// Cuts the shortest time between keyframes from 100 ms to 5 ms, for
    /// networks that lose many packets.
    pub aggressive_keyframe_resend: bool,
    /// Run when the headset connects, with ACTION set to `connect`.
    pub on_connect_script: String,
    /// Run when the headset disconnects or SteamVR shuts down, with ACTION
    /// set to `disconnect`.
    pub on_disconnect_script: String,
    /// From 1024 to 65507 bytes.
    pub packet_size: i32,
    /// In frames.
    pub statistics_history_size: u64,
    pub disconnection_criteria: Switch<DisconnectionCriteria>,
}

/// What to do about driver registrations when SteamVR is launched.
#[derive(Clone, Copy, Debug, PartialEq, Eq, Structural)]
pub enum DriverLaunchAction {
    /// Recommended: takes care of most interference from other drivers.
    UnregisterOtherDriversAtStartup,
    /// For use together with other drivers, such as full body tracking.
    UnregisterAlvrAtShutdown,
    /// Every registration is left to the user.
    NoAction,
}

#[derive(Clone, Copy, Debug, PartialEq, Eq, Structural)]
pub enum LogLevel {
    Error,
    Warning,
    Info,
    Debug,
    RawEvents,
}

#[derive(Clone, Debug, PartialEq, Eq)]
pub struct Patches {
    /// May cause jitter with Nvidia cards, where it must be off; should be
    /// on with AMD cards.
    pub linux_async_reprojection: bool,
}

#[derive(Clone, Debug, PartialEq, Eq)]
pub struct ExtraDesc {
    /// Write the log into the session log file.
    pub log_to_disk: bool,
    pub log_button_presses: bool,
    pub log_haptics: bool,
    pub save_video_stream: bool,
    pub driver_launch_action: DriverLaunchAction,
    pub notification_level: LogLevel,
    pub capture_frame_dir: String,
    pub open_setup_wizard: bool,
    pub patches: Patches,
}

} // verus!
