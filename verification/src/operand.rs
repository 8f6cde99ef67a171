//! The operands of messages.

pub mod bits;
pub mod buffer;
pub mod enums;
pub mod features;
pub mod raw;
pub mod service;
pub mod time;
pub mod timer;
pub mod ui;

pub use self::bits::{
    AllDeviceTypes, AudioFormatId, AudioFormatIdAndCode, AudioOutputCompensated, AudioStatus,
    DeviceFeatures1, LatencyFlags, RcProfileSource, RecordingSequence, ShortAudioDescriptor,
};
pub use self::buffer::{BoundedBufferOperand, BufferOperand};
pub use self::enums::{
    AbortReason, AnalogueBroadcastType, AudioRate, BroadcastSystem, DayOfMonth, DeckControlMode,
    DeckInfo, DigitalServiceBroadcastSystem, DisplayControl, MenuRequestType, MenuState,
    MonthOfYear, PlayMode, PowerStatus, PrimaryDeviceType, RecordSourceType, RecordStatusInfo,
    StatusRequest, TimerClearedStatusData, UiBroadcastType, UiSoundPresentationControl, Version,
};
pub use self::features::{Chain, DeviceFeatures, Extension, RcProfile, RcProfile1, RcProfileId};
pub use self::raw::{AudioVolumeLevel, Delay};
pub use self::service::{
    AnalogueServiceId, AribData, AtscData, DigitalServiceId, DvbData, ExternalSource, RecordSource,
    ServiceId, TunerDeviceInfo, TunerDisplayInfo,
};
pub use self::time::{Duration, DurationHours, Hour, Minute, Time};
pub use self::timer::{
    MediaInfo, NotProgrammedErrorInfo, ProgrammedInfo, TimerProgrammedInfo, TimerStatusData,
};
pub use self::ui::{ChannelId, UiCommand};
pub use crate::codec::OperandEncodable;
