use vstd::prelude::*;

verus! {

/// A camera parameter or capability, as the SDK numbers it (`CONTROL_ID`).
///
/// The variants are listed in the order of their SDK codes. Code 38 is not
/// used by the SDK; the codes from 1024 on name the image-processing
/// controls.
#[derive(Debug, Clone, Copy, PartialEq, Eq, Hash, Structural)]
pub enum ControlId {
    Brightness,
    Contrast,
    Wbr,
    Wbb,
    Wbg,
    Gamma,
    Gain,
    Offset,
    Exposure,
    Speed,
    TransferBit,
    Channels,
    UsbTraffic,
    RowNoiseRe,
    CurTemp,
    CurPwm,
    ManualPwm,
    CfwPort,
    Cooler,
    St4Port,
    Color,
    Bin1x1Mode,
    Bin2x2Mode,
    Bin3x3Mode,
    Bin4x4Mode,
    MechanicalShutter,
    TriggerInterface,
    TecOverprotectInterface,
    SignalClampInterface,
    FineToneInterface,
    ShutterMotorHeatingInterface,
    CalibrateFpnInterface,
    ChipTemperatureSensorInterface,
    UsbReadoutSlowestInterface,
    Bits8,
    Bits16,
    Gps,
    IgnoreOverscanInterface,
    AutoExposure3a,
    AutoFocus3a,
    Ampv,
    VirtualCamera,
    ViewMode,
    CfwSlotsNum,
    IsExposingDone,
    ScreenStretchB,
    ScreenStretchW,
    Ddr,
    LightPerformanceMode,
    Qhy5IiGuideMode,
    DdrBufferCapacity,
    DdrBufferReadThreshold,
    DefaultGain,
    DefaultOffset,
    OutputDataActualBits,
    OutputDataAlignment,
    SingleFrameMode,
    LiveVideoMode,
    IsColor,
    HardwareFrameCounter,
    MaxIdError,
    Humidity,
    Pressure,
    VacuumPump,
    SensorChamberCyclePump,
    Bits32,
    SensorUlvoStatus,
    SensorPhaseReTrain,
    InitConfigFromFlash,
    TriggerMode,
    TriggerOut,
    BurstMode,
    SpeakerLedAlarm,
    WatchDogFpga,
    Bin6x6Mode,
    Bin8x8Mode,
    GlobalSensorGpsLed,
    ImgProc,
    RemoveRbi,
    GlobalReset,
    FrameDetect,
    GainDbConversion,
    CurveSystemGain,
    CurveFullWell,
    CurveReadoutNoise,
    UseAverageBinning,
    OutsidePumpV2,
    AutoExposure,
    AutoExpTargetBrightness,
    AutoExpSampleArea,
    AutoExpMaxMs,
    AutoExpGainMax,
    ErrorLed,
    MaxId,
    AutoWhiteBalance,
    ImageStabilization,
    GainDb,
    Dpc,
    DpcValue,
    Hdr,
    HdrLk,
    HdrLb,
    HdrX,
    HdrShowKb,
}

/// The number of controls the SDK defines.
pub const NUM_CONTROLS: usize = 104;

/// Whether `v` is the SDK code of a control: 0 to 94 except 38, or 1024 to 1033.
pub open spec fn is_control_code(v: int) -> bool {
    (0 <= v <= 94 && v != 38) || (1024 <= v <= 1033)
}

impl ControlId {
    /// The SDK code of this control.
    pub open spec fn code_spec(self) -> u32 {
        match self {
            ControlId::Brightness => 0,
            ControlId::Contrast => 1,
            ControlId::Wbr => 2,
            ControlId::Wbb => 3,
            ControlId::Wbg => 4,
            ControlId::Gamma => 5,
            ControlId::Gain => 6,
            ControlId::Offset => 7,
            ControlId::Exposure => 8,
            ControlId::Speed => 9,
            ControlId::TransferBit => 10,
            ControlId::Channels => 11,
            ControlId::UsbTraffic => 12,
            ControlId::RowNoiseRe => 13,
            ControlId::CurTemp => 14,
            ControlId::CurPwm => 15,
            ControlId::ManualPwm => 16,
            ControlId::CfwPort => 17,
            ControlId::Cooler => 18,
            ControlId::St4Port => 19,
            ControlId::Color => 20,
            ControlId::Bin1x1Mode => 21,
            ControlId::Bin2x2Mode => 22,
            ControlId::Bin3x3Mode => 23,
            ControlId::Bin4x4Mode => 24,
            ControlId::MechanicalShutter => 25,
            ControlId::TriggerInterface => 26,
            ControlId::TecOverprotectInterface => 27,
            ControlId::SignalClampInterface => 28,
            ControlId::FineToneInterface => 29,
            ControlId::ShutterMotorHeatingInterface => 30,
            ControlId::CalibrateFpnInterface => 31,
            ControlId::ChipTemperatureSensorInterface => 32,
            ControlId::UsbReadoutSlowestInterface => 33,
            ControlId::Bits8 => 34,
            ControlId::Bits16 => 35,
            ControlId::Gps => 36,
            ControlId::IgnoreOverscanInterface => 37,
            ControlId::AutoExposure3a => 39,
            ControlId::AutoFocus3a => 40,
            ControlId::Ampv => 41,
            ControlId::VirtualCamera => 42,
            ControlId::ViewMode => 43,
            ControlId::CfwSlotsNum => 44,
            ControlId::IsExposingDone => 45,
            ControlId::ScreenStretchB => 46,
            ControlId::ScreenStretchW => 47,
            ControlId::Ddr => 48,
            ControlId::LightPerformanceMode => 49,
            ControlId::Qhy5IiGuideMode => 50,
            ControlId::DdrBufferCapacity => 51,
            ControlId::DdrBufferReadThreshold => 52,
            ControlId::DefaultGain => 53,
            ControlId::DefaultOffset => 54,
            ControlId::OutputDataActualBits => 55,
            ControlId::OutputDataAlignment => 56,
            ControlId::SingleFrameMode => 57,
            ControlId::LiveVideoMode => 58,
            ControlId::IsColor => 59,
            ControlId::HardwareFrameCounter => 60,
            ControlId::MaxIdError => 61,
            ControlId::Humidity => 62,
            ControlId::Pressure => 63,
            ControlId::VacuumPump => 64,
            ControlId::SensorChamberCyclePump => 65,
            ControlId::Bits32 => 66,
            ControlId::SensorUlvoStatus => 67,
            ControlId::SensorPhaseReTrain => 68,
            ControlId::InitConfigFromFlash => 69,
            ControlId::TriggerMode => 70,
            ControlId::TriggerOut => 71,
            ControlId::BurstMode => 72,
            ControlId::SpeakerLedAlarm => 73,
            ControlId::WatchDogFpga => 74,
            ControlId::Bin6x6Mode => 75,
            ControlId::Bin8x8Mode => 76,
            ControlId::GlobalSensorGpsLed => 77,
            ControlId::ImgProc => 78,
            ControlId::RemoveRbi => 79,
            ControlId::GlobalReset => 80,
            ControlId::FrameDetect => 81,
            ControlId::GainDbConversion => 82,
            ControlId::CurveSystemGain => 83,
            ControlId::CurveFullWell => 84,
            ControlId::CurveReadoutNoise => 85,
            ControlId::UseAverageBinning => 86,
            ControlId::OutsidePumpV2 => 87,
            ControlId::AutoExposure => 88,
            ControlId::AutoExpTargetBrightness => 89,
            ControlId::AutoExpSampleArea => 90,
            ControlId::AutoExpMaxMs => 91,
            ControlId::AutoExpGainMax => 92,
            ControlId::ErrorLed => 93,
            ControlId::MaxId => 94,
            ControlId::AutoWhiteBalance => 1024,
            ControlId::ImageStabilization => 1025,
            ControlId::GainDb => 1026,
            ControlId::Dpc => 1027,
            ControlId::DpcValue => 1028,
            ControlId::Hdr => 1029,
            ControlId::HdrLk => 1030,
            ControlId::HdrLb => 1031,
            ControlId::HdrX => 1032,
            ControlId::HdrShowKb => 1033,
        }
    }

    /// Returns the SDK code of this control.
    pub fn code(&self) -> (c: u32)
        ensures
            c == self.code_spec(),
    {
        match self {
            ControlId::Brightness => 0,
            ControlId::Contrast => 1,
            ControlId::Wbr => 2,
            ControlId::Wbb => 3,
            ControlId::Wbg => 4,
            ControlId::Gamma => 5,
            ControlId::Gain => 6,
            ControlId::Offset => 7,
            ControlId::Exposure => 8,
            ControlId::Speed => 9,
            ControlId::TransferBit => 10,
            ControlId::Channels => 11,
            ControlId::UsbTraffic => 12,
            ControlId::RowNoiseRe => 13,
            ControlId::CurTemp => 14,
            ControlId::CurPwm => 15,
            ControlId::ManualPwm => 16,
            ControlId::CfwPort => 17,
            ControlId::Cooler => 18,
            ControlId::St4Port => 19,
            ControlId::Color => 20,
            ControlId::Bin1x1Mode => 21,
            ControlId::Bin2x2Mode => 22,
            ControlId::Bin3x3Mode => 23,
            ControlId::Bin4x4Mode => 24,
            ControlId::MechanicalShutter => 25,
            ControlId::TriggerInterface => 26,
            ControlId::TecOverprotectInterface => 27,
            ControlId::SignalClampInterface => 28,
            ControlId::FineToneInterface => 29,
            ControlId::ShutterMotorHeatingInterface => 30,
            ControlId::CalibrateFpnInterface => 31,
            ControlId::ChipTemperatureSensorInterface => 32,
            ControlId::UsbReadoutSlowestInterface => 33,
            ControlId::Bits8 => 34,
            ControlId::Bits16 => 35,
            ControlId::Gps => 36,
            ControlId::IgnoreOverscanInterface => 37,
            ControlId::AutoExposure3a => 39,
            ControlId::AutoFocus3a => 40,
            ControlId::Ampv => 41,
            ControlId::VirtualCamera => 42,
            ControlId::ViewMode => 43,
            ControlId::CfwSlotsNum => 44,
            ControlId::IsExposingDone => 45,
            ControlId::ScreenStretchB => 46,
            ControlId::ScreenStretchW => 47,
            ControlId::Ddr => 48,
            ControlId::LightPerformanceMode => 49,
            ControlId::Qhy5IiGuideMode => 50,
            ControlId::DdrBufferCapacity => 51,
            ControlId::DdrBufferReadThreshold => 52,
            ControlId::DefaultGain => 53,
            ControlId::DefaultOffset => 54,
            ControlId::OutputDataActualBits => 55,
            ControlId::OutputDataAlignment => 56,
            ControlId::SingleFrameMode => 57,
            ControlId::LiveVideoMode => 58,
            ControlId::IsColor => 59,
            ControlId::HardwareFrameCounter => 60,
            ControlId::MaxIdError => 61,
            ControlId::Humidity => 62,
            ControlId::Pressure => 63,
            ControlId::VacuumPump => 64,
            ControlId::SensorChamberCyclePump => 65,
            ControlId::Bits32 => 66,
            ControlId::SensorUlvoStatus => 67,
            ControlId::SensorPhaseReTrain => 68,
            ControlId::InitConfigFromFlash => 69,
            ControlId::TriggerMode => 70,
            ControlId::TriggerOut => 71,
            ControlId::BurstMode => 72,
            ControlId::SpeakerLedAlarm => 73,
            ControlId::WatchDogFpga => 74,
            ControlId::Bin6x6Mode => 75,
            ControlId::Bin8x8Mode => 76,
            ControlId::GlobalSensorGpsLed => 77,
            ControlId::ImgProc => 78,
            ControlId::RemoveRbi => 79,
            ControlId::GlobalReset => 80,
            ControlId::FrameDetect => 81,
            ControlId::GainDbConversion => 82,
            ControlId::CurveSystemGain => 83,
            ControlId::CurveFullWell => 84,
            ControlId::CurveReadoutNoise => 85,
            ControlId::UseAverageBinning => 86,
            ControlId::OutsidePumpV2 => 87,
            ControlId::AutoExposure => 88,
            ControlId::AutoExpTargetBrightness => 89,
            ControlId::AutoExpSampleArea => 90,
            ControlId::AutoExpMaxMs => 91,
            ControlId::AutoExpGainMax => 92,
            ControlId::ErrorLed => 93,
            ControlId::MaxId => 94,
            ControlId::AutoWhiteBalance => 1024,
            ControlId::ImageStabilization => 1025,
            ControlId::GainDb => 1026,
            ControlId::Dpc => 1027,
            ControlId::DpcValue => 1028,
            ControlId::Hdr => 1029,
            ControlId::HdrLk => 1030,
            ControlId::HdrLb => 1031,
            ControlId::HdrX => 1032,
            ControlId::HdrShowKb => 1033,
        }
    }
}

/// The control whose SDK code is `v`, if there is one.
pub open spec fn control_from_code(v: u32) -> Option<ControlId> {
    match v {
        0 => Some(ControlId::Brightness),
        1 => Some(ControlId::Contrast),
        2 => Some(ControlId::Wbr),
        3 => Some(ControlId::Wbb),
        4 => Some(ControlId::Wbg),
        5 => Some(ControlId::Gamma),
        6 => Some(ControlId::Gain),
        7 => Some(ControlId::Offset),
        8 => Some(ControlId::Exposure),
        9 => Some(ControlId::Speed),
        10 => Some(ControlId::TransferBit),
        11 => Some(ControlId::Channels),
        12 => Some(ControlId::UsbTraffic),
        13 => Some(ControlId::RowNoiseRe),
        14 => Some(ControlId::CurTemp),
        15 => Some(ControlId::CurPwm),
        16 => Some(ControlId::ManualPwm),
        17 => Some(ControlId::CfwPort),
        18 => Some(ControlId::Cooler),
        19 => Some(ControlId::St4Port),
        20 => Some(ControlId::Color),
        21 => Some(ControlId::Bin1x1Mode),
        22 => Some(ControlId::Bin2x2Mode),
        23 => Some(ControlId::Bin3x3Mode),
        24 => Some(ControlId::Bin4x4Mode),
        25 => Some(ControlId::MechanicalShutter),
        26 => Some(ControlId::TriggerInterface),
        27 => Some(ControlId::TecOverprotectInterface),
        28 => Some(ControlId::SignalClampInterface),
        29 => Some(ControlId::FineToneInterface),
        30 => Some(ControlId::ShutterMotorHeatingInterface),
        31 => Some(ControlId::CalibrateFpnInterface),
        32 => Some(ControlId::ChipTemperatureSensorInterface),
        33 => Some(ControlId::UsbReadoutSlowestInterface),
        34 => Some(ControlId::Bits8),
        35 => Some(ControlId::Bits16),
        36 => Some(ControlId::Gps),
        37 => Some(ControlId::IgnoreOverscanInterface),
        39 => Some(ControlId::AutoExposure3a),
        40 => Some(ControlId::AutoFocus3a),
        41 => Some(ControlId::Ampv),
        42 => Some(ControlId::VirtualCamera),
        43 => Some(ControlId::ViewMode),
        44 => Some(ControlId::CfwSlotsNum),
        45 => Some(ControlId::IsExposingDone),
        46 => Some(ControlId::ScreenStretchB),
        47 => Some(ControlId::ScreenStretchW),
        48 => Some(ControlId::Ddr),
        49 => Some(ControlId::LightPerformanceMode),
        50 => Some(ControlId::Qhy5IiGuideMode),
        51 => Some(ControlId::DdrBufferCapacity),
        52 => Some(ControlId::DdrBufferReadThreshold),
        53 => Some(ControlId::DefaultGain),
        54 => Some(ControlId::DefaultOffset),
        55 => Some(ControlId::OutputDataActualBits),
        56 => Some(ControlId::OutputDataAlignment),
        57 => Some(ControlId::SingleFrameMode),
        58 => Some(ControlId::LiveVideoMode),
        59 => Some(ControlId::IsColor),
        60 => Some(ControlId::HardwareFrameCounter),
        61 => Some(ControlId::MaxIdError),
        62 => Some(ControlId::Humidity),
        63 => Some(ControlId::Pressure),
        64 => Some(ControlId::VacuumPump),
        65 => Some(ControlId::SensorChamberCyclePump),
        66 => Some(ControlId::Bits32),
        67 => Some(ControlId::SensorUlvoStatus),
        68 => Some(ControlId::SensorPhaseReTrain),
        69 => Some(ControlId::InitConfigFromFlash),
        70 => Some(ControlId::TriggerMode),
        71 => Some(ControlId::TriggerOut),
        72 => Some(ControlId::BurstMode),
        73 => Some(ControlId::SpeakerLedAlarm),
        74 => Some(ControlId::WatchDogFpga),
        75 => Some(ControlId::Bin6x6Mode),
        76 => Some(ControlId::Bin8x8Mode),
        77 => Some(ControlId::GlobalSensorGpsLed),
        78 => Some(ControlId::ImgProc),
        79 => Some(ControlId::RemoveRbi),
        80 => Some(ControlId::GlobalReset),
        81 => Some(ControlId::FrameDetect),
        82 => Some(ControlId::GainDbConversion),
        83 => Some(ControlId::CurveSystemGain),
        84 => Some(ControlId::CurveFullWell),
        85 => Some(ControlId::CurveReadoutNoise),
        86 => Some(ControlId::UseAverageBinning),
        87 => Some(ControlId::OutsidePumpV2),
        88 => Some(ControlId::AutoExposure),
        89 => Some(ControlId::AutoExpTargetBrightness),
        90 => Some(ControlId::AutoExpSampleArea),
        91 => Some(ControlId::AutoExpMaxMs),
        92 => Some(ControlId::AutoExpGainMax),
        93 => Some(ControlId::ErrorLed),
        94 => Some(ControlId::MaxId),
        1024 => Some(ControlId::AutoWhiteBalance),
        1025 => Some(ControlId::ImageStabilization),
        1026 => Some(ControlId::GainDb),
        1027 => Some(ControlId::Dpc),
        1028 => Some(ControlId::DpcValue),
        1029 => Some(ControlId::Hdr),
        1030 => Some(ControlId::HdrLk),
        1031 => Some(ControlId::HdrLb),
        1032 => Some(ControlId::HdrX),
        1033 => Some(ControlId::HdrShowKb),
        _ => None,
    }
}


impl ControlId {
    /// Returns the control whose SDK code is `v`, or `None` where no control has it.
    pub fn from_code(v: u32) -> (res: Option<ControlId>)
        ensures
            res == control_from_code(v),
    {
        match v {
            0 => Some(ControlId::Brightness),
            1 => Some(ControlId::Contrast),
            2 => Some(ControlId::Wbr),
            3 => Some(ControlId::Wbb),
            4 => Some(ControlId::Wbg),
            5 => Some(ControlId::Gamma),
            6 => Some(ControlId::Gain),
            7 => Some(ControlId::Offset),
            8 => Some(ControlId::Exposure),
            9 => Some(ControlId::Speed),
            10 => Some(ControlId::TransferBit),
            11 => Some(ControlId::Channels),
            12 => Some(ControlId::UsbTraffic),
            13 => Some(ControlId::RowNoiseRe),
            14 => Some(ControlId::CurTemp),
            15 => Some(ControlId::CurPwm),
            16 => Some(ControlId::ManualPwm),
            17 => Some(ControlId::CfwPort),
            18 => Some(ControlId::Cooler),
            19 => Some(ControlId::St4Port),
            20 => Some(ControlId::Color),
            21 => Some(ControlId::Bin1x1Mode),
            22 => Some(ControlId::Bin2x2Mode),
            23 => Some(ControlId::Bin3x3Mode),
            24 => Some(ControlId::Bin4x4Mode),
            25 => Some(ControlId::MechanicalShutter),
            26 => Some(ControlId::TriggerInterface),
            27 => Some(ControlId::TecOverprotectInterface),
            28 => Some(ControlId::SignalClampInterface),
            29 => Some(ControlId::FineToneInterface),
            30 => Some(ControlId::ShutterMotorHeatingInterface),
            31 => Some(ControlId::CalibrateFpnInterface),
            32 => Some(ControlId::ChipTemperatureSensorInterface),
            33 => Some(ControlId::UsbReadoutSlowestInterface),
            34 => Some(ControlId::Bits8),
            35 => Some(ControlId::Bits16),
            36 => Some(ControlId::Gps),
            37 => Some(ControlId::IgnoreOverscanInterface),
            39 => Some(ControlId::AutoExposure3a),
            40 => Some(ControlId::AutoFocus3a),
            41 => Some(ControlId::Ampv),
            42 => Some(ControlId::VirtualCamera),
            43 => Some(ControlId::ViewMode),
            44 => Some(ControlId::CfwSlotsNum),
            45 => Some(ControlId::IsExposingDone),
            46 => Some(ControlId::ScreenStretchB),
            47 => Some(ControlId::ScreenStretchW),
            48 => Some(ControlId::Ddr),
            49 => Some(ControlId::LightPerformanceMode),
            50 => Some(ControlId::Qhy5IiGuideMode),
            51 => Some(ControlId::DdrBufferCapacity),
            52 => Some(ControlId::DdrBufferReadThreshold),
            53 => Some(ControlId::DefaultGain),
            54 => Some(ControlId::DefaultOffset),
            55 => Some(ControlId::OutputDataActualBits),
            56 => Some(ControlId::OutputDataAlignment),
            57 => Some(ControlId::SingleFrameMode),
            58 => Some(ControlId::LiveVideoMode),
            59 => Some(ControlId::IsColor),
            60 => Some(ControlId::HardwareFrameCounter),
            61 => Some(ControlId::MaxIdError),
            62 => Some(ControlId::Humidity),
            63 => Some(ControlId::Pressure),
            64 => Some(ControlId::VacuumPump),
            65 => Some(ControlId::SensorChamberCyclePump),
            66 => Some(ControlId::Bits32),
            67 => Some(ControlId::SensorUlvoStatus),
            68 => Some(ControlId::SensorPhaseReTrain),
            69 => Some(ControlId::InitConfigFromFlash),
            70 => Some(ControlId::TriggerMode),
            71 => Some(ControlId::TriggerOut),
            72 => Some(ControlId::BurstMode),
            73 => Some(ControlId::SpeakerLedAlarm),
            74 => Some(ControlId::WatchDogFpga),
            75 => Some(ControlId::Bin6x6Mode),
            76 => Some(ControlId::Bin8x8Mode),
            77 => Some(ControlId::GlobalSensorGpsLed),
            78 => Some(ControlId::ImgProc),
            79 => Some(ControlId::RemoveRbi),
            80 => Some(ControlId::GlobalReset),
            81 => Some(ControlId::FrameDetect),
            82 => Some(ControlId::GainDbConversion),
            83 => Some(ControlId::CurveSystemGain),
            84 => Some(ControlId::CurveFullWell),
            85 => Some(ControlId::CurveReadoutNoise),
            86 => Some(ControlId::UseAverageBinning),
            87 => Some(ControlId::OutsidePumpV2),
            88 => Some(ControlId::AutoExposure),
            89 => Some(ControlId::AutoExpTargetBrightness),
            90 => Some(ControlId::AutoExpSampleArea),
            91 => Some(ControlId::AutoExpMaxMs),
            92 => Some(ControlId::AutoExpGainMax),
            93 => Some(ControlId::ErrorLed),
            94 => Some(ControlId::MaxId),
            1024 => Some(ControlId::AutoWhiteBalance),
            1025 => Some(ControlId::ImageStabilization),
            1026 => Some(ControlId::GainDb),
            1027 => Some(ControlId::Dpc),
            1028 => Some(ControlId::DpcValue),
            1029 => Some(ControlId::Hdr),
            1030 => Some(ControlId::HdrLk),
            1031 => Some(ControlId::HdrLb),
            1032 => Some(ControlId::HdrX),
            1033 => Some(ControlId::HdrShowKb),
            _ => None,
        }
    }
}

/// Every control has a code of the SDK, and reading that code back gives
/// the control again.
pub proof fn lemma_code_round_trip(id: ControlId)
    ensures
        is_control_code(id.code_spec() as int),
        control_from_code(id.code_spec()) == Some(id),
{
}

/// A code names a control exactly when it is a code of the SDK, and the
/// control it names has that code.
pub proof fn lemma_from_code_inverse(v: u32)
    ensures
        control_from_code(v) is Some <==> is_control_code(v as int),
        control_from_code(v) matches Some(id) ==> id.code_spec() == v,
{
}

/// No two controls share a code.
pub proof fn lemma_code_injective(a: ControlId, b: ControlId)
    ensures
        a.code_spec() == b.code_spec() ==> a == b,
{
    lemma_code_round_trip(a);
    lemma_code_round_trip(b);
}

/// How many codes of the SDK are below `v`.
pub open spec fn codes_below(v: int) -> int {
    if v <= 38 {
        if v < 0 { 0 } else { v }
    } else if v <= 95 {
        v - 1
    } else if v <= 1024 {
        94
    } else if v <= 1034 {
        94 + (v - 1024)
    } else {
        104
    }
}

/// `s` lists controls in strictly increasing order of their codes.
pub open spec fn sorted_by_code(s: Seq<ControlId>) -> bool {
    forall|i: int, j: int| 0 <= i < j < s.len() ==> #[trigger] s[i].code_spec() < #[trigger] s[j].code_spec()
}

/// Returns every control once, in increasing order of code (the order in
/// which the SDK declares them).
pub fn all_controls() -> (res: Vec<ControlId>)
    ensures
        res@.len() == NUM_CONTROLS,
        sorted_by_code(res@),
        forall|id: ControlId| res@.contains(id),
{
    let mut res: Vec<ControlId> = Vec::new();
    let mut v: u32 = 0;
    while v < 1034
        invariant
            v <= 1034,
            res@.len() == codes_below(v as int),
            sorted_by_code(res@),
            forall|i: int| 0 <= i < res@.len() ==> #[trigger] res@[i].code_spec() < v,
            forall|id: ControlId| id.code_spec() < v ==> res@.contains(id),
        decreases 1034 - v,
    {
        let found = ControlId::from_code(v);
        let ghost before = res@;
        assert(forall|id: ControlId| id.code_spec() < v ==> before.contains(id));
        proof {
            lemma_from_code_inverse(v);
        }
        match found {
            Some(id) => {
                res.push(id);
            },
            None => {},
        }
        assert forall|id: ControlId| id.code_spec() < v + 1 implies res@.contains(id) by {
            lemma_code_round_trip(id);
            if id.code_spec() == v {
                assert(res@[res@.len() - 1] == id);
            } else {
                assert(before.contains(id));
                let k = choose|k: int| 0 <= k < before.len() && before[k] == id;
                assert(res@[k] == id);
            }
        }
        v = v + 1;
    }
    res
}


/// Result of reading an SDK code as a control: the control, or the code
/// itself where no control has it.
pub open spec fn try_control_from_code(v: u32) -> Result<ControlId, u32> {
    match control_from_code(v) {
        Some(id) => Ok(id),
        None => Err(v),
    }
}

impl TryFrom<u32> for ControlId {
    type Error = u32;

    fn try_from(v: u32) -> (res: Result<Self, Self::Error>) {
        match ControlId::from_code(v) {
            Some(id) => Ok(id),
            None => Err(v),
        }
    }
}

impl vstd::std_specs::convert::TryFromSpecImpl<u32> for ControlId {
    open spec fn obeys_try_from_spec() -> bool {
        true
    }

    open spec fn try_from_spec(v: u32) -> Result<Self, Self::Error> {
        try_control_from_code(v)
    }
}

impl From<ControlId> for u32 {
    fn from(id: ControlId) -> (res: u32) {
        id.code()
    }
}

impl vstd::std_specs::convert::FromSpecImpl<ControlId> for u32 {
    open spec fn obeys_from_spec() -> bool {
        true
    }

    open spec fn from_spec(id: ControlId) -> u32 {
        id.code_spec()
    }
}

/// Converting a control to its code and back gives the control; a code that
/// converts to a control is that control's code.
pub proof fn lemma_conversions_invert(id: ControlId, v: u32)
    ensures
        try_control_from_code(id.code_spec()) == Ok::<ControlId, u32>(id),
        try_control_from_code(v) matches Ok(c) ==> c.code_spec() == v,
        try_control_from_code(v) matches Err(e) ==> e == v && !is_control_code(v as int),
{
    lemma_code_round_trip(id);
    lemma_from_code_inverse(v);
}


fn contains_control(ids: &Vec<ControlId>, id: ControlId) -> (found: bool)
    ensures
        found == ids@.contains(id),
{
    let mut i: usize = 0;
    while i < ids.len()
        invariant
            i <= ids@.len(),
            forall|k: int| 0 <= k < i ==> ids@[k] != id,
        decreases ids@.len() - i,
    {
        if ids[i] == id {
            return true;
        }
        i = i + 1;
    }
    false
}

/// Returns the controls of `present` in increasing order of code, each once.
pub fn sorted_controls(present: &Vec<ControlId>) -> (res: Vec<ControlId>)
    ensures
        sorted_by_code(res@),
        forall|id: ControlId| res@.contains(id) <==> present@.contains(id),
{
    let all = all_controls();
    let mut res: Vec<ControlId> = Vec::new();
    let mut i: usize = 0;
    while i < all.len()
        invariant
            i <= all@.len(),
            sorted_by_code(all@),
            forall|id: ControlId| all@.contains(id),
            sorted_by_code(res@),
            forall|j: int| 0 <= j < res@.len() ==> all@.take(i as int).contains(#[trigger] res@[j]),
            forall|id: ControlId|
                res@.contains(id) <==> (present@.contains(id) && all@.take(i as int).contains(id)),
        decreases all@.len() - i,
    {
        let id = all[i];
        let ghost before = res@;
        let ghost prefix = all@.take(i as int);
        let ghost next = all@.take(i + 1);
        let keep = contains_control(present, id);
        if keep {
            res.push(id);
            assert forall|j: int| 0 <= j < before.len() implies #[trigger] res@[j].code_spec() < id.code_spec() by {
                assert(prefix.contains(before[j]));
                let k = choose|k: int| 0 <= k < i && prefix[k] == before[j];
                assert(all@[k] == before[j]);
                assert(res@[j] == before[j]);
            }
        }
        assert forall|j: int| 0 <= j < res@.len() implies next.contains(#[trigger] res@[j]) by {
            if j < before.len() {
                assert(res@[j] == before[j]);
                assert(prefix.contains(before[j]));
                let k = choose|k: int| 0 <= k < i && prefix[k] == before[j];
                assert(next[k] == before[j]);
            } else {
                assert(res@[j] == id);
                assert(next[i as int] == id);
            }
        }
        assert forall|c: ControlId|
            res@.contains(c) <==> (present@.contains(c) && next.contains(c)) by {
            if next.contains(c) && c != id {
                let k = choose|k: int| 0 <= k < i + 1 && next[k] == c;
                assert(prefix[k] == c);
            }
            if prefix.contains(c) {
                let k = choose|k: int| 0 <= k < i && prefix[k] == c;
                assert(next[k] == c);
            }
            if res@.contains(c) && c != id {
                let k = choose|k: int| 0 <= k < res@.len() && res@[k] == c;
                if keep {
                    assert(k < before.len());
                }
                assert(before[k] == c);
            }
            if before.contains(c) {
                let k = choose|k: int| 0 <= k < before.len() && before[k] == c;
                assert(res@[k] == c);
            }
            if keep {
                assert(res@[before.len() as int] == id);
            }
        }
        i = i + 1;
    }
    assert(all@.take(all@.len() as int) =~= all@);
    res
}


/// The SDK's numbering of the controls (`CONTROL_ID`), control by control:
/// each control has the code the SDK gives it, and each code reads back as
/// that control.
pub proof fn lemma_sdk_code_table()
    ensures
        ControlId::Brightness.code_spec() == 0,
        ControlId::Contrast.code_spec() == 1,
        ControlId::Wbr.code_spec() == 2,
        ControlId::Wbb.code_spec() == 3,
        ControlId::Wbg.code_spec() == 4,
        ControlId::Gamma.code_spec() == 5,
        ControlId::Gain.code_spec() == 6,
        ControlId::Offset.code_spec() == 7,
        ControlId::Exposure.code_spec() == 8,
        ControlId::Speed.code_spec() == 9,
        ControlId::TransferBit.code_spec() == 10,
        ControlId::Channels.code_spec() == 11,
        ControlId::UsbTraffic.code_spec() == 12,
        ControlId::RowNoiseRe.code_spec() == 13,
        ControlId::CurTemp.code_spec() == 14,
        ControlId::CurPwm.code_spec() == 15,
        ControlId::ManualPwm.code_spec() == 16,
        ControlId::CfwPort.code_spec() == 17,
        ControlId::Cooler.code_spec() == 18,
        ControlId::St4Port.code_spec() == 19,
        ControlId::Color.code_spec() == 20,
        ControlId::Bin1x1Mode.code_spec() == 21,
        ControlId::Bin2x2Mode.code_spec() == 22,
        ControlId::Bin3x3Mode.code_spec() == 23,
        ControlId::Bin4x4Mode.code_spec() == 24,
        ControlId::MechanicalShutter.code_spec() == 25,
        ControlId::TriggerInterface.code_spec() == 26,
        ControlId::TecOverprotectInterface.code_spec() == 27,
        ControlId::SignalClampInterface.code_spec() == 28,
        ControlId::FineToneInterface.code_spec() == 29,
        ControlId::ShutterMotorHeatingInterface.code_spec() == 30,
        ControlId::CalibrateFpnInterface.code_spec() == 31,
        ControlId::ChipTemperatureSensorInterface.code_spec() == 32,
        ControlId::UsbReadoutSlowestInterface.code_spec() == 33,
        ControlId::Bits8.code_spec() == 34,
        ControlId::Bits16.code_spec() == 35,
        ControlId::Gps.code_spec() == 36,
        ControlId::IgnoreOverscanInterface.code_spec() == 37,
        ControlId::AutoExposure3a.code_spec() == 39,
        ControlId::AutoFocus3a.code_spec() == 40,
        ControlId::Ampv.code_spec() == 41,
        ControlId::VirtualCamera.code_spec() == 42,
        ControlId::ViewMode.code_spec() == 43,
        ControlId::CfwSlotsNum.code_spec() == 44,
        ControlId::IsExposingDone.code_spec() == 45,
        ControlId::ScreenStretchB.code_spec() == 46,
        ControlId::ScreenStretchW.code_spec() == 47,
        ControlId::Ddr.code_spec() == 48,
        ControlId::LightPerformanceMode.code_spec() == 49,
        ControlId::Qhy5IiGuideMode.code_spec() == 50,
        ControlId::DdrBufferCapacity.code_spec() == 51,
        ControlId::DdrBufferReadThreshold.code_spec() == 52,
        ControlId::DefaultGain.code_spec() == 53,
        ControlId::DefaultOffset.code_spec() == 54,
        ControlId::OutputDataActualBits.code_spec() == 55,
        ControlId::OutputDataAlignment.code_spec() == 56,
        ControlId::SingleFrameMode.code_spec() == 57,
        ControlId::LiveVideoMode.code_spec() == 58,
        ControlId::IsColor.code_spec() == 59,
        ControlId::HardwareFrameCounter.code_spec() == 60,
        ControlId::MaxIdError.code_spec() == 61,
        ControlId::Humidity.code_spec() == 62,
        ControlId::Pressure.code_spec() == 63,
        ControlId::VacuumPump.code_spec() == 64,
        ControlId::SensorChamberCyclePump.code_spec() == 65,
        ControlId::Bits32.code_spec() == 66,
        ControlId::SensorUlvoStatus.code_spec() == 67,
        ControlId::SensorPhaseReTrain.code_spec() == 68,
        ControlId::InitConfigFromFlash.code_spec() == 69,
        ControlId::TriggerMode.code_spec() == 70,
        ControlId::TriggerOut.code_spec() == 71,
        ControlId::BurstMode.code_spec() == 72,
        ControlId::SpeakerLedAlarm.code_spec() == 73,
        ControlId::WatchDogFpga.code_spec() == 74,
        ControlId::Bin6x6Mode.code_spec() == 75,
        ControlId::Bin8x8Mode.code_spec() == 76,
        ControlId::GlobalSensorGpsLed.code_spec() == 77,
        ControlId::ImgProc.code_spec() == 78,
        ControlId::RemoveRbi.code_spec() == 79,
        ControlId::GlobalReset.code_spec() == 80,
        ControlId::FrameDetect.code_spec() == 81,
        ControlId::GainDbConversion.code_spec() == 82,
        ControlId::CurveSystemGain.code_spec() == 83,
        ControlId::CurveFullWell.code_spec() == 84,
        ControlId::CurveReadoutNoise.code_spec() == 85,
        ControlId::UseAverageBinning.code_spec() == 86,
        ControlId::OutsidePumpV2.code_spec() == 87,
        ControlId::AutoExposure.code_spec() == 88,
        ControlId::AutoExpTargetBrightness.code_spec() == 89,
        ControlId::AutoExpSampleArea.code_spec() == 90,
        ControlId::AutoExpMaxMs.code_spec() == 91,
        ControlId::AutoExpGainMax.code_spec() == 92,
        ControlId::ErrorLed.code_spec() == 93,
        ControlId::MaxId.code_spec() == 94,
        ControlId::AutoWhiteBalance.code_spec() == 1024,
        ControlId::ImageStabilization.code_spec() == 1025,
        ControlId::GainDb.code_spec() == 1026,
        ControlId::Dpc.code_spec() == 1027,
        ControlId::DpcValue.code_spec() == 1028,
        ControlId::Hdr.code_spec() == 1029,
        ControlId::HdrLk.code_spec() == 1030,
        ControlId::HdrLb.code_spec() == 1031,
        ControlId::HdrX.code_spec() == 1032,
        ControlId::HdrShowKb.code_spec() == 1033,
        control_from_code(0) == Some(ControlId::Brightness),
        control_from_code(1) == Some(ControlId::Contrast),
        control_from_code(2) == Some(ControlId::Wbr),
        control_from_code(3) == Some(ControlId::Wbb),
        control_from_code(4) == Some(ControlId::Wbg),
        control_from_code(5) == Some(ControlId::Gamma),
        control_from_code(6) == Some(ControlId::Gain),
        control_from_code(7) == Some(ControlId::Offset),
        control_from_code(8) == Some(ControlId::Exposure),
        control_from_code(9) == Some(ControlId::Speed),
        control_from_code(10) == Some(ControlId::TransferBit),
        control_from_code(11) == Some(ControlId::Channels),
        control_from_code(12) == Some(ControlId::UsbTraffic),
        control_from_code(13) == Some(ControlId::RowNoiseRe),
        control_from_code(14) == Some(ControlId::CurTemp),
        control_from_code(15) == Some(ControlId::CurPwm),
        control_from_code(16) == Some(ControlId::ManualPwm),
        control_from_code(17) == Some(ControlId::CfwPort),
        control_from_code(18) == Some(ControlId::Cooler),
        control_from_code(19) == Some(ControlId::St4Port),
        control_from_code(20) == Some(ControlId::Color),
        control_from_code(21) == Some(ControlId::Bin1x1Mode),
        control_from_code(22) == Some(ControlId::Bin2x2Mode),
        control_from_code(23) == Some(ControlId::Bin3x3Mode),
        control_from_code(24) == Some(ControlId::Bin4x4Mode),
        control_from_code(25) == Some(ControlId::MechanicalShutter),
        control_from_code(26) == Some(ControlId::TriggerInterface),
        control_from_code(27) == Some(ControlId::TecOverprotectInterface),
        control_from_code(28) == Some(ControlId::SignalClampInterface),
        control_from_code(29) == Some(ControlId::FineToneInterface),
        control_from_code(30) == Some(ControlId::ShutterMotorHeatingInterface),
        control_from_code(31) == Some(ControlId::CalibrateFpnInterface),
        control_from_code(32) == Some(ControlId::ChipTemperatureSensorInterface),
        control_from_code(33) == Some(ControlId::UsbReadoutSlowestInterface),
        control_from_code(34) == Some(ControlId::Bits8),
        control_from_code(35) == Some(ControlId::Bits16),
        control_from_code(36) == Some(ControlId::Gps),
        control_from_code(37) == Some(ControlId::IgnoreOverscanInterface),
        control_from_code(39) == Some(ControlId::AutoExposure3a),
        control_from_code(40) == Some(ControlId::AutoFocus3a),
        control_from_code(41) == Some(ControlId::Ampv),
        control_from_code(42) == Some(ControlId::VirtualCamera),
        control_from_code(43) == Some(ControlId::ViewMode),
        control_from_code(44) == Some(ControlId::CfwSlotsNum),
        control_from_code(45) == Some(ControlId::IsExposingDone),
        control_from_code(46) == Some(ControlId::ScreenStretchB),
        control_from_code(47) == Some(ControlId::ScreenStretchW),
        control_from_code(48) == Some(ControlId::Ddr),
        control_from_code(49) == Some(ControlId::LightPerformanceMode),
        control_from_code(50) == Some(ControlId::Qhy5IiGuideMode),
        control_from_code(51) == Some(ControlId::DdrBufferCapacity),
        control_from_code(52) == Some(ControlId::DdrBufferReadThreshold),
        control_from_code(53) == Some(ControlId::DefaultGain),
        control_from_code(54) == Some(ControlId::DefaultOffset),
        control_from_code(55) == Some(ControlId::OutputDataActualBits),
        control_from_code(56) == Some(ControlId::OutputDataAlignment),
        control_from_code(57) == Some(ControlId::SingleFrameMode),
        control_from_code(58) == Some(ControlId::LiveVideoMode),
        control_from_code(59) == Some(ControlId::IsColor),
        control_from_code(60) == Some(ControlId::HardwareFrameCounter),
        control_from_code(61) == Some(ControlId::MaxIdError),
        control_from_code(62) == Some(ControlId::Humidity),
        control_from_code(63) == Some(ControlId::Pressure),
        control_from_code(64) == Some(ControlId::VacuumPump),
        control_from_code(65) == Some(ControlId::SensorChamberCyclePump),
        control_from_code(66) == Some(ControlId::Bits32),
        control_from_code(67) == Some(ControlId::SensorUlvoStatus),
        control_from_code(68) == Some(ControlId::SensorPhaseReTrain),
        control_from_code(69) == Some(ControlId::InitConfigFromFlash),
        control_from_code(70) == Some(ControlId::TriggerMode),
        control_from_code(71) == Some(ControlId::TriggerOut),
        control_from_code(72) == Some(ControlId::BurstMode),
        control_from_code(73) == Some(ControlId::SpeakerLedAlarm),
        control_from_code(74) == Some(ControlId::WatchDogFpga),
        control_from_code(75) == Some(ControlId::Bin6x6Mode),
        control_from_code(76) == Some(ControlId::Bin8x8Mode),
        control_from_code(77) == Some(ControlId::GlobalSensorGpsLed),
        control_from_code(78) == Some(ControlId::ImgProc),
        control_from_code(79) == Some(ControlId::RemoveRbi),
        control_from_code(80) == Some(ControlId::GlobalReset),
        control_from_code(81) == Some(ControlId::FrameDetect),
        control_from_code(82) == Some(ControlId::GainDbConversion),
        control_from_code(83) == Some(ControlId::CurveSystemGain),
        control_from_code(84) == Some(ControlId::CurveFullWell),
        control_from_code(85) == Some(ControlId::CurveReadoutNoise),
        control_from_code(86) == Some(ControlId::UseAverageBinning),
        control_from_code(87) == Some(ControlId::OutsidePumpV2),
        control_from_code(88) == Some(ControlId::AutoExposure),
        control_from_code(89) == Some(ControlId::AutoExpTargetBrightness),
        control_from_code(90) == Some(ControlId::AutoExpSampleArea),
        control_from_code(91) == Some(ControlId::AutoExpMaxMs),
        control_from_code(92) == Some(ControlId::AutoExpGainMax),
        control_from_code(93) == Some(ControlId::ErrorLed),
        control_from_code(94) == Some(ControlId::MaxId),
        control_from_code(1024) == Some(ControlId::AutoWhiteBalance),
        control_from_code(1025) == Some(ControlId::ImageStabilization),
        control_from_code(1026) == Some(ControlId::GainDb),
        control_from_code(1027) == Some(ControlId::Dpc),
        control_from_code(1028) == Some(ControlId::DpcValue),
        control_from_code(1029) == Some(ControlId::Hdr),
        control_from_code(1030) == Some(ControlId::HdrLk),
        control_from_code(1031) == Some(ControlId::HdrLb),
        control_from_code(1032) == Some(ControlId::HdrX),
        control_from_code(1033) == Some(ControlId::HdrShowKb),
{
}

} // verus!
