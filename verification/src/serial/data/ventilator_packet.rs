//! The ventilator: mode, fan speed and an optional shut-off timer.

use vstd::prelude::*;

use crate::serial::data::{hyundai_request, two_bytes, two_zero_bytes, Data, DataParseError};
use crate::serial::packet::{Manufacturer, SerialPacket};
use crate::text::{bytes_of, is_word, lowered};
use crate::utils::{DurationUtils, TimeSpan};

verus! {

/// How the ventilator moves air.
#[derive(Debug, Clone, Copy, PartialEq, Eq, Structural)]
pub enum VentilatorMode {
    Off,
    Normal,
    Passthrough,
}

/// How fast the fan turns.
#[derive(Debug, Clone, Copy, PartialEq, Eq, Structural)]
pub enum VentilatorFanSpeed {
    Low,
    Medium,
    High,
}

/// State of the ventilator as the bus reports it.
#[derive(Debug, Clone, Copy, PartialEq, Eq, Structural)]
pub struct VentilatorDataPacket {
    pub power: Option<bool>,
    pub fan_speed: Option<VentilatorFanSpeed>,
    pub mode: Option<VentilatorMode>,
    pub setting_time: Option<TimeSpan>,
    pub remaining_time: Option<TimeSpan>,
}

/// The byte that stands for a mode on the wire.
pub open spec fn mode_code(mode: VentilatorMode) -> u8 {
    match mode {
        VentilatorMode::Off => 0x02,
        VentilatorMode::Normal => 0x01,
        VentilatorMode::Passthrough => 0x81,
    }
}

/// The mode that a status byte reports: `0x02` is off, the rest of `0x01`
/// to `0x15` is normal, `0x81` to `0x95` is pass-through.
pub open spec fn mode_of(status: u8) -> Option<VentilatorMode> {
    if status == 0x02 {
        Some(VentilatorMode::Off)
    } else if 0x01 <= status <= 0x15 {
        Some(VentilatorMode::Normal)
    } else if 0x81 <= status <= 0x95 {
        Some(VentilatorMode::Passthrough)
    } else {
        None
    }
}

/// The name of a mode, as it is published.
pub open spec fn mode_name(mode: VentilatorMode) -> Seq<u8> {
    match mode {
        VentilatorMode::Off => bytes_of("Off"),
        VentilatorMode::Normal => bytes_of("Normal"),
        VentilatorMode::Passthrough => bytes_of("Passthrough"),
    }
}

/// The mode that a word names, whatever the case of its letters.
pub open spec fn mode_named(word: Seq<u8>) -> Option<VentilatorMode> {
    if lowered(word) == bytes_of("off") {
        Some(VentilatorMode::Off)
    } else if lowered(word) == bytes_of("normal") {
        Some(VentilatorMode::Normal)
    } else if lowered(word) == bytes_of("passthrough") {
        Some(VentilatorMode::Passthrough)
    } else {
        None
    }
}

/// The byte that stands for a fan speed on the wire.
pub open spec fn fan_code(speed: VentilatorFanSpeed) -> u8 {
    match speed {
        VentilatorFanSpeed::Low => 0x01,
        VentilatorFanSpeed::Medium => 0x03,
        VentilatorFanSpeed::High => 0x07,
    }
}

/// The fan speed that a value on the wire reports; low unless it says
/// otherwise.
pub open spec fn fan_of(value: u16) -> VentilatorFanSpeed {
    if value == 0x03 {
        VentilatorFanSpeed::Medium
    } else if value == 0x07 {
        VentilatorFanSpeed::High
    } else {
        VentilatorFanSpeed::Low
    }
}

/// The level of a fan speed: 1, 2 or 3.
pub open spec fn fan_level(speed: VentilatorFanSpeed) -> u8 {
    match speed {
        VentilatorFanSpeed::Low => 1,
        VentilatorFanSpeed::Medium => 2,
        VentilatorFanSpeed::High => 3,
    }
}

/// The fan speed of a level; low for anything but 2 and 3.
pub open spec fn fan_of_level(level: u64) -> VentilatorFanSpeed {
    if level == 2 {
        VentilatorFanSpeed::Medium
    } else if level == 3 {
        VentilatorFanSpeed::High
    } else {
        VentilatorFanSpeed::Low
    }
}

/// The fan speed that a word names or numbers, whatever the case of its
/// letters.
pub open spec fn fan_named(word: Seq<u8>) -> Option<VentilatorFanSpeed> {
    let w = lowered(word);
    if w == bytes_of("low") || w == bytes_of("1") {
        Some(VentilatorFanSpeed::Low)
    } else if w == bytes_of("medium") || w == bytes_of("2") {
        Some(VentilatorFanSpeed::Medium)
    } else if w == bytes_of("high") || w == bytes_of("3") {
        Some(VentilatorFanSpeed::High)
    } else {
        None
    }
}

/// The timer that the data bytes report: the time it was set to and the
/// time that remains. Five bytes carry minutes; six carry hours and
/// minutes; any other length carries no timer.
pub open spec fn timer_of(buf: Seq<u8>) -> (Option<TimeSpan>, Option<TimeSpan>) {
    if buf.len() == 5 {
        (
            Some(TimeSpan { secs: (buf[3] * 60) as u64 }),
            Some(TimeSpan { secs: (buf[4] * 60) as u64 }),
        )
    } else if buf.len() == 6 {
        (
            Some(TimeSpan { secs: (buf[3] * 3600 + buf[4] * 60) as u64 }),
            Some(TimeSpan { secs: (buf[5] * 60) as u64 }),
        )
    } else {
        (None, None)
    }
}

/// The low eight bits of a number.
pub open spec fn low_byte(n: u64) -> u8 {
    (n % 256) as u8
}

/// The data bytes that set the timer to `secs` seconds: minutes below one
/// hour, hours and minutes from there on.
pub open spec fn timer_request(secs: u64) -> Seq<u8> {
    if secs < 3600 {
        seq![0x05u8, low_byte(secs % 3600 / 60)]
    } else {
        seq![0x15u8, low_byte(secs / 3600), low_byte(secs % 3600 / 60)]
    }
}

impl VentilatorDataPacket {
    /// The data bytes that report this state, if mode and fan speed are
    /// known. A timer is written only if both of its times are known.
    pub open spec fn encoded(self) -> Option<Seq<u8>> {
        if self.mode is None || self.fan_speed is None {
            None
        } else {
            let code = mode_code(self.mode->Some_0);
            let fan = fan_code(self.fan_speed->Some_0);
            if self.setting_time is Some && self.remaining_time is Some {
                let setting = self.setting_time->Some_0.secs;
                let remaining = self.remaining_time->Some_0.secs;
                if setting < 3600 {
                    Some(
                        seq![
                            0u8,
                            (code + 0x04) as u8,
                            fan,
                            low_byte(setting % 3600 / 60),
                            low_byte(remaining / 60),
                        ],
                    )
                } else {
                    Some(
                        seq![
                            0u8,
                            (code + 0x14) as u8,
                            fan,
                            low_byte(setting / 3600),
                            low_byte(setting % 3600 / 60),
                            low_byte(remaining / 60),
                        ],
                    )
                }
            } else {
                Some(seq![0u8, code, fan])
            }
        }
    }
}

/// The low eight bits of a number.
pub fn low_byte_of(n: u64) -> (b: u8)
    ensures
        b == low_byte(n),
{
    (n % 256) as u8
}

impl Data for VentilatorDataPacket {
    open spec fn parsed(manufacturer: Manufacturer, buf: Seq<u8>) -> Result<Self, DataParseError> {
        if buf.len() < 3 {
            Err(DataParseError::LengthTooSmall)
        } else if mode_of(buf[1]) is None {
            Err(DataParseError::Unsupported)
        } else {
            let mode = mode_of(buf[1])->Some_0;
            Ok(
                VentilatorDataPacket {
                    power: Some(mode != VentilatorMode::Off),
                    fan_speed: Some(fan_of(buf[2] as u16)),
                    mode: Some(mode),
                    setting_time: timer_of(buf).0,
                    remaining_time: timer_of(buf).1,
                },
            )
        }
    }

    open spec fn request(manufacturer: Manufacturer) -> Option<Seq<u8>> {
        Some(hyundai_request())
    }

    fn parse<T: SerialPacket>(buf: &[u8]) -> (r: Result<Self, DataParseError>) {
        match T::manufacturer() {
            Manufacturer::HyundaiHT => {
                if buf.len() < 3 {
                    return Err(DataParseError::LengthTooSmall);
                }
                let status = buf[1];
                let mode = if status == 0x02 {
                    VentilatorMode::Off
                } else if status >= 0x01 && status <= 0x15 {
                    VentilatorMode::Normal
                } else if status >= 0x81 && status <= 0x95 {
                    VentilatorMode::Passthrough
                } else {
                    return Err(DataParseError::Unsupported);
                };
                let power = mode != VentilatorMode::Off;
                let fan_speed = VentilatorFanSpeed::from_pkt::<T>(buf[2] as u16);
                let (setting_time, remaining_time) = if buf.len() == 5 {
                    (
                        Some(TimeSpan::from_secs(buf[3] as u64 * 60)),
                        Some(TimeSpan::from_secs(buf[4] as u64 * 60)),
                    )
                } else if buf.len() == 6 {
                    (
                        Some(TimeSpan::from_secs(buf[3] as u64 * 3600 + buf[4] as u64 * 60)),
                        Some(TimeSpan::from_secs(buf[5] as u64 * 60)),
                    )
                } else {
                    (None, None)
                };
                Ok(
                    VentilatorDataPacket {
                        power: Some(power),
                        fan_speed: Some(fan_speed),
                        mode: Some(mode),
                        setting_time,
                        remaining_time,
                    },
                )
            },
        }
    }

    fn create_request<T: SerialPacket>() -> (r: Option<Vec<u8>>) {
        match T::manufacturer() {
            Manufacturer::HyundaiHT => Some(two_zero_bytes()),
        }
    }
}

impl VentilatorDataPacket {
    /// The data bytes that report this state.
    pub fn to_vec<T: SerialPacket>(&self) -> (r: Option<Vec<u8>>)
        ensures
            r is Some <==> self.encoded() is Some,
            r is Some ==> r->Some_0@ == self.encoded()->Some_0,
    {
        match T::manufacturer() {
            Manufacturer::HyundaiHT => {
                match (self.mode, self.fan_speed) {
                    (Some(mode), Some(fan_speed)) => {
                        let code: u8 = mode.as_u16::<T>() as u8;
                        let fan: u8 = fan_speed.as_u16::<T>() as u8;
                        let mut ret: Vec<u8> = Vec::new();
                        ret.push(0);
                        match (self.setting_time, self.remaining_time) {
                            (Some(setting), Some(remaining)) => {
                                if setting.as_secs() < 3600 {
                                    ret.push(code + 0x04);
                                    ret.push(fan);
                                    ret.push(low_byte_of(setting.as_section_minutes()));
                                    ret.push(low_byte_of(remaining.as_minutes()));
                                } else {
                                    ret.push(code + 0x14);
                                    ret.push(fan);
                                    ret.push(low_byte_of(setting.as_hours()));
                                    ret.push(low_byte_of(setting.as_section_minutes()));
                                    ret.push(low_byte_of(remaining.as_minutes()));
                                }
                            },
                            _ => {
                                ret.push(code);
                                ret.push(fan);
                            },
                        }
                        assert(ret@ =~= self.encoded()->Some_0);
                        Some(ret)
                    },
                    _ => None,
                }
            },
        }
    }

    /// The data bytes that put the ventilator in `mode`.
    pub fn create_mode_modify<T: SerialPacket>(mode: &VentilatorMode) -> (r: Option<Vec<u8>>)
        ensures
            r is Some,
            r->Some_0@ == seq![mode_code(*mode), 0u8],
    {
        match T::manufacturer() {
            Manufacturer::HyundaiHT => Some(two_bytes(mode.as_u16::<T>() as u8, 0)),
        }
    }

    /// The data bytes that set the shut-off timer to `time`.
    pub fn create_timer_modify<T: SerialPacket>(time: &TimeSpan) -> (r: Option<Vec<u8>>)
        ensures
            r is Some,
            r->Some_0@ == timer_request(time.secs),
    {
        match T::manufacturer() {
            Manufacturer::HyundaiHT => {
                let mut v: Vec<u8> = Vec::new();
                if time.as_secs() < 3600 {
                    v.push(0x05);
                    v.push(low_byte_of(time.as_section_minutes()));
                } else {
                    v.push(0x15);
                    v.push(low_byte_of(time.as_hours()));
                    v.push(low_byte_of(time.as_section_minutes()));
                }
                assert(v@ =~= timer_request(time.secs));
                Some(v)
            },
        }
    }

    /// The data bytes that set the fan to `fan_speed`.
    pub fn create_fan_modify<T: SerialPacket>(fan_speed: &VentilatorFanSpeed) -> (r: Option<
        Vec<u8>,
    >)
        ensures
            r is Some,
            r->Some_0@ == seq![fan_code(*fan_speed), 0u8],
    {
        match T::manufacturer() {
            Manufacturer::HyundaiHT => Some(two_bytes(fan_speed.as_u16::<T>() as u8, 0)),
        }
    }
}

impl Default for VentilatorMode {
    fn default() -> (mode: Self)
        ensures
            mode == VentilatorMode::Off,
    {
        VentilatorMode::Off
    }
}

impl VentilatorMode {
    /// The value that stands for the mode on the wire.
    pub fn as_u16<T: SerialPacket>(&self) -> (code: u16)
        ensures
            code == mode_code(*self),
    {
        match T::manufacturer() {
            Manufacturer::HyundaiHT => match self {
                VentilatorMode::Off => 0x02,
                VentilatorMode::Normal => 0x01,
                VentilatorMode::Passthrough => 0x81,
            },
        }
    }

    /// The name of the mode, as it is published.
    pub fn name(&self) -> (name: &'static str)
        ensures
            bytes_of(name) == mode_name(*self),
    {
        match self {
            VentilatorMode::Off => "Off",
            VentilatorMode::Normal => "Normal",
            VentilatorMode::Passthrough => "Passthrough",
        }
    }

    /// The mode that `word` names, whatever the case of its letters.
    pub fn from_text(word: &[u8]) -> (mode: Option<Self>)
        ensures
            mode == mode_named(word@),
    {
        if is_word(word, "off".as_bytes()) {
            Some(VentilatorMode::Off)
        } else if is_word(word, "normal".as_bytes()) {
            Some(VentilatorMode::Normal)
        } else if is_word(word, "passthrough".as_bytes()) {
            Some(VentilatorMode::Passthrough)
        } else {
            None
        }
    }
}

impl Default for VentilatorFanSpeed {
    fn default() -> (speed: Self)
        ensures
            speed == VentilatorFanSpeed::Low,
    {
        VentilatorFanSpeed::Low
    }
}

impl VentilatorFanSpeed {
    /// The fan speed that a value on the wire reports.
    pub fn from_pkt<T: SerialPacket>(value: u16) -> (speed: Self)
        ensures
            speed == fan_of(value),
    {
        match T::manufacturer() {
            Manufacturer::HyundaiHT => match value {
                0x03 => VentilatorFanSpeed::Medium,
                0x07 => VentilatorFanSpeed::High,
                _ => VentilatorFanSpeed::Low,
            },
        }
    }

    /// The value that stands for the fan speed on the wire.
    pub fn as_u16<T: SerialPacket>(&self) -> (code: u16)
        ensures
            code == fan_code(*self),
    {
        match T::manufacturer() {
            Manufacturer::HyundaiHT => match self {
                VentilatorFanSpeed::Low => 0x01,
                VentilatorFanSpeed::Medium => 0x03,
                VentilatorFanSpeed::High => 0x07,
            },
        }
    }

    /// The level of the fan speed: 1, 2 or 3.
    pub fn to_level(&self) -> (level: u8)
        ensures
            level == fan_level(*self),
    {
        match self {
            VentilatorFanSpeed::Low => 1,
            VentilatorFanSpeed::Medium => 2,
            VentilatorFanSpeed::High => 3,
        }
    }

    /// The fan speed of a level; low for anything but 2 and 3.
    pub fn from_level(level: u64) -> (speed: Self)
        ensures
            speed == fan_of_level(level),
    {
        match level {
            2 => VentilatorFanSpeed::Medium,
            3 => VentilatorFanSpeed::High,
            _ => VentilatorFanSpeed::Low,
        }
    }

    /// The fan speed that `word` names or numbers, whatever the case of its
    /// letters.
    pub fn from_text(word: &[u8]) -> (speed: Option<Self>)
        ensures
            speed == fan_named(word@),
    {
        if is_word(word, "low".as_bytes()) || is_word(word, "1".as_bytes()) {
            Some(VentilatorFanSpeed::Low)
        } else if is_word(word, "medium".as_bytes()) || is_word(word, "2".as_bytes()) {
            Some(VentilatorFanSpeed::Medium)
        } else if is_word(word, "high".as_bytes()) || is_word(word, "3".as_bytes()) {
            Some(VentilatorFanSpeed::High)
        } else {
            None
        }
    }
}

impl From<u64> for VentilatorFanSpeed {
    fn from(value: u64) -> (speed: Self) {
        VentilatorFanSpeed::from_level(value)
    }
}

impl vstd::std_specs::convert::FromSpecImpl<u64> for VentilatorFanSpeed {
    open spec fn obeys_from_spec() -> bool {
        true
    }

    open spec fn from_spec(value: u64) -> Self {
        fan_of_level(value)
    }
}

impl std::str::FromStr for VentilatorMode {
    type Err = ();

    fn from_str(s: &str) -> (r: Result<Self, ()>)
        ensures
            r == match mode_named(bytes_of(s)) {
                Some(mode) => Ok::<VentilatorMode, ()>(mode),
                None => Err::<VentilatorMode, ()>(()),
            },
    {
        match VentilatorMode::from_text(s.as_bytes()) {
            Some(mode) => Ok(mode),
            None => Err(()),
        }
    }
}

impl std::str::FromStr for VentilatorFanSpeed {
    type Err = ();

    fn from_str(s: &str) -> (r: Result<Self, ()>)
        ensures
            r == match fan_named(bytes_of(s)) {
                Some(speed) => Ok::<VentilatorFanSpeed, ()>(speed),
                None => Err::<VentilatorFanSpeed, ()>(()),
            },
    {
        match VentilatorFanSpeed::from_text(s.as_bytes()) {
            Some(speed) => Ok(speed),
            None => Err(()),
        }
    }
}

} // verus!
