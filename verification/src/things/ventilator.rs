//! The ventilator.
//!
//! The bridge remembers what the ventilator last reported: whether it runs
//! and, while it runs, in which mode. Switching it on toggles between the
//! two running modes, and a ventilator that is off is first put in normal
//! mode before any other mode is set.

use vstd::prelude::*;

use crate::serial::data::ventilator_packet::{
    fan_code, fan_level, fan_named, mode_code, mode_name, mode_named, timer_request,
    VentilatorDataPacket, VentilatorFanSpeed, VentilatorMode,
};
use crate::serial::data::Data;
use crate::serial::packet::hyundai::{HyundaiPacket, HyundaiPacketView};
use crate::serial::packet::{Command, Manufacturer};
use crate::text::{
    between, boolean, boolean_text, bytes_of, decimal, decimal_text, middle, parse_bool,
    parse_boolean, parse_bounded, parse_unsigned_u64, same_bytes, text,
};
use crate::things::{view_of, Channels, Publish, PublishView};
use crate::utils::{DurationUtils, TimeSpan};

verus! {

/// The device id of the ventilator.
pub const VENTILATOR_DEVICE: u8 = 0x2B;

/// The sub-device that takes mode and timer.
pub const VENTILATOR_MODE: u8 = 0x40;

/// The sub-device that takes the fan speed.
pub const VENTILATOR_FAN: u8 = 0x42;

/// The room id of the ventilator.
pub const VENTILATOR_ROOM: u8 = 0x11;

/// The longest timer, in minutes, whose seconds can still be counted.
pub const MAX_TIMER_MINUTES: u64 = 307_445_734_561_825_860;

/// The ventilator, with what it last reported.
#[derive(Debug, Clone, Copy, PartialEq, Eq, Structural)]
pub struct Ventilator {
    /// The mode in which the ventilator last ran.
    pub latest_mode: VentilatorMode,
    /// Whether the ventilator ran when it last reported.
    pub latest_state: bool,
}

/// The minutes of a time that may be absent; `0` if it is.
pub open spec fn minutes_of(time: Option<TimeSpan>) -> nat {
    match time {
        Some(span) => (span.secs / 60) as nat,
        None => 0,
    }
}

/// The messages that report a state of the ventilator: power, mode, fan
/// level, whether a timer is set, the timer if one is set, and the time
/// that remains.
pub open spec fn ventilator_report(state: VentilatorDataPacket) -> Seq<PublishView> {
    let first = seq![
        PublishView {
            topic: bytes_of("ventilator/power"),
            payload: boolean_text(state.power == Some(true)),
        },
        PublishView {
            topic: bytes_of("ventilator/mode"),
            payload: mode_name(
                match state.mode {
                    Some(mode) => mode,
                    None => VentilatorMode::Off,
                },
            ),
        },
        PublishView {
            topic: bytes_of("ventilator/fan_speed"),
            payload: decimal_text(
                fan_level(
                    match state.fan_speed {
                        Some(speed) => speed,
                        None => VentilatorFanSpeed::Low,
                    },
                ) as nat,
            ),
        },
        PublishView {
            topic: bytes_of("ventilator/timer/status"),
            payload: boolean_text(state.setting_time is Some),
        },
    ];
    let timer = if state.setting_time is Some {
        seq![
            PublishView {
                topic: bytes_of("ventilator/timer"),
                payload: decimal_text(minutes_of(state.setting_time)),
            },
        ]
    } else {
        Seq::empty()
    };
    let remaining = seq![
        PublishView {
            topic: bytes_of("ventilator/timer/remaining"),
            payload: decimal_text(minutes_of(state.remaining_time)),
        },
    ];
    first + timer + remaining
}

/// A command for the ventilator.
pub open spec fn ventilator_packet(sub: u8, data: Seq<u8>) -> HyundaiPacketView {
    HyundaiPacketView::build(VENTILATOR_DEVICE, Command::Modify, sub, VENTILATOR_ROOM, data)
}

impl Ventilator {
    /// What is remembered before the ventilator has reported: it is off
    /// and last ran in normal mode.
    pub open spec fn initial() -> Ventilator {
        Ventilator { latest_mode: VentilatorMode::Normal, latest_state: false }
    }

    /// What is remembered after the ventilator reported `state`.
    pub open spec fn after_report(self, state: VentilatorDataPacket) -> Ventilator {
        let running = state.power == Some(true);
        Ventilator {
            latest_mode: if running && state.mode is Some {
                state.mode->Some_0
            } else {
                self.latest_mode
            },
            latest_state: running,
        }
    }

    /// What is remembered after a frame of the ventilator.
    pub open spec fn after_packet(self, packet: HyundaiPacketView) -> Ventilator {
        if packet.command == Command::Response {
            match VentilatorDataPacket::parsed(Manufacturer::HyundaiHT, packet.data) {
                Ok(state) => self.after_report(state),
                Err(_) => self,
            }
        } else {
            self
        }
    }

    /// What is published for a frame of the ventilator.
    pub open spec fn published(packet: HyundaiPacketView) -> Seq<PublishView> {
        if packet.command == Command::Response {
            match VentilatorDataPacket::parsed(Manufacturer::HyundaiHT, packet.data) {
                Ok(state) => ventilator_report(state),
                Err(_) => Seq::empty(),
            }
        } else {
            Seq::empty()
        }
    }

    /// The commands that put the ventilator in `mode`: if it is off, first
    /// the command for normal mode, then the command for `mode`.
    pub open spec fn mode_commands(self, mode: VentilatorMode) -> Seq<HyundaiPacketView> {
        let wake = if !self.latest_state {
            seq![ventilator_packet(VENTILATOR_MODE, seq![mode_code(VentilatorMode::Normal), 0u8])]
        } else {
            Seq::empty()
        };
        wake + seq![ventilator_packet(VENTILATOR_MODE, seq![mode_code(mode), 0u8])]
    }

    /// The mode that switching the power leads to: off, or the running mode
    /// other than the one that ran last.
    pub open spec fn power_mode(self, value: bool) -> VentilatorMode {
        if value {
            match self.latest_mode {
                VentilatorMode::Off => VentilatorMode::Normal,
                VentilatorMode::Normal => VentilatorMode::Passthrough,
                VentilatorMode::Passthrough => VentilatorMode::Normal,
            }
        } else {
            VentilatorMode::Off
        }
    }

    /// The commands that switch the ventilator on or off.
    pub open spec fn power_commands(self, value: bool) -> Seq<HyundaiPacketView> {
        self.mode_commands(self.power_mode(value))
    }

    /// The commands that set the timer: if the ventilator is off it is
    /// switched on first.
    pub open spec fn timer_commands(self, time: TimeSpan) -> Seq<HyundaiPacketView> {
        let wake = if !self.latest_state {
            self.power_commands(true)
        } else {
            Seq::empty()
        };
        wake + seq![ventilator_packet(VENTILATOR_MODE, timer_request(time.secs))]
    }

    /// The command that sets the fan speed.
    pub open spec fn fan_commands(speed: VentilatorFanSpeed) -> Seq<HyundaiPacketView> {
        seq![ventilator_packet(VENTILATOR_FAN, seq![fan_code(speed), 0u8])]
    }

    /// The packets that a message sends to the ventilator.
    ///
    /// `ventilator/power/set` switches on for `true`, off for anything
    /// else. `ventilator/mode/set` sets the mode that the payload names,
    /// off if it names none. `ventilator/fan_speed/set` switches off for
    /// `0` and else sets the speed that the payload names, low if it names
    /// none. `ventilator/timer/set` sets the timer to the minutes in the
    /// payload, to none if the payload is no such number.
    pub open spec fn commands(self, topic: Seq<u8>, payload: Seq<u8>) -> Seq<HyundaiPacketView> {
        match middle(topic, bytes_of("ventilator/"), bytes_of("/set")) {
            Some(method) => if method == bytes_of("power") {
                self.power_commands(parse_boolean(payload) == Some(true))
            } else if method == bytes_of("mode") {
                self.mode_commands(
                    match mode_named(payload) {
                        Some(mode) => mode,
                        None => VentilatorMode::Off,
                    },
                )
            } else if method == bytes_of("fan_speed") {
                if payload == bytes_of("0") {
                    self.power_commands(false)
                } else {
                    Self::fan_commands(
                        match fan_named(payload) {
                            Some(speed) => speed,
                            None => VentilatorFanSpeed::Low,
                        },
                    )
                }
            } else if method == bytes_of("timer") {
                self.timer_commands(
                    TimeSpan {
                        secs: match parse_unsigned_u64(payload, MAX_TIMER_MINUTES) {
                            Some(minutes) => (minutes * 60) as u64,
                            None => 0,
                        },
                    },
                )
            } else {
                Seq::empty()
            },
            None => Seq::empty(),
        }
    }

    /// The ventilator before it has reported.
    pub fn new() -> (ventilator: Self)
        ensures
            ventilator == Self::initial(),
    {
        Ventilator { latest_mode: VentilatorMode::Normal, latest_state: false }
    }

    /// The topics that the ventilator listens to.
    pub fn subscription() -> (filter: &'static str)
        ensures
            filter@ == "ventilator/+/set"@,
    {
        "ventilator/+/set"
    }

    /// Publishes what a response reports and remembers it.
    pub fn on_response(&mut self, packet: &HyundaiPacket, channels: &mut Channels<HyundaiPacket>)
        ensures
            *final(self) == old(self).after_packet(packet@.as_response()),
            final(channels)@.published == old(channels)@.published + Self::published(
                packet@.as_response(),
            ),
            final(channels)@.queued == old(channels)@.queued,
    {
        match VentilatorDataPacket::parse::<HyundaiPacket>(packet.data.as_slice()) {
            Ok(state) => {
                let running = match state.power {
                    Some(power) => power,
                    None => false,
                };
                let mode = match state.mode {
                    Some(mode) => mode,
                    None => VentilatorMode::Off,
                };
                let speed = match state.fan_speed {
                    Some(speed) => speed,
                    None => VentilatorFanSpeed::Low,
                };
                self.latest_state = running;
                channels.link_tx.publish(text("ventilator/power"), boolean(running));
                channels.link_tx.publish(text("ventilator/mode"), text(mode.name()));
                channels.link_tx.publish(
                    text("ventilator/fan_speed"),
                    decimal(speed.to_level() as u64),
                );
                if running {
                    match state.mode {
                        Some(mode) => {
                            self.latest_mode = mode;
                        },
                        None => {},
                    }
                }
                channels.link_tx.publish(
                    text("ventilator/timer/status"),
                    boolean(state.setting_time.is_some()),
                );
                match state.setting_time {
                    Some(setting) => {
                        channels.link_tx.publish(
                            text("ventilator/timer"),
                            decimal(setting.as_minutes()),
                        );
                    },
                    None => {},
                }
                let remaining: u64 = match state.remaining_time {
                    Some(time) => time.as_minutes(),
                    None => 0,
                };
                channels.link_tx.publish(text("ventilator/timer/remaining"), decimal(remaining));
                assert(channels@.published =~= old(channels)@.published + ventilator_report(
                    state,
                ));
            },
            Err(_) => {
                assert(channels@.published =~= old(channels)@.published + Seq::empty());
            },
        }
    }

    /// What the ventilator does with a frame of its device.
    pub fn on_packet(&mut self, packet: &HyundaiPacket, channels: &mut Channels<HyundaiPacket>)
        ensures
            *final(self) == old(self).after_packet(packet@),
            final(channels)@.published == old(channels)@.published + Self::published(packet@),
            final(channels)@.queued == old(channels)@.queued,
    {
        match packet.command {
            Command::Response => {
                self.on_response(packet, channels);
            },
            _ => {},
        }
        assert(channels@.published =~= old(channels)@.published + Self::published(packet@));
    }

    /// Queues one command for the ventilator.
    fn send(sub: u8, data: Vec<u8>, channels: &mut Channels<HyundaiPacket>)
        requires
            data@.len() <= 3,
        ensures
            final(channels)@.queued == old(channels)@.queued.push(ventilator_packet(sub, data@)),
            final(channels)@.published == old(channels)@.published,
    {
        let packet = HyundaiPacket::new(
            VENTILATOR_DEVICE,
            Command::Modify,
            sub,
            VENTILATOR_ROOM,
            data,
        );
        channels.serial_tx.send(packet);
    }

    /// Queues the commands that put the ventilator in the mode `value`.
    pub fn set_mode(&self, value: &VentilatorMode, channels: &mut Channels<HyundaiPacket>)
        ensures
            final(channels)@.queued == old(channels)@.queued + self.mode_commands(*value),
            final(channels)@.published == old(channels)@.published,
    {
        if !self.latest_state {
            match VentilatorDataPacket::create_mode_modify::<HyundaiPacket>(
                &VentilatorMode::Normal,
            ) {
                Some(data) => {
                    Self::send(VENTILATOR_MODE, data, channels);
                },
                None => {},
            }
        }
        match VentilatorDataPacket::create_mode_modify::<HyundaiPacket>(value) {
            Some(data) => {
                Self::send(VENTILATOR_MODE, data, channels);
            },
            None => {},
        }
        assert(channels@.queued =~= old(channels)@.queued + self.mode_commands(*value));
    }

    /// Queues the commands that switch the ventilator on or off.
    pub fn set_power(&self, value: bool, channels: &mut Channels<HyundaiPacket>)
        ensures
            final(channels)@.queued == old(channels)@.queued + self.power_commands(value),
            final(channels)@.published == old(channels)@.published,
    {
        let mode = if value {
            match self.latest_mode {
                VentilatorMode::Off => VentilatorMode::Normal,
                VentilatorMode::Normal => VentilatorMode::Passthrough,
                VentilatorMode::Passthrough => VentilatorMode::Normal,
            }
        } else {
            VentilatorMode::Off
        };
        self.set_mode(&mode, channels);
    }

    /// Queues the commands that set the timer to `value`.
    pub fn set_timer(&self, value: &TimeSpan, channels: &mut Channels<HyundaiPacket>)
        ensures
            final(channels)@.queued == old(channels)@.queued + self.timer_commands(*value),
            final(channels)@.published == old(channels)@.published,
    {
        if !self.latest_state {
            self.set_power(true, channels);
        }
        match VentilatorDataPacket::create_timer_modify::<HyundaiPacket>(value) {
            Some(data) => {
                Self::send(VENTILATOR_MODE, data, channels);
            },
            None => {},
        }
        assert(channels@.queued =~= old(channels)@.queued + self.timer_commands(*value));
    }

    /// Queues the command that sets the fan speed to `value`.
    pub fn set_fan_speed(value: &VentilatorFanSpeed, channels: &mut Channels<HyundaiPacket>)
        ensures
            final(channels)@.queued == old(channels)@.queued + Self::fan_commands(*value),
            final(channels)@.published == old(channels)@.published,
    {
        match VentilatorDataPacket::create_fan_modify::<HyundaiPacket>(value) {
            Some(data) => {
                Self::send(VENTILATOR_FAN, data, channels);
            },
            None => {},
        }
        assert(channels@.queued =~= old(channels)@.queued + Self::fan_commands(*value));
    }

    /// What the ventilator does with a message from the broker.
    pub fn topic_handler(
        &self,
        pk: &Publish,
        ch: &mut Channels<HyundaiPacket>,
        secondary: &mut Option<Channels<HyundaiPacket>>,
    )
        ensures
            view_of(*final(secondary)) == view_of(*old(secondary)),
            final(ch)@.queued == old(ch)@.queued + self.commands(pk@.topic, pk@.payload),
            final(ch)@.published == old(ch)@.published,
    {
        let payload = pk.payload.as_slice();
        match between(pk.topic.as_slice(), "ventilator/".as_bytes(), "/set".as_bytes()) {
            Some(method) => {
                if same_bytes(method, "power".as_bytes()) {
                    let value = match parse_bool(payload) {
                        Some(v) => v,
                        None => false,
                    };
                    self.set_power(value, ch);
                } else if same_bytes(method, "mode".as_bytes()) {
                    let mode = match VentilatorMode::from_text(payload) {
                        Some(mode) => mode,
                        None => VentilatorMode::Off,
                    };
                    self.set_mode(&mode, ch);
                } else if same_bytes(method, "fan_speed".as_bytes()) {
                    if same_bytes(payload, "0".as_bytes()) {
                        self.set_power(false, ch);
                    } else {
                        let speed = match VentilatorFanSpeed::from_text(payload) {
                            Some(speed) => speed,
                            None => VentilatorFanSpeed::Low,
                        };
                        Self::set_fan_speed(&speed, ch);
                    }
                } else if same_bytes(method, "timer".as_bytes()) {
                    let minutes = match parse_bounded(payload, MAX_TIMER_MINUTES) {
                        Some(minutes) => minutes,
                        None => 0,
                    };
                    let time = TimeSpan::from_minutes(minutes);
                    self.set_timer(&time, ch);
                }
            },
            None => {},
        }
        assert(ch@.queued =~= old(ch)@.queued + self.commands(pk@.topic, pk@.payload));
    }
}

} // verus!
