//! The event model: what arrives from the broker, what travels through the
//! pipeline, and the subscriptions that connect the two.

use vstd::prelude::*;

verus! {

/// One reading as it arrives on a topic. The two measurements are carried as
/// IEEE 754 single-precision bit patterns.
#[derive(Debug, PartialEq, Eq)]
pub struct RawMqttEvent {
    pub battery: u8,
    pub humidity: u32,
    pub temperature: u32,
    pub voltage: u16,
    pub linkquality: Option<u8>,
}

/// The mathematical value of a [`RawMqttEvent`].
pub struct RawMqttEventView {
    pub battery: u8,
    pub humidity: u32,
    pub temperature: u32,
    pub voltage: u16,
    pub linkquality: Option<u8>,
}

impl View for RawMqttEvent {
    type V = RawMqttEventView;

    open spec fn view(&self) -> RawMqttEventView {
        RawMqttEventView {
            battery: self.battery,
            humidity: self.humidity,
            temperature: self.temperature,
            voltage: self.voltage,
            linkquality: self.linkquality,
        }
    }
}

impl Clone for RawMqttEvent {
    fn clone(&self) -> (copy: Self)
        ensures
            copy == *self,
    {
        RawMqttEvent {
            battery: self.battery,
            humidity: self.humidity,
            temperature: self.temperature,
            voltage: self.voltage,
            linkquality: self.linkquality,
        }
    }
}

/// A reading together with the device it came from. Built once and never
/// changed afterwards; a clone is equal to the event it was made from, so
/// every branch of a fan-out sees the same event.
#[derive(Debug, PartialEq, Eq)]
pub struct Event {
    pub device_name: String,
    pub battery: u8,
    pub humidity: u32,
    pub temperature: u32,
    pub voltage: u16,
    pub linkquality: Option<u8>,
}

/// The mathematical value of an [`Event`].
pub struct EventView {
    pub device_name: Seq<char>,
    pub battery: u8,
    pub humidity: u32,
    pub temperature: u32,
    pub voltage: u16,
    pub linkquality: Option<u8>,
}

impl View for Event {
    type V = EventView;

    open spec fn view(&self) -> EventView {
        EventView {
            device_name: self.device_name@,
            battery: self.battery,
            humidity: self.humidity,
            temperature: self.temperature,
            voltage: self.voltage,
            linkquality: self.linkquality,
        }
    }
}

impl Clone for Event {
    fn clone(&self) -> (copy: Self)
        ensures
            copy == *self,
    {
        Event {
            device_name: self.device_name.clone(),
            battery: self.battery,
            humidity: self.humidity,
            temperature: self.temperature,
            voltage: self.voltage,
            linkquality: self.linkquality,
        }
    }
}

impl Event {
    /// The event that a raw reading becomes once it is tagged with a device:
    /// the name is the given one, every measurement is the reading's own.
    pub open spec fn tagged(source: RawMqttEventView, device_name: Seq<char>) -> EventView {
        EventView {
            device_name,
            battery: source.battery,
            humidity: source.humidity,
            temperature: source.temperature,
            voltage: source.voltage,
            linkquality: source.linkquality,
        }
    }

    /// An event carries a device identity exactly when its name is not empty.
    pub open spec fn has_identity(&self) -> bool {
        self.device_name@.len() > 0
    }

    /// Turns a raw reading into an event of the named device.
    pub fn from_mqtt(source: RawMqttEvent, device_name: &str) -> (event: Event)
        ensures
            event@ == Event::tagged(source@, device_name@),
            event.has_identity() <==> device_name@.len() > 0,
    {
        Event {
            device_name: device_name.to_owned(),
            battery: source.battery,
            humidity: source.humidity,
            temperature: source.temperature,
            voltage: source.voltage,
            linkquality: source.linkquality,
        }
    }
}

/// Ties a broker topic to the device whose readings are published on it.
#[derive(Debug, PartialEq, Eq)]
pub struct Subscription {
    pub topic: String,
    pub device_name: String,
}

/// The mathematical value of a [`Subscription`].
pub struct SubscriptionView {
    pub topic: Seq<char>,
    pub device_name: Seq<char>,
}

impl View for Subscription {
    type V = SubscriptionView;

    open spec fn view(&self) -> SubscriptionView {
        SubscriptionView { topic: self.topic@, device_name: self.device_name@ }
    }
}

impl Clone for Subscription {
    fn clone(&self) -> (copy: Self)
        ensures
            copy == *self,
    {
        Subscription { topic: self.topic.clone(), device_name: self.device_name.clone() }
    }
}

} // verus!
