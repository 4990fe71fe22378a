use futures::FutureExt;
use mqtt2influx_core::services::event_source::{
    Directive, HandlerState, Incoming, CHANNEL_CAPACITY,
};
use mqtt2influx_core::{Event, RawMqttEvent, Subscription, SubscriptionHandler};
use tokio::sync::mpsc::channel;

fn reading(battery: u8) -> RawMqttEvent {
    RawMqttEvent {
        battery,
        humidity: 55.0f32.to_bits(),
        temperature: 19.5f32.to_bits(),
        voltage: 3000,
        linkquality: None,
    }
}

/// Takes one publish through the handler, up to the event that is to be sent.
fn publish(handler: &mut SubscriptionHandler, battery: u8) -> Event {
    assert_eq!(
        handler.step(Incoming::Publish { topic: "t1".to_string() }).directive,
        Directive::Decode
    );
    match handler.step(Incoming::Decoded(reading(battery))).directive {
        Directive::Send(event) => event,
        other => panic!("an event has to be sent, not {:?}", other),
    }
}

#[test]
fn sends_beyond_capacity_suspend() {
    let mut handler = SubscriptionHandler::new(vec![Subscription {
        topic: "t1".to_string(),
        device_name: "d1".to_string(),
    }]);
    let (tx, mut rx) = channel::<Event>(CHANNEL_CAPACITY);

    // The consumer does not come back for more: nothing is received while
    // the channel fills up.
    for n in 0..CHANNEL_CAPACITY {
        let event = publish(&mut handler, n as u8);
        assert!(matches!(tx.send(event).now_or_never(), Some(Ok(()))));
        assert_eq!(handler.step(Incoming::Sent).directive, Directive::Poll);
    }

    // One event more than the channel holds: the send neither completes nor
    // fails, and the handler asks for nothing while it waits.
    let event = publish(&mut handler, CHANNEL_CAPACITY as u8);
    let mut pending = Box::pin(tx.send(event));
    assert!((&mut pending).now_or_never().is_none());
    assert_eq!(handler.state(), HandlerState::Sending);
    assert_eq!(handler.step(Incoming::Other).directive, Directive::Wait);
    assert!((&mut pending).now_or_never().is_none());

    // Room is made, and the send goes through.
    let first = rx.try_recv().expect("the channel is full");
    assert!(matches!((&mut pending).now_or_never(), Some(Ok(()))));
    assert_eq!(handler.step(Incoming::Sent).directive, Directive::Poll);
    drop(pending);
    drop(tx);

    // Nothing was lost and nothing changed places.
    let mut received = vec![first.battery];
    while let Ok(event) = rx.try_recv() {
        assert_eq!(event.device_name, "d1");
        received.push(event.battery);
    }
    let expected: Vec<u8> = (0..=CHANNEL_CAPACITY as u8).collect();
    assert_eq!(received, expected);
}
