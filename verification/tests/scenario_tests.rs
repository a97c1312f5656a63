use esp32cam::cell::BroadcastCell;
use esp32cam::http::{resolve, respond, Body, Method, Route};
use esp32cam::lifecycle::{Event, Lifecycle, Next};
use esp32cam::mjpeg::{encode_part, Relay, RelayStep};
use esp32cam::status::WifiState;

/// A listener stands for a bound port.
#[derive(Debug, PartialEq, Eq)]
struct Port(u16);

/// Answers a request as the device does: nothing listens while idle.
fn get(server: &Lifecycle<Port>, path: &[u8]) -> Option<Route> {
    if server.is_serving() {
        resolve(Method::Get, path)
    } else {
        None
    }
}

#[test]
fn end_to_end_connect_stream_disconnect() {
    let mut status: BroadcastCell<WifiState> = BroadcastCell::new();
    let mut reader = status.subscribe().unwrap();
    let mut server: Lifecycle<Port> = Lifecycle::new();

    // Nothing published yet: the server waits and nothing listens.
    let (after, step) = server.step(Event::Observed(status.observe(&mut reader)));
    server = after;
    assert_eq!(step.next, Next::WaitThenPoll(500));
    assert_eq!(get(&server, b"/"), None);

    // Connectivity comes up.
    status.publish(WifiState::Connected);
    let (after, step) = server.step(Event::Observed(status.observe(&mut reader)));
    server = after;
    assert_eq!(step.next, Next::Start);
    let (after, step) = server.step(Event::Started(Port(80)));
    server = after;
    assert_eq!(step.next, Next::AwaitChange);
    assert_eq!(step.release, None);
    assert!(server.is_serving());
    assert_eq!(status.poll_change(&mut reader), None);

    // The landing page refers to the stream.
    let route = get(&server, b"/").expect("the landing route is served");
    let landing = respond(route);
    assert_eq!(landing.status, 200);
    assert_eq!(landing.headers[0].value, b"text/html".to_vec());
    let page = match landing.body {
        Body::Page(page) => String::from_utf8(page).unwrap(),
        Body::Frames => panic!("the landing page has a fixed body"),
    };
    assert!(page.contains("<img src=\"camera\""));

    // The stream answers with the multipart type and a part per frame.
    let route = get(&server, b"/camera").expect("the stream route is served");
    assert_eq!(route, Route::Stream);
    let stream = respond(route);
    assert_eq!(stream.status, 200);
    assert_eq!(
        stream.headers[0].value,
        b"multipart/x-mixed-replace; boundary=123456789000000000000987654321".to_vec()
    );
    assert_eq!(stream.body, Body::Frames);

    let mut relay = Relay::new();
    let mut received = Vec::new();
    let frame = vec![0xffu8, 0xd8, 0x11, 0x22, 0xff, 0xd9];
    assert_eq!(relay.polled(None), RelayStep::PollAgain);
    match relay.polled(Some(frame.len())) {
        RelayStep::Send { header, separator } => {
            received.extend(header);
            received.extend(frame.iter().copied());
            received.extend(separator);
            relay.written(true);
        }
        other => panic!("expected a part, got {:?}", other),
    }
    assert_eq!(received, encode_part(&frame));

    // The client goes away: only its relay stops.
    assert!(matches!(relay.polled(Some(frame.len())), RelayStep::Send { .. }));
    relay.written(false);
    assert_eq!(relay.polled(Some(frame.len())), RelayStep::Stop);
    assert!(server.is_serving());
    assert_eq!(get(&server, b"/"), Some(Route::Landing));

    // Connectivity drops: the listener is released and nothing listens.
    status.publish(WifiState::Disconnected);
    let change = status.poll_change(&mut reader);
    assert_eq!(change, Some(WifiState::Disconnected));
    let (after, step) = server.step(Event::Observed(change));
    server = after;
    assert_eq!(step.release, Some(Port(80)));
    assert_eq!(step.next, Next::Poll);
    assert!(!server.is_serving());
    assert_eq!(get(&server, b"/"), None);
}
