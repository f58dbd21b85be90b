use volp_raspberrypi::sink::{AudioFormat, CaptureBuffer};
use volp_raspberrypi::telemetry::{link_payload, publish_step, PublishAction, PublishState, TransportEvent, TOPIC};
use volp_raspberrypi::upload::extract_link;

#[test]
fn three_second_capture_to_published_link() {
    let format = AudioFormat::recorder();
    let mut buf = CaptureBuffer::new(format);
    let frame: Vec<i32> = (0..441).map(|i| (i as i32 - 220) * 65536).collect();
    for _ in 0..300 {
        buf.write_i32(&frame);
    }
    let bytes = buf.finalize().unwrap();
    assert_eq!(bytes.len(), 44 + 2 * 3 * 44100);

    let link = extract_link("{\"id\":\"file42\"}").unwrap();
    assert_eq!(link, "https://drive.google.com/uc?id=file42");
    let payload = link_payload(&link);
    assert_eq!(payload, "{\"link\":\"https://drive.google.com/uc?id=file42\"}");
    assert_eq!(TOPIC, "volp/share/link");

    let mut state = PublishState::Connecting;
    let mut done = None;
    for e in [TransportEvent::ConnAck, TransportEvent::Other, TransportEvent::PublishSent] {
        let (next, action) = publish_step(state, e);
        state = next;
        if action != PublishAction::Poll {
            assert_eq!(e, TransportEvent::PublishSent);
            done = Some(action);
        }
    }
    assert_eq!(done, Some(PublishAction::Succeed));
}
