use mining_net::message::{MessageBus, NetAddr};

#[test]
fn addr_of_every_variant() {
    let a = NetAddr::V4 { ip: 0x0a000001, port: 80 };
    let b = NetAddr::V6 { ip: 1, port: 443, flowinfo: 0, scope_id: 2 };
    assert_eq!(*MessageBus::Connect { addr: a }.addr(), a);
    assert_eq!(
        *MessageBus::Message { addr: b, message_id: 7, len: 3, message: Box::new(vec![1, 2, 3]) }
            .addr(),
        b
    );
    assert_eq!(*MessageBus::Ack { addr: a, id: 1 }.addr(), a);
    assert_eq!(*MessageBus::CAck { addr: b, id: 2 }.addr(), b);
}

#[test]
fn addresses_differ_by_port_and_family() {
    let a = NetAddr::V4 { ip: 0x7f000001, port: 80 };
    let b = NetAddr::V4 { ip: 0x7f000001, port: 81 };
    let c = NetAddr::V6 { ip: 0x7f000001, port: 80, flowinfo: 0, scope_id: 0 };
    assert_ne!(a, b);
    assert_ne!(a, c);
}
