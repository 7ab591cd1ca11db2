use mining_net::error::{BusError, CloseSignalError, IoErrorKind};
use mining_net::message::{MessageBus, NetAddr};
use mining_net::server::{
    handle_message, listen_step, serve_step, ListenAction, ListenEvent, Outgoing, ServeAction,
    ServeEvent, ServerCreated, ServerRunning,
};

fn running() -> ServerRunning {
    ServerCreated::builder().finish_run(Ok(())).ok().unwrap()
}

fn v4(ip: u32, port: u16) -> NetAddr {
    NetAddr::V4 { ip, port }
}

fn data_message(addr: NetAddr, data: Vec<u8>) -> MessageBus {
    MessageBus::Message { addr, message_id: 0, len: data.len(), message: Box::new(data) }
}

#[test]
fn bind_address_default() {
    assert_eq!(ServerCreated::builder().bind_address(), "0.0.0.0:8080");
}

#[test]
fn finish_run_passes_error() {
    let r = ServerCreated::builder().finish_run(Err(BusError::InvalidAddress));
    assert!(matches!(r, Err(BusError::InvalidAddress)));
}

#[test]
fn new_server_is_empty() {
    let mut s = running();
    assert_eq!(s.read(), Err(BusError::NoData));
    assert_eq!(s.read_close(), Ok(vec![]));
    assert_eq!(s.client_list(), Ok(vec![]));
    assert_eq!(s.is_valid(0), Ok(false));
    assert_eq!(s.read_id(0), Err(BusError::UnknownConnection(0)));
    assert_eq!(
        s.write_id(0, MessageBus::Connect { addr: v4(1, 2) }),
        Err(BusError::UnknownConnection(0))
    );
    assert_eq!(s.write("WOW".as_bytes()), Ok(()));
    assert!(s.take_outbox().is_empty());
}

#[test]
fn connect_is_accepted_once() {
    let mut s = running();
    let a = v4(0x7f000001, 4000);
    assert_eq!(s.receive(MessageBus::Connect { addr: a }), Ok(()));
    assert_eq!(s.client_list(), Ok(vec![0]));
    assert_eq!(s.is_valid(0), Ok(true));
    let out = s.take_outbox();
    assert_eq!(out.len(), 1);
    assert!(matches!(out[0], Outgoing::Accepted { to, id: 0 } if to == a));
    assert_eq!(s.receive(MessageBus::Connect { addr: a }), Ok(()));
    assert_eq!(s.client_list(), Ok(vec![0]));
    assert!(s.take_outbox().is_empty());
    let b = v4(0x7f000001, 4001);
    assert_eq!(s.receive(MessageBus::Connect { addr: b }), Ok(()));
    assert_eq!(s.client_list(), Ok(vec![0, 1]));
}

#[test]
fn client_data_is_read_in_order() {
    let mut s = running();
    let a = v4(1, 1);
    let b = v4(2, 2);
    s.receive(MessageBus::Connect { addr: a }).unwrap();
    s.receive(MessageBus::Connect { addr: b }).unwrap();
    s.receive(data_message(a, vec![1])).unwrap();
    s.receive(data_message(b, vec![2])).unwrap();
    s.receive(data_message(a, vec![3])).unwrap();
    // from a client that never connected: ignored
    s.receive(data_message(v4(9, 9), vec![9])).unwrap();
    assert_eq!(s.read_id(1), Ok(vec![2]));
    assert_eq!(s.read_id(1), Err(BusError::NoData));
    assert_eq!(s.read(), Ok(vec![1]));
    assert_eq!(s.read(), Ok(vec![3]));
    assert_eq!(s.read(), Err(BusError::NoData));
}

#[test]
fn acks_change_nothing() {
    let mut s = running();
    let a = v4(1, 1);
    s.receive(MessageBus::Connect { addr: a }).unwrap();
    s.take_outbox();
    assert_eq!(s.receive(MessageBus::Ack { addr: a, id: 0 }), Ok(()));
    assert_eq!(s.receive(MessageBus::CAck { addr: a, id: 0 }), Ok(()));
    assert_eq!(s.read(), Err(BusError::NoData));
    assert!(s.take_outbox().is_empty());
}

#[test]
fn write_sends_a_task_to_every_connection() {
    let mut s = running();
    let a = v4(1, 1);
    let b = v4(2, 2);
    s.receive(MessageBus::Connect { addr: a }).unwrap();
    s.receive(MessageBus::Connect { addr: b }).unwrap();
    s.take_outbox();
    assert_eq!(s.write(&[5, 6]), Ok(()));
    assert_eq!(s.write(&[7]), Ok(()));
    let out = s.take_outbox();
    assert_eq!(out.len(), 4);
    match &out[0] {
        Outgoing::Task { to, message_id, data } => {
            assert_eq!(*to, a);
            assert_eq!(*message_id, 0);
            assert_eq!(*data, vec![5, 6]);
        }
        _ => panic!("expected a task"),
    }
    assert!(matches!(out[1], Outgoing::Task { to, message_id: 0, .. } if to == b));
    assert!(matches!(out[2], Outgoing::Task { to, message_id: 1, .. } if to == a));
    assert!(matches!(out[3], Outgoing::Task { to, message_id: 1, .. } if to == b));
}

#[test]
fn write_id_sends_to_one_connection() {
    let mut s = running();
    let a = v4(1, 1);
    s.receive(MessageBus::Connect { addr: a }).unwrap();
    s.take_outbox();
    assert_eq!(s.write_id(0, MessageBus::Ack { addr: v4(3, 3), id: 4 }), Ok(()));
    let out = s.take_outbox();
    assert_eq!(out.len(), 1);
    assert!(matches!(out[0], Outgoing::Message { to, message: MessageBus::Ack { id: 4, .. } } if to == a));
}

#[test]
fn dropped_connection_is_reported_once() {
    let mut s = running();
    let a = v4(1, 1);
    let b = v4(2, 2);
    s.receive(MessageBus::Connect { addr: a }).unwrap();
    s.receive(MessageBus::Connect { addr: b }).unwrap();
    s.receive(data_message(a, vec![1])).unwrap();
    s.drop_connection(a);
    s.drop_connection(v4(7, 7));
    assert_eq!(s.client_list(), Ok(vec![1]));
    assert_eq!(s.is_valid(0), Ok(false));
    assert_eq!(s.read_id(0), Err(BusError::UnknownConnection(0)));
    assert_eq!(s.read_close(), Ok(vec![0]));
    assert_eq!(s.read_close(), Ok(vec![]));
    // what it sent before it dropped is still readable
    assert_eq!(s.read(), Ok(vec![1]));
}

#[test]
fn close_gives_closed_server_with_close_command_last() {
    let mut s = running();
    let a = v4(1, 1);
    s.receive(MessageBus::Connect { addr: a }).unwrap();
    let mut c = s.close();
    assert!(c.is_closed());
    let out = c.take_outbox();
    assert_eq!(out.len(), 2);
    assert!(matches!(out[0], Outgoing::Accepted { id: 0, .. }));
    assert!(matches!(out[1], Outgoing::CloseCommand));
    assert!(c.take_outbox().is_empty());
}

#[test]
fn listener_forwards_message_from_named_sender() {
    let from = v4(0x7f000001, 5000);
    let m = MessageBus::Message { addr: from, message_id: 1, len: 2, message: Box::new(vec![9, 9]) };
    match listen_step(ListenEvent::Datagram { from, message: Some(m) }) {
        ListenAction::Forward(MessageBus::Message { addr, message_id, len, message }) => {
            assert_eq!(addr, from);
            assert_eq!(message_id, 1);
            assert_eq!(len, 2);
            assert_eq!(*message, vec![9, 9]);
        }
        _ => panic!("expected the message to be forwarded"),
    }
}

#[test]
fn listener_drops_spoofed_message() {
    let from = v4(0x7f000001, 5000);
    let m = MessageBus::Connect { addr: v4(0x7f000002, 5000) };
    assert!(matches!(
        listen_step(ListenEvent::Datagram { from, message: Some(m) }),
        ListenAction::Continue
    ));
    let m = MessageBus::CAck { addr: v4(0x7f000001, 5001), id: 4 };
    assert!(matches!(handle_message(&from, Some(m)), Ok(None)));
}

#[test]
fn listener_stops_on_undecodable_datagram() {
    let from = v4(1, 1);
    assert!(matches!(
        listen_step(ListenEvent::Datagram { from, message: None }),
        ListenAction::Stop(Err(BusError::Decode))
    ));
    assert!(matches!(handle_message(&from, None), Err(BusError::Decode)));
}

#[test]
fn listener_close_signal() {
    assert!(matches!(
        listen_step(ListenEvent::CloseSignal(Ok(()))),
        ListenAction::Stop(Ok(()))
    ));
    assert!(matches!(
        listen_step(ListenEvent::CloseSignal(Err(CloseSignalError::Closed))),
        ListenAction::Stop(Err(BusError::CloseSignal(CloseSignalError::Closed)))
    ));
    assert!(matches!(
        listen_step(ListenEvent::CloseSignal(Err(CloseSignalError::Lagged(3)))),
        ListenAction::Stop(Err(BusError::CloseSignal(CloseSignalError::Lagged(3))))
    ));
}

#[test]
fn listener_receive_failures() {
    for kind in [IoErrorKind::WouldBlock, IoErrorKind::Interrupted, IoErrorKind::ConnectionAborted] {
        assert!(matches!(listen_step(ListenEvent::RecvFailed(kind)), ListenAction::Continue));
    }
    assert!(matches!(
        listen_step(ListenEvent::RecvFailed(IoErrorKind::ConnectionReset)),
        ListenAction::Stop(Err(BusError::Io(IoErrorKind::ConnectionReset)))
    ));
}

#[test]
fn listener_delivery() {
    assert!(matches!(listen_step(ListenEvent::Delivered(true)), ListenAction::Continue));
    assert!(matches!(
        listen_step(ListenEvent::Delivered(false)),
        ListenAction::Stop(Err(BusError::ChannelClosed))
    ));
}

#[test]
fn serve_loop_steps() {
    assert!(matches!(serve_step(ServeEvent::Started(true)), ServeAction::Continue));
    assert!(matches!(
        serve_step(ServeEvent::Started(false)),
        ServeAction::Finish(Err(BusError::StartCancelled))
    ));
    assert!(matches!(
        serve_step(ServeEvent::NewConnection(Some(MessageBus::Connect { addr: v4(1, 1) }))),
        ServeAction::Deliver(MessageBus::Connect { .. })
    ));
    assert!(matches!(serve_step(ServeEvent::NewConnection(None)), ServeAction::Continue));
    assert!(matches!(
        serve_step(ServeEvent::ClientRead(Some(Outgoing::Accepted { to: v4(1, 1), id: 3 }))),
        ServeAction::Transmit(Outgoing::Accepted { id: 3, .. })
    ));
    assert!(matches!(
        serve_step(ServeEvent::ClientRead(Some(Outgoing::CloseCommand))),
        ServeAction::Finish(Ok(()))
    ));
    assert!(matches!(serve_step(ServeEvent::ClientRead(None)), ServeAction::Continue));
    assert!(matches!(serve_step(ServeEvent::CloseCommand), ServeAction::Finish(Ok(()))));
}
