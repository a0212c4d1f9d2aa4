use kad::network::{
    delivered, receive, send_request, send_response, ChannelError, Dial, Inbound, IoError,
    RpcError, RpcMessage,
};
use kad::util::{Addr, HashId, IpAddr, Peer, SinglePeer};

fn addr(port: u16) -> Addr {
    Addr(IpAddr::V4(0x7f00_0001), port)
}

fn peer(ports: &[u16]) -> Peer {
    Peer {
        id: HashId::from(1u128),
        addresses: ports.iter().map(|p| (addr(*p), 0usize)).collect(),
    }
}

fn dial(ports: &[u16], up: &[u16]) -> (Vec<Addr>, Result<SinglePeer, SinglePeer>) {
    let mut tried = Vec::new();
    let mut dial = Dial::connect_peer(peer(ports));
    loop {
        tried.push(dial.addr());
        if up.contains(&dial.addr().1) {
            return (tried, Ok(dial.connected()));
        }
        match dial.failed() {
            Ok(next) => dial = next,
            Err(last) => return (tried, Err(last)),
        }
    }
}

#[test]
fn first_reachable_address_is_connected() {
    let (tried, end) = dial(&[8000, 8001, 8002], &[8001, 8002]);
    assert_eq!(tried, vec![addr(8000), addr(8001)]);
    assert_eq!(end, Ok(SinglePeer::new(HashId::from(1u128), addr(8001))));
}

#[test]
fn peer_out_of_reach_ends_with_its_last_address() {
    let (tried, end) = dial(&[8000, 8001], &[]);
    assert_eq!(tried, vec![addr(8000), addr(8001)]);
    assert_eq!(end, Err(SinglePeer::new(HashId::from(1u128), addr(8001))));
    let (_, end) = dial(&[8000], &[]);
    assert_eq!(end, Err(SinglePeer::new(HashId::from(1u128), addr(8000))));
}

#[test]
fn messages_go_to_the_other_side() {
    let request: RpcMessage<u8, char> = send_request(7);
    let response: RpcMessage<u8, char> = send_response('x');
    assert!(matches!(receive(Some(Ok(request))), Inbound::ToServer(7)));
    assert!(matches!(receive(Some(Ok(response))), Inbound::ToClient('x')));
}

#[test]
fn closed_connection_ends_without_an_error() {
    let end: Inbound<u8, char> = receive(None);
    assert!(matches!(end, Inbound::Stop(Ok(()))));
}

#[test]
fn failures_end_the_exchange() {
    let end: Inbound<u8, char> = receive(Some(Err(IoError("reset".to_string()))));
    match end {
        Inbound::Stop(Err(e)) => {
            assert!(matches!(e, RpcError::IOError(_)));
            assert_eq!(e.message(), "reset");
        }
        _ => panic!("not an end"),
    }
    assert!(delivered(Ok(())).is_ok());
    let e = delivered(Err(ChannelError("gone".to_string()))).unwrap_err();
    assert!(matches!(e, RpcError::ChannelError(_)));
    assert_eq!(e.message(), "gone");
}

/// Hands on what a connection gives while the sides take it, the first `room`
/// messages.
fn exchange(
    items: Vec<Result<RpcMessage<u8, char>, IoError>>,
    room: usize,
) -> (Vec<u8>, Vec<char>, Result<(), RpcError>) {
    let mut requests = vec![];
    let mut responses = vec![];
    let mut items = items.into_iter();
    loop {
        let full = requests.len() + responses.len() == room;
        let sent = if full { Err(ChannelError("full".to_string())) } else { Ok(()) };
        match receive(items.next()) {
            Inbound::Stop(end) => return (requests, responses, end),
            Inbound::ToServer(request) => match delivered(sent) {
                Ok(()) => requests.push(request),
                end => return (requests, responses, end),
            },
            Inbound::ToClient(response) => match delivered(sent) {
                Ok(()) => responses.push(response),
                end => return (requests, responses, end),
            },
        }
    }
}

#[test]
fn messages_are_handed_on_until_the_end() {
    let items = || {
        vec![
            Ok(send_request(1)),
            Ok(send_response('a')),
            Ok(send_request(2)),
            Err(IoError("reset".to_string())),
            Ok(send_response('b')),
        ]
    };
    let (requests, responses, end) = exchange(items(), 9);
    assert_eq!((requests, responses), (vec![1, 2], vec!['a']));
    assert!(matches!(end, Err(RpcError::IOError(e)) if e.0 == "reset"));

    let (requests, responses, end) = exchange(items(), 2);
    assert_eq!((requests, responses), (vec![1], vec!['a']));
    assert!(matches!(end, Err(RpcError::ChannelError(e)) if e.0 == "full"));

    let (requests, responses, end) = exchange(vec![Ok(send_request(1))], 9);
    assert_eq!((requests, responses), (vec![1], vec![]));
    assert!(end.is_ok());
}
