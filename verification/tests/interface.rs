use udp_mock::addr::Address;
use udp_mock::iface::Interface;
use udp_mock::iface::LinkError;
use udp_mock::routing::RoutingTable;

fn addr(ip: u32, port: u16) -> Address {
    Address { ip, port }
}

#[test]
fn disable_then_cant_send() {
    let mut table: RoutingTable<u64> = RoutingTable::new();
    let a = addr(0x7f00_0001, 4000);
    let mut iface = Interface::new(&mut table, a, 0);

    iface.disable(&mut table);

    assert_eq!(iface.send_gate().unwrap_err(), LinkError::InterfaceDisabled);
}

#[test]
fn send_gate_follows_enable_disable() {
    let mut table: RoutingTable<u64> = RoutingTable::new();
    let a = addr(0x7f00_0001, 4000);
    let mut iface = Interface::new(&mut table, a, 0);
    assert!(iface.send_gate().is_ok());
    iface.disable(&mut table);
    assert_eq!(iface.send_gate(), Err(LinkError::InterfaceDisabled));
    iface.enable(&mut table);
    assert_eq!(iface.send_gate(), Ok(()));
}

#[test]
fn enable_disable_idempotent() {
    let mut table: RoutingTable<u64> = RoutingTable::new();
    let a = addr(0x7f00_0001, 4000);
    let mut iface = Interface::new(&mut table, a, 7);
    let buf = [9u8];

    iface.disable(&mut table);
    iface.disable(&mut table);
    assert!(table.route(a, &buf, 1).is_none());
    assert!(iface.send_gate().is_err());

    iface.enable(&mut table);
    iface.enable(&mut table);
    assert_eq!(table.dispatch(a), Some(&7));
    assert!(iface.send_gate().is_ok());
}

#[test]
fn update_recv_handler_reenables() {
    let mut table: RoutingTable<u64> = RoutingTable::new();
    let a = addr(8, 8);
    let mut iface = Interface::new(&mut table, a, 1);
    iface.disable(&mut table);
    assert!(table.dispatch(a).is_none());
    iface.update_recv_handler(&mut table, 2);
    assert_eq!(table.dispatch(a), Some(&2));
}

#[test]
fn scenario_two_listeners() {
    const M1: &str = "Hey Josh!";
    const M2: &str = "Hey Cody!";

    // Two listeners on distinct endpoints, each with an interface bound
    // to the other's address.
    let a1 = addr(0x7f00_0001, 5001);
    let a2 = addr(0x7f00_0001, 5002);
    let mut t1: RoutingTable<u64> = RoutingTable::new();
    let mut t2: RoutingTable<u64> = RoutingTable::new();
    let i1 = Interface::new(&mut t1, a2, 1);
    let i2 = Interface::new(&mut t2, a1, 2);

    // Interface 1 sends M1: the datagram reaches listener 2 carrying
    // sender address a1; interface 2's handler receives exactly M1.
    assert!(i1.send_gate().is_ok());
    let (h2, p2) = t2.route(a1, M1.as_bytes(), M1.len()).unwrap();
    assert_eq!(*h2, 2);
    assert_eq!(p2, M1.as_bytes().to_vec());

    // Interface 2 sends M2 the other way; interface 1's handler
    // receives exactly M2.
    assert!(i2.send_gate().is_ok());
    let (h1, p1) = t1.route(a2, M2.as_bytes(), M2.len()).unwrap();
    assert_eq!(*h1, 1);
    assert_eq!(p1, M2.as_bytes().to_vec());
}
