use power_sampler::catalog::{id_matches, DeviceIdentity};
use power_sampler::config::{
    collect_entries, AltSetting, ConfigDesc, EndpointDesc, EndpointDir, InterfaceDesc,
    TransferKind,
};
use power_sampler::device::{UsbAction, UsbCandidate, UsbError, USBDevice, DEFAULT_TIMEOUT_MS};
use power_sampler::shizuku::{frame_command, BEGIN_DATA, CMD_START_SAMPLING, CMD_STOP, END_DATA};

fn ep(address: u8, direction: EndpointDir, transfer: TransferKind) -> EndpointDesc {
    EndpointDesc { address, direction, transfer }
}

fn iface(number: u8, endpoints: Vec<EndpointDesc>) -> InterfaceDesc {
    InterfaceDesc { number, alt_settings: vec![AltSetting { endpoints }] }
}

fn candidate(product_id: u16, config: ConfigDesc) -> UsbCandidate {
    UsbCandidate {
        identity: DeviceIdentity { vendor_id: 0x1A2B, product_id },
        config,
    }
}

fn opened(product_id: u16, config: ConfigDesc) -> USBDevice {
    USBDevice::create_if_matching_id(candidate(product_id, config), &[product_id])
        .expect("id is in the table")
}

#[test]
fn id_matches_is_exact_membership() {
    let ids: Vec<u16> = vec![0xFFFF, 0xFFFE, 0x374B];
    assert!(id_matches(0x374B, &ids));
    assert!(id_matches(0xFFFE, &ids));
    assert!(!id_matches(0x374A, &ids));
    assert!(!id_matches(0x1234, &ids));
    assert!(!id_matches(0x374B, &[]));
}

#[test]
fn create_if_matching_id_accepts_member() {
    let c = candidate(0x374B, ConfigDesc { interfaces: vec![] });
    let d = USBDevice::create_if_matching_id(c, &[0xFFFF, 0x374B]).expect("member id");
    assert_eq!(d.identity.product_id, 0x374B);
    assert_eq!(d.timeout_ms, DEFAULT_TIMEOUT_MS);
    assert!(!d.was_reset);
    assert!(d.claimed.is_empty());
    assert!(d.endpoint_in.is_none());
    assert!(d.endpoint_out.is_none());
}

#[test]
fn create_if_matching_id_returns_nonmember_untouched() {
    let c = candidate(0x1234, ConfigDesc { interfaces: vec![] });
    let back = USBDevice::create_if_matching_id(c.clone(), &[0xFFFF, 0x374B]);
    assert_eq!(back, Err(c));
}

#[test]
fn walk_is_in_descriptor_order() {
    let config = ConfigDesc {
        interfaces: vec![
            iface(2, vec![ep(0x81, EndpointDir::In, TransferKind::Interrupt)]),
            InterfaceDesc {
                number: 5,
                alt_settings: vec![
                    AltSetting { endpoints: vec![ep(0x02, EndpointDir::Out, TransferKind::Bulk)] },
                    AltSetting { endpoints: vec![ep(0x83, EndpointDir::In, TransferKind::Bulk)] },
                ],
            },
        ],
    };
    let entries = collect_entries(&config);
    assert_eq!(entries.len(), 3);
    assert_eq!(entries[0].interface_number, 2);
    assert_eq!(entries[0].endpoint.address, 0x81);
    assert_eq!(entries[1].interface_number, 5);
    assert_eq!(entries[1].endpoint.address, 0x02);
    assert_eq!(entries[2].interface_number, 5);
    assert_eq!(entries[2].endpoint.address, 0x83);
}

#[test]
fn discovery_same_interface_claims_it_exactly_once() {
    let config = ConfigDesc {
        interfaces: vec![iface(
            3,
            vec![
                ep(0x81, EndpointDir::In, TransferKind::Bulk),
                ep(0x01, EndpointDir::Out, TransferKind::Bulk),
            ],
        )],
    };
    let mut d = opened(0x374B, config);
    d.reset();
    let plan = d.find_bulk_in_out_end_points().expect("both directions present");
    assert_eq!(plan.endpoint_in, 0x81);
    assert_eq!(plan.endpoint_out, 0x01);
    assert_eq!(plan.interface_in, 3);
    assert_eq!(plan.interface_out, 3);
    assert_eq!(
        plan.actions,
        vec![UsbAction::ClaimInterface(3), UsbAction::DetachKernelDriver(3)]
    );
    assert_eq!(d.claimed, vec![3]);
    assert_eq!(d.endpoint_in, Some(0x81));
    assert_eq!(d.endpoint_out, Some(0x01));
}

#[test]
fn discovery_without_bulk_endpoints_claims_nothing() {
    let config = ConfigDesc {
        interfaces: vec![iface(
            0,
            vec![
                ep(0x81, EndpointDir::In, TransferKind::Interrupt),
                ep(0x01, EndpointDir::Out, TransferKind::Isochronous),
            ],
        )],
    };
    let mut d = opened(0xFFFF, config);
    d.reset();
    let r = d.find_bulk_in_out_end_points();
    assert_eq!(r, Err(UsbError::NoMatchingEndpoints));
    assert!(d.claimed.is_empty());
    assert!(d.endpoint_in.is_none());
    assert!(d.endpoint_out.is_none());
}

#[test]
fn discovery_missing_one_direction_fails() {
    let config = ConfigDesc {
        interfaces: vec![iface(0, vec![ep(0x81, EndpointDir::In, TransferKind::Bulk)])],
    };
    let mut d = opened(0xFFFF, config);
    d.reset();
    assert_eq!(
        d.find_bulk_in_out_end_points(),
        Err(UsbError::NoMatchingEndpoints)
    );
    assert!(d.claimed.is_empty());
}

#[test]
fn discovery_across_interfaces_claims_both_in_order() {
    let config = ConfigDesc {
        interfaces: vec![
            iface(0, vec![ep(0x81, EndpointDir::In, TransferKind::Bulk)]),
            iface(1, vec![ep(0x02, EndpointDir::Out, TransferKind::Bulk)]),
        ],
    };
    let mut d = opened(0x374B, config);
    d.reset();
    let plan = d.find_bulk_in_out_end_points().expect("both directions present");
    assert_eq!((plan.interface_in, plan.interface_out), (0, 1));
    assert_eq!(
        plan.actions,
        vec![
            UsbAction::ClaimInterface(0),
            UsbAction::DetachKernelDriver(1),
            UsbAction::ClaimInterface(1),
        ]
    );
    assert_eq!(d.claimed, vec![0, 1]);
}

#[test]
fn discovery_out_first_detaches_before_claiming() {
    let config = ConfigDesc {
        interfaces: vec![
            iface(4, vec![ep(0x02, EndpointDir::Out, TransferKind::Bulk)]),
            iface(7, vec![ep(0x81, EndpointDir::In, TransferKind::Bulk)]),
        ],
    };
    let mut d = opened(0x374B, config);
    d.reset();
    let plan = d.find_bulk_in_out_end_points().expect("both directions present");
    assert_eq!((plan.interface_in, plan.interface_out), (7, 4));
    assert_eq!(
        plan.actions,
        vec![
            UsbAction::DetachKernelDriver(4),
            UsbAction::ClaimInterface(4),
            UsbAction::ClaimInterface(7),
        ]
    );
    assert_eq!(d.claimed, vec![4, 7]);
}

#[test]
fn discovery_selects_first_bulk_not_first_endpoint() {
    let config = ConfigDesc {
        interfaces: vec![iface(
            0,
            vec![
                ep(0x83, EndpointDir::In, TransferKind::Interrupt),
                ep(0x81, EndpointDir::In, TransferKind::Bulk),
                ep(0x82, EndpointDir::In, TransferKind::Bulk),
                ep(0x01, EndpointDir::Out, TransferKind::Bulk),
            ],
        )],
    };
    let mut d = opened(0xFFFE, config);
    d.reset();
    let plan = d.find_bulk_in_out_end_points().expect("both directions present");
    assert_eq!(plan.endpoint_in, 0x81);
    assert_eq!(plan.endpoint_out, 0x01);
}

#[test]
fn reset_restores_known_state() {
    let config = ConfigDesc {
        interfaces: vec![iface(
            1,
            vec![
                ep(0x81, EndpointDir::In, TransferKind::Bulk),
                ep(0x01, EndpointDir::Out, TransferKind::Bulk),
            ],
        )],
    };
    let mut d = opened(0xFFFF, config);
    d.reset();
    d.find_bulk_in_out_end_points().expect("both directions present");
    assert!(!d.claimed.is_empty());
    d.reset();
    assert!(d.was_reset);
    assert!(d.claimed.is_empty());
    assert!(d.endpoint_in.is_none());
    assert!(d.endpoint_out.is_none());
}

#[test]
fn set_timeout_changes_only_the_timeout() {
    let mut d = opened(0xFFFF, ConfigDesc { interfaces: vec![] });
    d.set_timeout(250);
    assert_eq!(d.timeout_ms, 250);
    assert_eq!(d.identity.product_id, 0xFFFF);
    assert!(!d.was_reset);
}

#[test]
fn frame_command_wraps_payload_in_markers() {
    assert_eq!(
        frame_command(CMD_START_SAMPLING, &[0x10, 0x20]),
        vec![BEGIN_DATA, CMD_START_SAMPLING, 0x10, 0x20, END_DATA]
    );
    assert_eq!(frame_command(CMD_STOP, &[]), vec![0xA5, 0x07, 0x5A]);
}
