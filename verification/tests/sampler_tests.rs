use power_sampler::catalog::DeviceIdentity;
use power_sampler::config::{
    AltSetting, ConfigDesc, EndpointDesc, EndpointDir, InterfaceDesc, TransferKind,
};
use power_sampler::device::{DeviceInterface, UsbCandidate, INITIAL_VALUE};
use power_sampler::dummy::DummyDevice;
use power_sampler::sampler::{MeterDevice, PowerMeter, PowerSampler};
use power_sampler::shizuku::ShizukuDevice;

fn discoverable_config() -> ConfigDesc {
    ConfigDesc {
        interfaces: vec![InterfaceDesc {
            number: 0,
            alt_settings: vec![AltSetting {
                endpoints: vec![
                    EndpointDesc {
                        address: 0x81,
                        direction: EndpointDir::In,
                        transfer: TransferKind::Bulk,
                    },
                    EndpointDesc {
                        address: 0x01,
                        direction: EndpointDir::Out,
                        transfer: TransferKind::Bulk,
                    },
                ],
            }],
        }],
    }
}

fn bare_config() -> ConfigDesc {
    ConfigDesc { interfaces: vec![] }
}

fn candidate(product_id: u16, config: ConfigDesc) -> UsbCandidate {
    UsbCandidate {
        identity: DeviceIdentity { vendor_id: 0x1A2B, product_id },
        config,
    }
}

#[test]
fn unknown_id_yields_no_session() {
    let c = candidate(0x1234, discoverable_config());
    let back = ShizukuDevice::try_create(c.clone());
    assert_eq!(back, Err(c));
}

#[test]
fn dummy_variant_claims_nothing() {
    for pid in [0x0000u16, 0x1234, 0x374B, 0xFFFF] {
        let c = candidate(pid, bare_config());
        assert_eq!(DummyDevice::try_create(c.clone()), Err(c));
    }
}

#[test]
fn every_known_id_yields_a_session() {
    for pid in [0xFFFFu16, 0xFFFE, 0x374B] {
        let s = ShizukuDevice::try_create(candidate(pid, discoverable_config()))
            .expect("id is in the supported family");
        assert_eq!(s.device.identity.product_id, pid);
        assert_eq!(s.current_value, INITIAL_VALUE);
        assert!(!s.stop_flag);
        assert!(s.last_request_id.is_none());
        assert!(s.expected_replies.is_none());
    }
}

#[test]
fn first_matching_variant_wins() {
    let m = PowerMeter::try_create(candidate(0x374B, discoverable_config()))
        .expect("the hardware variant claims this id");
    assert!(matches!(m.underlying_device, MeterDevice::Shizuku(_)));
    assert!(m.healthy);
    assert!(!m.started);
}

#[test]
fn unclaimed_candidate_comes_back_untouched() {
    let c = candidate(0x1234, discoverable_config());
    assert_eq!(PowerMeter::try_create(c.clone()), Err(c));
}

#[test]
fn sample_is_idempotent_between_cycles() {
    let mut s = ShizukuDevice::try_create(candidate(0xFFFF, discoverable_config()))
        .expect("known id");
    assert_eq!(s.sample(), s.sample());
    s.sampling_cycle();
    assert_eq!(s.sample(), s.sample());
    assert_eq!(s.sample(), INITIAL_VALUE + 1);
}

#[test]
fn stop_sampling_reaches_the_terminating_state() {
    let mut s = ShizukuDevice::try_create(candidate(0xFFFE, discoverable_config()))
        .expect("known id");
    assert!(s.sampling_cycle(), "loop continues before a stop request");
    s.stop_sampling();
    assert!(!s.sampling_cycle(), "loop exits once the stop flag is terminal");
}

#[test]
fn begin_sampling_discovers_endpoints() {
    let mut s = ShizukuDevice::try_create(candidate(0x374B, discoverable_config()))
        .expect("known id");
    let plan = s.begin_sampling().expect("config has both bulk directions");
    assert_eq!(plan.endpoint_in, 0x81);
    assert_eq!(plan.endpoint_out, 0x01);
    assert_eq!(s.device.claimed, vec![0]);
}

#[test]
fn scenario_supported_device_samples_42_then_43() {
    let mut sampler = PowerSampler::init();
    sampler.find_meters(vec![candidate(0x374B, discoverable_config())]);
    assert_eq!(sampler.list_meters().len(), 1);

    let before = sampler.sample_all();
    assert_eq!(before.len(), 1);
    assert_eq!(before[0].value, 42);
    assert!(before[0].healthy);

    let plans = sampler.start();
    assert_eq!(plans.len(), 1);
    assert!(plans[0].is_some(), "a discoverable config yields a channel plan");

    let cont = sampler.cycle_meter(0);
    assert!(cont);
    let after = sampler.sample_all();
    assert_eq!(after[0].value, 43);
    assert!(after[0].healthy);
}

#[test]
fn scenario_unsupported_device_never_appears() {
    let mut sampler = PowerSampler::init();
    sampler.find_meters(vec![candidate(0x1234, discoverable_config())]);
    assert_eq!(sampler.list_meters().len(), 0);
    assert!(sampler.sample_all().is_empty());
}

#[test]
fn find_meters_keeps_enumeration_order_of_matches() {
    let mut sampler = PowerSampler::init();
    sampler.find_meters(vec![
        candidate(0x374B, discoverable_config()),
        candidate(0x1234, discoverable_config()),
        candidate(0xFFFF, discoverable_config()),
    ]);
    let meters = sampler.list_meters();
    assert_eq!(meters.len(), 2);
    match (&meters[0].underlying_device, &meters[1].underlying_device) {
        (MeterDevice::Shizuku(a), MeterDevice::Shizuku(b)) => {
            assert_eq!(a.device.identity.product_id, 0x374B);
            assert_eq!(b.device.identity.product_id, 0xFFFF);
        }
        _ => panic!("both matched candidates become hardware sessions"),
    }
}

#[test]
fn sessions_progress_independently() {
    let mut sampler = PowerSampler::init();
    for _ in 0..3 {
        sampler.add_device(PowerMeter::from(MeterDevice::Dummy(DummyDevice::init())));
    }
    sampler.cycle_meter(0);
    sampler.cycle_meter(1);
    sampler.cycle_meter(1);

    sampler.stop_meter(0);
    sampler.cycle_meter(1);
    sampler.cycle_meter(2);

    let values: Vec<i32> = sampler.sample_all().iter().map(|r| r.value).collect();
    assert_eq!(values, vec![43, 45, 43]);
}

#[test]
fn stopping_one_session_leaves_the_others_running() {
    let mut sampler = PowerSampler::init();
    for _ in 0..2 {
        sampler.add_device(PowerMeter::from(MeterDevice::Dummy(DummyDevice::init())));
    }
    sampler.stop_meter(0);
    assert!(!sampler.cycle_meter(0), "the stopped session's loop exits");
    assert!(sampler.cycle_meter(1), "the other session keeps running");
}

#[test]
fn stop_fans_out_and_preserves_values() {
    let mut sampler = PowerSampler::init();
    for _ in 0..3 {
        sampler.add_device(PowerMeter::from(MeterDevice::Dummy(DummyDevice::init())));
    }
    sampler.cycle_meter(2);
    let before: Vec<i32> = sampler.sample_all().iter().map(|r| r.value).collect();
    sampler.stop();
    let after: Vec<i32> = sampler.sample_all().iter().map(|r| r.value).collect();
    assert_eq!(before, after);
    for i in 0..3 {
        assert!(!sampler.cycle_meter(i), "every loop exits after the fan-out");
    }
}

#[test]
fn failed_discovery_marks_the_session_unhealthy() {
    let mut sampler = PowerSampler::init();
    sampler.find_meters(vec![candidate(0xFFFF, bare_config())]);
    assert_eq!(sampler.list_meters().len(), 1);

    let plans = sampler.start();
    assert!(plans[0].is_none(), "no endpoints, no channel plan");
    let snapshot = sampler.sample_all();
    assert!(!snapshot[0].healthy);
    assert_eq!(snapshot[0].value, 42, "the cached value is still readable");
}

#[test]
fn dummy_session_starts_at_the_initial_value() {
    let d = DummyDevice::init();
    assert_eq!(d.sample(), 42);
    assert!(!d.stop_flag);
}
