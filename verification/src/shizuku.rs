//! The real-hardware device variant: a power meter of the one supported
//! family, driven over its bulk channel.
//!
//! The supported family answers to three product ids.  Outbound commands
//! are framed as a start marker, a command byte, a payload, and an end
//! marker, with replies correlated by request id; the sampling loop itself
//! still synthesizes an ever-increasing placeholder value and does not yet
//! exercise the discovered endpoints.

use vstd::prelude::*;

use crate::config::{config_entries, EndpointDir};
use crate::device::{
    discovery_ok, has_bulk, ChannelPlan, DeviceInterface, USBDevice, UsbCandidate, UsbError,
    DEFAULT_TIMEOUT_MS, INITIAL_VALUE,
};

verus! {

/// Frame start marker of an outbound command.
pub const BEGIN_DATA: u8 = 0xA5;

/// Frame end marker of an outbound command.
pub const END_DATA: u8 = 0x5A;

/// Command byte asking the device to stop sampling.
pub const CMD_STOP: u8 = 0x7;

/// Command byte asking the device to start sampling.
pub const CMD_START_SAMPLING: u8 = 0x9;

/// The product ids of the supported device family.
pub open spec fn spec_shizuku_id(id: u16) -> bool {
    id == 0xFFFFu16 || id == 0xFFFEu16 || id == 0x374Bu16
}

/// The compiled-in known-id table of the supported family.
pub fn shizuku_product_ids() -> (r: Vec<u16>)
    ensures
        r@ == seq![0xFFFFu16, 0xFFFEu16, 0x374Bu16],
{
    let mut v: Vec<u16> = Vec::new();
    v.push(0xFFFF);
    v.push(0xFFFE);
    v.push(0x374B);
    proof {
        assert(v@ =~= seq![0xFFFFu16, 0xFFFEu16, 0x374Bu16]);
    }
    v
}

/// Builds the wire frame of one outbound command: start marker, command
/// byte, payload, end marker.
pub fn frame_command(command: u8, payload: &[u8]) -> (r: Vec<u8>)
    ensures
        r@ == seq![BEGIN_DATA, command] + payload@ + seq![END_DATA],
{
    let mut r: Vec<u8> = Vec::new();
    r.push(BEGIN_DATA);
    r.push(command);
    let mut i: usize = 0;
    while i < payload.len()
        invariant
            i <= payload.len(),
            r@ == seq![BEGIN_DATA, command] + payload@.take(i as int),
        decreases payload.len() - i,
    {
        r.push(payload[i]);
        proof {
            assert(payload@.take(i + 1 as int) =~= payload@.take(i as int).push(
                payload@[i as int],
            ));
        }
        i = i + 1;
    }
    proof {
        assert(payload@.take(payload@.len() as int) =~= payload@);
    }
    r.push(END_DATA);
    proof {
        assert(r@ =~= seq![BEGIN_DATA, command] + payload@ + seq![END_DATA]);
    }
    r
}

/// A live session with one device of the supported family.  The channel is
/// exclusively owned by this session for the session's lifetime.
#[derive(Clone, Debug, PartialEq)]
pub struct ShizukuDevice {
    /// The channel this session owns.
    pub device: USBDevice,
    /// The cached sample value the placeholder loop advances.
    pub current_value: i32,
    /// The cooperative-stop flag; `true` is its terminating state.
    pub stop_flag: bool,
    /// The id of the most recent framed request, once one was sent.
    pub last_request_id: Option<i32>,
    /// Outstanding unacknowledged requests, once one was sent.
    pub expected_replies: Option<i32>,
}

impl ShizukuDevice {
    /// Setup of the sampling loop: resets the channel to a known state and
    /// discovers the bulk endpoints.  The returned plan tells the shell
    /// which claims and detaches to perform.  Fails iff the configuration
    /// lacks a bulk endpoint in either direction; the failure is fatal to
    /// this session's sampling, and the cached value and the stop flag are
    /// untouched either way.
    pub fn begin_sampling(&mut self) -> (r: Result<ChannelPlan, UsbError>)
        requires
            old(self).valid(),
        ensures
            final(self).valid(),
            final(self).current_value == old(self).current_value,
            final(self).stop_flag == old(self).stop_flag,
            final(self).last_request_id == old(self).last_request_id,
            final(self).expected_replies == old(self).expected_replies,
            final(self).device.identity == old(self).device.identity,
            final(self).device.config == old(self).device.config,
            final(self).device.timeout_ms == old(self).device.timeout_ms,
            match r {
                Ok(plan) => discovery_ok(old(self).device, final(self).device, plan),
                Err(e) => {
                    &&& e == UsbError::NoMatchingEndpoints
                    &&& !(has_bulk(config_entries(old(self).device.config), EndpointDir::In)
                        && has_bulk(config_entries(old(self).device.config), EndpointDir::Out))
                    &&& final(self).device.claimed@ == Seq::<u8>::empty()
                    &&& final(self).device.endpoint_in is None
                    &&& final(self).device.endpoint_out is None
                },
            },
    {
        self.device.reset();
        self.device.find_bulk_in_out_end_points()
    }
}

impl DeviceInterface for ShizukuDevice {
    open spec fn known_product_id(id: u16) -> bool {
        spec_shizuku_id(id)
    }

    open spec fn value(&self) -> int {
        self.current_value as int
    }

    open spec fn stop_requested(&self) -> bool {
        self.stop_flag
    }

    open spec fn valid(&self) -> bool {
        self.device.wf()
    }

    fn try_create(candidate: UsbCandidate) -> (r: Result<ShizukuDevice, UsbCandidate>)
        ensures
            (r matches Ok(s) ==> {
                &&& s.device.identity == candidate.identity
                &&& s.device.config == candidate.config
                &&& s.device.timeout_ms == DEFAULT_TIMEOUT_MS
                &&& !s.device.was_reset
                &&& s.device.claimed@ == Seq::<u8>::empty()
                &&& s.device.endpoint_in is None
                &&& s.device.endpoint_out is None
                &&& s.current_value == INITIAL_VALUE
                &&& !s.stop_flag
                &&& s.last_request_id is None
                &&& s.expected_replies is None
            }),
    {
        let ids = shizuku_product_ids();
        let ghost pid = candidate.identity.product_id;
        match USBDevice::create_if_matching_id(candidate, ids.as_slice()) {
            Ok(usbdevice) => {
                proof {
                    let i = choose|i: int| 0 <= i < ids@.len() && ids@[i] == pid;
                    assert(i == 0 || i == 1 || i == 2);
                    assert(spec_shizuku_id(pid));
                }
                Ok(
                    ShizukuDevice {
                        device: usbdevice,
                        current_value: INITIAL_VALUE,
                        stop_flag: false,
                        last_request_id: None,
                        expected_replies: None,
                    },
                )
            },
            Err(c) => {
                proof {
                    if spec_shizuku_id(pid) {
                        if pid == 0xFFFF {
                            assert(ids@[0] == pid);
                        } else if pid == 0xFFFE {
                            assert(ids@[1] == pid);
                        } else {
                            assert(ids@[2] == pid);
                        }
                        assert(ids@.contains(pid));
                    }
                }
                Err(c)
            },
        }
    }

    fn sample(&self) -> (r: i32) {
        self.current_value
    }

    fn sampling_cycle(&mut self) -> (cont: bool)
        ensures
            final(self).device == old(self).device,
            final(self).last_request_id == old(self).last_request_id,
            final(self).expected_replies == old(self).expected_replies,
    {
        self.current_value = self.current_value + 1;
        !self.stop_flag
    }

    fn stop_sampling(&mut self)
        ensures
            final(self).device == old(self).device,
            final(self).current_value == old(self).current_value,
            final(self).last_request_id == old(self).last_request_id,
            final(self).expected_replies == old(self).expected_replies,
    {
        self.stop_flag = true;
    }
}

} // verus!
