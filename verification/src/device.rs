//! The USB channel: a matched device's bulk endpoints and claimed
//! interfaces.
//!
//! `USBDevice` models one opened device: its identity, its active
//! configuration, the uniform transfer timeout, and the channel state that
//! endpoint discovery establishes.  Discovery walks the configuration in
//! descriptor order, selects the first bulk-IN and the first bulk-OUT
//! endpoint, and plans the interface claims: each owning interface is
//! claimed exactly once, and the kernel driver is detached ahead of the
//! OUT endpoint's claim.  The unverified shell executes the planned
//! actions on the real device handle.

use vstd::prelude::*;

use crate::catalog::DeviceIdentity;
use crate::config::{
    collect_entries, config_entries, ConfigDesc, EndpointDir, TransferKind, WalkEntry,
};

verus! {

/// The transfer timeout a fresh channel starts with, in milliseconds.
pub const DEFAULT_TIMEOUT_MS: u64 = 1000;

/// The value every fresh session caches before its first sampling cycle.
pub const INITIAL_VALUE: i32 = 42;

/// The failures of the USB layer, one variant per failure class.
#[derive(Clone, Copy, Debug, PartialEq, Eq, Structural)]
pub enum UsbError {
    /// A descriptor of one candidate could not be read; that candidate is
    /// skipped and enumeration continues.
    DescriptorRead,
    /// The configuration offers no bulk-IN or no bulk-OUT endpoint.
    NoMatchingEndpoints,
    /// An interface claim failed; fatal to the channel.
    ClaimInterface,
    /// Detaching the kernel driver failed for a reason other than the
    /// driver not being active; fatal to the channel.
    KernelDriverDetach,
    /// The bus reset failed; fatal to the owning session's creation.
    Reset,
    /// A transfer ran into the channel timeout; retrying is the caller's
    /// responsibility.
    TransferTimeout,
}

/// One side-effecting step the shell must perform on the real handle while
/// it establishes the channel.
#[derive(Clone, Copy, Debug, PartialEq, Eq, Structural)]
pub enum UsbAction {
    /// Claim this interface number.
    ClaimInterface(u8),
    /// Detach the kernel driver from this interface number if it is
    /// currently bound; "driver not active" counts as success.
    DetachKernelDriver(u8),
}

/// A device as enumeration hands it over, before any match was attempted:
/// its identity and its active configuration, as plain values.
#[derive(Clone, Debug, PartialEq)]
pub struct UsbCandidate {
    pub identity: DeviceIdentity,
    pub config: ConfigDesc,
}

/// What endpoint discovery found, and the actions that realise it.
#[derive(Clone, Debug, PartialEq)]
pub struct ChannelPlan {
    /// Address of the first bulk-IN endpoint in walk order.
    pub endpoint_in: u8,
    /// Address of the first bulk-OUT endpoint in walk order.
    pub endpoint_out: u8,
    /// Interface number owning the bulk-IN endpoint.
    pub interface_in: u8,
    /// Interface number owning the bulk-OUT endpoint.
    pub interface_out: u8,
    /// The claim and detach steps, in the order discovery decided them.
    pub actions: Vec<UsbAction>,
}

/// A matched, opened device together with its channel state.
#[derive(Clone, Debug, PartialEq)]
pub struct USBDevice {
    pub identity: DeviceIdentity,
    pub config: ConfigDesc,
    /// Applied uniformly to every descriptor-string read and bulk transfer.
    pub timeout_ms: u64,
    /// True from a bus reset until the next endpoint discovery.
    pub was_reset: bool,
    /// The interface numbers this channel has claimed.
    pub claimed: Vec<u8>,
    /// Address of the discovered bulk-IN endpoint, once discovery ran.
    pub endpoint_in: Option<u8>,
    /// Address of the discovered bulk-OUT endpoint, once discovery ran.
    pub endpoint_out: Option<u8>,
}

/// True iff this walk entry is a bulk endpoint of direction `d`.
pub open spec fn entry_is(e: WalkEntry, d: EndpointDir) -> bool {
    e.endpoint.transfer == TransferKind::Bulk && e.endpoint.direction == d
}

/// True iff the walk contains a bulk endpoint of direction `d`.
pub open spec fn has_bulk(w: Seq<WalkEntry>, d: EndpointDir) -> bool {
    exists|i: int| 0 <= i < w.len() && entry_is(w[i], d)
}

/// True iff `i` indexes the first bulk endpoint of direction `d`.
pub open spec fn is_first_bulk(w: Seq<WalkEntry>, d: EndpointDir, i: int) -> bool {
    &&& 0 <= i < w.len()
    &&& entry_is(w[i], d)
    &&& forall|j: int| 0 <= j < i ==> !entry_is(w[j], d)
}

/// The index of the first bulk endpoint of direction `d` in the walk.
pub open spec fn first_bulk(w: Seq<WalkEntry>, d: EndpointDir) -> int
    decreases w.len(),
{
    if w.len() <= 0 {
        0
    } else if entry_is(w[0], d) {
        0
    } else {
        1 + first_bulk(w.drop_first(), d)
    }
}

pub proof fn lemma_first_bulk_is_first(w: Seq<WalkEntry>, d: EndpointDir)
    requires
        has_bulk(w, d),
    ensures
        is_first_bulk(w, d, first_bulk(w, d)),
    decreases w.len(),
{
    if entry_is(w[0], d) {
    } else {
        let i = choose|i: int| 0 <= i < w.len() && entry_is(w[i], d);
        assert(entry_is(w.drop_first()[i - 1], d));
        lemma_first_bulk_is_first(w.drop_first(), d);
        let k = first_bulk(w.drop_first(), d);
        assert forall|j: int| 0 <= j < 1 + k implies !entry_is(w[j], d) by {
            if j >= 1 {
                assert(w[j] == w.drop_first()[j - 1]);
            }
        }
    }
}

pub proof fn lemma_first_bulk_unique(w: Seq<WalkEntry>, d: EndpointDir, i: int)
    requires
        is_first_bulk(w, d, i),
    ensures
        i == first_bulk(w, d),
{
    assert(has_bulk(w, d));
    lemma_first_bulk_is_first(w, d);
    let f = first_bulk(w, d);
    if i < f {
        assert(!entry_is(w[i], d));
    }
    if f < i {
        assert(!entry_is(w[f], d));
    }
}

/// The claim and detach actions discovery performs, given the interface
/// numbers owning the first bulk-IN (`fi`) and first bulk-OUT (`fo`)
/// endpoints and whether the IN endpoint came first in the walk.
pub open spec fn case_actions(fi: u8, fo: u8, in_first: bool) -> Seq<UsbAction> {
    if in_first {
        if fi == fo {
            seq![UsbAction::ClaimInterface(fi), UsbAction::DetachKernelDriver(fo)]
        } else {
            seq![
                UsbAction::ClaimInterface(fi),
                UsbAction::DetachKernelDriver(fo),
                UsbAction::ClaimInterface(fo),
            ]
        }
    } else {
        if fi == fo {
            seq![UsbAction::DetachKernelDriver(fo), UsbAction::ClaimInterface(fo)]
        } else {
            seq![
                UsbAction::DetachKernelDriver(fo),
                UsbAction::ClaimInterface(fo),
                UsbAction::ClaimInterface(fi),
            ]
        }
    }
}

/// The interfaces discovery claims, in claim order: those owning the two
/// selected endpoints, each exactly once.
pub open spec fn case_claims(fi: u8, fo: u8, in_first: bool) -> Seq<u8> {
    if in_first {
        if fi == fo {
            seq![fi]
        } else {
            seq![fi, fo]
        }
    } else {
        if fi == fo {
            seq![fo]
        } else {
            seq![fo, fi]
        }
    }
}

/// The action sequence a successful discovery over walk `w` produces.
pub open spec fn plan_actions(w: Seq<WalkEntry>) -> Seq<UsbAction> {
    case_actions(
        w[first_bulk(w, EndpointDir::In)].interface_number,
        w[first_bulk(w, EndpointDir::Out)].interface_number,
        first_bulk(w, EndpointDir::In) < first_bulk(w, EndpointDir::Out),
    )
}

/// The claim sequence a successful discovery over walk `w` produces.
pub open spec fn plan_claims(w: Seq<WalkEntry>) -> Seq<u8> {
    case_claims(
        w[first_bulk(w, EndpointDir::In)].interface_number,
        w[first_bulk(w, EndpointDir::Out)].interface_number,
        first_bulk(w, EndpointDir::In) < first_bulk(w, EndpointDir::Out),
    )
}

/// True iff the configuration offers a bulk endpoint in each direction,
/// so endpoint discovery succeeds on it.
pub open spec fn discoverable(config: ConfigDesc) -> bool {
    has_bulk(config_entries(config), EndpointDir::In) && has_bulk(
        config_entries(config),
        EndpointDir::Out,
    )
}

/// What a successful discovery ensures: the first bulk endpoint of each
/// direction was selected, the owning interfaces were claimed exactly
/// once, and everything else about the device is unchanged.
pub open spec fn discovery_ok(pre: USBDevice, post: USBDevice, plan: ChannelPlan) -> bool {
    let w = config_entries(pre.config);
    &&& has_bulk(w, EndpointDir::In)
    &&& has_bulk(w, EndpointDir::Out)
    &&& plan.endpoint_in == w[first_bulk(w, EndpointDir::In)].endpoint.address
    &&& plan.interface_in == w[first_bulk(w, EndpointDir::In)].interface_number
    &&& plan.endpoint_out == w[first_bulk(w, EndpointDir::Out)].endpoint.address
    &&& plan.interface_out == w[first_bulk(w, EndpointDir::Out)].interface_number
    &&& plan.actions@ == plan_actions(w)
    &&& post.claimed@ == plan_claims(w)
    &&& post.claimed@.no_duplicates()
    &&& post.endpoint_in == Some(plan.endpoint_in)
    &&& post.endpoint_out == Some(plan.endpoint_out)
}

/// What a failed discovery ensures: some direction has no bulk endpoint,
/// and no interface was claimed beyond what already was.
pub open spec fn discovery_failed(pre: USBDevice, post: USBDevice) -> bool {
    let w = config_entries(pre.config);
    &&& !(has_bulk(w, EndpointDir::In) && has_bulk(w, EndpointDir::Out))
    &&& post.claimed@ == pre.claimed@
    &&& post.endpoint_in == pre.endpoint_in
    &&& post.endpoint_out == pre.endpoint_out
}

impl USBDevice {
    /// The channel invariant: an interface number is claimed at most once.
    pub open spec fn wf(&self) -> bool {
        self.claimed@.no_duplicates()
    }

    /// Builds a channel-capable device from a candidate iff the candidate's
    /// product id is in the known-id table; otherwise hands the candidate
    /// back untouched so another variant may attempt a match.
    pub fn create_if_matching_id(device: UsbCandidate, ids: &[u16]) -> (r: Result<
        USBDevice,
        UsbCandidate,
    >)
        ensures
            match r {
                Ok(d) => {
                    &&& ids@.contains(device.identity.product_id)
                    &&& d.identity == device.identity
                    &&& d.config == device.config
                    &&& d.timeout_ms == DEFAULT_TIMEOUT_MS
                    &&& !d.was_reset
                    &&& d.claimed@ == Seq::<u8>::empty()
                    &&& d.endpoint_in is None
                    &&& d.endpoint_out is None
                    &&& d.wf()
                },
                Err(c) => {
                    &&& !ids@.contains(device.identity.product_id)
                    &&& c == device
                },
            },
    {
        if crate::catalog::id_matches(device.identity.product_id, ids) {
            Ok(
                USBDevice {
                    identity: device.identity,
                    config: device.config,
                    timeout_ms: DEFAULT_TIMEOUT_MS,
                    was_reset: false,
                    claimed: Vec::new(),
                    endpoint_in: None,
                    endpoint_out: None,
                },
            )
        } else {
            Err(device)
        }
    }

    /// Records a bus reset: the channel is back in a known state, with no
    /// claimed interfaces and no discovered endpoints.  Discovery requires
    /// this to have happened.  The shell performs the reset on the real
    /// handle; a hardware reset failure is fatal to the owning session and
    /// never reaches this model.
    pub fn reset(&mut self)
        ensures
            final(self).identity == old(self).identity,
            final(self).config == old(self).config,
            final(self).timeout_ms == old(self).timeout_ms,
            final(self).was_reset,
            final(self).claimed@ == Seq::<u8>::empty(),
            final(self).endpoint_in is None,
            final(self).endpoint_out is None,
            final(self).wf(),
    {
        self.was_reset = true;
        self.claimed = Vec::new();
        self.endpoint_in = None;
        self.endpoint_out = None;
    }

    /// Sets the uniform transfer timeout of this channel.
    pub fn set_timeout(&mut self, timeout_ms: u64)
        ensures
            final(self).timeout_ms == timeout_ms,
            final(self).identity == old(self).identity,
            final(self).config == old(self).config,
            final(self).was_reset == old(self).was_reset,
            final(self).claimed@ == old(self).claimed@,
            final(self).endpoint_in == old(self).endpoint_in,
            final(self).endpoint_out == old(self).endpoint_out,
    {
        self.timeout_ms = timeout_ms;
    }

    /// Walks the configuration and selects the first bulk-IN and the first
    /// bulk-OUT endpoint, claiming each owning interface exactly once and
    /// detaching the kernel driver ahead of the OUT endpoint's interface.
    /// Fails with `NoMatchingEndpoints` iff either direction is absent.
    pub fn find_bulk_in_out_end_points(&mut self) -> (r: Result<ChannelPlan, UsbError>)
        requires
            old(self).was_reset,
            old(self).wf(),
        ensures
            final(self).identity == old(self).identity,
            final(self).config == old(self).config,
            final(self).timeout_ms == old(self).timeout_ms,
            !final(self).was_reset,
            final(self).wf(),
            match r {
                Ok(plan) => discovery_ok(*old(self), *final(self), plan),
                Err(e) => e == UsbError::NoMatchingEndpoints && discovery_failed(
                    *old(self),
                    *final(self),
                ),
            },
    {
        let entries = collect_entries(&self.config);
        let ghost w = entries@;
        let mut have_in = false;
        let mut in_addr: u8 = 0;
        let mut in_if: u8 = 0;
        let mut have_out = false;
        let mut out_addr: u8 = 0;
        let mut out_if: u8 = 0;
        let ghost mut gi: int = 0;
        let ghost mut go: int = 0;
        let mut actions: Vec<UsbAction> = Vec::new();
        let mut claimed: Vec<u8> = Vec::new();
        let mut k: usize = 0;
        while k < entries.len()
            invariant
                k <= entries.len(),
                w == entries@,
                !have_in ==> forall|j: int| 0 <= j < k ==> !entry_is(w[j], EndpointDir::In),
                !have_out ==> forall|j: int| 0 <= j < k ==> !entry_is(w[j], EndpointDir::Out),
                have_in ==> is_first_bulk(w, EndpointDir::In, gi) && gi < k && in_addr == w[gi].endpoint.address
                    && in_if == w[gi].interface_number,
                have_out ==> is_first_bulk(w, EndpointDir::Out, go) && go < k && out_addr
                    == w[go].endpoint.address && out_if == w[go].interface_number,
                !have_in && !have_out ==> actions@ == Seq::<UsbAction>::empty() && claimed@
                    == Seq::<u8>::empty(),
                have_in && !have_out ==> actions@ == seq![UsbAction::ClaimInterface(in_if)]
                    && claimed@ == seq![in_if],
                !have_in && have_out ==> actions@ == seq![
                    UsbAction::DetachKernelDriver(out_if),
                    UsbAction::ClaimInterface(out_if),
                ] && claimed@ == seq![out_if],
                have_in && have_out ==> actions@ == case_actions(in_if, out_if, gi < go)
                    && claimed@ == case_claims(in_if, out_if, gi < go),
            decreases entries.len() - k,
        {
            let e = entries[k];
            if e.endpoint.transfer == TransferKind::Bulk {
                if e.endpoint.direction == EndpointDir::In && !have_in {
                    proof {
                        gi = k as int;
                    }
                    have_in = true;
                    in_addr = e.endpoint.address;
                    in_if = e.interface_number;
                    if !(have_out && out_if == in_if) {
                        claimed.push(in_if);
                        actions.push(UsbAction::ClaimInterface(in_if));
                    }
                    proof {
                        if have_out {
                            if out_if == in_if {
                                assert(actions@ =~= case_actions(in_if, out_if, false));
                                assert(claimed@ =~= case_claims(in_if, out_if, false));
                            } else {
                                assert(actions@ =~= case_actions(in_if, out_if, false));
                                assert(claimed@ =~= case_claims(in_if, out_if, false));
                            }
                        } else {
                            assert(actions@ =~= seq![UsbAction::ClaimInterface(in_if)]);
                            assert(claimed@ =~= seq![in_if]);
                        }
                    }
                } else if e.endpoint.direction == EndpointDir::Out && !have_out {
                    proof {
                        go = k as int;
                    }
                    have_out = true;
                    out_addr = e.endpoint.address;
                    out_if = e.interface_number;
                    actions.push(UsbAction::DetachKernelDriver(out_if));
                    if !(have_in && in_if == out_if) {
                        claimed.push(out_if);
                        actions.push(UsbAction::ClaimInterface(out_if));
                    }
                    proof {
                        if have_in {
                            assert(actions@ =~= case_actions(in_if, out_if, true));
                            assert(claimed@ =~= case_claims(in_if, out_if, true));
                        } else {
                            assert(actions@ =~= seq![
                                UsbAction::DetachKernelDriver(out_if),
                                UsbAction::ClaimInterface(out_if),
                            ]);
                            assert(claimed@ =~= seq![out_if]);
                        }
                    }
                }
            }
            k = k + 1;
        }
        self.was_reset = false;
        if have_in && have_out {
            proof {
                lemma_first_bulk_unique(w, EndpointDir::In, gi);
                lemma_first_bulk_unique(w, EndpointDir::Out, go);
                assert(claimed@.no_duplicates());
            }
            self.claimed = claimed;
            self.endpoint_in = Some(in_addr);
            self.endpoint_out = Some(out_addr);
            Ok(
                ChannelPlan {
                    endpoint_in: in_addr,
                    endpoint_out: out_addr,
                    interface_in: in_if,
                    interface_out: out_if,
                    actions,
                },
            )
        } else {
            proof {
                if !have_in {
                    assert(!has_bulk(w, EndpointDir::In)) by {
                        if has_bulk(w, EndpointDir::In) {
                            let i = choose|i: int|
                                0 <= i < w.len() && entry_is(w[i], EndpointDir::In);
                            assert(!entry_is(w[i], EndpointDir::In));
                        }
                    }
                } else {
                    assert(!has_bulk(w, EndpointDir::Out)) by {
                        if has_bulk(w, EndpointDir::Out) {
                            let i = choose|i: int|
                                0 <= i < w.len() && entry_is(w[i], EndpointDir::Out);
                            assert(!entry_is(w[i], EndpointDir::Out));
                        }
                    }
                }
            }
            Err(UsbError::NoMatchingEndpoints)
        }
    }
}

/// The capability set every device variant offers: claim a matching
/// candidate, read the cached sample, advance one sampling cycle, and
/// request a cooperative stop.
pub trait DeviceInterface: Sized {
    /// The variant's compiled-in known-id set.
    spec fn known_product_id(id: u16) -> bool;

    /// The sample value the session currently caches.
    spec fn value(&self) -> int;

    /// True once the stop flag has reached its terminating state.
    spec fn stop_requested(&self) -> bool;

    /// The session's internal invariant.
    spec fn valid(&self) -> bool;

    /// Yields a live session iff the candidate's product id is in this
    /// variant's known-id set; otherwise hands the candidate back
    /// untouched so another variant may attempt a match.
    fn try_create(candidate: UsbCandidate) -> (r: Result<Self, UsbCandidate>)
        ensures
            (r is Ok) <==> Self::known_product_id(candidate.identity.product_id),
            (r matches Ok(s) ==> s.valid() && s.value() == INITIAL_VALUE as int
                && !s.stop_requested()),
            (r matches Err(c) ==> c == candidate),
    ;

    /// A non-blocking read of the cached value; never performs transfers,
    /// and repeated reads with no intervening cycle agree.
    fn sample(&self) -> (r: i32)
        requires
            self.valid(),
        ensures
            r as int == self.value(),
    ;

    /// One cycle of the sampling loop: updates the cached value and
    /// reports whether the loop should continue, which it should exactly
    /// until the stop flag has reached its terminating state.
    fn sampling_cycle(&mut self) -> (cont: bool)
        requires
            old(self).valid(),
            old(self).value() < i32::MAX as int,
        ensures
            final(self).valid(),
            final(self).value() == old(self).value() + 1,
            final(self).stop_requested() == old(self).stop_requested(),
            cont == !final(self).stop_requested(),
    ;

    /// Sets the stop flag to its terminating state, so a running sampling
    /// loop exits at its next cycle.  The cached value is untouched.
    fn stop_sampling(&mut self)
        requires
            old(self).valid(),
        ensures
            final(self).valid(),
            final(self).stop_requested(),
            final(self).value() == old(self).value(),
    ;
}

} // verus!
