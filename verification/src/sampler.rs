//! The sampling orchestrator and the tagged meter variants it owns.
//!
//! `PowerMeter` wraps one device session in a tagged-variant set: the
//! variants are tried in a fixed order when a candidate is matched, the
//! first success wins, and no second variant is attempted.  `PowerSampler`
//! owns the ordered collection of meters: it is filled during a discovery
//! phase, and thereafter start, stop and snapshot fan out over it.  Each
//! meter's state advances only through its own methods, so distinct
//! sessions progress independently; the unverified shell adds the
//! per-session lock and task around each meter.

use vstd::prelude::*;

use crate::device::{
    discoverable, discovery_ok, ChannelPlan, DeviceInterface, UsbCandidate, DEFAULT_TIMEOUT_MS,
    INITIAL_VALUE,
};
use crate::dummy::{spec_dummy_id, DummyDevice};
use crate::shizuku::{spec_shizuku_id, ShizukuDevice};

verus! {

/// The variants a meter can be: the real-hardware session or the
/// synthetic one.
#[derive(Clone, Debug, PartialEq)]
pub enum MeterDevice {
    Shizuku(ShizukuDevice),
    Dummy(DummyDevice),
}

/// One owned device session together with its health and task state.
#[derive(Clone, Debug, PartialEq)]
pub struct PowerMeter {
    pub underlying_device: MeterDevice,
    /// False once this session's setup failed; such a session no longer
    /// progresses, and its last value is still safe to snapshot.
    pub healthy: bool,
    /// True once a sampling task was started for this session; a session
    /// has at most one active sampling task.
    pub started: bool,
}

/// One row of the orchestrator's read-only snapshot.
#[derive(Clone, Copy, Debug, PartialEq, Eq, Structural)]
pub struct SampleReading {
    pub value: i32,
    pub healthy: bool,
}

/// True iff some variant's known-id set contains this candidate's product
/// id, so matching the candidate yields a session.
pub open spec fn spec_is_claimed(c: UsbCandidate) -> bool {
    spec_shizuku_id(c.identity.product_id) || spec_dummy_id(c.identity.product_id)
}

/// Relates a freshly created meter to the candidate it was created from:
/// which variant claimed it, and the fresh session state.
pub open spec fn meter_from(m: PowerMeter, c: UsbCandidate) -> bool {
    &&& m.valid()
    &&& m.healthy
    &&& !m.started
    &&& m.value() == INITIAL_VALUE as int
    &&& !m.stop_requested()
    &&& (spec_shizuku_id(c.identity.product_id) ==> (m.underlying_device matches
        MeterDevice::Shizuku(d) && {
        &&& d.device.identity == c.identity
        &&& d.device.config == c.config
        &&& d.device.timeout_ms == DEFAULT_TIMEOUT_MS
        &&& !d.device.was_reset
        &&& d.device.claimed@ == Seq::<u8>::empty()
        &&& d.device.endpoint_in is None
        &&& d.device.endpoint_out is None
        &&& d.last_request_id is None
        &&& d.expected_replies is None
    }))
    &&& (!spec_shizuku_id(c.identity.product_id) && spec_dummy_id(c.identity.product_id)
        ==> m.underlying_device matches MeterDevice::Dummy(_))
}

/// Relates a meter before and after its sampling task was started: the
/// session state is kept, endpoint discovery ran for the hardware variant,
/// and a discovery failure is recorded in the health flag.
pub open spec fn started_from(pre: PowerMeter, post: PowerMeter, plan: Option<ChannelPlan>) -> bool {
    &&& post.started
    &&& post.value() == pre.value()
    &&& post.stop_requested() == pre.stop_requested()
    &&& match (pre.underlying_device, post.underlying_device) {
        (MeterDevice::Shizuku(pd), MeterDevice::Shizuku(nd)) => {
            &&& nd.current_value == pd.current_value
            &&& nd.stop_flag == pd.stop_flag
            &&& nd.last_request_id == pd.last_request_id
            &&& nd.expected_replies == pd.expected_replies
            &&& nd.device.identity == pd.device.identity
            &&& nd.device.config == pd.device.config
            &&& nd.device.timeout_ms == pd.device.timeout_ms
            &&& if discoverable(pd.device.config) {
                &&& post.healthy == pre.healthy
                &&& plan matches Some(p) && discovery_ok(pd.device, nd.device, p)
            } else {
                &&& !post.healthy
                &&& plan is None
            }
        },
        (MeterDevice::Dummy(pd), MeterDevice::Dummy(nd)) => {
            &&& nd == pd
            &&& plan is None
            &&& post.healthy == pre.healthy
        },
        _ => false,
    }
}

/// Relates a meter before and after one sampling cycle: only the cached
/// value advances.
pub open spec fn cycled_from(pre: PowerMeter, post: PowerMeter) -> bool {
    &&& post.value() == pre.value() + 1
    &&& post.stop_requested() == pre.stop_requested()
    &&& post.healthy == pre.healthy
    &&& post.started == pre.started
    &&& match (pre.underlying_device, post.underlying_device) {
        (MeterDevice::Shizuku(pd), MeterDevice::Shizuku(nd)) => {
            &&& nd.device == pd.device
            &&& nd.last_request_id == pd.last_request_id
            &&& nd.expected_replies == pd.expected_replies
        },
        (MeterDevice::Dummy(_), MeterDevice::Dummy(_)) => true,
        _ => false,
    }
}

/// Relates a meter before and after a stop request: the stop flag reaches
/// its terminating state and everything else is kept.
pub open spec fn stopped_from(pre: PowerMeter, post: PowerMeter) -> bool {
    &&& post.stop_requested()
    &&& post.value() == pre.value()
    &&& post.healthy == pre.healthy
    &&& post.started == pre.started
    &&& match (pre.underlying_device, post.underlying_device) {
        (MeterDevice::Shizuku(pd), MeterDevice::Shizuku(nd)) => {
            &&& nd.device == pd.device
            &&& nd.last_request_id == pd.last_request_id
            &&& nd.expected_replies == pd.expected_replies
        },
        (MeterDevice::Dummy(_), MeterDevice::Dummy(_)) => true,
        _ => false,
    }
}

impl PowerMeter {
    /// The session invariant of whichever variant this meter wraps.
    pub open spec fn valid(&self) -> bool {
        match self.underlying_device {
            MeterDevice::Shizuku(d) => d.valid(),
            MeterDevice::Dummy(d) => d.valid(),
        }
    }

    /// The cached sample value of the wrapped session.
    pub open spec fn value(&self) -> int {
        match self.underlying_device {
            MeterDevice::Shizuku(d) => d.value(),
            MeterDevice::Dummy(d) => d.value(),
        }
    }

    /// True once the wrapped session's stop flag is terminating.
    pub open spec fn stop_requested(&self) -> bool {
        match self.underlying_device {
            MeterDevice::Shizuku(d) => d.stop_requested(),
            MeterDevice::Dummy(d) => d.stop_requested(),
        }
    }

    /// Wraps an already-created session in a healthy, not-yet-started
    /// meter.
    pub fn from(di: MeterDevice) -> (r: PowerMeter)
        ensures
            r.underlying_device == di,
            r.healthy,
            !r.started,
    {
        PowerMeter { underlying_device: di, healthy: true, started: false }
    }

    /// Tries the variants in their fixed order on one candidate; the first
    /// match wins and no second variant is attempted.  Yields a meter iff
    /// some variant's known-id set contains the candidate's product id;
    /// otherwise the candidate comes back untouched.
    pub fn try_create(candidate: UsbCandidate) -> (r: Result<PowerMeter, UsbCandidate>)
        ensures
            (r is Ok) <==> spec_is_claimed(candidate),
            (r matches Ok(m) ==> meter_from(m, candidate)),
            (r matches Err(c) ==> c == candidate),
    {
        match ShizukuDevice::try_create(candidate) {
            Ok(s) => Ok(
                PowerMeter {
                    underlying_device: MeterDevice::Shizuku(s),
                    healthy: true,
                    started: false,
                },
            ),
            Err(candidate) => match DummyDevice::try_create(candidate) {
                Ok(d) => Ok(
                    PowerMeter {
                        underlying_device: MeterDevice::Dummy(d),
                        healthy: true,
                        started: false,
                    },
                ),
                Err(candidate) => Err(candidate),
            },
        }
    }

    /// Starts this meter's sampling task: for the hardware variant, resets
    /// the channel and discovers endpoints, handing the shell the plan to
    /// execute; a discovery failure marks the session unhealthy.  A session
    /// has at most one active sampling task, so starting twice is ruled
    /// out.
    pub fn start(&mut self) -> (plan: Option<ChannelPlan>)
        requires
            old(self).valid(),
            !old(self).started,
        ensures
            final(self).valid(),
            started_from(*old(self), *final(self), plan),
    {
        self.started = true;
        match &mut self.underlying_device {
            MeterDevice::Shizuku(s) => match s.begin_sampling() {
                Ok(plan) => Some(plan),
                Err(_) => {
                    self.healthy = false;
                    None
                },
            },
            MeterDevice::Dummy(_) => None,
        }
    }

    /// A non-blocking read of the cached value under the session lock the
    /// shell adds; never performs transfers.
    pub fn sample(&self) -> (r: i32)
        requires
            self.valid(),
        ensures
            r as int == self.value(),
    {
        match &self.underlying_device {
            MeterDevice::Shizuku(s) => s.sample(),
            MeterDevice::Dummy(d) => d.sample(),
        }
    }

    /// One cycle of this meter's sampling loop.
    pub fn sampling_cycle(&mut self) -> (cont: bool)
        requires
            old(self).valid(),
            old(self).value() < i32::MAX as int,
        ensures
            final(self).valid(),
            cycled_from(*old(self), *final(self)),
            cont == !final(self).stop_requested(),
    {
        match &mut self.underlying_device {
            MeterDevice::Shizuku(s) => s.sampling_cycle(),
            MeterDevice::Dummy(d) => d.sampling_cycle(),
        }
    }

    /// Requests a cooperative stop of this meter's sampling loop.
    pub fn stop(&mut self)
        requires
            old(self).valid(),
        ensures
            final(self).valid(),
            stopped_from(*old(self), *final(self)),
    {
        match &mut self.underlying_device {
            MeterDevice::Shizuku(s) => s.stop_sampling(),
            MeterDevice::Dummy(d) => d.stop_sampling(),
        }
    }
}

/// Owns all discovered sessions and fans start, stop and snapshot out over
/// them.  The collection is append-only during the discovery phase and is
/// not reordered afterwards.
pub struct PowerSampler {
    pub meters: Vec<PowerMeter>,
}

impl PowerSampler {
    /// Every owned meter satisfies its session invariant.
    pub open spec fn wf(&self) -> bool {
        forall|i: int| 0 <= i < self.meters@.len() ==> (#[trigger] self.meters@[i]).valid()
    }

    /// A fresh orchestrator with no sessions.
    pub fn init() -> (r: PowerSampler)
        ensures
            r.meters@.len() == 0,
            r.wf(),
    {
        PowerSampler { meters: Vec::new() }
    }

    /// The candidates of `candidates` whose product id some variant
    /// claims, in enumeration order.
    pub open spec fn claimed_prefix(cs: Seq<UsbCandidate>, n: int) -> Seq<UsbCandidate>
        decreases n,
    {
        if n <= 0 {
            Seq::empty()
        } else if spec_is_claimed(cs[n - 1]) {
            Self::claimed_prefix(cs, n - 1).push(cs[n - 1])
        } else {
            Self::claimed_prefix(cs, n - 1)
        }
    }

    /// All claimed candidates of an enumeration, in order.
    pub open spec fn claimed_of(cs: Seq<UsbCandidate>) -> Seq<UsbCandidate> {
        Self::claimed_prefix(cs, cs.len() as int)
    }

    /// Matches every enumerated candidate against the variants and appends
    /// a session for each claimed one, in enumeration order.  A candidate
    /// no variant claims is dropped entirely: it never becomes a session
    /// and never appears in the snapshot.
    pub fn find_meters(&mut self, candidates: Vec<UsbCandidate>)
        requires
            old(self).wf(),
        ensures
            final(self).wf(),
            final(self).meters@.len() == old(self).meters@.len() + Self::claimed_of(
                candidates@,
            ).len(),
            forall|j: int|
                0 <= j < old(self).meters@.len() ==> final(self).meters@[j] == old(
                    self,
                ).meters@[j],
            forall|j: int|
                0 <= j < Self::claimed_of(candidates@).len() ==> meter_from(
                    #[trigger] final(self).meters@[old(self).meters@.len() + j],
                    Self::claimed_of(candidates@)[j],
                ),
    {
        let ghost all = candidates@;
        let ghost old_len = self.meters@.len() as int;
        let ghost old_meters = self.meters@;
        let mut candidates = candidates;
        let ghost mut i: int = 0;
        while candidates.len() > 0
            invariant
                old_len == old_meters.len(),
                0 <= i <= all.len(),
                candidates@ == all.skip(i),
                self.meters@.len() == old_len + Self::claimed_prefix(all, i).len(),
                forall|j: int| 0 <= j < old_len ==> self.meters@[j] == old_meters[j],
                forall|j: int|
                    0 <= j < Self::claimed_prefix(all, i).len() ==> meter_from(
                        #[trigger] self.meters@[old_len + j],
                        Self::claimed_prefix(all, i)[j],
                    ),
                self.wf(),
            decreases candidates@.len(),
        {
            let c = candidates.remove(0);
            proof {
                assert(c == all.skip(i)[0]);
                assert(all.skip(i)[0] == all[i]);
                assert(all.skip(i).remove(0) =~= all.skip(i + 1));
            }
            match PowerMeter::try_create(c) {
                Ok(m) => {
                    self.meters.push(m);
                },
                Err(_) => {},
            }
            proof {
                i = i + 1;
            }
        }
        proof {
            assert(all.skip(i).len() == all.len() - i);
        }
    }

    /// Appends one already-created meter to the collection.
    pub fn add_device(&mut self, d: PowerMeter)
        requires
            old(self).wf(),
            d.valid(),
        ensures
            final(self).wf(),
            final(self).meters@ == old(self).meters@.push(d),
    {
        self.meters.push(d)
    }

    /// The ordered collection of owned meters.
    pub fn list_meters(&self) -> (r: &Vec<PowerMeter>)
        ensures
            r@ == self.meters@,
    {
        &self.meters
    }

    /// Starts one sampling task per session, in order, and hands back the
    /// per-session channel plans for the shell to execute, aligned with
    /// the meters.
    pub fn start(&mut self) -> (plans: Vec<Option<ChannelPlan>>)
        requires
            old(self).wf(),
            forall|i: int| 0 <= i < old(self).meters@.len() ==> !(#[trigger] old(
                self,
            ).meters@[i]).started,
        ensures
            final(self).wf(),
            final(self).meters@.len() == old(self).meters@.len(),
            plans@.len() == old(self).meters@.len(),
            forall|i: int|
                0 <= i < old(self).meters@.len() ==> started_from(
                    old(self).meters@[i],
                    #[trigger] final(self).meters@[i],
                    plans@[i],
                ),
    {
        let mut plans: Vec<Option<ChannelPlan>> = Vec::new();
        let n = self.meters.len();
        let ghost pre = self.meters@;
        let mut i: usize = 0;
        while i < n
            invariant
                n == pre.len(),
                i <= n,
                self.meters@.len() == n,
                plans@.len() == i,
                forall|j: int| 0 <= j < n ==> !(#[trigger] pre[j]).started,
                forall|j: int| i <= j < n ==> self.meters@[j] == pre[j],
                forall|j: int|
                    0 <= j < i ==> started_from(pre[j], #[trigger] self.meters@[j], plans@[j]),
                self.wf(),
            decreases n - i,
        {
            assert(self.meters@[i as int] == pre[i as int]);
            assert(!pre[i as int].started);
            let plan = self.meters[i].start();
            plans.push(plan);
            i = i + 1;
        }
        plans
    }

    /// Issues a cooperative stop to every session, in order.  No session's
    /// cached value changes: stopping is pure fan-out.
    pub fn stop(&mut self)
        requires
            old(self).wf(),
        ensures
            final(self).wf(),
            final(self).meters@.len() == old(self).meters@.len(),
            forall|i: int|
                0 <= i < old(self).meters@.len() ==> stopped_from(
                    old(self).meters@[i],
                    #[trigger] final(self).meters@[i],
                ),
    {
        let n = self.meters.len();
        let ghost pre = self.meters@;
        let mut i: usize = 0;
        while i < n
            invariant
                n == pre.len(),
                i <= n,
                self.meters@.len() == n,
                forall|j: int| i <= j < n ==> self.meters@[j] == pre[j],
                forall|j: int| 0 <= j < i ==> stopped_from(pre[j], #[trigger] self.meters@[j]),
                self.wf(),
            decreases n - i,
        {
            self.meters[i].stop();
            i = i + 1;
        }
    }

    /// Advances the session at index `i` by one sampling cycle.  Every
    /// other session is untouched: sessions progress independently.
    pub fn cycle_meter(&mut self, i: usize) -> (cont: bool)
        requires
            old(self).wf(),
            i < old(self).meters@.len(),
            old(self).meters@[i as int].value() < i32::MAX as int,
        ensures
            final(self).wf(),
            final(self).meters@.len() == old(self).meters@.len(),
            forall|j: int|
                0 <= j < old(self).meters@.len() && j != i ==> final(self).meters@[j] == old(
                    self,
                ).meters@[j],
            cycled_from(old(self).meters@[i as int], final(self).meters@[i as int]),
            cont == !final(self).meters@[i as int].stop_requested(),
    {
        self.meters[i].sampling_cycle()
    }

    /// Requests a cooperative stop of the session at index `i` alone.
    /// Every other session is untouched: stopping one session does not
    /// alter the progression of any other.
    pub fn stop_meter(&mut self, i: usize)
        requires
            old(self).wf(),
            i < old(self).meters@.len(),
        ensures
            final(self).wf(),
            final(self).meters@.len() == old(self).meters@.len(),
            forall|j: int|
                0 <= j < old(self).meters@.len() && j != i ==> final(self).meters@[j] == old(
                    self,
                ).meters@[j],
            stopped_from(old(self).meters@[i as int], final(self).meters@[i as int]),
    {
        self.meters[i].stop()
    }

    /// The read-only snapshot: for every session, in order, its most
    /// recent sample value alongside its health.  Only lock-protected
    /// reads, so the shell may take it at any time.
    pub fn sample_all(&self) -> (r: Vec<SampleReading>)
        requires
            self.wf(),
        ensures
            r@.len() == self.meters@.len(),
            forall|i: int|
                0 <= i < self.meters@.len() ==> (#[trigger] r@[i]).value as int
                    == self.meters@[i].value() && r@[i].healthy == self.meters@[i].healthy,
    {
        let mut r: Vec<SampleReading> = Vec::new();
        let mut i: usize = 0;
        while i < self.meters.len()
            invariant
                i <= self.meters@.len(),
                r@.len() == i,
                forall|j: int|
                    0 <= j < i ==> (#[trigger] r@[j]).value as int == self.meters@[j].value()
                        && r@[j].healthy == self.meters@[j].healthy,
                self.wf(),
            decreases self.meters@.len() - i,
        {
            let value = self.meters[i].sample();
            let reading = SampleReading { value, healthy: self.meters[i].healthy };
            r.push(reading);
            i = i + 1;
        }
        r
    }
}

/// Law: an identity is claimed by at most one variant.  The variants'
/// known-id sets are disjoint, so with first-match-wins no identity is
/// ever claimed twice across variants.
pub proof fn lemma_at_most_one_variant_claims(id: u16)
    ensures
        !(spec_shizuku_id(id) && spec_dummy_id(id)),
{
}

/// Law: a stop request never changes a session's cached sample value, its
/// health, or which variant it is; it only drives the stop flag to its
/// terminating state.
pub proof fn lemma_stop_preserves_value(pre: PowerMeter, post: PowerMeter)
    requires
        stopped_from(pre, post),
    ensures
        post.value() == pre.value(),
        post.healthy == pre.healthy,
        post.stop_requested(),
{
}

} // verus!
