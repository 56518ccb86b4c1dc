//! Bringing a device up: the handshake that resets the device, negotiates
//! features, registers a ring and makes the device live.
//!
//! The handshake is a machine that is driven from outside. Each call hands
//! it what came of the last action and gets the next action back, until
//! the action is `Finished`.

use crate::block::{device_views, BlockDevice, BlockDeviceView, Registry, VIRTIO_BLK_F_RO};
use crate::virtio::{Action, MmioOffsets, Queue, QueueView, Reply, StatusField};
use vstd::prelude::*;

verus! {

/// How far the handshake has come. A stage is named after the action that
/// was handed out last and has not been answered yet.
#[derive(Clone, Copy, PartialEq, Eq, Structural, Debug)]
pub enum Stage {
    /// Nothing was done yet.
    Idle,
    /// Zero is being stored in the status register.
    Resetting,
    /// ACKNOWLEDGE is being set.
    Acknowledging,
    /// DRIVER is being set.
    Announcing,
    /// The features that the device offers are being loaded.
    ReadingFeatures,
    /// The features that the driver accepts are being stored.
    WritingFeatures,
    /// FEATURES_OK is being set.
    Confirming,
    /// The status register is being loaded again.
    Checking,
    /// FAILED is being set, because the device dropped FEATURES_OK.
    Rejecting,
    /// The largest ring that the device takes is being loaded.
    MeasuringQueue,
    /// The capacity of the ring is being stored.
    SizingQueue,
    /// Memory for the ring is being obtained.
    Allocating,
    /// The address of the ring is being stored.
    Registering,
    /// DRIVER_OK is being set.
    Activating,
    /// The device is live.
    Ready,
    /// The handshake was given up.
    Failed,
}

impl Stage {
    /// Whether the devices of the registry are in the hands of the
    /// handshake at this stage.
    pub open spec fn spec_holding(self) -> bool {
        !(self is Idle || self is Activating || self is Ready || self is Failed)
    }

    /// Whether `reply` is of the kind that the pending action produces. A
    /// handshake that has ended takes any reply.
    pub open spec fn spec_accepts(self, reply: Reply) -> bool {
        match self {
            Stage::ReadingFeatures | Stage::Checking | Stage::MeasuringQueue => reply is Value,
            Stage::Allocating => reply is Region,
            Stage::Ready | Stage::Failed => true,
            _ => reply is Done,
        }
    }

    /// Whether the devices of the registry are in the hands of the
    /// handshake at this stage.
    #[verifier::when_used_as_spec(spec_holding)]
    pub fn holding(self) -> (b: bool)
        ensures
            b == self.spec_holding(),
    {
        match self {
            Stage::Idle | Stage::Activating | Stage::Ready | Stage::Failed => false,
            _ => true,
        }
    }

    /// Whether `reply` is of the kind that the pending action produces.
    #[verifier::when_used_as_spec(spec_accepts)]
    pub fn accepts(self, reply: Reply) -> (b: bool)
        ensures
            b == self.spec_accepts(reply),
    {
        match self {
            Stage::ReadingFeatures | Stage::Checking | Stage::MeasuringQueue => match reply {
                Reply::Value(_) => true,
                _ => false,
            },
            Stage::Allocating => match reply {
                Reply::Region(_) => true,
                _ => false,
            },
            Stage::Ready | Stage::Failed => true,
            _ => match reply {
                Reply::Done => true,
                _ => false,
            },
        }
    }
}

/// Status after ACKNOWLEDGE was set.
pub open spec fn acknowledged() -> u32 {
    StatusField::Acknowledge.val32()
}

/// Status after DRIVER was set as well.
pub open spec fn announced() -> u32 {
    acknowledged() | StatusField::Driver.val32()
}

/// Status after FEATURES_OK was set as well.
pub open spec fn confirmed() -> u32 {
    announced() | StatusField::FeaturesOk.val32()
}

/// Status after DRIVER_OK was set as well.
pub open spec fn live() -> u32 {
    confirmed() | StatusField::DriverOk.val32()
}

/// Status after FAILED was set on top of what stood there when the device
/// dropped FEATURES_OK.
pub open spec fn given_up() -> u32 {
    confirmed() | StatusField::Failed.val32()
}

/// The features that the driver accepts of those that the device offers:
/// all but the one that makes the device read-only.
pub open spec fn accepted_features(host: u32) -> u32 {
    host & !(1u32 << VIRTIO_BLK_F_RO)
}

/// What the register for the ring's address is given: the low 32 bits of
/// the address.
pub open spec fn queue_pfn(ring: u64) -> u32 {
    (ring % 0x1_0000_0000) as u32
}

/// The device that a finished handshake enters into the registry: a
/// zeroed ring of `capacity` slots at `ring`, registers at `dev`, the
/// cursor at one.
pub open spec fn fresh_device(dev: u64, ring: u64, capacity: u16) -> BlockDeviceView {
    BlockDeviceView { queue: QueueView::zeroed(capacity as nat), queue_addr: ring, dev, idx: 1 }
}

/// The store of `value` in the status register.
pub open spec fn status_write(value: u32) -> Action {
    Action::Write { register: MmioOffsets::Status, value }
}

/// A handshake as its caller may think of it.
pub struct SetupView {
    pub stage: Stage,
    /// Physical address of the register block.
    pub dev: u64,
    /// Slots of the ring that the driver insists on.
    pub capacity: u16,
    /// Physical address of the ring, once it was obtained.
    pub ring: u64,
    /// The devices that were taken out of the registry, while the
    /// handshake holds them.
    pub held: Seq<BlockDeviceView>,
}

/// What one step of the handshake leaves behind: the handshake, the
/// registry's slot and the action that was handed out.
pub struct Step {
    pub setup: SetupView,
    pub registry: Option<Seq<BlockDeviceView>>,
    pub action: Action,
}

impl SetupView {
    pub open spec fn wf(self) -> bool {
        self.capacity > 0
    }

    /// A handshake that has not begun.
    pub open spec fn start(dev: u64, capacity: u16) -> SetupView {
        SetupView { stage: Stage::Idle, dev, capacity, ring: 0, held: Seq::empty() }
    }

    /// The step that moves on to `stage` and hands out `action`.
    pub open spec fn proceed(
        self,
        registry: Option<Seq<BlockDeviceView>>,
        stage: Stage,
        action: Action,
    ) -> Step {
        Step { setup: SetupView { stage, ..self }, registry, action }
    }

    /// The step that ends the handshake in failure and puts the devices
    /// that it holds back into the registry.
    pub open spec fn give_back(self) -> Step {
        Step {
            setup: SetupView { stage: Stage::Failed, held: Seq::empty(), ..self },
            registry: Some(self.held),
            action: Action::Finished { ok: false },
        }
    }

    /// The step that gives the handshake up: the devices go back into the
    /// registry if the handshake holds them.
    pub open spec fn abort(self, registry: Option<Seq<BlockDeviceView>>) -> Step {
        if self.stage.holding() {
            self.give_back()
        } else {
            self.proceed(registry, Stage::Failed, Action::Finished { ok: false })
        }
    }

    /// One step of the handshake: what becomes of the handshake and of the
    /// registry, and which action is handed out, when `reply` comes in.
    pub open spec fn step(self, registry: Option<Seq<BlockDeviceView>>, reply: Reply) -> Step {
        if !self.stage.accepts(reply) {
            self.abort(registry)
        } else {
            match self.stage {
                Stage::Idle => match registry {
                    Some(devices) => Step {
                        setup: SetupView { stage: Stage::Resetting, held: devices, ..self },
                        registry: None,
                        action: status_write(0),
                    },
                    None => self.abort(registry),
                },
                Stage::Resetting => self.proceed(
                    registry,
                    Stage::Acknowledging,
                    status_write(acknowledged()),
                ),
                Stage::Acknowledging => self.proceed(
                    registry,
                    Stage::Announcing,
                    status_write(announced()),
                ),
                Stage::Announcing => self.proceed(
                    registry,
                    Stage::ReadingFeatures,
                    Action::Read { register: MmioOffsets::HostFeatures },
                ),
                Stage::ReadingFeatures => self.proceed(
                    registry,
                    Stage::WritingFeatures,
                    Action::Write {
                        register: MmioOffsets::GuestFeatures,
                        value: accepted_features(reply->Value_0),
                    },
                ),
                Stage::WritingFeatures => self.proceed(
                    registry,
                    Stage::Confirming,
                    status_write(confirmed()),
                ),
                Stage::Confirming => self.proceed(
                    registry,
                    Stage::Checking,
                    Action::Read { register: MmioOffsets::Status },
                ),
                Stage::Checking => if StatusField::test(reply->Value_0, StatusField::FeaturesOk) {
                    self.proceed(
                        registry,
                        Stage::MeasuringQueue,
                        Action::Read { register: MmioOffsets::QueueNumMax },
                    )
                } else {
                    self.proceed(registry, Stage::Rejecting, status_write(given_up()))
                },
                Stage::Rejecting => self.give_back(),
                Stage::MeasuringQueue => if self.capacity > reply->Value_0 {
                    self.give_back()
                } else {
                    self.proceed(
                        registry,
                        Stage::SizingQueue,
                        Action::Write {
                            register: MmioOffsets::QueueNum,
                            value: self.capacity as u32,
                        },
                    )
                },
                Stage::SizingQueue => self.proceed(
                    registry,
                    Stage::Allocating,
                    Action::AllocateRing { pages: QueueView::pages(self.capacity) as usize },
                ),
                Stage::Allocating => Step {
                    setup: SetupView {
                        stage: Stage::Registering,
                        ring: reply->Region_0,
                        ..self
                    },
                    registry,
                    action: Action::Write {
                        register: MmioOffsets::QueuePfn,
                        value: queue_pfn(reply->Region_0),
                    },
                },
                Stage::Registering => Step {
                    setup: SetupView { stage: Stage::Activating, held: Seq::empty(), ..self },
                    registry: Some(
                        self.held.push(fresh_device(self.dev, self.ring, self.capacity)),
                    ),
                    action: status_write(live()),
                },
                Stage::Activating | Stage::Ready => self.proceed(
                    registry,
                    Stage::Ready,
                    Action::Finished { ok: true },
                ),
                Stage::Failed => self.proceed(
                    registry,
                    Stage::Failed,
                    Action::Finished { ok: false },
                ),
            }
        }
    }
}

/// A handshake with the device whose registers lie at `dev`. From its
/// first step to its end it holds the devices of the registry: a handshake
/// that is dropped on the way takes them with it.
#[derive(Debug)]
pub struct Setup {
    stage: Stage,
    dev: u64,
    capacity: u16,
    ring: u64,
    held: Vec<BlockDevice>,
}

impl View for Setup {
    type V = SetupView;

    closed spec fn view(&self) -> SetupView {
        SetupView {
            stage: self.stage,
            dev: self.dev,
            capacity: self.capacity,
            ring: self.ring,
            held: device_views(self.held@),
        }
    }
}

impl Setup {
    #[verifier::type_invariant]
    spec fn inv(self) -> bool {
        self.capacity > 0
    }

    /// A handshake that has not begun, for a ring of `capacity` slots.
    pub fn new(dev: u64, capacity: u16) -> (setup: Setup)
        requires
            capacity > 0,
        ensures
            setup@ == SetupView::start(dev, capacity),
            setup@.wf(),
    {
        let setup = Setup { stage: Stage::Idle, dev, capacity, ring: 0, held: Vec::new() };
        assert(device_views(setup.held@) =~= Seq::empty());
        setup
    }

    /// How far the handshake has come.
    pub fn stage(&self) -> (stage: Stage)
        ensures
            stage == self@.stage,
    {
        self.stage
    }

    /// Puts the devices that the handshake holds back into the registry,
    /// `device` with them if there is one.
    fn release(&mut self, registry: &mut Registry, device: Option<BlockDevice>)
        ensures
            final(self)@ == (SetupView { held: Seq::empty(), ..old(self)@ }),
            final(registry)@ == Some(
                match device {
                    Some(bd) => old(self)@.held.push(bd@),
                    None => old(self)@.held,
                },
            ),
    {
        proof {
            use_type_invariant(&*self);
        }
        let mut devices: Vec<BlockDevice> = Vec::new();
        core::mem::swap(&mut devices, &mut self.held);
        let ghost held = device_views(devices@);
        match device {
            Some(bd) => {
                devices.push(bd);
                assert(device_views(devices@) =~= held.push(bd@));
            },
            None => {},
        }
        registry.replace(devices);
        assert(device_views(self.held@) =~= Seq::empty());
    }

    /// Gives the handshake up.
    fn abort(&mut self, registry: &mut Registry) -> (action: Action)
        ensures
            old(self)@.abort(old(registry)@) == (Step {
                setup: final(self)@,
                registry: final(registry)@,
                action,
            }),
    {
        proof {
            use_type_invariant(&*self);
        }
        if self.stage.holding() {
            self.release(registry, None);
        }
        self.stage = Stage::Failed;
        Action::Finished { ok: false }
    }
}

/// Takes the handshake `setup` one step further: `reply` is what came of
/// the action that the last call handed out (`Reply::Done` on the first
/// call), the result is the action to carry out next.
///
/// The first step takes the devices out of `registry`, or ends the
/// handshake at once if the slot is empty. The handshake ends in failure,
/// with the devices back in the registry, when the device drops
/// FEATURES_OK, when it takes no ring as large as the driver's, or when a
/// reply is not of the kind that the pending action produces. Otherwise it
/// enters the new device into the registry and ends in success.
pub fn setup_block_device(registry: &mut Registry, setup: &mut Setup, reply: Reply) -> (action:
    Action)
    ensures
        old(setup)@.step(old(registry)@, reply) == (Step {
            setup: final(setup)@,
            registry: final(registry)@,
            action,
        }),
        final(setup)@.wf(),
{
    proof {
        use_type_invariant(&*setup);
    }
    if !setup.stage.accepts(reply) {
        return setup.abort(registry);
    }
    match setup.stage {
        Stage::Idle => match registry.take() {
            Some(devices) => {
                setup.held = devices;
                setup.stage = Stage::Resetting;
                status(0)
            },
            None => setup.abort(registry),
        },
        Stage::Resetting => {
            setup.stage = Stage::Acknowledging;
            status(StatusField::Acknowledge.val32())
        },
        Stage::Acknowledging => {
            setup.stage = Stage::Announcing;
            status(StatusField::Acknowledge.val32() | StatusField::Driver.val32())
        },
        Stage::Announcing => {
            setup.stage = Stage::ReadingFeatures;
            Action::Read { register: MmioOffsets::HostFeatures }
        },
        Stage::ReadingFeatures => {
            let host = value_of(reply);
            setup.stage = Stage::WritingFeatures;
            Action::Write {
                register: MmioOffsets::GuestFeatures,
                value: host & !(1u32 << VIRTIO_BLK_F_RO),
            }
        },
        Stage::WritingFeatures => {
            setup.stage = Stage::Confirming;
            status(
                StatusField::Acknowledge.val32() | StatusField::Driver.val32()
                    | StatusField::FeaturesOk.val32(),
            )
        },
        Stage::Confirming => {
            setup.stage = Stage::Checking;
            Action::Read { register: MmioOffsets::Status }
        },
        Stage::Checking => {
            if StatusField::features_ok(value_of(reply)) {
                setup.stage = Stage::MeasuringQueue;
                Action::Read { register: MmioOffsets::QueueNumMax }
            } else {
                setup.stage = Stage::Rejecting;
                status(
                    StatusField::Acknowledge.val32() | StatusField::Driver.val32()
                        | StatusField::FeaturesOk.val32() | StatusField::Failed.val32(),
                )
            }
        },
        Stage::Rejecting => {
            setup.release(registry, None);
            setup.stage = Stage::Failed;
            Action::Finished { ok: false }
        },
        Stage::MeasuringQueue => {
            if setup.capacity as u32 > value_of(reply) {
                setup.release(registry, None);
                setup.stage = Stage::Failed;
                Action::Finished { ok: false }
            } else {
                setup.stage = Stage::SizingQueue;
                Action::Write { register: MmioOffsets::QueueNum, value: setup.capacity as u32 }
            }
        },
        Stage::SizingQueue => {
            setup.stage = Stage::Allocating;
            Action::AllocateRing { pages: Queue::pages(setup.capacity) }
        },
        Stage::Allocating => {
            let ring = region_of(reply);
            setup.ring = ring;
            setup.stage = Stage::Registering;
            Action::Write {
                register: MmioOffsets::QueuePfn,
                value: (ring % 0x1_0000_0000) as u32,
            }
        },
        Stage::Registering => {
            let bd = BlockDevice::new(Queue::new(setup.capacity), setup.ring, setup.dev, 1);
            setup.release(registry, Some(bd));
            setup.stage = Stage::Activating;
            status(
                StatusField::Acknowledge.val32() | StatusField::Driver.val32()
                    | StatusField::FeaturesOk.val32() | StatusField::DriverOk.val32(),
            )
        },
        Stage::Activating => {
            setup.stage = Stage::Ready;
            Action::Finished { ok: true }
        },
        Stage::Ready => Action::Finished { ok: true },
        Stage::Failed => Action::Finished { ok: false },
    }
}

/// The store of `value` in the status register.
fn status(value: u32) -> (action: Action)
    ensures
        action == status_write(value),
{
    Action::Write { register: MmioOffsets::Status, value }
}

/// The value that a load returned.
fn value_of(reply: Reply) -> (value: u32)
    requires
        reply is Value,
    ensures
        value == reply->Value_0,
{
    match reply {
        Reply::Value(value) => value,
        _ => 0,
    }
}

/// The address of the region that was obtained.
fn region_of(reply: Reply) -> (ring: u64)
    requires
        reply is Region,
    ensures
        ring == reply->Region_0,
{
    match reply {
        Reply::Region(ring) => ring,
        _ => 0,
    }
}

/// What stands behind the actions of one handshake: a register block that
/// offers `host_features`, shows `status` when its status register is
/// loaded and takes rings of up to `queue_num_max` slots, and an allocator
/// that hands out the region at `ring`. Whatever a device may do is
/// covered by some choice of the four.
pub struct Environment {
    pub host_features: u32,
    pub status: u32,
    pub queue_num_max: u32,
    pub ring: u64,
}

impl Environment {
    /// What comes of `action` in this environment.
    pub open spec fn answer(self, action: Action) -> Reply {
        match action {
            Action::Read { register } => Reply::Value(
                match register {
                    MmioOffsets::HostFeatures => self.host_features,
                    MmioOffsets::Status => self.status,
                    MmioOffsets::QueueNumMax => self.queue_num_max,
                    _ => 0,
                },
            ),
            Action::AllocateRing { .. } => Reply::Region(self.ring),
            _ => Reply::Done,
        }
    }

    /// The step that follows `last` when the environment answers its action.
    pub open spec fn follow(self, last: Step) -> Step {
        last.setup.step(last.registry, self.answer(last.action))
    }

    /// The run that follows `last` when the environment answers its action.
    pub open spec fn resume(self, last: Step, steps: nat) -> Run {
        run(last.setup, last.registry, self, self.answer(last.action), steps)
    }
}

/// Where a handshake stands after it was driven for a while, and the
/// actions that it handed out on the way, in order.
pub struct Run {
    pub setup: SetupView,
    pub registry: Option<Seq<BlockDeviceView>>,
    pub trace: Seq<Action>,
}

/// Drives the handshake in the environment `env`, starting with `reply`,
/// until it hands out `Finished`, for `steps` steps at most.
pub open spec fn run(
    setup: SetupView,
    registry: Option<Seq<BlockDeviceView>>,
    env: Environment,
    reply: Reply,
    steps: nat,
) -> Run
    decreases steps,
{
    if steps == 0 {
        Run { setup, registry, trace: Seq::empty() }
    } else {
        let now = setup.step(registry, reply);
        if now.action is Finished {
            Run { setup: now.setup, registry: now.registry, trace: seq![now.action] }
        } else {
            let rest = run(
                now.setup,
                now.registry,
                env,
                env.answer(now.action),
                (steps - 1) as nat,
            );
            Run { trace: seq![now.action] + rest.trace, ..rest }
        }
    }
}

/// Whether `action` has to do with the ring: it stores its size or its
/// address, or asks for its memory.
pub open spec fn concerns_ring(action: Action) -> bool {
    match action {
        Action::Write { register, .. } => register == MmioOffsets::QueueNum || register
            == MmioOffsets::QueuePfn,
        Action::AllocateRing { .. } => true,
        _ => false,
    }
}

/// The actions up to the second load of the status register, which every
/// handshake that finds the registry's slot full hands out.
pub open spec fn negotiation(host_features: u32) -> Seq<Action> {
    seq![
        status_write(0),
        status_write(acknowledged()),
        status_write(announced()),
        Action::Read { register: MmioOffsets::HostFeatures },
        Action::Write {
            register: MmioOffsets::GuestFeatures,
            value: accepted_features(host_features),
        },
        status_write(confirmed()),
        Action::Read { register: MmioOffsets::Status },
    ]
}

/// The handshake ends exactly when it hands out `Finished`, and until then
/// it takes exactly the replies that answer the action it handed out last:
/// nothing for a store, a value for a load, a region for a ring.
pub proof fn lemma_accepts_what_answers(
    setup: SetupView,
    registry: Option<Seq<BlockDeviceView>>,
    reply: Reply,
    next: Reply,
)
    ensures
        ({
            let now = setup.step(registry, reply);
            &&& now.action is Finished <==> now.setup.stage is Ready || now.setup.stage is Failed
            &&& !(now.action is Finished) ==> (now.setup.stage.accepts(next) <==> next.answers(
                now.action,
            ))
        }),
{
}

/// Whether handshake and registry agree on who has the devices: the slot
/// is empty while the handshake holds them, and the handshake holds none
/// before it has taken them or after it has given them back.
pub open spec fn in_step(setup: SetupView, registry: Option<Seq<BlockDeviceView>>) -> bool {
    if setup.stage.holding() {
        registry is None
    } else {
        setup.held.len() == 0
    }
}

/// The devices there are, whoever has them.
pub open spec fn devices_of(
    setup: SetupView,
    registry: Option<Seq<BlockDeviceView>>,
) -> Seq<BlockDeviceView> {
    if setup.stage.holding() {
        setup.held
    } else {
        match registry {
            Some(devices) => devices,
            None => Seq::empty(),
        }
    }
}

/// No step loses a device, whatever the reply: the devices stay as they are
/// and in their order, but for the step that enters the new device at the
/// end. Handshake and registry stay in agreement on who has them, and a
/// handshake that has ended has given them back: the slot is then full if
/// it was full when the handshake began.
pub proof fn lemma_step_keeps_devices(
    setup: SetupView,
    registry: Option<Seq<BlockDeviceView>>,
    reply: Reply,
)
    requires
        in_step(setup, registry),
    ensures
        ({
            let now = setup.step(registry, reply);
            let before = devices_of(setup, registry);
            let after = devices_of(now.setup, now.registry);
            &&& in_step(now.setup, now.registry)
            &&& if setup.stage is Registering && reply is Done {
                after == before.push(fresh_device(setup.dev, setup.ring, setup.capacity))
            } else {
                after == before
            }
            &&& setup.stage.holding() && now.action is Finished ==> now.registry is Some
            &&& registry is Some ==> now.registry is Some || now.setup.stage.holding()
        }),
{
}

/// The driver never asks for a read-only device, and asks for every other
/// feature exactly if the device offers it.
pub proof fn lemma_accepted_features(host: u32)
    ensures
        accepted_features(host) & (1u32 << VIRTIO_BLK_F_RO) == 0,
        accepted_features(host) | (1u32 << VIRTIO_BLK_F_RO) == host | (1u32 << VIRTIO_BLK_F_RO),
{
    assert((host & !(1u32 << 5u32)) & (1u32 << 5u32) == 0) by (bit_vector);
    assert((host & !(1u32 << 5u32)) | (1u32 << 5u32) == host | (1u32 << 5u32)) by (bit_vector);
}

/// The values that the status register is given, as numbers, and the bits
/// that matter in them.
pub proof fn lemma_status_values()
    ensures
        acknowledged() == 1,
        announced() == 3,
        confirmed() == 11,
        live() == 15,
        given_up() == 139,
        StatusField::test(given_up(), StatusField::Failed),
        StatusField::test(live(), StatusField::DriverOk),
        !StatusField::test(live(), StatusField::Failed),
{
    assert(1u32 | 2u32 == 3u32) by (bit_vector);
    assert(3u32 | 8u32 == 11u32) by (bit_vector);
    assert(11u32 | 4u32 == 15u32) by (bit_vector);
    assert(11u32 | 128u32 == 139u32) by (bit_vector);
    assert(139u32 & 128u32 != 0) by (bit_vector);
    assert(15u32 & 4u32 != 0) by (bit_vector);
    assert(15u32 & 128u32 == 0) by (bit_vector);
}

/// A handshake with a device that keeps FEATURES_OK and takes a ring as
/// large as the driver's succeeds: it hands out the actions of the protocol
/// in their order, ends with `Finished { ok: true }`, and leaves the
/// registry with the devices it had and exactly one more, the new one, at
/// the end.
pub proof fn lemma_setup_succeeds(
    dev: u64,
    capacity: u16,
    devices: Seq<BlockDeviceView>,
    env: Environment,
    steps: nat,
)
    requires
        capacity > 0,
        steps >= 13,
        StatusField::test(env.status, StatusField::FeaturesOk),
        capacity <= env.queue_num_max,
    ensures
        ({
            let end = run(
                SetupView::start(dev, capacity),
                Some(devices),
                env,
                Reply::Done,
                steps,
            );
            &&& end.trace == negotiation(env.host_features) + seq![
                Action::Read { register: MmioOffsets::QueueNumMax },
                Action::Write { register: MmioOffsets::QueueNum, value: capacity as u32 },
                Action::AllocateRing { pages: QueueView::pages(capacity) as usize },
                Action::Write { register: MmioOffsets::QueuePfn, value: queue_pfn(env.ring) },
                status_write(live()),
                Action::Finished { ok: true },
            ]
            &&& end.registry == Some(devices.push(fresh_device(dev, env.ring, capacity)))
            &&& end.registry->0.len() == devices.len() + 1
            &&& end.setup.stage == Stage::Ready
        }),
{
    let t1 = SetupView::start(dev, capacity).step(Some(devices), Reply::Done);
    let t2 = env.follow(t1);
    let t3 = env.follow(t2);
    let t4 = env.follow(t3);
    let t5 = env.follow(t4);
    let t6 = env.follow(t5);
    let t7 = env.follow(t6);
    let t8 = env.follow(t7);
    let t9 = env.follow(t8);
    let t10 = env.follow(t9);
    let t11 = env.follow(t10);
    let t12 = env.follow(t11);
    let t13 = env.follow(t12);
    assert(t7.setup.stage == Stage::Checking && t7.setup.held == devices);
    assert(t8.setup.stage == Stage::MeasuringQueue);
    assert(t11.setup.stage == Stage::Registering && t11.setup.ring == env.ring);
    assert(t12.setup.stage == Stage::Activating);
    assert(t13.action == Action::Finished { ok: true });
    let r13 = env.resume(t12, (steps - 12) as nat);
    let r12 = env.resume(t11, (steps - 11) as nat);
    let r11 = env.resume(t10, (steps - 10) as nat);
    let r10 = env.resume(t9, (steps - 9) as nat);
    let r9 = env.resume(t8, (steps - 8) as nat);
    let r8 = env.resume(t7, (steps - 7) as nat);
    let r7 = env.resume(t6, (steps - 6) as nat);
    let r6 = env.resume(t5, (steps - 5) as nat);
    let r5 = env.resume(t4, (steps - 4) as nat);
    let r4 = env.resume(t3, (steps - 3) as nat);
    let r3 = env.resume(t2, (steps - 2) as nat);
    let r2 = env.resume(t1, (steps - 1) as nat);
    let end = run(SetupView::start(dev, capacity), Some(devices), env, Reply::Done, steps);
    assert(r13.trace == seq![t13.action]);
    assert(r12.trace == seq![t12.action] + r13.trace);
    assert(r11.trace == seq![t11.action] + r12.trace);
    assert(r10.trace == seq![t10.action] + r11.trace);
    assert(r9.trace == seq![t9.action] + r10.trace);
    assert(r8.trace == seq![t8.action] + r9.trace);
    assert(r7.trace == seq![t7.action] + r8.trace);
    assert(r6.trace == seq![t6.action] + r7.trace);
    assert(r5.trace == seq![t5.action] + r6.trace);
    assert(r4.trace == seq![t4.action] + r5.trace);
    assert(r3.trace == seq![t3.action] + r4.trace);
    assert(r2.trace == seq![t2.action] + r3.trace);
    assert(end.trace == seq![t1.action] + r2.trace);
    assert(end.registry == t13.registry && end.setup == t13.setup);
    assert(end.trace =~= negotiation(env.host_features) + seq![
        Action::Read { register: MmioOffsets::QueueNumMax },
        Action::Write { register: MmioOffsets::QueueNum, value: capacity as u32 },
        Action::AllocateRing { pages: QueueView::pages(capacity) as usize },
        Action::Write { register: MmioOffsets::QueuePfn, value: queue_pfn(env.ring) },
        status_write(live()),
        Action::Finished { ok: true },
    ]);
}

/// A handshake with a device that drops FEATURES_OK fails: the last thing
/// it does to the device is to store a status with FAILED set, it ends
/// with `Finished { ok: false }`, and the registry is left as it was.
pub proof fn lemma_setup_fails_on_features(
    dev: u64,
    capacity: u16,
    devices: Seq<BlockDeviceView>,
    env: Environment,
    steps: nat,
)
    requires
        capacity > 0,
        steps >= 9,
        !StatusField::test(env.status, StatusField::FeaturesOk),
    ensures
        ({
            let end = run(
                SetupView::start(dev, capacity),
                Some(devices),
                env,
                Reply::Done,
                steps,
            );
            &&& end.trace == negotiation(env.host_features) + seq![
                status_write(given_up()),
                Action::Finished { ok: false },
            ]
            &&& StatusField::test(given_up(), StatusField::Failed)
            &&& forall|i: int| 0 <= i < end.trace.len() ==> !concerns_ring(#[trigger] end.trace[i])
            &&& end.registry == Some(devices)
            &&& end.setup.stage == Stage::Failed
        }),
{
    reveal_with_fuel(run, 10);
    lemma_status_values();
    let end = run(SetupView::start(dev, capacity), Some(devices), env, Reply::Done, steps);
    assert(end.trace =~= negotiation(env.host_features) + seq![
        status_write(given_up()),
        Action::Finished { ok: false },
    ]);
}

/// A handshake with a device that takes no ring as large as the driver's
/// fails: it ends with `Finished { ok: false }` without having stored a
/// ring size or a ring address or having asked for memory, and the registry
/// is left as it was. If the device kept FEATURES_OK, the handshake ends
/// as soon as it has loaded the largest size.
pub proof fn lemma_setup_fails_on_queue_size(
    dev: u64,
    capacity: u16,
    devices: Seq<BlockDeviceView>,
    env: Environment,
    steps: nat,
)
    requires
        capacity > 0,
        steps >= 9,
        capacity > env.queue_num_max,
    ensures
        ({
            let end = run(
                SetupView::start(dev, capacity),
                Some(devices),
                env,
                Reply::Done,
                steps,
            );
            &&& end.trace.len() > 0
            &&& end.trace.last() == Action::Finished { ok: false }
            &&& forall|i: int| 0 <= i < end.trace.len() ==> !concerns_ring(#[trigger] end.trace[i])
            &&& end.registry == Some(devices)
            &&& end.setup.stage == Stage::Failed
            &&& StatusField::test(env.status, StatusField::FeaturesOk) ==> end.trace
                == negotiation(env.host_features) + seq![
                Action::Read { register: MmioOffsets::QueueNumMax },
                Action::Finished { ok: false },
            ]
        }),
{
    let end = run(SetupView::start(dev, capacity), Some(devices), env, Reply::Done, steps);
    if StatusField::test(env.status, StatusField::FeaturesOk) {
        reveal_with_fuel(run, 10);
        assert(end.trace =~= negotiation(env.host_features) + seq![
            Action::Read { register: MmioOffsets::QueueNumMax },
            Action::Finished { ok: false },
        ]);
    } else {
        lemma_setup_fails_on_features(dev, capacity, devices, env, steps);
    }
}

/// A handshake that finds the registry's slot empty fails at once: it
/// touches neither the device nor the registry.
pub proof fn lemma_setup_fails_on_empty_slot(dev: u64, capacity: u16, env: Environment, steps: nat)
    requires
        steps >= 1,
    ensures
        ({
            let end = run(SetupView::start(dev, capacity), None, env, Reply::Done, steps);
            &&& end.trace == seq![Action::Finished { ok: false }]
            &&& end.registry is None
            &&& end.setup.stage == Stage::Failed
        }),
{
    reveal_with_fuel(run, 2);
}

} // verus!
