//! The bridge between a call that delivers a record and the worker that
//! processes it.
//!
//! A call across the boundary has to return at once; processing a record
//! takes its time. So the call only puts the record in the queue of the
//! step's channel, and a worker takes it out when it gets to it. A channel
//! has a sending end, which stays in the bridge, and a consuming end, which
//! the worker fetches once and keeps.

use vstd::prelude::*;
use std::collections::HashMap;
use std::collections::VecDeque;
use crate::ffi::types::module::{
    ModuleHandle, ModulePipelineProcessRecordFnResult, Record, RecordView,
};

verus! {

/// The number of a channel. Channels are numbered as they are made, so no
/// two channels of one bridge have the same number.
pub type ChannelId = u64;

/// What a bridge holds.
pub struct BridgeView {
    /// The channel to which each handle's records go.
    pub producers: Map<ModuleHandle, ChannelId>,
    /// The channels whose consuming end nobody has fetched yet.
    pub consumers: Map<ModuleHandle, ChannelId>,
    /// The records that wait in each open channel, the oldest first.
    pub queues: Map<ChannelId, Seq<RecordView>>,
    /// The number of channels made so far.
    pub created: nat,
}

/// The consuming end of a channel. It is handed out once and cannot be
/// copied, so a channel has one consumer.
#[derive(Debug)]
pub struct Consumer {
    handle: ModuleHandle,
    channel: ChannelId,
}

impl Consumer {
    /// The handle for which the channel was made.
    pub closed spec fn handle(&self) -> ModuleHandle {
        self.handle
    }

    /// The channel of which this is the consuming end.
    pub closed spec fn channel(&self) -> ChannelId {
        self.channel
    }
}

/// Why a consumer got no record.
#[derive(Clone, Copy, PartialEq, Eq, Structural, Debug)]
pub enum TryRecvError {
    /// None waits, but more may come.
    Empty,
    /// None waits and none will come: the sending end is gone.
    Disconnected,
}

impl BridgeView {
    /// The bridge without channels.
    pub open spec fn empty() -> Self {
        BridgeView {
            producers: Map::empty(),
            consumers: Map::empty(),
            queues: Map::empty(),
            created: 0,
        }
    }

    /// What holds of every bridge: the channels in use have been made; a
    /// consuming end that is still here belongs to its handle's current
    /// channel; and no two handles send to one channel.
    pub open spec fn well_formed(self) -> bool {
        &&& forall|h: ModuleHandle| #[trigger]
            self.producers.contains_key(h) ==> self.producers[h] < self.created
        &&& forall|c: ChannelId| #[trigger] self.queues.contains_key(c) ==> c < self.created
        &&& forall|h: ModuleHandle| #[trigger]
            self.consumers.contains_key(h) ==> self.producers.contains_key(h)
                && self.producers[h] == self.consumers[h]
        &&& forall|h1: ModuleHandle, h2: ModuleHandle|
            self.producers.contains_key(h1) && self.producers.contains_key(h2) && h1 != h2
                ==> self.producers[h1] != self.producers[h2]
    }

    /// A record for `h` can be delivered: `h` has a channel, and it is open.
    pub open spec fn accepts(self, h: ModuleHandle) -> bool {
        self.producers.contains_key(h) && self.queues.contains_key(self.producers[h])
    }

    /// The bridge after a channel was made for `h`. The channel is new and
    /// empty, and both its ends stand under `h`, in place of the ends of an
    /// earlier channel. If the consuming end of the earlier channel was
    /// still here, that channel is closed and what waited in it is lost; if
    /// a consumer holds it, the consumer keeps what waits for it and will
    /// get no more.
    pub open spec fn with_channel(self, h: ModuleHandle) -> Self {
        let fresh = self.created as ChannelId;
        let kept = if self.consumers.contains_key(h) {
            self.queues.remove(self.consumers[h])
        } else {
            self.queues
        };
        BridgeView {
            producers: self.producers.insert(h, fresh),
            consumers: self.consumers.insert(h, fresh),
            queues: kept.insert(fresh, Seq::empty()),
            created: self.created + 1,
        }
    }

    /// What delivering a record for `h` reports: that the record was taken,
    /// or that the handle is wrong and the record was not taken.
    pub open spec fn delivery_result(self, h: ModuleHandle) -> ModulePipelineProcessRecordFnResult {
        if self.accepts(h) {
            ModulePipelineProcessRecordFnResult::Success(true)
        } else {
            ModulePipelineProcessRecordFnResult::ErrWrongModuleHandle(h, false)
        }
    }

    /// The bridge after a record was delivered for `h`: the record waits at
    /// the end of the queue of the handle's channel. Where the handle is
    /// wrong, nothing changes.
    pub open spec fn delivered(self, h: ModuleHandle, record: RecordView) -> Self {
        if self.accepts(h) {
            let c = self.producers[h];
            BridgeView { queues: self.queues.insert(c, self.queues[c].push(record)), ..self }
        } else {
            self
        }
    }

    /// The channel whose consuming end can be fetched for `h`.
    pub open spec fn consumer_of(self, h: ModuleHandle) -> Option<ChannelId> {
        if self.consumers.contains_key(h) {
            Some(self.consumers[h])
        } else {
            None
        }
    }

    /// The bridge after the consuming end for `h` was fetched: it is no
    /// longer here. The sending end is as before.
    pub open spec fn without_consumer(self, h: ModuleHandle) -> Self {
        BridgeView { consumers: self.consumers.remove(h), ..self }
    }

    /// Records can still come through the channel `c` made for `h`: it is
    /// open, and it is the channel to which the records of `h` go.
    pub open spec fn connected(self, h: ModuleHandle, c: ChannelId) -> bool {
        self.queues.contains_key(c) && self.producers.contains_key(h) && self.producers[h] == c
    }

    /// What the consumer of the channel `c` made for `h` gets: the record
    /// that has waited longest, or the reason why there is none.
    pub open spec fn next_record(self, h: ModuleHandle, c: ChannelId) -> Result<
        RecordView,
        TryRecvError,
    > {
        if self.queues.contains_key(c) && self.queues[c].len() > 0 {
            Ok(self.queues[c].first())
        } else if self.connected(h, c) {
            Err(TryRecvError::Empty)
        } else {
            Err(TryRecvError::Disconnected)
        }
    }

    /// The bridge after the consumer of `c` asked for a record: the record
    /// it got no longer waits.
    pub open spec fn after_receipt(self, c: ChannelId) -> Self {
        if self.queues.contains_key(c) && self.queues[c].len() > 0 {
            BridgeView { queues: self.queues.insert(c, self.queues[c].drop_first()), ..self }
        } else {
            self
        }
    }

    /// The bridge after the consumer of `c` gave its end up: the channel is
    /// closed, and what waited in it is lost.
    pub open spec fn closed(self, c: ChannelId) -> Self {
        BridgeView { queues: self.queues.remove(c), ..self }
    }

    /// The bridge after the channel of `h` was taken down: records for `h`
    /// are refused. A consuming end that was still here goes with what
    /// waited for it; a consumer that holds its end keeps what waits for it
    /// and will get no more.
    pub open spec fn without_channel(self, h: ModuleHandle) -> Self {
        BridgeView {
            producers: self.producers.remove(h),
            consumers: self.consumers.remove(h),
            queues: if self.consumers.contains_key(h) {
                self.queues.remove(self.consumers[h])
            } else {
                self.queues
            },
            ..self
        }
    }

    /// The bridge after `records` were delivered for `h`, one after the
    /// other.
    pub open spec fn delivered_all(self, h: ModuleHandle, records: Seq<RecordView>) -> Self
        decreases records.len(),
    {
        if records.len() == 0 {
            self
        } else {
            self.delivered_all(h, records.drop_last()).delivered(h, records.last())
        }
    }

    /// The bridge after the consumer of `c` asked for a record `n` times.
    pub open spec fn after_receipts(self, c: ChannelId, n: nat) -> Self
        decreases n,
    {
        if n == 0 {
            self
        } else {
            self.after_receipts(c, (n - 1) as nat).after_receipt(c)
        }
    }
}

/// Whatever is done to a bridge, it stays well formed.
pub proof fn lemma_bridge_stays_well_formed(
    bridge: BridgeView,
    h: ModuleHandle,
    c: ChannelId,
    record: RecordView,
)
    requires
        bridge.well_formed(),
    ensures
        BridgeView::empty().well_formed(),
        bridge.created < ChannelId::MAX ==> bridge.with_channel(h).well_formed(),
        bridge.delivered(h, record).well_formed(),
        bridge.without_consumer(h).well_formed(),
        bridge.after_receipt(c).well_formed(),
        bridge.closed(c).well_formed(),
        bridge.without_channel(h).well_formed(),
{
}

/// Delivering records for a handle that accepts them puts them at the end
/// of its channel's queue, in the order of their delivery, and changes
/// nothing else.
pub proof fn lemma_delivered_all(bridge: BridgeView, h: ModuleHandle, records: Seq<RecordView>)
    requires
        bridge.accepts(h),
    ensures
        bridge.delivered_all(h, records) == (BridgeView {
            queues: bridge.queues.insert(
                bridge.producers[h],
                bridge.queues[bridge.producers[h]] + records,
            ),
            ..bridge
        }),
    decreases records.len(),
{
    let c = bridge.producers[h];
    if records.len() == 0 {
        assert(bridge.queues[c] + records =~= bridge.queues[c]);
        assert(bridge.queues.insert(c, bridge.queues[c]) =~= bridge.queues);
    } else {
        let front = records.drop_last();
        lemma_delivered_all(bridge, h, front);
        let mid = bridge.delivered_all(h, front);
        assert(mid.accepts(h));
        assert((bridge.queues[c] + front).push(records.last()) =~= bridge.queues[c] + records);
        assert(mid.queues.insert(c, mid.queues[c].push(records.last())) =~= bridge.queues.insert(
            c,
            bridge.queues[c] + records,
        ));
    }
}

/// Asking for a record `n` times takes the `n` records that have waited
/// longest out of the queue, and changes nothing else.
pub proof fn lemma_after_receipts(bridge: BridgeView, c: ChannelId, n: nat)
    requires
        bridge.queues.contains_key(c),
        n <= bridge.queues[c].len(),
    ensures
        bridge.after_receipts(c, n) == (BridgeView {
            queues: bridge.queues.insert(c, bridge.queues[c].skip(n as int)),
            ..bridge
        }),
    decreases n,
{
    if n == 0 {
        assert(bridge.queues[c].skip(0) =~= bridge.queues[c]);
        assert(bridge.queues.insert(c, bridge.queues[c]) =~= bridge.queues);
    } else {
        lemma_after_receipts(bridge, c, (n - 1) as nat);
        let mid = bridge.after_receipts(c, (n - 1) as nat);
        assert(mid.queues[c].drop_first() =~= bridge.queues[c].skip(n as int));
        assert(mid.queues.insert(c, mid.queues[c].drop_first()) =~= bridge.queues.insert(
            c,
            bridge.queues[c].skip(n as int),
        ));
    }
}

/// First in, first out: of the records delivered for one handle, the
/// consumer of the handle's channel gets each after all that were delivered
/// before it, and after those that waited in the channel already.
pub proof fn lemma_fifo(bridge: BridgeView, h: ModuleHandle, records: Seq<RecordView>, i: int)
    requires
        bridge.accepts(h),
        0 <= i < records.len(),
    ensures
        ({
            let c = bridge.producers[h];
            let waiting = bridge.queues[c].len();
            bridge.delivered_all(h, records).after_receipts(c, (waiting + i) as nat).next_record(
                h,
                c,
            ) == Ok::<RecordView, TryRecvError>(records[i])
        }),
{
    let c = bridge.producers[h];
    let waiting = bridge.queues[c].len();
    lemma_delivered_all(bridge, h, records);
    let full = bridge.delivered_all(h, records);
    lemma_after_receipts(full, c, (waiting + i) as nat);
}

/// A handle for which no channel was made is a wrong handle: a record for
/// it is reported as not taken, and the bridge stays as it is.
pub proof fn lemma_unknown_handle(bridge: BridgeView, h: ModuleHandle, record: RecordView)
    requires
        !bridge.producers.contains_key(h),
    ensures
        bridge.delivery_result(h) == ModulePipelineProcessRecordFnResult::ErrWrongModuleHandle(
            h,
            false,
        ),
        !bridge.delivery_result(h).consumed(),
        bridge.delivered(h, record) == bridge,
{
}

/// Handles get a channel by having one made, and in no other way.
pub proof fn lemma_channel_made(bridge: BridgeView, made: ModuleHandle, h: ModuleHandle)
    ensures
        !BridgeView::empty().producers.contains_key(h),
        bridge.with_channel(made).producers.contains_key(h) <==> h == made
            || bridge.producers.contains_key(h),
        bridge.with_channel(made).accepts(made),
{
}

/// One consumer: once the consuming end for a handle was fetched, there is
/// none to fetch, while records for the handle are accepted as before.
pub proof fn lemma_single_consumer(bridge: BridgeView, h: ModuleHandle)
    ensures
        bridge.without_consumer(h).consumer_of(h) is None,
        bridge.without_consumer(h).producers == bridge.producers,
        bridge.without_consumer(h).accepts(h) == bridge.accepts(h),
        bridge.without_consumer(h).without_consumer(h) == bridge.without_consumer(h),
{
    assert(bridge.consumers.remove(h).remove(h) =~= bridge.consumers.remove(h));
}

/// A channel that was taken down or replaced is at its end: records for a
/// handle without channel are refused, and the consumer of a channel to
/// which no records go any more still gets what waits for it, in order, and
/// is then told that no more will come.
pub proof fn lemma_channel_end(bridge: BridgeView, h: ModuleHandle, c: ChannelId)
    requires
        bridge.well_formed(),
        bridge.queues.contains_key(c),
        !bridge.consumers.contains_key(h),
    ensures
        !bridge.without_channel(h).accepts(h),
        bridge.without_channel(h).delivery_result(h)
            == ModulePipelineProcessRecordFnResult::ErrWrongModuleHandle(h, false),
        bridge.without_channel(h).queues[c] == bridge.queues[c],
        !bridge.without_channel(h).connected(h, c),
        bridge.created < ChannelId::MAX ==> !bridge.with_channel(h).connected(h, c)
            && bridge.with_channel(h).queues[c] == bridge.queues[c],
        bridge.queues[c].len() == 0 ==> bridge.without_channel(h).next_record(h, c) == Err::<
            RecordView,
            TryRecvError,
        >(TryRecvError::Disconnected),
        bridge.queues[c].len() > 0 ==> bridge.without_channel(h).next_record(h, c) == Ok::<
            RecordView,
            TryRecvError,
        >(bridge.queues[c].first()),
{
}

/// Handles do not get in each other's way: a delivery for one handle leaves
/// what waits for another where it is.
pub proof fn lemma_delivery_is_per_handle(
    bridge: BridgeView,
    h: ModuleHandle,
    other: ModuleHandle,
    record: RecordView,
)
    requires
        bridge.well_formed(),
        h != other,
        bridge.accepts(other),
    ensures
        bridge.delivered(h, record).accepts(other),
        bridge.delivered(h, record).queues[bridge.producers[other]]
            == bridge.queues[bridge.producers[other]],
{
}

/// The records of a queue, as the bridge's model has them.
spec fn queue_view(queue: VecDeque<Record>) -> Seq<RecordView> {
    queue@.map_values(|r: Record| r@)
}

/// The bridge: for each handle the two ends of its channel, and for each
/// open channel the records in transit. A record in transit is the
/// bridge's until a consumer gets it.
pub struct RecordBridge {
    senders: HashMap<ModuleHandle, ChannelId>,
    receivers: HashMap<ModuleHandle, ChannelId>,
    queues: HashMap<ChannelId, VecDeque<Record>>,
    created: ChannelId,
}

impl View for RecordBridge {
    type V = BridgeView;

    closed spec fn view(&self) -> BridgeView {
        BridgeView {
            producers: self.senders@,
            consumers: self.receivers@,
            queues: self.queues@.map_values(|q: VecDeque<Record>| queue_view(q)),
            created: self.created as nat,
        }
    }
}

impl RecordBridge {
    #[verifier::type_invariant]
    spec fn inv(self) -> bool {
        self@.well_formed()
    }

    /// The bridge without channels.
    pub fn new() -> (bridge: Self)
        ensures
            bridge@ == BridgeView::empty(),
            bridge@.well_formed(),
    {
        let bridge = RecordBridge {
            senders: HashMap::new(),
            receivers: HashMap::new(),
            queues: HashMap::new(),
            created: 0,
        };
        assert(bridge@.queues =~= Map::empty());
        bridge
    }

    /// Whether the bridge can number one more channel.
    pub fn has_room(&self) -> (room: bool)
        ensures
            room == (self@.created < ChannelId::MAX),
    {
        self.created < ChannelId::MAX
    }
}

/// Makes a channel for `module_handle` and keeps both its ends under the
/// handle. The ends of an earlier channel for the handle are replaced.
pub fn create_sender_and_receiver(bridge: &mut RecordBridge, module_handle: ModuleHandle)
    requires
        old(bridge)@.created < ChannelId::MAX,
    ensures
        final(bridge)@ == old(bridge)@.with_channel(module_handle),
        final(bridge)@.well_formed(),
{
    proof {
        use_type_invariant(&*bridge);
    }
    let ghost before = bridge@;
    let mut taken = RecordBridge::new();
    core::mem::swap(bridge, &mut taken);
    let RecordBridge { mut senders, mut receivers, mut queues, created } = taken;
    let fresh: ChannelId = created;
    match receivers.insert(module_handle, fresh) {
        Some(stale) => {
            queues.remove(&stale);
        },
        None => {},
    }
    let queue: VecDeque<Record> = VecDeque::new();
    assert(queue_view(queue) =~= Seq::<RecordView>::empty());
    queues.insert(fresh, queue);
    senders.insert(module_handle, fresh);
    proof {
        let after = before.with_channel(module_handle);
        assert(queues@.map_values(|q: VecDeque<Record>| queue_view(q)) =~= after.queues);
    }
    *bridge = RecordBridge { senders, receivers, queues, created: fresh + 1 };
}

/// The host's call that hands a record to the step `module_handle`.
///
/// Where the handle has an open channel, the record goes to the end of its
/// queue and the call reports success, with the record taken. Where no
/// channel was made for the handle, or its channel was closed, the call
/// reports a wrong handle, with the record not taken, and hands the record
/// back for its sender to release. The call waits for nobody: a queue takes
/// any number of records.
pub fn torustiq_module_pipeline_process_record(
    bridge: &mut RecordBridge,
    module_handle: ModuleHandle,
    in_record: Record,
) -> (out: (ModulePipelineProcessRecordFnResult, Option<Record>))
    ensures
        out.0 == old(bridge)@.delivery_result(module_handle),
        final(bridge)@ == old(bridge)@.delivered(module_handle, in_record@),
        out.1 == (if out.0.consumed() {
            None
        } else {
            Some(in_record)
        }),
        final(bridge)@.well_formed(),
{
    proof {
        use_type_invariant(&*bridge);
    }
    let ghost before = bridge@;
    let channel: ChannelId = match bridge.senders.get(&module_handle) {
        Some(channel) => *channel,
        None => {
            return (
                ModulePipelineProcessRecordFnResult::ErrWrongModuleHandle(module_handle, false),
                Some(in_record),
            );
        },
    };
    let mut taken = RecordBridge::new();
    core::mem::swap(bridge, &mut taken);
    let RecordBridge { senders, receivers, mut queues, created } = taken;
    match queues.remove(&channel) {
        Some(mut queue) => {
            let ghost waiting = queue_view(queue);
            queue.push_back(in_record);
            assert(queue_view(queue) =~= waiting.push(in_record@));
            queues.insert(channel, queue);
            assert(queues@.map_values(|q: VecDeque<Record>| queue_view(q)) =~= before.delivered(
                module_handle,
                in_record@,
            ).queues);
            *bridge = RecordBridge { senders, receivers, queues, created };
            (ModulePipelineProcessRecordFnResult::Success(true), None)
        },
        None => {
            assert(queues@.map_values(|q: VecDeque<Record>| queue_view(q)) =~= before.queues);
            *bridge = RecordBridge { senders, receivers, queues, created };
            (
                ModulePipelineProcessRecordFnResult::ErrWrongModuleHandle(module_handle, false),
                Some(in_record),
            )
        },
    }
}

/// Fetches the consuming end of the channel of `handle`. It is fetched
/// once: afterwards it is no longer here, and a second call gets none. The
/// sending end is not touched.
pub fn get_receiver_owned(bridge: &mut RecordBridge, handle: ModuleHandle) -> (consumer: Option<
    Consumer,
>)
    ensures
        match consumer {
            Some(c) => old(bridge)@.consumer_of(handle) == Some(c.channel()) && c.handle()
                == handle,
            None => old(bridge)@.consumer_of(handle) is None,
        },
        final(bridge)@ == old(bridge)@.without_consumer(handle),
        final(bridge)@.well_formed(),
{
    proof {
        use_type_invariant(&*bridge);
    }
    let ghost before = bridge@;
    let mut taken = RecordBridge::new();
    core::mem::swap(bridge, &mut taken);
    let RecordBridge { senders, mut receivers, queues, created } = taken;
    let fetched = receivers.remove(&handle);
    assert(queues@.map_values(|q: VecDeque<Record>| queue_view(q)) =~= before.queues);
    assert(before.without_consumer(handle).well_formed());
    *bridge = RecordBridge { senders, receivers, queues, created };
    match fetched {
        Some(channel) => Some(Consumer { handle, channel }),
        None => None,
    }
}

/// Gets the consumer the record that has waited longest in its channel,
/// without waiting for one: where none is there, the call says whether
/// more may come.
pub fn try_recv(bridge: &mut RecordBridge, consumer: &Consumer) -> (got: Result<
    Record,
    TryRecvError,
>)
    ensures
        match got {
            Ok(record) => old(bridge)@.next_record(consumer.handle(), consumer.channel()) == Ok::<
                RecordView,
                TryRecvError,
            >(record@),
            Err(e) => old(bridge)@.next_record(consumer.handle(), consumer.channel()) == Err::<
                RecordView,
                TryRecvError,
            >(e),
        },
        final(bridge)@ == old(bridge)@.after_receipt(consumer.channel()),
        final(bridge)@.well_formed(),
{
    proof {
        use_type_invariant(&*bridge);
    }
    let ghost before = bridge@;
    let connected = match bridge.senders.get(&consumer.handle) {
        Some(channel) => *channel == consumer.channel,
        None => false,
    };
    let mut taken = RecordBridge::new();
    core::mem::swap(bridge, &mut taken);
    let RecordBridge { senders, receivers, mut queues, created } = taken;
    match queues.remove(&consumer.channel) {
        Some(mut queue) => {
            let ghost waiting = queue_view(queue);
            let first = queue.pop_front();
            assert(first is Some ==> queue_view(queue) =~= waiting.drop_first());
            queues.insert(consumer.channel, queue);
            assert(queues@.map_values(|q: VecDeque<Record>| queue_view(q)) =~= before.after_receipt(
                consumer.channel,
            ).queues);
            *bridge = RecordBridge { senders, receivers, queues, created };
            match first {
                Some(record) => Ok(record),
                None => if connected {
                    Err(TryRecvError::Empty)
                } else {
                    Err(TryRecvError::Disconnected)
                },
            }
        },
        None => {
            assert(queues@.map_values(|q: VecDeque<Record>| queue_view(q)) =~= before.queues);
            *bridge = RecordBridge { senders, receivers, queues, created };
            Err(TryRecvError::Disconnected)
        },
    }
}

/// Gives the consuming end of a channel up: the channel is closed, what
/// waited in it is released, and records for it are refused from now on.
pub fn close(bridge: &mut RecordBridge, consumer: Consumer)
    ensures
        final(bridge)@ == old(bridge)@.closed(consumer.channel()),
        final(bridge)@.well_formed(),
{
    proof {
        use_type_invariant(&*bridge);
    }
    let ghost before = bridge@;
    let mut taken = RecordBridge::new();
    core::mem::swap(bridge, &mut taken);
    let RecordBridge { senders, receivers, mut queues, created } = taken;
    queues.remove(&consumer.channel);
    assert(queues@.map_values(|q: VecDeque<Record>| queue_view(q)) =~= before.closed(
        consumer.channel,
    ).queues);
    *bridge = RecordBridge { senders, receivers, queues, created };
}

/// Takes the channel of `handle` down: its sending end goes, so records
/// for the handle are refused until a new channel is made. Its consuming end
/// goes too if nobody has fetched it, with what waited for it; a consumer
/// that holds its end still gets what waits for it.
pub fn remove_sender_and_receiver(bridge: &mut RecordBridge, handle: ModuleHandle)
    ensures
        final(bridge)@ == old(bridge)@.without_channel(handle),
        final(bridge)@.well_formed(),
{
    proof {
        use_type_invariant(&*bridge);
    }
    let ghost before = bridge@;
    let mut taken = RecordBridge::new();
    core::mem::swap(bridge, &mut taken);
    let RecordBridge { mut senders, mut receivers, mut queues, created } = taken;
    senders.remove(&handle);
    match receivers.remove(&handle) {
        Some(unfetched) => {
            queues.remove(&unfetched);
        },
        None => {},
    }
    proof {
        let after = before.without_channel(handle);
        assert(queues@.map_values(|q: VecDeque<Record>| queue_view(q)) =~= after.queues);
        assert(after.well_formed());
    }
    *bridge = RecordBridge { senders, receivers, queues, created };
}

} // verus!
