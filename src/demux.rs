//! The demultiplexer: reads frames off the physical link and routes each to
//! its channel's queue, or resynchronises when a frame names an unknown id.
//!
//! It is a state machine: `step` takes what the last action brought and
//! answers with the next action, which the caller performs.
use vstd::prelude::*;

use crate::data_block::DataBlock;

verus! {

/// std's `mpsc::Sender`, the sending end of a channel's queue. Verus sees
/// nothing inside it; the library only keeps it beside its channel id, and
/// the caller sends through it.
#[verifier::external_type_specification]
#[verifier::external_body]
#[verifier::reject_recursive_types(T)]
pub struct ExQueueSender<T>(std::sync::mpsc::Sender<T>);

/// How long the link is left to fall quiet while resynchronising.
pub const RESYNC_WAIT_MS: u64 = 1000;

/// The sending end of one channel's inbound queue.
pub struct SerialConnectionSender {
    pub id: u8,
    pub port_sender: std::sync::mpsc::Sender<DataBlock>,
}

/// Where the demultiplexer stands.
#[derive(Clone, Copy, Debug, PartialEq, Eq, Structural)]
pub enum DemuxState {
    /// A two-byte header is being read.
    AwaitHeader,
    /// The payload of a frame with this id and length is being read.
    AwaitPayload { id: u8, len: u8 },
    /// A block is being handed to a channel's queue.
    Delivering,
    /// Desynchronised: the input buffer is being cleared the first time.
    ClearBeforeWait,
    /// Desynchronised: waiting for the link to fall quiet.
    Waiting,
    /// Desynchronised: the input buffer is being cleared the second time.
    ClearAfterWait,
}

/// What performing the last action brought.
pub enum DemuxEvent {
    /// Two header bytes (id, length), or `None` where the read failed or
    /// came back short.
    HeaderRead(Option<(u8, u8)>),
    /// The payload, or `None` where the read failed or came back short.
    PayloadRead(Option<Vec<u8>>),
    /// The block went to its channel's queue.
    Delivered,
    /// The link's input buffer was cleared.
    Cleared,
    /// The wait is over.
    Slept,
}

/// What the caller is to do next.
pub enum DemuxAction {
    /// Read exactly two bytes from the link.
    ReadHeader,
    /// Read exactly this many bytes from the link.
    ReadPayload(usize),
    /// Hand the block to the queue of the sender at this index.
    Deliver(usize, DataBlock),
    /// Clear the link's input buffer.
    ClearInput,
    /// Sleep this many milliseconds.
    Sleep(u64),
}

/// An event, as values.
pub enum EventView {
    HeaderRead(Option<(u8, u8)>),
    PayloadRead(Option<Seq<u8>>),
    Delivered,
    Cleared,
    Slept,
}

/// An action, as values.
pub enum ActionView {
    ReadHeader,
    ReadPayload(nat),
    Deliver(nat, (u8, Seq<u8>)),
    ClearInput,
    Sleep(nat),
}

impl View for DemuxEvent {
    type V = EventView;

    open spec fn view(&self) -> EventView {
        match self {
            DemuxEvent::HeaderRead(h) => EventView::HeaderRead(*h),
            DemuxEvent::PayloadRead(p) => EventView::PayloadRead(
                match p {
                    Some(v) => Some(v@),
                    None => None,
                },
            ),
            DemuxEvent::Delivered => EventView::Delivered,
            DemuxEvent::Cleared => EventView::Cleared,
            DemuxEvent::Slept => EventView::Slept,
        }
    }
}

impl View for DemuxAction {
    type V = ActionView;

    open spec fn view(&self) -> ActionView {
        match self {
            DemuxAction::ReadHeader => ActionView::ReadHeader,
            DemuxAction::ReadPayload(n) => ActionView::ReadPayload(*n as nat),
            DemuxAction::Deliver(i, b) => ActionView::Deliver(*i as nat, b@),
            DemuxAction::ClearInput => ActionView::ClearInput,
            DemuxAction::Sleep(ms) => ActionView::Sleep(*ms as nat),
        }
    }
}

/// No id occurs twice.
pub open spec fn ids_unique(ids: Seq<u8>) -> bool {
    forall|i: int, j: int| 0 <= i < j < ids.len() ==> ids[i] != ids[j]
}

/// The position of `id` among `ids`, if it is there.
pub open spec fn route(ids: Seq<u8>, id: u8) -> Option<nat> {
    if ids.contains(id) {
        Some((choose|i: int| 0 <= i < ids.len() && ids[i] == id) as nat)
    } else {
        None
    }
}

/// One step of the demultiplexer over the known ids `ids`: the state after
/// `event` and the action that follows. An event that does not belong to
/// the state restarts framing at a header.
pub open spec fn transition(state: DemuxState, ids: Seq<u8>, event: EventView) -> (
    DemuxState,
    ActionView,
) {
    match (state, event) {
        (DemuxState::AwaitHeader, EventView::HeaderRead(Some((id, len)))) => (
            DemuxState::AwaitPayload { id, len },
            ActionView::ReadPayload(len as nat),
        ),
        (DemuxState::AwaitPayload { id, len }, EventView::PayloadRead(Some(p))) => {
            if p.len() != len as nat {
                (DemuxState::AwaitHeader, ActionView::ReadHeader)
            } else {
                match route(ids, id) {
                    Some(i) => (DemuxState::Delivering, ActionView::Deliver(i, (id, p))),
                    None => (DemuxState::ClearBeforeWait, ActionView::ClearInput),
                }
            }
        },
        (DemuxState::ClearBeforeWait, EventView::Cleared) => (
            DemuxState::Waiting,
            ActionView::Sleep(RESYNC_WAIT_MS as nat),
        ),
        (DemuxState::Waiting, EventView::Slept) => (
            DemuxState::ClearAfterWait,
            ActionView::ClearInput,
        ),
        _ => (DemuxState::AwaitHeader, ActionView::ReadHeader),
    }
}

/// The state after a run of events from `state`, and the actions taken on
/// the way, in order.
pub open spec fn run(state: DemuxState, ids: Seq<u8>, events: Seq<EventView>) -> (
    DemuxState,
    Seq<ActionView>,
)
    decreases events.len(),
{
    if events.len() == 0 {
        (state, Seq::empty())
    } else {
        let (next, action) = transition(state, ids, events[0]);
        let (last, actions) = run(next, ids, events.drop_first());
        (last, seq![action] + actions)
    }
}

/// A frame whose id no channel has is delivered nowhere: the demultiplexer
/// clears the input, waits, clears it again, and then reads headers afresh,
/// so that the next well-formed frame reaches its own channel.
pub proof fn lemma_unknown_id_resyncs(
    ids: Seq<u8>,
    bad_id: u8,
    bad_payload: Seq<u8>,
    id: u8,
    payload: Seq<u8>,
)
    requires
        ids_unique(ids),
        !ids.contains(bad_id),
        bad_payload.len() <= 255,
        ids.contains(id),
        payload.len() <= 255,
    ensures
        ({
            let events = seq![
                EventView::PayloadRead(Some(bad_payload)),
                EventView::Cleared,
                EventView::Slept,
                EventView::Cleared,
                EventView::HeaderRead(Some((id, payload.len() as u8))),
                EventView::PayloadRead(Some(payload)),
            ];
            let start = DemuxState::AwaitPayload { id: bad_id, len: bad_payload.len() as u8 };
            run(start, ids, events) == (
                DemuxState::Delivering,
                seq![
                    ActionView::ClearInput,
                    ActionView::Sleep(RESYNC_WAIT_MS as nat),
                    ActionView::ClearInput,
                    ActionView::ReadHeader,
                    ActionView::ReadPayload(payload.len()),
                    ActionView::Deliver(route(ids, id)->0, (id, payload)),
                ],
            )
        }),
{
    let events = seq![
        EventView::PayloadRead(Some(bad_payload)),
        EventView::Cleared,
        EventView::Slept,
        EventView::Cleared,
        EventView::HeaderRead(Some((id, payload.len() as u8))),
        EventView::PayloadRead(Some(payload)),
    ];
    let start = DemuxState::AwaitPayload { id: bad_id, len: bad_payload.len() as u8 };
    assert(route(ids, bad_id) is None);
    let e1 = events.drop_first();
    let e2 = e1.drop_first();
    let e3 = e2.drop_first();
    let e4 = e3.drop_first();
    let e5 = e4.drop_first();
    let e6 = e5.drop_first();
    assert(e6 =~= Seq::<EventView>::empty());
    assert(e5 =~= seq![EventView::PayloadRead(Some(payload))]);
    let s5 = DemuxState::AwaitPayload { id, len: payload.len() as u8 };
    assert(run(s5, ids, e5) == (
        DemuxState::Delivering,
        seq![ActionView::Deliver(route(ids, id)->0, (id, payload))],
    )) by {
        assert(run(DemuxState::Delivering, ids, e6).1 =~= Seq::<ActionView>::empty());
    }
    assert(e4[0] == EventView::HeaderRead(Some((id, payload.len() as u8))));
    assert(e3[0] == EventView::Cleared);
    assert(e2[0] == EventView::Slept);
    assert(e1[0] == EventView::Cleared);
    let r4 = run(DemuxState::AwaitHeader, ids, e4);
    let r3 = run(DemuxState::ClearAfterWait, ids, e3);
    let r2 = run(DemuxState::Waiting, ids, e2);
    let r1 = run(DemuxState::ClearBeforeWait, ids, e1);
    let r0 = run(start, ids, events);
    assert(r0.1 =~= seq![
        ActionView::ClearInput,
        ActionView::Sleep(RESYNC_WAIT_MS as nat),
        ActionView::ClearInput,
        ActionView::ReadHeader,
        ActionView::ReadPayload(payload.len()),
        ActionView::Deliver(route(ids, id)->0, (id, payload)),
    ]);
}

/// Why a demultiplexer could not be built.
#[derive(Debug, PartialEq, Eq, Structural)]
pub enum DemuxError {
    /// Two channels share this id.
    DuplicateId(u8),
}

/// Routes frames from the physical link to the channels' queues.
pub struct Demultiplexer {
    senders: Vec<SerialConnectionSender>,
    state: DemuxState,
}

impl Demultiplexer {
    /// The ids of the known channels, in the order their senders were given.
    pub closed spec fn ids(&self) -> Seq<u8> {
        self.senders@.map_values(|s: SerialConnectionSender| s.id)
    }

    pub closed spec fn state(&self) -> DemuxState {
        self.state
    }

    pub closed spec fn sender_count(&self) -> nat {
        self.senders@.len()
    }

    /// Each known channel has one id of its own.
    pub open spec fn wf(&self) -> bool {
        ids_unique(self.ids())
    }

    /// A demultiplexer for these channels, about to read a header; refused
    /// where two channels share an id.
    pub fn new(senders: Vec<SerialConnectionSender>) -> (r: Result<Demultiplexer, DemuxError>)
        ensures
            r is Ok <==> ids_unique(senders@.map_values(|s: SerialConnectionSender| s.id)),
            r matches Ok(d) ==> d.wf() && d.ids() == senders@.map_values(
                |s: SerialConnectionSender| s.id,
            ) && d.state() == DemuxState::AwaitHeader,
            r matches Err(DemuxError::DuplicateId(id)) ==> exists|i: int, j: int|
                0 <= i < j < senders@.len() && senders@[i].id == id && senders@[j].id == id,
    {
        let ghost ids = senders@.map_values(|s: SerialConnectionSender| s.id);
        let mut j: usize = 0;
        while j < senders.len()
            invariant
                j <= senders@.len(),
                ids == senders@.map_values(|s: SerialConnectionSender| s.id),
                forall|a: int, b: int| 0 <= a < b < j ==> ids[a] != ids[b],
            decreases senders@.len() - j,
        {
            let mut i: usize = 0;
            while i < j
                invariant
                    i <= j < senders@.len(),
                    ids == senders@.map_values(|s: SerialConnectionSender| s.id),
                    forall|a: int| 0 <= a < i ==> ids[a] != ids[j as int],
                decreases j - i,
            {
                if senders[i].id == senders[j].id {
                    assert(ids[i as int] == ids[j as int]);
                    assert(!ids_unique(ids));
                    return Err(DemuxError::DuplicateId(senders[j].id));
                }
                i = i + 1;
            }
            j = j + 1;
        }
        Ok(Demultiplexer { senders, state: DemuxState::AwaitHeader })
    }

    /// Starts (or restarts) framing: the first action is to read a header.
    pub fn start(&mut self) -> (r: DemuxAction)
        requires
            old(self).wf(),
        ensures
            final(self).wf(),
            final(self).ids() == old(self).ids(),
            final(self).sender_count() == old(self).sender_count(),
            final(self).state() == DemuxState::AwaitHeader,
            r@ == ActionView::ReadHeader,
    {
        self.state = DemuxState::AwaitHeader;
        DemuxAction::ReadHeader
    }

    /// The position of the channel with this id among the senders.
    pub fn route(&self, id: u8) -> (r: Option<usize>)
        requires
            self.wf(),
        ensures
            r matches Some(i) ==> route(self.ids(), id) == Some(i as nat),
            r is None ==> route(self.ids(), id) is None,
    {
        let ghost ids = self.ids();
        let mut i: usize = 0;
        while i < self.senders.len()
            invariant
                i <= self.senders@.len(),
                self.wf(),
                ids == self.ids(),
                ids.len() == self.senders@.len(),
                forall|a: int| 0 <= a < i ==> ids[a] != id,
            decreases self.senders@.len() - i,
        {
            if self.senders[i].id == id {
                assert(ids[i as int] == id);
                assert(ids.contains(id));
                let ghost c = choose|k: int| 0 <= k < ids.len() && ids[k] == id;
                assert(ids_unique(ids));
                assert(0 <= c < ids.len() && ids[c] == id);
                proof {
                    if c < i as int {
                        assert(ids[c] != ids[i as int]);
                    } else if c > i as int {
                        assert(ids[i as int] != ids[c]);
                    }
                }
                assert(c == i);
                return Some(i);
            }
            i = i + 1;
        }
        assert(!ids.contains(id));
        None
    }

    /// The sender at position `i`.
    pub fn sender(&self, i: usize) -> (r: &SerialConnectionSender)
        requires
            i < self.sender_count(),
        ensures
            r.id == self.ids()[i as int],
    {
        &self.senders[i]
    }

    /// Takes what the last action brought and gives the next action.
    pub fn step(&mut self, event: DemuxEvent) -> (r: DemuxAction)
        requires
            old(self).wf(),
        ensures
            final(self).wf(),
            final(self).ids() == old(self).ids(),
            final(self).sender_count() == old(self).sender_count(),
            (final(self).state(), r@) == transition(old(self).state(), old(self).ids(), event@),
            r matches DemuxAction::Deliver(i, b) ==> i < final(self).sender_count() && b.wf(),
    {
        let state = self.state;
        match (state, event) {
            (DemuxState::AwaitHeader, DemuxEvent::HeaderRead(Some((id, len)))) => {
                self.state = DemuxState::AwaitPayload { id, len };
                DemuxAction::ReadPayload(len as usize)
            },
            (DemuxState::AwaitPayload { id, len }, DemuxEvent::PayloadRead(Some(p))) => {
                if p.len() != len as usize {
                    self.state = DemuxState::AwaitHeader;
                    DemuxAction::ReadHeader
                } else {
                    match self.route(id) {
                        Some(i) => {
                            self.state = DemuxState::Delivering;
                            DemuxAction::Deliver(i, DataBlock { id, data: p })
                        },
                        None => {
                            self.state = DemuxState::ClearBeforeWait;
                            DemuxAction::ClearInput
                        },
                    }
                }
            },
            (DemuxState::ClearBeforeWait, DemuxEvent::Cleared) => {
                self.state = DemuxState::Waiting;
                DemuxAction::Sleep(RESYNC_WAIT_MS)
            },
            (DemuxState::Waiting, DemuxEvent::Slept) => {
                self.state = DemuxState::ClearAfterWait;
                DemuxAction::ClearInput
            },
            _ => {
                self.state = DemuxState::AwaitHeader;
                DemuxAction::ReadHeader
            },
        }
    }
}

} // verus!
