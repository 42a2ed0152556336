//! Client side of the compositor's output-management extension.
//!
//! The client is a state machine. Events that were read from the socket are
//! fed to it one by one; it answers with the requests to send. Nothing here
//! touches the socket: the caller reads, hands the events over, and sends
//! what comes back.
//!
//! A configuration change is a transaction. It is created against the serial
//! that the compositor announced last, and it uses that serial up: no second
//! transaction is created until the compositor has announced another one. A
//! transaction is known by the serial it was created with, and at most one
//! is outstanding at any time.
//!
//! The compositor promises no order among what a head announces of itself.
//! The client therefore keeps the last transform of every head, and asks
//! for the target's only when it is queried: a head may announce its
//! transform before its name or after it.

use crate::classifier::Orientation;
use crate::error::Error;
use crate::text::same_text;
use crate::transform::Transform;
use vstd::prelude::*;

verus! {

/// What the compositor tells the client.
#[derive(Clone, Debug)]
pub enum Event {
    /// The registry advertises a global.
    Global { global: u32, interface: String, version: u32 },
    /// The output state is settled; `serial` identifies it.
    Done { serial: u32 },
    /// A head announces its name.
    HeadName { head: u32, name: String },
    /// A head announces its transform.
    HeadTransform { head: u32, transform: Transform },
    /// The transaction was applied.
    Succeeded { transaction: u32 },
    /// The transaction was rejected.
    Failed { transaction: u32 },
    /// The transaction was overtaken by a change of the output state.
    Cancelled { transaction: u32 },
    /// Any other event; it is ignored.
    Other,
}

/// What the client asks of the compositor.
#[derive(Copy, Clone, Debug, PartialEq, Eq, Structural)]
pub enum Request {
    /// Bind the output manager that the registry advertised as `global`.
    BindManager { global: u32, version: u32 },
    /// Create a configuration against `serial`; it is the transaction `serial`.
    CreateConfiguration { serial: u32 },
    /// Enable `head` in the transaction.
    EnableHead { transaction: u32, head: u32 },
    /// Set the transform of `head` in the transaction.
    SetTransform { transaction: u32, head: u32, transform: Transform },
    /// Submit the transaction.
    Apply { transaction: u32 },
    /// Release the transaction object.
    Destroy { transaction: u32 },
}

/// The interface name of the output manager.
pub open spec fn manager_interface() -> Seq<char> {
    "zwlr_output_manager_v1"@
}

/// The state of a client, as a mathematical value.
pub struct ClientView {
    /// Name of the display to rotate.
    pub target: Seq<char>,
    /// The head that announced the target's name, once one did.
    pub head: Option<u32>,
    /// The registry name of the bound output manager, once bound.
    pub manager: Option<u32>,
    /// The serial announced last, until a transaction uses it up.
    pub serial: Option<u32>,
    /// The transform that each head announced last, for every head that
    /// has announced one.
    pub transforms: Map<u32, Transform>,
    /// The outstanding transaction, if any.
    pub pending: Option<u32>,
}

impl ClientView {
    /// The state of a client that has seen nothing yet.
    pub open spec fn fresh(target: Seq<char>) -> ClientView {
        ClientView {
            target,
            head: None,
            manager: None,
            serial: None,
            transforms: Map::empty(),
            pending: None,
        }
    }

    /// The state after `event`.
    pub open spec fn after_event(self, event: Event) -> ClientView {
        match event {
            Event::Global { global, interface, version } => if interface@ == manager_interface() {
                ClientView { manager: Some(global), ..self }
            } else {
                self
            },
            Event::Done { serial } => ClientView { serial: Some(serial), ..self },
            Event::HeadName { head, name } => if name@ == self.target {
                ClientView { head: Some(head), ..self }
            } else {
                self
            },
            Event::HeadTransform { head, transform } => ClientView {
                transforms: self.transforms.insert(head, transform),
                ..self
            },
            Event::Succeeded { transaction } => self.after_resolution(transaction),
            Event::Failed { transaction } => self.after_resolution(transaction),
            Event::Cancelled { transaction } => self.after_resolution(transaction),
            Event::Other => self,
        }
    }

    /// The state after the compositor resolved `transaction`, whatever the outcome.
    pub open spec fn after_resolution(self, transaction: u32) -> ClientView {
        if self.pending == Some(transaction) {
            ClientView { pending: None, ..self }
        } else {
            self
        }
    }

    /// The request that answers `event`, if it calls for one.
    pub open spec fn answer(self, event: Event) -> Option<Request> {
        match event {
            Event::Global { global, interface, version } => if interface@ == manager_interface() {
                Some(Request::BindManager { global, version })
            } else {
                None
            },
            Event::Succeeded { transaction } => self.release(transaction),
            Event::Failed { transaction } => self.release(transaction),
            Event::Cancelled { transaction } => self.release(transaction),
            _ => None,
        }
    }

    /// The release of `transaction`, if it is the outstanding one.
    pub open spec fn release(self, transaction: u32) -> Option<Request> {
        if self.pending == Some(transaction) {
            Some(Request::Destroy { transaction })
        } else {
            None
        }
    }

    /// Holds when a change of configuration can be submitted: a manager is
    /// bound, an unused serial is at hand, the target head is known and no
    /// transaction is outstanding.
    pub open spec fn can_submit(self) -> bool {
        self.manager.is_some() && self.serial.is_some() && self.head.is_some()
            && self.pending.is_none()
    }

    /// The requests that make up the transaction that sets `transform`.
    pub open spec fn transaction(self, transform: Transform) -> Seq<Request>
        recommends
            self.can_submit(),
    {
        let serial = self.serial.unwrap();
        let head = self.head.unwrap();
        seq![
            Request::CreateConfiguration { serial },
            Request::EnableHead { transaction: serial, head },
            Request::SetTransform { transaction: serial, head, transform },
            Request::Apply { transaction: serial },
        ]
    }

    /// The state after an attempt to submit a change of configuration.
    pub open spec fn after_submit(self) -> ClientView {
        if self.can_submit() {
            ClientView { serial: None, pending: self.serial, ..self }
        } else {
            self
        }
    }

    /// What an attempt to set `transform` sends: the transaction where one
    /// can be submitted, nothing where no unused serial is at hand or a
    /// transaction is outstanding.
    pub open spec fn submitted(self, transform: Transform) -> Seq<Request> {
        if self.can_submit() {
            self.transaction(transform)
        } else {
            Seq::empty()
        }
    }

    /// The error of an attempt to submit, if it fails: without a manager the
    /// protocol is unsupported; with a serial at hand and no target head, the
    /// head was not found.
    pub open spec fn submit_error(self) -> Option<Error> {
        if self.manager.is_none() {
            Some(Error::ProtocolUnsupported)
        } else if self.serial.is_some() && self.head.is_none() {
            Some(Error::HeadNotFound)
        } else {
            None
        }
    }
}

/// The client's state: what it has learned from the compositor so far.
#[derive(Clone, Debug)]
pub struct AppData {
    target_display_name: String,
    target_head: Option<u32>,
    output_manager: Option<u32>,
    current_config_serial: Option<u32>,
    head_transforms: Vec<(u32, Transform)>,
    pending_transaction: Option<u32>,
}

/// The map from heads to transforms that a list of announcements amounts
/// to: a later announcement of a head replaces an earlier one.
pub open spec fn transforms_of(announced: Seq<(u32, Transform)>) -> Map<u32, Transform>
    decreases announced.len(),
{
    if announced.len() == 0 {
        Map::empty()
    } else {
        transforms_of(announced.drop_last()).insert(announced.last().0, announced.last().1)
    }
}

/// The entry of `head` in `transforms`, if it has one.
pub open spec fn transform_of_head(transforms: Map<u32, Transform>, head: u32) -> Option<
    Transform,
> {
    if transforms.dom().contains(head) {
        Some(transforms[head])
    } else {
        None
    }
}

/// Records that `head` announced `transform`: an earlier announcement of
/// the same head is dropped, so that the list holds each head once.
fn record_transform(announced: &mut Vec<(u32, Transform)>, head: u32, transform: Transform)
    ensures
        transforms_of(final(announced)@) == transforms_of(old(announced)@).insert(head, transform),
{
    let mut kept: Vec<(u32, Transform)> = Vec::new();
    let mut i: usize = 0;
    assert(announced@.take(0).len() == 0);
    assert(transforms_of(kept@) == transforms_of(announced@.take(0)).remove(head));
    while i < announced.len()
        invariant
            i <= announced.len(),
            transforms_of(kept@) == transforms_of(announced@.take(i as int)).remove(head),
        decreases announced.len() - i,
    {
        let entry = announced[i];
        proof {
            let next = announced@.take(i + 1);
            assert(next.drop_last() == announced@.take(i as int));
            assert(next.last() == entry);
        }
        if entry.0 != head {
            let ghost before = kept@;
            kept.push(entry);
            assert(kept@.drop_last() == before);
            assert(transforms_of(kept@) == transforms_of(announced@.take(i + 1)).remove(head));
        } else {
            assert(transforms_of(kept@) == transforms_of(announced@.take(i + 1)).remove(head));
        }
        i = i + 1;
    }
    assert(announced@.take(announced.len() as int) == announced@);
    let ghost before = kept@;
    kept.push((head, transform));
    assert(kept@.drop_last() == before);
    assert(transforms_of(kept@) == transforms_of(announced@).insert(head, transform));
    *announced = kept;
}

/// The transform that `head` announced last, if it announced one.
fn last_transform(announced: &Vec<(u32, Transform)>, head: u32) -> (found: Option<Transform>)
    ensures
        found == transform_of_head(transforms_of(announced@), head),
{
    let mut found: Option<Transform> = None;
    let mut i: usize = 0;
    assert(announced@.take(0).len() == 0);
    while i < announced.len()
        invariant
            i <= announced.len(),
            found == transform_of_head(transforms_of(announced@.take(i as int)), head),
        decreases announced.len() - i,
    {
        proof {
            let next = announced@.take(i + 1);
            assert(next.drop_last() == announced@.take(i as int));
            assert(next.last() == announced@[i as int]);
        }
        if announced[i].0 == head {
            found = Some(announced[i].1);
        }
        i = i + 1;
    }
    assert(announced@.take(announced.len() as int) == announced@);
    found
}

impl View for AppData {
    type V = ClientView;

    closed spec fn view(&self) -> ClientView {
        ClientView {
            target: self.target_display_name@,
            head: self.target_head,
            manager: self.output_manager,
            serial: self.current_config_serial,
            transforms: transforms_of(self.head_transforms@),
            pending: self.pending_transaction,
        }
    }
}

impl AppData {
    /// A client for the display `target_display_name` that has seen nothing yet.
    pub fn new(target_display_name: String) -> (state: AppData)
        ensures
            state@ == ClientView::fresh(target_display_name@),
    {
        AppData {
            target_display_name,
            target_head: None,
            output_manager: None,
            current_config_serial: None,
            head_transforms: Vec::new(),
            pending_transaction: None,
        }
    }

    /// Takes note of one event and returns the request that answers it, if
    /// it calls for one: the binding of the output manager when the registry
    /// advertises it, the release of the outstanding transaction when the
    /// compositor resolves it. No outcome of a transaction is an error.
    pub fn handle_event(&mut self, event: &Event) -> (request: Option<Request>)
        ensures
            final(self)@ == old(self)@.after_event(*event),
            request == old(self)@.answer(*event),
    {
        match event {
            Event::Global { global, interface, version } => {
                if same_text(interface.as_str(), "zwlr_output_manager_v1") {
                    self.output_manager = Some(*global);
                    Some(Request::BindManager { global: *global, version: *version })
                } else {
                    None
                }
            },
            Event::Done { serial } => {
                self.current_config_serial = Some(*serial);
                None
            },
            Event::HeadName { head, name } => {
                if same_text(name.as_str(), self.target_display_name.as_str()) {
                    self.target_head = Some(*head);
                }
                None
            },
            Event::HeadTransform { head, transform } => {
                record_transform(&mut self.head_transforms, *head, *transform);
                None
            },
            Event::Succeeded { transaction } => self.resolve(*transaction),
            Event::Failed { transaction } => self.resolve(*transaction),
            Event::Cancelled { transaction } => self.resolve(*transaction),
            Event::Other => None,
        }
    }

    /// Forgets `transaction` if it is the outstanding one, and asks for its release.
    fn resolve(&mut self, transaction: u32) -> (request: Option<Request>)
        ensures
            final(self)@ == old(self)@.after_resolution(transaction),
            request == old(self)@.release(transaction),
    {
        if self.pending_transaction == Some(transaction) {
            self.pending_transaction = None;
            Some(Request::Destroy { transaction })
        } else {
            None
        }
    }

    /// Prepares the transaction that sets the target head's transform to
    /// `new_transform`, and returns its requests in the order in which they
    /// are to be sent. The serial at hand is used up. Nothing is returned,
    /// and nothing changes, where no unused serial is at hand or a
    /// transaction is still outstanding.
    pub fn update_configuration(&mut self, new_transform: Transform) -> (r: Result<
        Vec<Request>,
        Error,
    >)
        ensures
            match old(self)@.submit_error() {
                Some(e) => r == Err::<Vec<Request>, Error>(e) && final(self)@ == old(self)@,
                None => r.is_ok() && r.unwrap()@ == old(self)@.submitted(new_transform)
                    && final(self)@ == old(self)@.after_submit(),
            },
    {
        if self.output_manager.is_none() {
            return Err(Error::ProtocolUnsupported);
        }
        let current_serial: u32 = match self.current_config_serial {
            Some(value) => value,
            None => {
                return Ok(Vec::new());
            },
        };
        let target_head: u32 = match self.target_head {
            Some(head) => head,
            None => {
                return Err(Error::HeadNotFound);
            },
        };
        if self.pending_transaction.is_some() {
            return Ok(Vec::new());
        }
        self.current_config_serial = None;
        self.pending_transaction = Some(current_serial);
        let mut requests: Vec<Request> = Vec::new();
        requests.push(Request::CreateConfiguration { serial: current_serial });
        requests.push(Request::EnableHead { transaction: current_serial, head: target_head });
        requests.push(
            Request::SetTransform {
                transaction: current_serial,
                head: target_head,
                transform: new_transform,
            },
        );
        requests.push(Request::Apply { transaction: current_serial });
        Ok(requests)
    }
}

impl ClientView {
    /// The state after `events`, taken in order.
    pub open spec fn after_events(self, events: Seq<Event>) -> ClientView
        decreases events.len(),
    {
        if events.len() == 0 {
            self
        } else {
            self.after_events(events.drop_last()).after_event(events.last())
        }
    }

    /// The requests that answer `events`, in the order of the events.
    pub open spec fn answers(self, events: Seq<Event>) -> Seq<Request>
        decreases events.len(),
    {
        if events.len() == 0 {
            Seq::empty()
        } else {
            let earlier = self.answers(events.drop_last());
            match self.after_events(events.drop_last()).answer(events.last()) {
                Some(request) => earlier.push(request),
                None => earlier,
            }
        }
    }
}

impl AppData {
    /// Takes note of all of `events`, in order, and returns the requests
    /// that answer them.
    pub fn drain_events(&mut self, events: &Vec<Event>) -> (requests: Vec<Request>)
        ensures
            final(self)@ == old(self)@.after_events(events@),
            requests@ == old(self)@.answers(events@),
    {
        let mut requests: Vec<Request> = Vec::new();
        let mut i: usize = 0;
        while i < events.len()
            invariant
                i <= events.len(),
                self@ == old(self)@.after_events(events@.take(i as int)),
                requests@ == old(self)@.answers(events@.take(i as int)),
            decreases events.len() - i,
        {
            proof {
                let next = events@.take(i + 1);
                assert(next.drop_last() == events@.take(i as int));
                assert(next.last() == events@[i as int]);
            }
            match self.handle_event(&events[i]) {
                Some(request) => {
                    requests.push(request);
                },
                None => {},
            }
            i = i + 1;
        }
        proof {
            assert(events@.take(events.len() as int) == events@);
        }
        requests
    }
}

/// Where a client stands in its life.
#[derive(Copy, Clone, Debug, PartialEq, Eq, Structural)]
pub enum Phase {
    /// No output manager is bound yet.
    Connecting,
    /// The output manager is bound; heads are being announced.
    Discovering,
    /// The handshake is over; events only refresh what is cached.
    Synced,
}

impl AppData {
    /// The phase of a client that is still in its handshake.
    pub fn phase(&self) -> (phase: Phase)
        ensures
            phase == if self@.manager.is_none() {
                Phase::Connecting
            } else {
                Phase::Discovering
            },
    {
        if self.output_manager.is_none() {
            Phase::Connecting
        } else {
            Phase::Discovering
        }
    }
}

/// What the target head's transform is known to be: what the head that
/// announced the target's name announced as its transform last, whether
/// before or after it announced the name. The transforms of other heads
/// play no part.
pub open spec fn known_transform(state: ClientView) -> Option<Transform> {
    match state.head {
        Some(head) => transform_of_head(state.transforms, head),
        None => None,
    }
}

/// A client whose handshake has succeeded: an output manager is bound.
#[derive(Clone, Debug)]
pub struct WaylandBackend {
    state: AppData,
}

impl View for WaylandBackend {
    type V = ClientView;

    closed spec fn view(&self) -> ClientView {
        self.state@
    }
}

impl WaylandBackend {
    /// Holds of every backend: its output manager is bound.
    pub open spec fn wf(&self) -> bool {
        self@.manager.is_some()
    }

    /// Ends the handshake. It fails, with `ProtocolUnsupported`, exactly
    /// when no output manager was bound during it.
    pub fn new(state: AppData) -> (r: Result<WaylandBackend, Error>)
        ensures
            state@.manager.is_none() ==> r == Err::<WaylandBackend, Error>(
                Error::ProtocolUnsupported,
            ),
            state@.manager.is_some() ==> r.is_ok() && r.unwrap()@ == state@ && r.unwrap().wf(),
    {
        if state.output_manager.is_none() {
            Err(Error::ProtocolUnsupported)
        } else {
            Ok(WaylandBackend { state })
        }
    }

    /// The phase of a backend: the handshake is behind it.
    pub fn phase(&self) -> (phase: Phase)
        ensures
            phase == Phase::Synced,
    {
        Phase::Synced
    }

    /// Takes note of the events that were read from the socket and returns
    /// the requests that answer them.
    pub fn read_socket(&mut self, events: &Vec<Event>) -> (requests: Vec<Request>)
        requires
            old(self).wf(),
        ensures
            final(self).wf(),
            final(self)@ == old(self)@.after_events(events@),
            requests@ == old(self)@.answers(events@),
    {
        proof {
            lemma_manager_stays_bound(self@, events@);
        }
        self.state.drain_events(events)
    }

    /// Rotates the target display to `new_state`. `events` is what was read
    /// from the socket just before. The requests to send are the answers to
    /// the events, followed by the transaction where one can be submitted.
    /// The only error is `HeadNotFound`: a serial is at hand and the target
    /// head was never announced. The answers to the events are returned in
    /// that case too.
    pub fn apply(&mut self, events: &Vec<Event>, new_state: &Orientation) -> (r: (
        Vec<Request>,
        Result<(), Error>,
    ))
        requires
            old(self).wf(),
        ensures
            final(self).wf(),
            final(self)@ == old(self)@.after_events(events@).after_submit(),
            r.0@ == old(self)@.answers(events@) + old(self)@.after_events(events@).submitted(
                new_state.wayland_state,
            ),
            match old(self)@.after_events(events@).submit_error() {
                Some(e) => r.1 == Err::<(), Error>(e) && e == Error::HeadNotFound,
                None => r.1 == Ok::<(), Error>(()),
            },
    {
        let mut requests = self.read_socket(events);
        match self.state.update_configuration(new_state.wayland_state) {
            Ok(mut transaction) => {
                requests.append(&mut transaction);
                (requests, Ok(()))
            },
            Err(e) => (requests, Err(e)),
        }
    }

    /// The transform of the target display, as far as it is known after
    /// `events`, which were read from the socket just before. It fails with
    /// `HeadNotFound` where the target head was never announced or has not
    /// announced a transform.
    pub fn query(&mut self, events: &Vec<Event>) -> (r: (
        Vec<Request>,
        Result<Transform, Error>,
    ))
        requires
            old(self).wf(),
        ensures
            final(self).wf(),
            final(self)@ == old(self)@.after_events(events@),
            r.0@ == old(self)@.answers(events@),
            match known_transform(final(self)@) {
                Some(transform) => r.1 == Ok::<Transform, Error>(transform),
                None => r.1 == Err::<Transform, Error>(Error::HeadNotFound),
            },
    {
        let requests = self.read_socket(events);
        let head: u32 = match self.state.target_head {
            Some(head) => head,
            None => {
                return (requests, Err(Error::HeadNotFound));
            },
        };
        match last_transform(&self.state.head_transforms, head) {
            Some(transform) => (requests, Ok(transform)),
            None => (requests, Err(Error::HeadNotFound)),
        }
    }
}

/// Once bound, the output manager stays bound, whatever events follow.
pub proof fn lemma_manager_stays_bound(state: ClientView, events: Seq<Event>)
    requires
        state.manager.is_some(),
    ensures
        state.after_events(events).manager.is_some(),
    decreases events.len(),
{
    if events.len() > 0 {
        lemma_manager_stays_bound(state, events.drop_last());
    }
}

} // verus!
