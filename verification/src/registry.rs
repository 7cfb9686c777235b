//! The registry of connected clients, and delivery through it.

use crate::ws::{OutboundHandle, OutboundMessage, WsClient};
use tokio::sync::mpsc::error::SendError;
use vstd::hash_map::StringHashMap;
use vstd::prelude::*;

verus! {

/// Names one registration: `register` gives each a token of its own, so that
/// a record can be told from one that was filed under the same identifier
/// before or after it.
pub type SessionToken = u64;

/// One filed record: the client, and the token of the registration that
/// filed it.
struct Record {
    token: SessionToken,
    client: WsClient,
}

/// The clients that are connected now, by identifier.
///
/// As a map, the registry takes each identifier to its client's outbound
/// handle. Beside each record it keeps the token of the registration that
/// filed it, so that whoever filed a record can give it up without touching
/// a record that took its place. It holds no lock of its own: whoever shares
/// it between tasks guards it, and each operation here is one step under that
/// guard.
pub struct Registry {
    clients: StringHashMap<Record>,
    next_token: SessionToken,
}

/// A registry as a map: each registered identifier with its client's
/// outbound handle, or with `None` for a client without a writable side.
pub type RegistryView = Map<Seq<char>, Option<OutboundHandle>>;

/// Each registered identifier with the token of the registration that filed
/// its record.
pub type Holders = Map<Seq<char>, SessionToken>;

impl View for Registry {
    type V = RegistryView;

    closed spec fn view(&self) -> RegistryView {
        self.clients@.map_values(|record: Record| record.client.sender)
    }
}

/// What a lookup of `id` finds in a registry.
pub open spec fn lookup_spec(
    registry: RegistryView,
    id: Seq<char>,
) -> Option<Option<OutboundHandle>> {
    if registry.contains_key(id) {
        Some(registry[id])
    } else {
        None
    }
}

/// The number of tokens given out after one more registration. The count
/// stops at the greatest token: from there on the same token is given again.
pub open spec fn next_issued(issued: nat) -> nat {
    if issued < u64::MAX {
        issued + 1
    } else {
        issued
    }
}

/// Whether the record filed under `id` stems from the registration that was
/// given `token`.
pub open spec fn is_holder(holders: Holders, id: Seq<char>, token: SessionToken) -> bool {
    holders.contains_key(id) && holders[id] == token
}

/// The registry after the holder of `token` gives up `id`: without the record
/// under `id` where that record is the holder's own, and as it was where the
/// record is another registration's or there is none.
pub open spec fn release_spec(
    registry: RegistryView,
    holders: Holders,
    id: Seq<char>,
    token: SessionToken,
) -> RegistryView {
    if is_holder(holders, id, token) {
        registry.remove(id)
    } else {
        registry
    }
}

impl Registry {
    /// Every record is filed under its own identifier.
    #[verifier::type_invariant]
    spec fn well_formed(self) -> bool {
        forall|id: Seq<char>| #[trigger]
            self.clients@.contains_key(id) ==> self.clients@[id].client.client_id@ == id
    }

    /// The token under which each record was filed.
    pub closed spec fn holders(&self) -> Holders {
        self.clients@.map_values(|record: Record| record.token)
    }

    /// How many tokens have been given out; the next registration gets this
    /// number as its token.
    pub closed spec fn issued(&self) -> nat {
        self.next_token as nat
    }

    /// A registry without clients.
    pub fn new() -> (registry: Registry)
        ensures
            registry@ == RegistryView::empty(),
            registry.holders() == Holders::empty(),
            registry.issued() == 0,
    {
        let registry = Registry { clients: StringHashMap::new(), next_token: 0 };
        assert(registry@ =~= RegistryView::empty());
        assert(registry.holders() =~= Holders::empty());
        registry
    }

    /// Files `client` under its identifier, in place of any record that was
    /// there, and returns the token of this registration.
    pub fn register(&mut self, client: WsClient) -> (token: SessionToken)
        ensures
            final(self)@ == old(self)@.insert(client.client_id@, client.sender),
            token == old(self).issued(),
            final(self).holders() == old(self).holders().insert(client.client_id@, token),
            final(self).issued() == next_issued(old(self).issued()),
    {
        proof {
            use_type_invariant(&*self);
        }
        let token = self.next_token;
        let id = client.client_id.clone();
        let mut clients = StringHashMap::new();
        std::mem::swap(&mut clients, &mut self.clients);
        clients.insert(id, Record { token, client });
        self.clients = clients;
        if self.next_token < u64::MAX {
            self.next_token = self.next_token + 1;
        }
        assert(self@ =~= old(self)@.insert(client.client_id@, client.sender));
        assert(self.holders() =~= old(self).holders().insert(client.client_id@, token));
        token
    }

    /// A copy of the record filed under `id`, if there is one.
    pub fn lookup(&self, id: &str) -> (found: Option<WsClient>)
        ensures
            match found {
                Some(client) => client.client_id@ == id@ && lookup_spec(self@, id@) == Some(
                    client.sender,
                ),
                None => lookup_spec(self@, id@) is None,
            },
            found is Some <==> self@.contains_key(id@),
    {
        proof {
            use_type_invariant(self);
        }
        match self.clients.get(id) {
            Some(record) => Some(record.client.clone()),
            None => None,
        }
    }

    /// Removes the record filed under `id`, if there is one, whoever filed
    /// it.
    pub fn unregister(&mut self, id: &str)
        ensures
            final(self)@ == old(self)@.remove(id@),
            final(self).holders() == old(self).holders().remove(id@),
            final(self).issued() == old(self).issued(),
    {
        proof {
            use_type_invariant(&*self);
        }
        let mut clients = StringHashMap::new();
        std::mem::swap(&mut clients, &mut self.clients);
        clients.remove(id);
        self.clients = clients;
        assert(self@ =~= old(self)@.remove(id@));
        assert(self.holders() =~= old(self).holders().remove(id@));
    }

    /// Removes the record filed under `id` if it is the one that the
    /// registration with `token` filed, and tells whether it did. A record
    /// that another registration has filed since stays.
    pub fn release(&mut self, id: &str, token: SessionToken) -> (removed: bool)
        ensures
            removed == is_holder(old(self).holders(), id@, token),
            removed ==> old(self)@.contains_key(id@),
            final(self)@ == release_spec(old(self)@, old(self).holders(), id@, token),
            final(self).holders() == if removed {
                old(self).holders().remove(id@)
            } else {
                old(self).holders()
            },
            final(self).issued() == old(self).issued(),
    {
        let own = match self.clients.get(id) {
            Some(record) => record.token == token,
            None => false,
        };
        assert(self.holders().dom() =~= self@.dom());
        if own {
            self.unregister(id);
        }
        own
    }
}

/// What became of a message that was to go to a client.
#[derive(Clone, Copy, Debug, PartialEq, Eq, Structural)]
pub enum Delivery {
    /// The client's outbound queue took the message.
    Delivered,
    /// The client is registered, but its queue is closed or it has no
    /// writable side: the message is gone.
    DeliveryDropped,
    /// No client is registered under the identifier.
    RouteMiss,
}

/// What is to be done with a message, decided against the registry.
#[derive(Debug)]
pub enum Dispatch {
    /// Put `message` on the queue behind `handle`.
    Enqueue { handle: OutboundHandle, message: OutboundMessage },
    /// The client is registered without a writable side.
    NoOutbound,
    /// No client is registered under the identifier.
    RouteMiss,
}

/// The dispatch of `message` to the client `id`: to the handle that the
/// registry holds for `id`, if it holds one.
pub open spec fn dispatch_spec(
    registry: RegistryView,
    id: Seq<char>,
    message: OutboundMessage,
) -> Dispatch {
    match lookup_spec(registry, id) {
        Some(Some(handle)) => Dispatch::Enqueue { handle, message },
        Some(None) => Dispatch::NoOutbound,
        None => Dispatch::RouteMiss,
    }
}

/// What a dispatch can end in. Only an `Enqueue` is left to the queue to
/// decide.
pub open spec fn may_end_in(dispatch: Dispatch, delivery: Delivery) -> bool {
    match dispatch {
        Dispatch::Enqueue { .. } => delivery is Delivered || delivery is DeliveryDropped,
        Dispatch::NoOutbound => delivery is DeliveryDropped,
        Dispatch::RouteMiss => delivery is RouteMiss,
    }
}

/// What a delivery to the client `id` can end in: a miss exactly where the
/// registry has no record of `id`, a drop where the record has no handle, and
/// otherwise what the queue decides.
pub open spec fn delivery_spec(
    registry: RegistryView,
    id: Seq<char>,
    delivery: Delivery,
) -> bool {
    match lookup_spec(registry, id) {
        Some(Some(_)) => delivery is Delivered || delivery is DeliveryDropped,
        Some(None) => delivery is DeliveryDropped,
        None => delivery is RouteMiss,
    }
}

/// Reads the result of a send: a queue that refused the message has dropped
/// it.
pub fn delivery_of(sent: Result<(), SendError<OutboundMessage>>) -> (delivery: Delivery)
    ensures
        delivery == (if sent is Ok {
            Delivery::Delivered
        } else {
            Delivery::DeliveryDropped
        }),
{
    match sent {
        Ok(_) => Delivery::Delivered,
        Err(_) => Delivery::DeliveryDropped,
    }
}

/// Carries a dispatch out. Enqueueing never waits: a queue that is closed
/// refuses at once, and the message is dropped.
pub fn perform(dispatch: Dispatch) -> (delivery: Delivery)
    ensures
        may_end_in(dispatch, delivery),
{
    match dispatch {
        Dispatch::Enqueue { handle, message } => delivery_of(handle.send(message)),
        Dispatch::NoOutbound => Delivery::DeliveryDropped,
        Dispatch::RouteMiss => Delivery::RouteMiss,
    }
}

impl Registry {
    /// Decides where `message` goes, from a fresh lookup of `id`.
    pub fn plan(&self, id: &str, message: OutboundMessage) -> (dispatch: Dispatch)
        ensures
            dispatch == dispatch_spec(self@, id@, message),
    {
        match self.lookup(id) {
            Some(client) => match client.sender {
                Some(handle) => Dispatch::Enqueue { handle, message },
                None => Dispatch::NoOutbound,
            },
            None => Dispatch::RouteMiss,
        }
    }

    /// Sends `message` to the client registered under `id`, if there is one,
    /// and says what became of it.
    pub fn deliver(&self, id: &str, message: OutboundMessage) -> (delivery: Delivery)
        ensures
            delivery_spec(self@, id@, delivery),
    {
        perform(self.plan(id, message))
    }
}

/// One change to a registry.
pub enum RegistryOp {
    Register { id: Seq<char>, sender: Option<OutboundHandle> },
    Unregister { id: Seq<char> },
}

impl RegistryOp {
    /// The identifier that the change is about.
    pub open spec fn id(self) -> Seq<char> {
        match self {
            RegistryOp::Register { id, .. } => id,
            RegistryOp::Unregister { id } => id,
        }
    }

    /// The registry after the change: what `register` and `unregister` leave.
    pub open spec fn apply(self, registry: RegistryView) -> RegistryView {
        match self {
            RegistryOp::Register { id, sender } => registry.insert(id, sender),
            RegistryOp::Unregister { id } => registry.remove(id),
        }
    }
}

/// The registry after the changes `ops`, made in their order.
pub open spec fn apply_all(registry: RegistryView, ops: Seq<RegistryOp>) -> RegistryView
    decreases ops.len(),
{
    if ops.len() == 0 {
        registry
    } else {
        ops.last().apply(apply_all(registry, ops.drop_last()))
    }
}

/// An identifier that is not registered is not found.
pub proof fn lemma_unregistered_is_absent(registry: RegistryView, id: Seq<char>)
    requires
        !registry.contains_key(id),
    ensures
        lookup_spec(registry, id) is None,
{
}

/// Changes that are about other identifiers leave what is filed under `id` as
/// it was, whatever their number and order.
pub proof fn lemma_other_ids_do_not_interfere(
    registry: RegistryView,
    ops: Seq<RegistryOp>,
    id: Seq<char>,
)
    requires
        forall|i: int| 0 <= i < ops.len() ==> (#[trigger] ops[i]).id() != id,
    ensures
        lookup_spec(apply_all(registry, ops), id) == lookup_spec(registry, id),
    decreases ops.len(),
{
    if ops.len() > 0 {
        let front = ops.drop_last();
        assert forall|i: int| 0 <= i < front.len() implies (#[trigger] front[i]).id() != id by {
            assert(front[i] == ops[i]);
        }
        lemma_other_ids_do_not_interfere(registry, front, id);
        assert(ops.last() == ops[ops.len() - 1]);
    }
}

/// However changes to many identifiers are interleaved, what is filed under
/// `id` in the end is what the changes to `id` alone would have left: no
/// change to one identifier is lost to, or made by, a change to another.
pub proof fn lemma_each_id_sees_its_own_changes_only(
    registry: RegistryView,
    ops: Seq<RegistryOp>,
    id: Seq<char>,
)
    ensures
        lookup_spec(apply_all(registry, ops), id) == lookup_spec(
            apply_all(registry, ops.filter(|op: RegistryOp| op.id() == id)),
            id,
        ),
    decreases ops.len(),
{
    reveal(Seq::filter);
    let about_id = |op: RegistryOp| op.id() == id;
    if ops.len() > 0 {
        let front = ops.drop_last();
        lemma_each_id_sees_its_own_changes_only(registry, front, id);
        if about_id(ops.last()) {
            let own = front.filter(about_id).push(ops.last());
            assert(ops.filter(about_id) == own);
            assert(own.drop_last() =~= front.filter(about_id));
            assert(own.last() == ops.last());
        } else {
            assert(ops.filter(about_id) == front.filter(about_id));
        }
    }
}

/// After a client is registered, a lookup of its identifier finds the handle
/// it was registered with, until that identifier is registered again or
/// unregistered.
pub proof fn lemma_registered_is_found(
    registry: RegistryView,
    id: Seq<char>,
    sender: Option<OutboundHandle>,
    later: Seq<RegistryOp>,
)
    requires
        forall|i: int| 0 <= i < later.len() ==> (#[trigger] later[i]).id() != id,
    ensures
        lookup_spec(apply_all(registry.insert(id, sender), later), id) == Some(sender),
{
    lemma_other_ids_do_not_interfere(registry.insert(id, sender), later, id);
}

/// Unregistering twice in a row leaves what unregistering once leaves.
pub proof fn lemma_unregister_is_idempotent(registry: RegistryView, id: Seq<char>)
    ensures
        registry.remove(id).remove(id) == registry.remove(id),
{
    assert(registry.remove(id).remove(id) =~= registry.remove(id));
}

/// Two changes that are about different identifiers leave the same registry
/// in either order, and neither alters what is filed under the other's
/// identifier.
pub proof fn lemma_disjoint_changes_commute(
    registry: RegistryView,
    first: RegistryOp,
    second: RegistryOp,
)
    requires
        first.id() != second.id(),
    ensures
        second.apply(first.apply(registry)) == first.apply(second.apply(registry)),
        lookup_spec(first.apply(registry), second.id()) == lookup_spec(registry, second.id()),
        lookup_spec(second.apply(registry), first.id()) == lookup_spec(registry, first.id()),
{
    assert(second.apply(first.apply(registry)) =~= first.apply(second.apply(registry)));
}

/// Once a client is unregistered, its identifier is absent, and a message for
/// it is a miss: nothing is enqueued anywhere.
pub proof fn lemma_unregistered_client_is_missed(
    registry: RegistryView,
    id: Seq<char>,
    message: OutboundMessage,
    delivery: Delivery,
)
    requires
        delivery_spec(registry.remove(id), id, delivery),
    ensures
        lookup_spec(registry.remove(id), id) is None,
        dispatch_spec(registry.remove(id), id, message) is RouteMiss,
        delivery is RouteMiss,
{
}

/// A message for an identifier that is not registered is a miss: nothing is
/// enqueued anywhere.
pub proof fn lemma_unknown_destination_is_missed(
    registry: RegistryView,
    id: Seq<char>,
    message: OutboundMessage,
    delivery: Delivery,
)
    requires
        !registry.contains_key(id),
        delivery_spec(registry, id, delivery),
    ensures
        dispatch_spec(registry, id, message) is RouteMiss,
        delivery is RouteMiss,
{
}

/// Once the holder of a record has released it, its identifier is absent,
/// and a message for it is a miss: nothing is enqueued anywhere.
pub proof fn lemma_released_client_is_missed(
    registry: RegistryView,
    holders: Holders,
    id: Seq<char>,
    token: SessionToken,
    message: OutboundMessage,
    delivery: Delivery,
)
    requires
        is_holder(holders, id, token),
        delivery_spec(release_spec(registry, holders, id, token), id, delivery),
    ensures
        lookup_spec(release_spec(registry, holders, id, token), id) is None,
        dispatch_spec(release_spec(registry, holders, id, token), id, message) is RouteMiss,
        delivery is RouteMiss,
{
}

/// A release by anyone but the holder changes nothing: the record under the
/// identifier is found as before.
pub proof fn lemma_release_spares_another_holder(
    registry: RegistryView,
    holders: Holders,
    id: Seq<char>,
    token: SessionToken,
)
    requires
        !is_holder(holders, id, token),
    ensures
        release_spec(registry, holders, id, token) == registry,
        lookup_spec(release_spec(registry, holders, id, token), id) == lookup_spec(registry, id),
{
}

/// Releasing twice in a row leaves what releasing once leaves.
pub proof fn lemma_release_is_idempotent(
    registry: RegistryView,
    holders: Holders,
    id: Seq<char>,
    token: SessionToken,
)
    ensures
        ({
            let released = release_spec(registry, holders, id, token);
            let left = if is_holder(holders, id, token) {
                holders.remove(id)
            } else {
                holders
            };
            release_spec(released, left, id, token) == released
        }),
{
}

/// A token that was given out before differs from every token given out
/// later, as long as tokens are left.
pub proof fn lemma_later_tokens_differ(issued: nat, earlier: SessionToken)
    requires
        earlier < issued < u64::MAX,
    ensures
        issued != earlier,
        earlier < next_issued(issued),
{
}

/// Where a second registration has replaced the first under one identifier,
/// a release by the first leaves the second's record in place, and a release
/// by the second removes it.
pub proof fn lemma_replaced_holder_releases_nothing(
    registry: RegistryView,
    holders: Holders,
    issued: nat,
    id: Seq<char>,
    first: Option<OutboundHandle>,
    second: Option<OutboundHandle>,
)
    requires
        issued < u64::MAX,
    ensures
        ({
            let first_token = issued as SessionToken;
            let second_token = next_issued(issued) as SessionToken;
            let registry = registry.insert(id, first).insert(id, second);
            let holders = holders.insert(id, first_token).insert(id, second_token);
            &&& release_spec(registry, holders, id, first_token) == registry
            &&& lookup_spec(release_spec(registry, holders, id, first_token), id) == Some(second)
            &&& release_spec(registry, holders, id, second_token) == registry.remove(id)
        }),
{
}

} // verus!
