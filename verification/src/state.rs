//! The presence store: who is connected, which channels exist, and the
//! counter that session identifiers come from.
//!
//! The store is one unit. Whoever calls into it holds the single lock that
//! guards it; nothing here waits or does I/O.

use crate::messages::{ChannelState, ChannelStateView};
use crate::order::{ascending, lemma_ascending_is_unique, strictly_ascending};
use crate::queue::Tx;
use std::collections::HashMap;
use vstd::prelude::*;
use vstd::std_specs::hash::*;
use vstd::std_specs::iter::IteratorSpec;

verus! {

broadcast use vstd::std_specs::hash::group_hash_axioms;

/// The channel that every session starts in.
pub const ROOT_CHANNEL: u32 = 0;

/// The record of one connected session.
pub struct Peer {
    /// The sending end of the peer's outbound queue.
    pub tx: Tx,
    pub username: String,
    pub session_id: u32,
    pub channel_id: u32,
    pub self_mute: bool,
    pub self_deaf: bool,
    pub echo_enabled: bool,
}

/// What a peer record says, without the queue.
pub struct PeerView {
    pub username: Seq<char>,
    pub session_id: u32,
    pub channel_id: u32,
    pub self_mute: bool,
    pub self_deaf: bool,
    pub echo_enabled: bool,
}

impl View for Peer {
    type V = PeerView;

    open spec fn view(&self) -> PeerView {
        PeerView {
            username: self.username@,
            session_id: self.session_id,
            channel_id: self.channel_id,
            self_mute: self.self_mute,
            self_deaf: self.self_deaf,
            echo_enabled: self.echo_enabled,
        }
    }
}

impl PeerView {
    /// The record of a session that has just been admitted.
    pub open spec fn newcomer(session_id: u32, username: Seq<char>) -> PeerView {
        PeerView {
            username,
            session_id,
            channel_id: ROOT_CHANNEL,
            self_mute: false,
            self_deaf: false,
            echo_enabled: false,
        }
    }

    /// Whether this peer's voice is held back.
    pub open spec fn silenced(self) -> bool {
        self.self_mute || self.self_deaf
    }
}

impl Peer {
    /// The record of a session that has just been admitted: in the root
    /// channel, neither muted nor deaf, echo off.
    pub fn new(tx: Tx, session_id: u32, username: String) -> (peer: Peer)
        ensures
            peer@ == PeerView::newcomer(session_id, username@),
    {
        Peer {
            tx,
            username,
            session_id,
            channel_id: ROOT_CHANNEL,
            self_mute: false,
            self_deaf: false,
            echo_enabled: false,
        }
    }
}

/// The presence store.
pub struct SharedState {
    pub peers: HashMap<u32, Peer>,
    pub channels: HashMap<u32, ChannelState>,
    pub next_session_id: u32,
}

/// The presence store as mathematics.
pub struct StateView {
    pub peers: Map<u32, PeerView>,
    pub channels: Map<u32, ChannelStateView>,
    pub next_session_id: u32,
}

impl View for SharedState {
    type V = StateView;

    open spec fn view(&self) -> StateView {
        StateView {
            peers: self.peers@.map_values(|p: Peer| p@),
            channels: self.channels@.map_values(|c: ChannelState| c@),
            next_session_id: self.next_session_id,
        }
    }
}

/// The views of a list of channels.
pub open spec fn channel_views(channels: Seq<ChannelState>) -> Seq<ChannelStateView> {
    channels.map_values(|c: ChannelState| c@)
}

impl StateView {
    /// Whether `listing` is the channels of the store in ascending order of
    /// their identifiers: every channel once, and nothing else.
    pub open spec fn is_channel_listing(self, listing: Seq<ChannelStateView>) -> bool {
        &&& listing.len() == self.channels.len()
        &&& forall|i: int|
            0 <= i < listing.len() ==> (#[trigger] listing[i]).channel_id is Some
                && self.channels.contains_key(listing[i].channel_id->0)
                && self.channels[listing[i].channel_id->0] == listing[i]
        &&& forall|i: int, j: int|
            0 <= i < j < listing.len() ==> (#[trigger] listing[i]).channel_id->0 < (
            #[trigger] listing[j]).channel_id->0
        &&& forall|id: u32|
            self.channels.contains_key(id) ==> exists|i: int|
                0 <= i < listing.len() && (#[trigger] listing[i]).channel_id == Some(id)
    }

    /// The store of a server that has just started.
    pub open spec fn initial() -> StateView {
        StateView { peers: Map::empty(), channels: Map::empty(), next_session_id: 1 }
    }

    /// The store's own invariant: every record is filed under the
    /// identifier it carries, so no two peers share a session and no two
    /// channels an identifier.
    pub open spec fn well_formed(self) -> bool {
        &&& forall|id: u32| #[trigger]
            self.peers.contains_key(id) ==> self.peers[id].session_id == id
        &&& forall|id: u32| #[trigger]
            self.channels.contains_key(id) ==> self.channels[id].channel_id == Some(id)
    }

    /// Whether every peer is in a channel that exists.
    pub open spec fn peers_in_known_channels(self) -> bool {
        forall|id: u32| #[trigger]
            self.peers.contains_key(id) ==> self.channels.contains_key(self.peers[id].channel_id)
    }

    /// Whether every deaf peer is also muted.
    pub open spec fn deaf_peers_are_muted(self) -> bool {
        forall|id: u32| #[trigger]
            self.peers.contains_key(id) ==> (self.peers[id].self_deaf ==> self.peers[id].self_mute)
    }

    /// Whether every session in the store was issued by the counter.
    pub open spec fn sessions_were_issued(self) -> bool {
        forall|id: u32| #[trigger] self.peers.contains_key(id) ==> id < self.next_session_id
    }

    /// The store with one peer's record put in or replaced.
    pub open spec fn with_peer(self, peer: PeerView) -> StateView {
        StateView { peers: self.peers.insert(peer.session_id, peer), ..self }
    }

    /// The store without the record of one session.
    pub open spec fn without_peer(self, session_id: u32) -> StateView {
        StateView { peers: self.peers.remove(session_id), ..self }
    }

    /// The store with one more session identifier issued.
    pub open spec fn with_counter_advanced(self) -> StateView {
        StateView { next_session_id: (self.next_session_id + 1) as u32, ..self }
    }

    /// The store with a channel put in under its identifier. A channel
    /// without an identifier is not stored.
    pub open spec fn with_channel(self, channel: ChannelStateView) -> StateView {
        match channel.channel_id {
            Some(id) => StateView { channels: self.channels.insert(id, channel), ..self },
            None => self,
        }
    }
}

impl SharedState {
    /// Whether the store's own invariant holds.
    pub open spec fn wf(&self) -> bool {
        self@.well_formed()
    }

    /// The store of a server that has just started: nobody connected, no
    /// channel known, the first session identifier to be issued is 1.
    pub fn new() -> (state: SharedState)
        ensures
            state@ == StateView::initial(),
            state.wf(),
    {
        let state = SharedState {
            peers: HashMap::new(),
            channels: HashMap::new(),
            next_session_id: 1,
        };
        assert(state@.peers =~= Map::empty());
        assert(state@.channels =~= Map::empty());
        state
    }

    /// Issues the next session identifier. Identifiers start at 1 and each
    /// is one more than the one before; when the counter cannot advance any
    /// further, none is issued and the store is left as it was.
    pub fn allocate_session_id(&mut self) -> (issued: Option<u32>)
        ensures
            old(self)@.next_session_id < u32::MAX ==> issued == Some(old(self)@.next_session_id)
                && final(self)@ == old(self)@.with_counter_advanced(),
            old(self)@.next_session_id == u32::MAX ==> issued.is_none() && final(self)@ == old(
                self,
            )@,
    {
        if self.next_session_id == u32::MAX {
            None
        } else {
            let id = self.next_session_id;
            self.next_session_id = id + 1;
            Some(id)
        }
    }

    /// Files `peer` under `session_id`. A record already there is replaced.
    pub fn add_peer(&mut self, session_id: u32, peer: Peer)
        requires
            old(self).wf(),
            peer@.session_id == session_id,
        ensures
            final(self)@ == old(self)@.with_peer(peer@),
            final(self).wf(),
    {
        self.peers.insert(session_id, peer);
        assert(self@.peers =~= old(self)@.peers.insert(session_id, peer@));
    }

    /// Takes the record of `session_id` out of the store and returns it, if
    /// there was one.
    pub fn remove_peer(&mut self, session_id: u32) -> (removed: Option<Peer>)
        requires
            old(self).wf(),
        ensures
            final(self)@ == old(self)@.without_peer(session_id),
            final(self).wf(),
            match removed {
                Some(peer) => old(self)@.peers.contains_key(session_id) && peer@ == old(
                    self,
                )@.peers[session_id],
                None => !old(self)@.peers.contains_key(session_id),
            },
    {
        let removed = self.peers.remove(&session_id);
        assert(self@.peers =~= old(self)@.peers.remove(session_id));
        removed
    }

    /// The record of `session_id`, if there is one.
    pub fn get_peer(&self, session_id: u32) -> (found: Option<&Peer>)
        ensures
            match found {
                Some(peer) => self@.peers.contains_key(session_id) && peer@
                    == self@.peers[session_id],
                None => !self@.peers.contains_key(session_id),
            },
    {
        self.peers.get(&session_id)
    }

    /// The sessions in the store, each once, in no particular order.
    pub fn list_peers(&self) -> (ids: Vec<u32>)
        ensures
            ids@.no_duplicates(),
            forall|id: u32| ids@.contains(id) <==> self@.peers.contains_key(id),
            ids@.len() == self@.peers.len(),
    {
        let mut ids: Vec<u32> = Vec::new();
        for id in it: self.peers.keys()
            invariant
                it.seq() == spec_keys_iter(&self.peers).remaining(),
                ids@ == it.seq().take(it.index() as int).unref(),
        {
            ids.push(*id);
            assert(ids@ =~= it.seq().take(it.index() + 1).unref());
        }
        proof {
            let yielded = spec_keys_iter(&self.peers).remaining();
            assert(ids@ =~= yielded.unref());
            assert(ids@.no_duplicates()) by {
                assert forall|i: int, j: int|
                    0 <= i < ids@.len() && 0 <= j < ids@.len() && i != j implies ids@[i]
                    != ids@[j] by {
                    assert(yielded[i] != yielded[j]);
                }
            }
            assert(ids@.to_set() == self.peers@.dom());
            assert forall|id: u32| ids@.contains(id) <==> self@.peers.contains_key(id) by {
                assert(ids@.to_set().contains(id) <==> ids@.contains(id));
            }
            assert(self@.peers.dom() =~= self.peers@.dom());
        }
        ids
    }

    /// Checks the store's own invariant: whether every record is filed
    /// under the identifier it carries.
    pub fn audit(&self) -> (sound: bool)
        ensures
            sound == self.wf(),
    {
        let peers = self.list_peers();
        let mut checked: usize = 0;
        while checked < peers.len()
            invariant
                checked <= peers@.len(),
                forall|id: u32| peers@.contains(id) <==> self@.peers.contains_key(id),
                forall|i: int|
                    0 <= i < checked ==> self@.peers[#[trigger] peers@[i]].session_id == peers@[i],
            decreases peers@.len() - checked,
        {
            let id = peers[checked];
            assert(peers@.contains(id));
            match self.peers.get(&id) {
                Some(peer) => {
                    if peer.session_id != id {
                        return false;
                    }
                },
                None => {
                    return false;
                },
            }
            checked += 1;
        }
        let channels = self.channel_keys();
        let mut checked: usize = 0;
        while checked < channels.len()
            invariant
                checked <= channels@.len(),
                forall|id: u32| channels@.contains(id) <==> self@.channels.contains_key(id),
                forall|i: int|
                    0 <= i < checked ==> self@.channels[#[trigger] channels@[i]].channel_id
                        == Some(channels@[i]),
            decreases channels@.len() - checked,
        {
            let id = channels[checked];
            assert(channels@.contains(id));
            match self.channels.get(&id) {
                Some(channel) => {
                    match channel.channel_id {
                        Some(own) => {
                            if own != id {
                                return false;
                            }
                        },
                        None => {
                            return false;
                        },
                    }
                },
                None => {
                    return false;
                },
            }
            checked += 1;
        }
        proof {
            assert forall|id: u32| #[trigger] self@.peers.contains_key(id) implies self@.peers[id]
                .session_id == id by {
                assert(peers@.contains(id));
                let k = choose|k: int| 0 <= k < peers@.len() && peers@[k] == id;
                assert(self@.peers[peers@[k]].session_id == peers@[k]);
            }
            assert forall|id: u32| #[trigger]
                self@.channels.contains_key(id) implies self@.channels[id].channel_id == Some(
                id,
            ) by {
                assert(channels@.contains(id));
                let k = choose|k: int| 0 <= k < channels@.len() && channels@[k] == id;
                assert(self@.channels[channels@[k]].channel_id == Some(channels@[k]));
            }
        }
        true
    }

    /// Stores a channel under its identifier and says whether it did: a
    /// channel without an identifier is not stored.
    pub fn insert_channel(&mut self, channel: ChannelState) -> (stored: bool)
        requires
            old(self).wf(),
        ensures
            final(self)@ == old(self)@.with_channel(channel@),
            stored == channel@.channel_id.is_some(),
            final(self).wf(),
    {
        match channel.channel_id {
            Some(id) => {
                self.channels.insert(id, channel);
                assert(self@.channels =~= old(self)@.channels.insert(id, channel@));
                true
            },
            None => false,
        }
    }

    /// The identifiers of the channels in the store, each once, in no
    /// particular order.
    fn channel_keys(&self) -> (ids: Vec<u32>)
        ensures
            ids@.no_duplicates(),
            forall|id: u32| ids@.contains(id) <==> self@.channels.contains_key(id),
            ids@.len() == self@.channels.len(),
    {
        let mut ids: Vec<u32> = Vec::new();
        for id in it: self.channels.keys()
            invariant
                it.seq() == spec_keys_iter(&self.channels).remaining(),
                ids@ == it.seq().take(it.index() as int).unref(),
        {
            ids.push(*id);
            assert(ids@ =~= it.seq().take(it.index() + 1).unref());
        }
        proof {
            let yielded = spec_keys_iter(&self.channels).remaining();
            assert(ids@ =~= yielded.unref());
            assert(ids@.no_duplicates()) by {
                assert forall|i: int, j: int|
                    0 <= i < ids@.len() && 0 <= j < ids@.len() && i != j implies ids@[i]
                    != ids@[j] by {
                    assert(yielded[i] != yielded[j]);
                }
            }
            assert(ids@.to_set() == self.channels@.dom());
            assert forall|id: u32| ids@.contains(id) <==> self@.channels.contains_key(id) by {
                assert(ids@.to_set().contains(id) <==> ids@.contains(id));
            }
            assert(self@.channels.dom() =~= self.channels@.dom());
        }
        ids
    }

    /// The identifiers of the channels in the store, smallest first.
    pub fn channel_ids(&self) -> (ids: Vec<u32>)
        ensures
            strictly_ascending(ids@),
            forall|id: u32| ids@.contains(id) <==> self@.channels.contains_key(id),
            ids@.len() == self@.channels.len(),
    {
        let unordered = self.channel_keys();
        ascending(&unordered)
    }

    /// The channels in the store, in ascending order of their identifiers.
    pub fn list_channels(&self) -> (channels: Vec<ChannelState>)
        requires
            self.wf(),
        ensures
            self@.is_channel_listing(channel_views(channels@)),
    {
        let ids = self.channel_ids();
        let mut channels: Vec<ChannelState> = Vec::new();
        let mut done: usize = 0;
        while done < ids.len()
            invariant
                done <= ids@.len(),
                self.wf(),
                strictly_ascending(ids@),
                forall|id: u32| ids@.contains(id) <==> self@.channels.contains_key(id),
                channels@.len() == done,
                forall|i: int|
                    0 <= i < done ==> (#[trigger] channels@[i])@ == self@.channels[ids@[i]]
                        && channels@[i]@.channel_id == Some(ids@[i]),
            decreases ids@.len() - done,
        {
            let id = ids[done];
            assert(ids@.contains(id));
            match self.channels.get(&id) {
                Some(channel) => {
                    channels.push(channel.duplicate());
                },
                None => {
                    assert(false);
                },
            }
            done += 1;
        }
        proof {
            let listing = channel_views(channels@);
            assert forall|i: int| 0 <= i < listing.len() implies (#[trigger] listing[i]).channel_id
                == Some(ids@[i]) && listing[i] == self@.channels[ids@[i]] by {
                assert(listing[i] == channels@[i]@);
            }
            assert forall|i: int| 0 <= i < listing.len() implies (#[trigger] listing[i]).channel_id
                is Some && self@.channels.contains_key(listing[i].channel_id->0)
                && self@.channels[listing[i].channel_id->0] == listing[i] by {
                assert(ids@.contains(ids@[i]));
            }
            assert forall|id: u32| self@.channels.contains_key(id) implies exists|i: int|
                0 <= i < listing.len() && (#[trigger] listing[i]).channel_id == Some(id) by {
                assert(ids@.contains(id));
                let k = choose|k: int| 0 <= k < ids@.len() && ids@[k] == id;
                assert(listing[k].channel_id == Some(id));
            }
        }
        channels
    }
}

/// The identifiers that a listing of channels names, in its order.
pub open spec fn listed_ids(listing: Seq<ChannelStateView>) -> Seq<u32> {
    Seq::new(listing.len(), |i: int| listing[i].channel_id->0)
}

/// The store has one listing of its channels and no other.
pub proof fn lemma_channel_listing_is_unique(
    state: StateView,
    one: Seq<ChannelStateView>,
    other: Seq<ChannelStateView>,
)
    requires
        state.is_channel_listing(one),
        state.is_channel_listing(other),
    ensures
        one == other,
{
    let a = listed_ids(one);
    let b = listed_ids(other);
    assert forall|id: u32| a.contains(id) <==> b.contains(id) by {
        if a.contains(id) {
            let i = choose|i: int| 0 <= i < a.len() && a[i] == id;
            assert(one[i].channel_id == Some(id));
            assert(state.channels.contains_key(id));
            let j = choose|j: int| 0 <= j < other.len() && (#[trigger] other[j]).channel_id == Some(id);
            assert(b[j] == id);
        }
        if b.contains(id) {
            let j = choose|j: int| 0 <= j < b.len() && b[j] == id;
            assert(other[j].channel_id == Some(id));
            assert(state.channels.contains_key(id));
            let i = choose|i: int| 0 <= i < one.len() && (#[trigger] one[i]).channel_id == Some(id);
            assert(a[i] == id);
        }
    }
    assert(strictly_ascending(a)) by {
        assert forall|i: int, j: int| 0 <= i < j < a.len() implies a[i] < a[j] by {
            assert(one[i].channel_id->0 < one[j].channel_id->0);
        }
    }
    assert(strictly_ascending(b)) by {
        assert forall|i: int, j: int| 0 <= i < j < b.len() implies b[i] < b[j] by {
            assert(other[i].channel_id->0 < other[j].channel_id->0);
        }
    }
    lemma_ascending_is_unique(a, b);
    assert(one =~= other) by {
        assert forall|i: int| 0 <= i < one.len() implies one[i] == other[i] by {
            assert(a[i] == b[i]);
            assert(one[i] == state.channels[one[i].channel_id->0]);
            assert(other[i] == state.channels[other[i].channel_id->0]);
        }
    }
}

} // verus!
