use tokio::sync::mpsc;
use vvoice::chat_service::{resolve_chat_at, resolve_chat_logic};
use vvoice::messages::{MumblePacket, Record, TextMessage, UdpTunnel, UserState};
use vvoice::delivery::{deliver, deliver_all, Outbound, Tally};
use vvoice::packet_dispatch::{handle_incoming_packet, route_incoming_packet};
use vvoice::queue::{Rx, OUTBOUND_CAPACITY};
use vvoice::session_service::process_user_state_update;
use vvoice::state::{Peer, SharedState};
use vvoice::voice_router::{collect_channel_members, collect_voice_recipients};

fn peer(session_id: u32, channel_id: u32, muted: bool, deaf: bool, echo_enabled: bool) -> Peer {
    let (tx, _rx) = mpsc::channel::<MumblePacket>(10);
    Peer {
        tx,
        username: format!("u{}", session_id),
        session_id,
        channel_id,
        self_mute: muted,
        self_deaf: deaf,
        echo_enabled,
    }
}

fn test_peer(session_id: u32) -> Peer {
    let (tx, _rx) = mpsc::channel(10);
    Peer {
        tx,
        username: format!("User{}", session_id),
        session_id,
        channel_id: 0,
        self_mute: false,
        self_deaf: false,
        echo_enabled: false,
    }
}

fn listening(state: &mut SharedState, name: &str, session_id: u32, channel_id: u32) -> Rx {
    let (tx, rx) = mpsc::channel(OUTBOUND_CAPACITY);
    state.add_peer(
        session_id,
        Peer {
            tx,
            username: name.to_string(),
            session_id,
            channel_id,
            self_mute: false,
            self_deaf: false,
            echo_enabled: false,
        },
    );
    rx
}

fn received(rx: &mut Rx) -> Vec<MumblePacket> {
    let mut got = Vec::new();
    while let Ok(packet) = rx.try_recv() {
        got.push(packet);
    }
    got
}

fn sorted(mut ids: Vec<u32>) -> Vec<u32> {
    ids.sort();
    ids
}

#[test]
fn routes_to_same_channel_and_echo_self() {
    let mut state = SharedState::new();
    state.add_peer(1, peer(1, 10, false, false, true));
    state.add_peer(2, peer(2, 10, false, false, false));
    state.add_peer(3, peer(3, 11, false, false, false));

    let recipients = collect_voice_recipients(&state, 1);
    assert_eq!(recipients.len(), 2);
}

#[test]
fn drops_when_sender_muted() {
    let mut state = SharedState::new();
    state.add_peer(1, peer(1, 10, true, false, true));
    state.add_peer(2, peer(2, 10, false, false, false));

    let recipients = collect_voice_recipients(&state, 1);
    assert!(recipients.is_empty());
}

#[test]
fn voice_recipients_are_named_exactly() {
    let mut state = SharedState::new();
    state.add_peer(1, peer(1, 10, false, false, true));
    state.add_peer(2, peer(2, 10, false, false, false));
    state.add_peer(3, peer(3, 11, false, false, false));
    state.add_peer(4, peer(4, 10, true, true, false));
    assert_eq!(sorted(collect_voice_recipients(&state, 1)), vec![1, 2, 4]);
    assert_eq!(sorted(collect_voice_recipients(&state, 2)), vec![1, 4]);
    assert_eq!(sorted(collect_voice_recipients(&state, 3)), Vec::<u32>::new());
    assert_eq!(sorted(collect_voice_recipients(&state, 4)), Vec::<u32>::new());
}

#[test]
fn drops_when_sender_deaf() {
    let mut state = SharedState::new();
    state.add_peer(1, peer(1, 10, false, true, true));
    state.add_peer(2, peer(2, 10, false, false, false));
    assert!(collect_voice_recipients(&state, 1).is_empty());
}

#[test]
fn drops_voice_of_unknown_sender() {
    let mut state = SharedState::new();
    state.add_peer(2, peer(2, 0, false, false, false));
    assert!(collect_voice_recipients(&state, 1).is_empty());
}

#[test]
fn channel_members_are_named_exactly() {
    let mut state = SharedState::new();
    state.add_peer(1, peer(1, 0, false, false, false));
    state.add_peer(2, peer(2, 0, true, true, false));
    state.add_peer(3, peer(3, 1, false, false, false));
    assert_eq!(sorted(collect_channel_members(&state, 0)), vec![1, 2]);
    assert_eq!(sorted(collect_channel_members(&state, 1)), vec![3]);
    assert!(collect_channel_members(&state, 2).is_empty());
}

#[test]
fn test_echo_command() {
    let mut state = SharedState::new();
    state.add_peer(1, test_peer(1));

    let mut msg = TextMessage::default();
    msg.message = "/echo".to_string();

    let (resp, bcast, persist) = resolve_chat_logic(&mut state, 1, msg);

    assert!(resp.is_some());
    assert!(bcast.is_none());
    assert!(persist.is_none());

    match resp.unwrap() {
        MumblePacket::TextMessage(t) => {
            assert!(t.message.contains("Echo mode: ON"));
        }
        _ => panic!("Expected TextMessage"),
    }
}

#[test]
fn test_broadcast_chat() {
    let mut state = SharedState::new();
    state.add_peer(1, test_peer(1));
    state.add_peer(2, test_peer(2));

    let mut msg = TextMessage::default();
    msg.message = "Hello".to_string();

    let (resp, bcast, persist) = resolve_chat_logic(&mut state, 1, msg);

    assert!(resp.is_none());
    assert!(bcast.is_some());
    assert!(persist.is_some());

    let (packet, recipients) = bcast.unwrap();
    assert_eq!(recipients.len(), 2);
    match packet {
        MumblePacket::TextMessage(t) => {
            assert_eq!(t.message, "Hello");
            assert!(t.timestamp.is_some());
        }
        _ => panic!("Expected TextMessage"),
    }

    let (content, channel_id) = persist.unwrap();
    assert_eq!(content, "Hello");
    assert_eq!(channel_id, 0);
}

#[test]
fn applies_channel_move_and_mute_deaf_updates() {
    let mut state = SharedState::new();
    state.add_peer(1, peer(1, 0, false, false, false));
    state.add_peer(2, peer(2, 0, false, false, false));

    let mut update = UserState::default();
    update.channel_id = Some(2);
    update.self_deaf = Some(true);

    let result = process_user_state_update(&mut state, 1, "u1", update);

    assert_eq!(state.peers.get(&1).expect("peer").channel_id, 2);
    assert!(state.peers.get(&1).expect("peer").self_deaf);
    assert!(state.peers.get(&1).expect("peer").self_mute);

    assert!(result.channel_update.is_some());
    assert!(result.state_delta.is_some());
    assert_eq!(result.recipients.len(), 2);
}

#[test]
fn echo_toggles_off_again() {
    let mut state = SharedState::new();
    state.add_peer(1, test_peer(1));
    let mut on = TextMessage::default();
    on.message = "/echo".to_string();
    let _ = resolve_chat_at(&mut state, 1, on, 5);
    assert!(state.peers.get(&1).unwrap().echo_enabled);
    let mut off = TextMessage::default();
    off.message = "/echo please".to_string();
    let (resp, bcast, persist) = resolve_chat_at(&mut state, 1, off, 5);
    assert!(!state.peers.get(&1).unwrap().echo_enabled);
    assert!(bcast.is_none());
    assert!(persist.is_none());
    match resp.unwrap() {
        MumblePacket::TextMessage(t) => {
            assert_eq!(t.message, "Echo mode: OFF");
            assert_eq!(t.session, vec![1]);
            assert_eq!(t.actor, None);
        }
        _ => panic!("Expected TextMessage"),
    }
}

#[test]
fn echo_command_from_nobody_does_nothing() {
    let mut state = SharedState::new();
    state.add_peer(2, test_peer(2));
    let mut msg = TextMessage::default();
    msg.message = "/echo".to_string();
    let (resp, bcast, persist) = resolve_chat_at(&mut state, 1, msg, 5);
    assert!(resp.is_none());
    assert!(bcast.is_none());
    assert!(persist.is_none());
    assert!(!state.peers.get(&2).unwrap().echo_enabled);
}

#[test]
fn only_a_leading_echo_is_a_command() {
    let mut state = SharedState::new();
    state.add_peer(1, test_peer(1));
    let mut msg = TextMessage::default();
    msg.message = " /echo".to_string();
    let (resp, bcast, persist) = resolve_chat_at(&mut state, 1, msg, 5);
    assert!(resp.is_none());
    assert!(bcast.is_some());
    assert_eq!(persist.unwrap().0, " /echo");
    assert!(!state.peers.get(&1).unwrap().echo_enabled);
}

#[test]
fn chat_is_stamped_with_author_and_time() {
    let mut state = SharedState::new();
    state.add_peer(7, test_peer(7));
    let mut msg = TextMessage::default();
    msg.message = "hi".to_string();
    msg.actor = Some(99);
    msg.channel_id = vec![4];
    let (_, bcast, _) = resolve_chat_at(&mut state, 7, msg, 1234);
    match bcast.unwrap().0 {
        MumblePacket::TextMessage(t) => {
            assert_eq!(t.actor, Some(7));
            assert_eq!(t.timestamp, Some(1234));
            assert_eq!(t.channel_id, vec![4]);
            assert_eq!(t.message, "hi");
        }
        _ => panic!("Expected TextMessage"),
    }
}

#[test]
fn chat_keeps_a_time_it_came_with() {
    let mut state = SharedState::new();
    state.add_peer(7, test_peer(7));
    let mut msg = TextMessage::default();
    msg.message = "hi".to_string();
    msg.timestamp = Some(42);
    let (_, bcast, _) = resolve_chat_logic(&mut state, 7, msg);
    match bcast.unwrap().0 {
        MumblePacket::TextMessage(t) => assert_eq!(t.timestamp, Some(42)),
        _ => panic!("Expected TextMessage"),
    }
}

#[test]
fn chat_reads_the_clock_for_an_undated_line() {
    let mut state = SharedState::new();
    state.add_peer(7, test_peer(7));
    let mut msg = TextMessage::default();
    msg.message = "hi".to_string();
    let (_, bcast, _) = resolve_chat_logic(&mut state, 7, msg);
    match bcast.unwrap().0 {
        MumblePacket::TextMessage(t) => assert!(t.timestamp.unwrap() > 1_600_000_000),
        _ => panic!("Expected TextMessage"),
    }
}

#[test]
fn chat_is_stored_under_the_senders_channel() {
    let mut state = SharedState::new();
    state.add_peer(1, peer(1, 5, false, false, false));
    state.add_peer(2, peer(2, 5, false, false, false));
    state.add_peer(3, peer(3, 0, false, false, false));
    let mut msg = TextMessage::default();
    msg.message = "yo".to_string();
    let (_, bcast, persist) = resolve_chat_at(&mut state, 1, msg, 1);
    assert_eq!(sorted(bcast.unwrap().1), vec![1, 2]);
    assert_eq!(persist.unwrap(), ("yo".to_string(), 5));
}

#[test]
fn presence_request_sets_only_what_it_names() {
    let mut state = SharedState::new();
    state.add_peer(1, peer(1, 3, true, false, true));
    let mut update = UserState::default();
    update.self_mute = Some(false);
    let result = process_user_state_update(&mut state, 1, "u1", update);
    let p = state.peers.get(&1).unwrap();
    assert_eq!((p.channel_id, p.self_mute, p.self_deaf, p.echo_enabled), (3, false, false, true));
    assert!(result.channel_update.is_none());
    let delta = result.state_delta.unwrap();
    assert_eq!(delta.session, Some(1));
    assert_eq!(delta.self_mute, Some(false));
    assert_eq!(delta.self_deaf, None);
    assert_eq!(delta.channel_id, None);
    assert_eq!(delta.name, None);
}

#[test]
fn empty_presence_request_emits_nothing() {
    let mut state = SharedState::new();
    state.add_peer(1, peer(1, 3, false, false, false));
    let result = process_user_state_update(&mut state, 1, "u1", UserState::default());
    assert!(result.channel_update.is_none());
    assert!(result.state_delta.is_none());
    assert_eq!(result.recipients, vec![1]);
}

#[test]
fn presence_request_from_nobody_changes_nothing() {
    let mut state = SharedState::new();
    state.add_peer(2, peer(2, 0, false, false, false));
    let mut update = UserState::default();
    update.channel_id = Some(9);
    update.self_mute = Some(true);
    let result = process_user_state_update(&mut state, 1, "ghost", update);
    assert!(result.channel_update.is_none());
    assert!(result.state_delta.is_none());
    assert_eq!(state.peers.len(), 1);
    assert_eq!(state.peers.get(&2).unwrap().channel_id, 0);
}

#[test]
fn move_notice_names_session_and_channel_only() {
    let mut state = SharedState::new();
    state.add_peer(1, peer(1, 0, false, false, false));
    let mut update = UserState::default();
    update.channel_id = Some(4);
    update.name = Some("other".to_string());
    let result = process_user_state_update(&mut state, 1, "u1", update);
    let notice = result.channel_update.unwrap();
    assert_eq!(notice.session, Some(1));
    assert_eq!(notice.channel_id, Some(4));
    assert_eq!(notice.name, None);
    assert_eq!(notice.user_id, None);
    assert_eq!(notice.self_mute, None);
    assert_eq!(notice.self_deaf, None);
    assert!(result.state_delta.is_none());
    assert_eq!(state.peers.get(&1).unwrap().username, "u1");
}

#[test]
fn undeafening_leaves_mute_as_it_is() {
    let mut state = SharedState::new();
    state.add_peer(1, peer(1, 0, true, true, false));
    let mut update = UserState::default();
    update.self_deaf = Some(false);
    let result = process_user_state_update(&mut state, 1, "u1", update);
    let p = state.peers.get(&1).unwrap();
    assert!(!p.self_deaf);
    assert!(p.self_mute);
    let delta = result.state_delta.unwrap();
    assert_eq!(delta.self_deaf, Some(false));
    assert_eq!(delta.self_mute, None);
}

#[test]
fn deaf_wins_over_unmute_in_one_request() {
    let mut state = SharedState::new();
    state.add_peer(1, peer(1, 0, false, false, false));
    let mut update = UserState::default();
    update.self_mute = Some(false);
    update.self_deaf = Some(true);
    let result = process_user_state_update(&mut state, 1, "u1", update);
    let p = state.peers.get(&1).unwrap();
    assert!(p.self_deaf && p.self_mute);
    let delta = result.state_delta.unwrap();
    assert_eq!(delta.self_mute, Some(true));
    assert_eq!(delta.self_deaf, Some(true));
}

#[test]
fn ping_goes_back_to_its_sender() {
    let mut state = SharedState::new();
    let mut a = listening(&mut state, "alice", 1, 0);
    let mut b = listening(&mut state, "bob", 2, 0);
    let ping = MumblePacket::Ping(Record { bytes: vec![8, 1] });
    let follow_up = handle_incoming_packet(ping, &mut state, "alice", 1);
    assert!(follow_up.persist.is_none());
    assert!(follow_up.history_for.is_none());
    let got = received(&mut a);
    assert_eq!(got.len(), 1);
    match &got[0] {
        MumblePacket::Ping(r) => assert_eq!(r.bytes, vec![8, 1]),
        _ => panic!("Expected Ping"),
    }
    assert!(received(&mut b).is_empty());
}

#[test]
fn other_kinds_are_dropped_silently() {
    let mut state = SharedState::new();
    let mut a = listening(&mut state, "alice", 1, 0);
    let mut b = listening(&mut state, "bob", 2, 0);
    let packets = vec![
        MumblePacket::BanList(Record { bytes: vec![1] }),
        MumblePacket::ACL(Record { bytes: vec![] }),
        MumblePacket::Version(Default::default()),
        MumblePacket::Authenticate(Default::default()),
        MumblePacket::UserRemove(Default::default()),
        MumblePacket::ServerSync(Default::default()),
        MumblePacket::ChannelState(Default::default()),
        MumblePacket::Reject(Default::default()),
        MumblePacket::VoiceTarget(Record { bytes: vec![2] }),
    ];
    for packet in packets {
        let d = route_incoming_packet(packet, &mut state, "alice", 1, 0);
        assert!(d.sends.is_empty());
        assert!(d.follow_up.persist.is_none());
        assert!(d.follow_up.history_for.is_none());
    }
    assert!(received(&mut a).is_empty());
    assert!(received(&mut b).is_empty());
    assert_eq!(state.peers.len(), 2);
}

#[test]
fn echo_toggle_scenario() {
    let mut state = SharedState::new();
    let mut a = listening(&mut state, "alice", 1, 0);
    let mut msg = TextMessage::default();
    msg.message = "/echo".to_string();
    let follow_up = handle_incoming_packet(MumblePacket::TextMessage(msg), &mut state, "alice", 1);
    let got = received(&mut a);
    assert_eq!(got.len(), 1);
    match &got[0] {
        MumblePacket::TextMessage(t) => {
            assert!(t.message.contains("Echo mode: ON"));
            assert_eq!(t.session, vec![1]);
        }
        _ => panic!("Expected TextMessage"),
    }
    assert!(state.peers.get(&1).unwrap().echo_enabled);
    assert!(follow_up.persist.is_none());
    assert!(follow_up.history_for.is_none());
}

#[test]
fn channel_scoped_chat_scenario() {
    let mut state = SharedState::new();
    let mut a = listening(&mut state, "alice", 1, 0);
    let mut b = listening(&mut state, "bob", 2, 0);
    let mut c = listening(&mut state, "carol", 3, 1);
    let mut msg = TextMessage::default();
    msg.message = "hi".to_string();
    let follow_up = handle_incoming_packet(MumblePacket::TextMessage(msg), &mut state, "alice", 1);
    for rx in [&mut a, &mut b] {
        let got = received(rx);
        assert_eq!(got.len(), 1);
        match &got[0] {
            MumblePacket::TextMessage(t) => {
                assert_eq!(t.actor, Some(1));
                assert_eq!(t.message, "hi");
                assert!(t.timestamp.is_some());
            }
            _ => panic!("Expected TextMessage"),
        }
    }
    assert!(received(&mut c).is_empty());
    let stored = follow_up.persist.unwrap();
    assert_eq!(stored.sender_name, "alice");
    assert_eq!(stored.channel_id, 0);
    assert_eq!(stored.content, "hi");
    assert!(follow_up.history_for.is_none());
}

#[test]
fn voice_fan_out_and_self_mute_scenario() {
    let mut state = SharedState::new();
    let mut a = listening(&mut state, "alice", 1, 7);
    let mut b = listening(&mut state, "bob", 2, 7);
    let mut c = listening(&mut state, "carol", 3, 8);
    state.peers.get_mut(&1).unwrap().echo_enabled = true;
    let x = vec![0x80u8, 1, 2, 3, 0xff];

    let voice = MumblePacket::UDPTunnel(UdpTunnel { packet: x.clone() });
    let _ = handle_incoming_packet(voice, &mut state, "alice", 1);
    for rx in [&mut a, &mut b] {
        let got = received(rx);
        assert_eq!(got.len(), 1);
        match &got[0] {
            MumblePacket::UDPTunnel(t) => assert_eq!(t.packet, x),
            _ => panic!("Expected UDPTunnel"),
        }
    }
    assert!(received(&mut c).is_empty());

    let mut mute = UserState::default();
    mute.self_mute = Some(true);
    let _ = handle_incoming_packet(MumblePacket::UserState(mute), &mut state, "alice", 1);
    assert_eq!(received(&mut a).len(), 1);
    assert_eq!(received(&mut b).len(), 1);
    assert_eq!(received(&mut c).len(), 1);

    let voice = MumblePacket::UDPTunnel(UdpTunnel { packet: x.clone() });
    let d = route_incoming_packet(voice, &mut state, "alice", 1, 0);
    assert!(d.sends.is_empty());
    let voice = MumblePacket::UDPTunnel(UdpTunnel { packet: x });
    let _ = handle_incoming_packet(voice, &mut state, "alice", 1);
    assert!(received(&mut a).is_empty());
    assert!(received(&mut b).is_empty());
    assert!(received(&mut c).is_empty());
}

#[test]
fn deaf_implies_mute_scenario() {
    let mut state = SharedState::new();
    let mut a = listening(&mut state, "alice", 1, 0);
    let mut b = listening(&mut state, "bob", 2, 3);
    let mut deaf = UserState::default();
    deaf.self_deaf = Some(true);
    let follow_up = handle_incoming_packet(MumblePacket::UserState(deaf), &mut state, "alice", 1);
    assert!(follow_up.persist.is_none());
    assert!(follow_up.history_for.is_none());
    for rx in [&mut a, &mut b] {
        let got = received(rx);
        assert_eq!(got.len(), 1);
        match &got[0] {
            MumblePacket::UserState(u) => {
                assert_eq!(u.session, Some(1));
                assert_eq!(u.self_deaf, Some(true));
                assert_eq!(u.self_mute, Some(true));
            }
            _ => panic!("Expected UserState"),
        }
    }
    let p = state.peers.get(&1).unwrap();
    assert!(p.self_deaf);
    assert!(p.self_mute);
}

#[test]
fn channel_move_is_told_to_all_and_owes_history() {
    let mut state = SharedState::new();
    let mut a = listening(&mut state, "alice", 1, 0);
    let mut b = listening(&mut state, "bob", 2, 9);
    let mut request = UserState::default();
    request.channel_id = Some(4);
    request.self_mute = Some(true);
    let follow_up =
        handle_incoming_packet(MumblePacket::UserState(request), &mut state, "alice", 1);
    assert_eq!(follow_up.history_for, Some(4));
    assert!(follow_up.persist.is_none());
    for rx in [&mut a, &mut b] {
        let got = received(rx);
        assert_eq!(got.len(), 2);
        match (&got[0], &got[1]) {
            (MumblePacket::UserState(moved), MumblePacket::UserState(muted)) => {
                assert_eq!((moved.session, moved.channel_id), (Some(1), Some(4)));
                assert_eq!(moved.self_mute, None);
                assert_eq!((muted.session, muted.self_mute), (Some(1), Some(true)));
                assert_eq!(muted.channel_id, None);
            }
            _ => panic!("Expected two UserState"),
        }
    }
    assert_eq!(state.peers.get(&1).unwrap().channel_id, 4);
}

#[test]
fn full_queue_drops_and_the_rest_are_served() {
    let mut state = SharedState::new();
    let (tx, mut slow) = mpsc::channel(1);
    state.add_peer(
        1,
        Peer {
            tx,
            username: "slow".to_string(),
            session_id: 1,
            channel_id: 0,
            self_mute: false,
            self_deaf: false,
            echo_enabled: false,
        },
    );
    let mut fast = listening(&mut state, "fast", 2, 0);
    let out = Outbound {
        packet: MumblePacket::Ping(Record { bytes: vec![1] }),
        recipients: vec![1, 2, 3],
    };
    assert_eq!(deliver(&state, &out), Tally { queued: 2, dropped: 0 });
    assert_eq!(deliver(&state, &out), Tally { queued: 1, dropped: 1 });
    assert_eq!(received(&mut slow).len(), 1);
    assert_eq!(received(&mut fast).len(), 2);
    drop(slow);
    assert_eq!(deliver(&state, &out), Tally { queued: 1, dropped: 1 });
    let twice = vec![
        Outbound { packet: MumblePacket::Ping(Record { bytes: vec![2] }), recipients: vec![2] },
        Outbound { packet: MumblePacket::Ping(Record { bytes: vec![3] }), recipients: vec![1, 2, 9] },
    ];
    assert_eq!(deliver_all(&state, &twice), Tally { queued: 2, dropped: 1 });
    assert_eq!(deliver_all(&state, &Vec::new()), Tally { queued: 0, dropped: 0 });
}

#[test]
fn outbound_queue_holds_256() {
    assert_eq!(OUTBOUND_CAPACITY, 256);
    let mut state = SharedState::new();
    let admission = vvoice::bootstrap::admit_session(&mut state, "alice").unwrap();
    assert_eq!(admission.rx.max_capacity(), 256);
    assert_eq!(state.peers.get(&1).unwrap().tx.max_capacity(), 256);
}
