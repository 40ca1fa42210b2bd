use padington::folder::Folder;
use padington::ids::{ChannelID, UserID};
use padington::lobby::{EndAction, JoinError, Joined, LobbyState};

fn tree() -> Folder {
    let mut root = Folder::new(None);
    root.add_sub("room".to_string(), Folder::new(None));
    root
}

#[test]
fn first_join_creates_channel() {
    let mut l = LobbyState::new();
    match l.handle_join_request(&tree(), "/room/pad", "pads".to_string()) {
        Ok(Joined::Created { channel, path, user }) => {
            assert_eq!(channel, ChannelID(0));
            assert_eq!(path, "pads/room/pad.md");
            assert_eq!(user, UserID(0));
        }
        other => panic!("unexpected {:?}", other),
    }
    assert_eq!(l.channels().len(), 1);
    assert_eq!(l.channels()[0].count, 1);
}

#[test]
fn slug_collision_shares_channel() {
    let mut l = LobbyState::new();
    let f = tree();
    let a = l.handle_join_request(&f, "/My Pad", "pads".to_string());
    let b = l.handle_join_request(&f, "/my-pad", "pads".to_string());
    assert!(matches!(a, Ok(Joined::Created { channel: ChannelID(0), user: UserID(0), .. })));
    assert!(matches!(b, Ok(Joined::Existing { channel: ChannelID(0), user: UserID(1) })));
    assert_eq!(l.channels()[0].count, 2);
}

#[test]
fn folder_path_is_rejected() {
    let mut l = LobbyState::new();
    assert!(matches!(l.handle_join_request(&tree(), "/room/", "pads".to_string()), Err(JoinError::IsFolder(ref d)) if d == "pads/room"));
    assert_eq!(l.channels().len(), 0);
}

#[test]
fn invalid_paths_are_rejected() {
    let mut l = LobbyState::new();
    assert!(matches!(l.handle_join_request(&tree(), "/nope/x", "pads".to_string()), Err(JoinError::InvalidPath(ref p)) if p == "/nope/x"));
    assert!(matches!(l.handle_join_request(&tree(), "/!!!", "pads".to_string()), Err(JoinError::InvalidPath(_))));
    assert_eq!(l.channels().len(), 0);
}

#[test]
fn refcount_follows_joins_and_ends() {
    let mut l = LobbyState::new();
    let f = tree();
    l.handle_join_request(&f, "/a", "pads".to_string()).unwrap();
    l.handle_join_request(&f, "/a", "pads".to_string()).unwrap();
    l.handle_join_request(&f, "/a", "pads".to_string()).unwrap();
    assert_eq!(l.channels()[0].count, 3);
    assert_eq!(l.handle_end(ChannelID(0)), EndAction::Continue);
    assert_eq!(l.channels()[0].count, 2);
    assert_eq!(l.handle_end(ChannelID(0)), EndAction::Continue);
    assert_eq!(l.handle_end(ChannelID(0)), EndAction::Terminate);
    assert_eq!(l.channels().len(), 0);
    assert_eq!(l.handle_end(ChannelID(0)), EndAction::Break);
}

#[test]
fn reopening_after_termination_makes_new_channel() {
    let mut l = LobbyState::new();
    let f = tree();
    l.handle_join_request(&f, "/doc", "pads".to_string()).unwrap();
    assert_eq!(l.handle_end(ChannelID(0)), EndAction::Terminate);
    match l.handle_join_request(&f, "/doc", "pads".to_string()) {
        Ok(Joined::Created { channel, path, user }) => {
            assert_eq!(channel, ChannelID(1));
            assert_eq!(path, "pads/doc.md");
            assert_eq!(user, UserID(0));
        }
        other => panic!("unexpected {:?}", other),
    }
}

#[test]
fn unknown_channel_end_breaks() {
    let mut l = LobbyState::new();
    assert_eq!(l.handle_end(ChannelID(4)), EndAction::Break);
}

#[test]
fn joining_through_a_slug_attaches_to_live_channel() {
    let mut l = LobbyState::new();
    let f = tree();
    l.handle_join_request(&f, "/Ünïcode Pad!", "pads".to_string()).unwrap();
    match l.handle_join_request(&f, "/unicode-pad", "pads".to_string()) {
        Ok(Joined::Existing { channel, user }) => {
            assert_eq!(channel, ChannelID(0));
            assert_eq!(user, UserID(1));
        }
        other => panic!("unexpected {:?}", other),
    }
    assert_eq!(l.channels().len(), 1);
}
