use mpv_player::config::MpvPlayerOption;
use mpv_player::player::MpvPlayer;
use mpv_player::supervisor::build_args;

fn is_lower_hex(c: char) -> bool {
    c.is_ascii_digit() || ('a'..='f').contains(&c)
}

#[test]
fn a_fresh_identifier_is_a_random_uuid() {
    for _ in 0..64 {
        let option = MpvPlayerOption::new();
        let id: Vec<char> = option.pipe_id().chars().collect();
        assert_eq!(id.len(), 36);
        for (i, c) in id.iter().enumerate() {
            if i == 8 || i == 13 || i == 18 || i == 23 {
                assert_eq!(*c, '-');
            } else {
                assert!(is_lower_hex(*c), "{c} at {i}");
            }
        }
        assert_eq!(id[14], '4');
        assert!(matches!(id[19], '8' | '9' | 'a' | 'b'));
    }
}

#[test]
fn identifiers_of_many_launches_differ() {
    let mut seen = std::collections::HashSet::new();
    for _ in 0..1000 {
        let option = MpvPlayerOption::new();
        assert!(seen.insert(option.pipe_id().to_string()));
    }
    assert_eq!(seen.len(), 1000);
}

#[test]
fn players_made_at_once_have_pipes_of_their_own() {
    let players: Vec<MpvPlayer> = (0..16).map(|_| MpvPlayer::new()).collect();
    for (i, one) in players.iter().enumerate() {
        for other in &players[i + 1..] {
            assert_ne!(one.option().pipe_id(), other.option().pipe_id());
        }
    }
}

#[test]
fn the_pipe_argument_carries_the_fresh_identifier() {
    let option = MpvPlayerOption::new();
    let args = build_args(&option, &None);
    assert_eq!(
        args[5],
        format!("--input-ipc-server=\\\\.\\pipe\\{}", option.pipe_id())
    );
    assert_eq!(args[5].len(), "--input-ipc-server=".len() + r"\\.\pipe\".len() + 36);
}
