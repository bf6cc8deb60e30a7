use portal_engine::game::{next_scene, PlayerMode, Scene};
use portal_engine::networking::{
    unpack_block_data, unpack_player_words, unpack_portal_words, unpack_wand_words, Mode,
    PacketError, PACKET_SIZE,
};

fn record() -> [u8; PACKET_SIZE] {
    let mut buf = [0u8; PACKET_SIZE];
    let mut put = |at: usize, bytes: [u8; 4]| buf[at..at + 4].copy_from_slice(&bytes);
    put(0, 1.5f32.to_le_bytes());
    put(4, (-2.25f32).to_le_bytes());
    put(8, 1u32.to_le_bytes());
    put(12, 300.0f32.to_le_bytes());
    put(16, 400.0f32.to_le_bytes());
    put(20, 90.0f32.to_le_bytes());
    put(24, (-69i32).to_le_bytes());
    put(28, 98i32.to_le_bytes());
    put(32, 69u32.to_le_bytes());
    put(36, 98u32.to_le_bytes());
    put(40, (-1234i32).to_le_bytes());
    put(44, 567i32.to_le_bytes());
    put(48, 7i32.to_le_bytes());
    put(52, (-10i32).to_le_bytes());
    put(56, 60i32.to_le_bytes());
    put(60, 45.5f32.to_le_bytes());
    buf
}

#[test]
fn block_fields_read_back() {
    let mut buf = record();
    assert_eq!(unpack_block_data(&mut buf), (-1234, 567, true));
    buf[48] = 0;
    assert_eq!(unpack_block_data(&mut buf), (-1234, 567, false));
    buf[40..44].copy_from_slice(&i32::MIN.to_le_bytes());
    assert_eq!(unpack_block_data(&mut buf).0, i32::MIN);
}

#[test]
fn player_fields_read_back() {
    let buf = record();
    let (x, y, flip, ax, ay, aw, ah) = unpack_player_words(&buf).unwrap();
    assert_eq!(f32::from_bits(x), 1.5);
    assert_eq!(f32::from_bits(y), -2.25);
    assert!(flip);
    assert_eq!((ax, ay, aw, ah), (-69, 98, 69, 98));
}

#[test]
fn bad_flip_flag_is_refused() {
    let mut buf = record();
    buf[8] = 2;
    assert_eq!(unpack_player_words(&buf), Err(PacketError::BadFlip));
}

#[test]
fn portal_and_wand_fields_read_back() {
    let buf = record();
    let (x, y, r) = unpack_portal_words(&buf);
    assert_eq!((f32::from_bits(x), f32::from_bits(y), f32::from_bits(r)), (300.0, 400.0, 90.0));
    let (wx, wy, wr) = unpack_wand_words(&buf);
    assert_eq!((wx, wy, f32::from_bits(wr)), (-10, 60, 45.5));
}

#[test]
fn scenes_advance_to_the_end() {
    assert_eq!(next_scene(Scene::StartScreen), Scene::Level(1));
    assert_eq!(next_scene(Scene::Level(1)), Scene::Level(2));
    assert_eq!(next_scene(Scene::Level(4)), Scene::FinishedGame);
    assert_eq!(next_scene(Scene::Credits), Scene::Credits);
    assert_ne!(PlayerMode::SinglePlayer, PlayerMode::MultiPlayer);
    assert_ne!(Mode::MultiplayerPlayer1, Mode::MultiplayerPlayer2);
}
