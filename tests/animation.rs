use portal_engine::animation_controller::{Anim, AnimController, Comparator, Condition, Field, Test};
use portal_engine::networking::{pack_words, word_at, PACKET_SIZE};
use portal_engine::physics_controller::PhysicsController;
use portal_engine::units::PX;

fn body() -> PhysicsController {
    PhysicsController::new(100 * PX, 100 * PX, 8 * PX, 70, 20 * PX, 1, 20, PX, 70 * PX, vec![], 69 * PX, 98 * PX, 0)
}

fn sheet() -> AnimController {
    let idle = Anim::new(vec![1], vec![10, 10], Condition::new(Test::Always, 1));
    let run = Anim::new(vec![1, 2], vec![2, 2], Condition::new(Test::Compare(Field::Speed, Comparator::NotEqual, 0), 2));
    let jump = Anim::new(vec![3], vec![1], Condition::new(Test::Compare(Field::FallSpeed, Comparator::Less, 0), 3));
    let fall = Anim::new(vec![4], vec![1], Condition::new(Test::Compare(Field::FallSpeed, Comparator::Greater, PX), 4));
    AnimController::new(3, 69, 98, vec![idle, run, jump, fall])
}

#[test]
fn conditions_read_the_body() {
    let mut b = body();
    let moving = Condition::new(Test::Compare(Field::Speed, Comparator::NotEqual, 0), 2);
    assert!(!moving.is_met(&b));
    b.set_speed(1);
    assert!(moving.is_met(&b));
    assert!(Condition::new(Test::Compare(Field::X, Comparator::AtLeast, 100 * PX), 0).is_met(&b));
    assert!(!Condition::new(Test::Compare(Field::Y, Comparator::Greater, 100 * PX), 0).is_met(&b));
    assert!(Condition::new(Test::Compare(Field::Y, Comparator::AtMost, 100 * PX), 0).is_met(&b));
    assert!(Condition::new(Test::Compare(Field::FallSpeed, Comparator::Equal, 0), 0).is_met(&b));
    let a = Anim::new(vec![5, 6], vec![3, 4], moving);
    assert_eq!(a.current_priority(&b), 2);
    b.set_speed(0);
    assert_eq!(a.current_priority(&b), -1);
    assert_eq!(a.frame_index(6), Some(1));
    assert_eq!(a.frame_index(7), None);
    assert_eq!(a.frame_duration(6), 4);
}

#[test]
fn running_cycles_frames_after_their_durations() {
    let mut anim = sheet();
    let mut b = body();
    // idle: frame 1 at column 1, row 0
    assert_eq!(anim.next_anim(&b), (69, 0, 69, 98));
    b.set_speed(PX);
    // running holds frame 1 for two more ticks, then moves to frame 2
    assert_eq!(anim.next_anim(&b), (69, 0, 69, 98));
    assert_eq!(anim.next_anim(&b), (69, 0, 69, 98));
    assert_eq!(anim.next_anim(&b), (138, 0, 69, 98));
    b.set_fall_speed(-PX);
    // jumping switches at once to frame 3: column 0, row 1
    assert_eq!(anim.next_anim(&b), (0, 98, 69, 98));
    anim.freeze();
    b.set_fall_speed(2 * PX);
    assert_eq!(anim.next_anim(&b), (0, 98, 69, 98));
    anim.unfreeze();
    assert_eq!(anim.next_anim(&b), (69, 98, 69, 98));
}

#[test]
fn packed_words_read_back() {
    let words: Vec<u32> = (0..16).map(|i| 0x0102_0304u32.wrapping_mul(i + 1) ^ 0xdead_beef).collect();
    let bytes = pack_words(&words);
    assert_eq!(bytes.len(), PACKET_SIZE);
    let mut buf = [0u8; PACKET_SIZE];
    buf.copy_from_slice(&bytes);
    for (i, w) in words.iter().enumerate() {
        assert_eq!(word_at(&buf, 4 * i), *w);
        assert_eq!(bytes[4 * i..4 * i + 4], w.to_le_bytes());
    }
}
