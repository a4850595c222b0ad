//! Voice-pool allocation, stealing and the active-count invariant.

use sympathetic_12::voice::VoicePool;

fn counted(pool: &VoicePool) -> usize {
    let mut n = 0;
    for id in 0..128 {
        if let Some(v) = pool.get_voice(id) {
            if v.active {
                n += 1;
            }
        }
    }
    n
}

#[test]
fn fresh_pool_is_empty() {
    let pool = VoicePool::new(16);
    assert_eq!(pool.active_count(), 0);
    assert_eq!(counted(&pool), 0);
}

#[test]
fn pool_size_caps_at_max_voices() {
    let pool = VoicePool::new(4096);
    assert!(pool.get_voice(127).is_some());
    assert!(pool.get_voice(128).is_none());
}

#[test]
fn allocate_fills_inactive_slots_first() {
    let mut pool = VoicePool::new(4);
    assert_eq!(pool.allocate(7), Some(0));
    assert_eq!(pool.allocate(7), Some(1));
    assert_eq!(pool.allocate(2), Some(2));
    assert_eq!(pool.active_count(), 3);
    assert_eq!(counted(&pool), 3);
}

#[test]
fn allocate_reuses_deactivated_slot() {
    let mut pool = VoicePool::new(3);
    pool.allocate(0);
    pool.allocate(1);
    pool.allocate(2);
    pool.deactivate(1);
    assert_eq!(pool.active_count(), 2);
    assert_eq!(pool.allocate(5), Some(1));
    assert_eq!(pool.active_count(), 3);
    assert_eq!(counted(&pool), 3);
}

#[test]
fn allocate_steals_longest_releasing_voice() {
    let mut pool = VoicePool::new(3);
    pool.allocate(0);
    pool.allocate(1);
    pool.allocate(2);
    pool.release(1);
    pool.release(2);
    pool.tick(10);
    pool.release(0);
    pool.tick(5);
    // release times: slot 0 -> 5, slots 1 and 2 -> 15; the first
    // longest-releasing slot is stolen
    assert_eq!(pool.allocate(9), Some(1));
    assert_eq!(pool.active_count(), 3);
    assert_eq!(counted(&pool), 3);
}

#[test]
fn allocate_steals_oldest_voice_when_none_release() {
    let mut pool = VoicePool::new(2);
    pool.allocate(0);
    pool.tick(100);
    pool.allocate(1);
    pool.tick(50);
    // ages: slot 0 -> 150, slot 1 -> 50; the oldest is stolen
    assert_eq!(pool.allocate(3), Some(0));
    assert_eq!(pool.active_count(), 2);
    assert_eq!(counted(&pool), 2);
}

#[test]
fn allocate_never_fails_while_pool_nonempty() {
    let mut pool = VoicePool::new(2);
    for k in 0..50 {
        assert!(pool.allocate(k % 12).is_some());
        assert_eq!(pool.active_count(), counted(&pool));
    }
}

#[test]
fn count_matches_flags_after_mixed_sequence() {
    let mut pool = VoicePool::new(8);
    for k in 0..20 {
        pool.allocate(k % 12);
        if k % 3 == 0 {
            pool.deactivate(k % 8);
        }
        if k % 4 == 0 {
            pool.release(k % 8);
        }
        assert_eq!(pool.active_count(), counted(&pool));
    }
}

#[test]
fn set_active_counts_an_activation_transition() {
    let mut pool = VoicePool::new(4);
    pool.set_active(2, 7, 900_000);
    assert_eq!(pool.active_count(), 1);
    assert_eq!(counted(&pool), 1);
    // activating an already-active slot changes nothing
    pool.set_active(2, 3, 100_000);
    assert_eq!(pool.active_count(), 1);
}

#[test]
fn out_of_range_ids_are_ignored() {
    let mut pool = VoicePool::new(2);
    pool.allocate(0);
    pool.set_active(99, 0, 0);
    pool.release(99);
    pool.deactivate(99);
    assert_eq!(pool.active_count(), 1);
}

#[test]
fn voices_for_string_lists_matching_ids_in_order() {
    let mut pool = VoicePool::new(6);
    pool.allocate(3);
    pool.allocate(5);
    pool.allocate(3);
    pool.allocate(1);
    let ids = pool.get_voices_for_string(3);
    assert_eq!(ids, vec![0, 2]);
    assert_eq!(pool.get_voices_for_string(9), Vec::<usize>::new());
}

#[test]
fn release_string_marks_all_matching_voices() {
    let mut pool = VoicePool::new(4);
    pool.allocate(2);
    pool.allocate(2);
    pool.allocate(7);
    pool.release_string(2);
    assert!(pool.get_voice(0).unwrap().releasing);
    assert!(pool.get_voice(1).unwrap().releasing);
    assert!(!pool.get_voice(2).unwrap().releasing);
    assert_eq!(pool.active_count(), 3);
}

#[test]
fn tick_ages_only_active_voices() {
    let mut pool = VoicePool::new(3);
    pool.allocate(0);
    pool.release(0);
    pool.tick(25);
    let v = pool.get_voice(0).unwrap();
    assert_eq!(v.age, 25);
    assert_eq!(v.release_time, 25);
    let idle = pool.get_voice(1).unwrap();
    assert_eq!(idle.age, 0);
}

#[test]
fn clear_empties_the_pool() {
    let mut pool = VoicePool::new(4);
    pool.allocate(0);
    pool.allocate(1);
    pool.clear();
    assert_eq!(pool.active_count(), 0);
    assert_eq!(counted(&pool), 0);
}
