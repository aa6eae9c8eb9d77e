use gigadoram::config::GigaDoramConfig;
use gigadoram::hierarchy::{ilog2_usize, BatchError, BatchStep, LevelSchedule};

fn fill(schedule: &mut LevelSchedule) {
    while schedule.is_writeable() {
        schedule.record_query();
    }
}

#[test]
fn fresh_schedule_holds_only_the_stash() {
    // 2^10 addresses, 3 levels, amplification 4: speed cache of 2^6.
    let config = GigaDoramConfig::new(10, 3, 2);
    let schedule = LevelSchedule::new(config);
    assert_eq!(schedule.num_levels(), 3);
    assert_eq!(schedule.speed_cache_len(), 8);
    assert!(schedule.is_writeable());
    assert_eq!(schedule.rebuild_target(), (0, false));
    assert!(!schedule.ready_to_grow_naturally());
}

#[test]
fn rebuilds_fill_levels_like_a_base_b_counter() {
    let config = GigaDoramConfig::new(10, 3, 2);
    let mut schedule = LevelSchedule::new(config);
    let mut targets = Vec::new();
    for _ in 0..8 {
        fill(&mut schedule);
        let plan = schedule.rebuild();
        assert_eq!(schedule.speed_cache_len(), 8);
        if !plan.bottom {
            // The gathered entries are exactly the target level's new size.
            let state_after = (plan.num_gathered >> (plan.level * 2 + 6)) as usize;
            assert_eq!(
                schedule.num_elements_at(plan.level, state_after) as u64,
                plan.num_gathered
            );
        }
        targets.push((plan.level, plan.merge_level, plan.num_gathered));
    }
    assert_eq!(
        targets,
        vec![
            (0, false, 64),
            (0, true, 128),
            (0, true, 192),
            (1, false, 256),
            (0, false, 64),
            (0, true, 128),
            (0, true, 192),
            (1, true, 512),
        ]
    );
}

#[test]
fn bottom_rebuild_after_full_levels() {
    let config = GigaDoramConfig::new(4, 2, 2);
    // 2^4 addresses, 2 levels, amplification 4: speed cache of 2^2, stash 8
    // does not fit, so use a smaller stash.
    let _ = config;
    let config = GigaDoramConfig::with_stash_size(4, 2, 2, 1, gigadoram::config::ChtBounds::Empirical);
    let mut schedule = LevelSchedule::new(config);
    let mut levels = Vec::new();
    for _ in 0..5 {
        fill(&mut schedule);
        let plan = schedule.rebuild();
        levels.push((plan.level, plan.merge_level, plan.bottom));
    }
    assert_eq!(
        levels,
        vec![
            (0, false, false),
            (0, true, false),
            (0, true, false),
            (1, false, true),
            (0, false, false),
        ]
    );
}

#[test]
fn element_counts_dummies_and_labels() {
    let config = GigaDoramConfig::new(10, 3, 2);
    let schedule = LevelSchedule::new(config);
    assert_eq!(schedule.num_elements_at(0, 3), 3 << 6);
    assert_eq!(schedule.num_elements_at(1, 2), 2 << 8);
    assert_eq!(schedule.num_elements_at(2, 0), 1 << 10);
    assert_eq!(schedule.bottom_num_elements(), 1024);
    assert_eq!(schedule.num_dummies(0), 56);
    assert_eq!(schedule.num_dummies(2), 16 * 56);
    assert_eq!(schedule.dummy_label(0), 1024);
    assert_eq!(schedule.dummy_label(5), 1029);
}

#[test]
fn ready_to_grow_when_full_and_next_rebuild_is_the_bottom() {
    let config = GigaDoramConfig::with_stash_size(4, 2, 2, 1, gigadoram::config::ChtBounds::Empirical);
    let mut schedule = LevelSchedule::new(config);
    for _ in 0..3 {
        fill(&mut schedule);
        assert!(!schedule.ready_to_grow_naturally());
        schedule.rebuild();
    }
    fill(&mut schedule);
    assert!(schedule.ready_to_grow_naturally());
}

#[test]
fn new_table_params_follow_the_level_counter() {
    let config = GigaDoramConfig::new(10, 3, 2);
    let mut schedule = LevelSchedule::new(config);
    fill(&mut schedule);
    let plan = schedule.rebuild();
    let params = schedule.new_table_params(plan.level, plan.num_gathered as usize);
    assert_eq!(params.num_elements, 64);
    assert_eq!(params.num_dummies, 56);
    assert_eq!(params.stash_size, 8);
    // 2^6 entries per unit, floor(1.2 * 1) = 1 unit: log2 is 6, plus one.
    assert_eq!(params.log_single_col_len, 7);
    fill(&mut schedule);
    schedule.rebuild();
    fill(&mut schedule);
    schedule.rebuild();
    // Counter 3: floor(1.2 * 3) = 3, whose floor log2 is 1.
    assert_eq!(schedule.new_table_params(0, 192).log_single_col_len, 8);
    // The bottom table covers one unit of 2^10 entries.
    assert_eq!(schedule.new_table_params(2, 1024).log_single_col_len, 11);
}

#[test]
fn ilog2_of_words() {
    assert_eq!(ilog2_usize(1), 0);
    assert_eq!(ilog2_usize(2), 1);
    assert_eq!(ilog2_usize(3), 1);
    assert_eq!(ilog2_usize(1024), 10);
    assert_eq!(ilog2_usize(usize::MAX), usize::BITS - 1);
}

#[test]
fn batches_split_at_speed_cache_capacity() {
    let config = GigaDoramConfig::new(10, 3, 2);
    let mut schedule = LevelSchedule::new(config);
    assert_eq!(schedule.next_batch_step(100), BatchStep::Access(56));
    assert_eq!(schedule.next_batch_step(3), BatchStep::Access(3));
    let steps = schedule.plan_batch_access(100).unwrap();
    assert_eq!(
        steps,
        vec![BatchStep::Access(56), BatchStep::Rebuild, BatchStep::Access(44)]
    );
    assert_eq!(schedule.speed_cache_len(), 8 + 44);
    assert_eq!(schedule.plan_batch_access(0), Err(BatchError::EmptyBatch));
    fill(&mut schedule);
    assert_eq!(schedule.next_batch_step(5), BatchStep::Rebuild);
}

#[test]
fn live_levels_are_the_built_ones() {
    let config = GigaDoramConfig::new(10, 3, 2);
    let mut schedule = LevelSchedule::new(config);
    assert!(schedule.live_levels().is_empty());
    for _ in 0..4 {
        fill(&mut schedule);
        schedule.rebuild();
    }
    // After four rebuilds the counters are [0, 1, 0]: only level 1 is live.
    assert_eq!(schedule.live_levels(), vec![1]);
    fill(&mut schedule);
    schedule.rebuild();
    assert_eq!(schedule.live_levels(), vec![0, 1]);
    schedule.record_queries(1);
    assert_eq!(schedule.speed_cache_len(), 9);
}
