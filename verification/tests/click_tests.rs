use autoclicker::engine::random::RandomDraws;
use autoclicker::config::{AppConfig, ClickMode};
use autoclicker::engine::clicks::{
    calculate_runner_delay, click_plan, effective_cps, humanized_plan, jitter_millis, ClickStep,
    DelayPlan,
};

#[test]
fn single_click_plan() {
    for mode in [ClickMode::Humanized, ClickMode::Fixed] {
        assert_eq!(
            click_plan(mode, 272, 30),
            vec![
                ClickStep::Key { code: 272, value: 1 },
                ClickStep::Wait { ms: 5 },
                ClickStep::Key { code: 272, value: 0 },
            ]
        );
    }
}

#[test]
fn double_click_plan() {
    assert_eq!(
        click_plan(ClickMode::DoubleClick, 30, 45),
        vec![
            ClickStep::Key { code: 30, value: 1 },
            ClickStep::Wait { ms: 5 },
            ClickStep::Key { code: 30, value: 0 },
            ClickStep::Wait { ms: 45 },
            ClickStep::Key { code: 30, value: 1 },
            ClickStep::Wait { ms: 5 },
            ClickStep::Key { code: 30, value: 0 },
        ]
    );
}

#[test]
fn fixed_modes_count_and_wait_the_base_interval() {
    let mut config = AppConfig::default();
    for mode in [ClickMode::Fixed, ClickMode::DoubleClick] {
        config.click_mode = mode;
        let mut counter = 41;
        assert_eq!(calculate_runner_delay(&config, &mut counter, &mut RandomDraws::new()), DelayPlan::BaseInterval);
        assert_eq!(counter, 42);
    }
}

#[test]
fn humanized_plan_pauses_past_threshold() {
    assert_eq!(humanized_plan(50, 49), (0, DelayPlan::RandomPause));
    assert_eq!(humanized_plan(49, 49), (49, DelayPlan::Jittered));
    assert_eq!(humanized_plan(1, 40), (1, DelayPlan::Jittered));
}

#[test]
fn humanized_pause_window() {
    let config = AppConfig::default();
    for _ in 0..200 {
        let mut counter = 0;
        assert_eq!(calculate_runner_delay(&config, &mut counter, &mut RandomDraws::new()), DelayPlan::Jittered);
        assert_eq!(counter, 1);
        let mut counter = 39;
        assert_eq!(calculate_runner_delay(&config, &mut counter, &mut RandomDraws::new()), DelayPlan::Jittered);
        assert_eq!(counter, 40);
        let mut counter = 69;
        assert_eq!(calculate_runner_delay(&config, &mut counter, &mut RandomDraws::new()), DelayPlan::RandomPause);
        assert_eq!(counter, 0);
        let mut counter = 55;
        let plan = calculate_runner_delay(&config, &mut counter, &mut RandomDraws::new());
        assert!(
            (plan == DelayPlan::RandomPause && counter == 0)
                || (plan == DelayPlan::Jittered && counter == 56)
        );
    }
}

#[test]
fn rate_and_jitter_bounds() {
    assert_eq!(effective_cps(0), 1);
    assert_eq!(effective_cps(1), 1);
    assert_eq!(effective_cps(15), 15);
    assert_eq!(jitter_millis(0), 10);
    assert_eq!(jitter_millis(9), 10);
    assert_eq!(jitter_millis(10), 10);
    assert_eq!(jitter_millis(87), 87);
}
