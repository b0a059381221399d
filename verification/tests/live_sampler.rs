use sysprobe::sampler::{
    LiveSampler, MetricCategory, StartAction, EMIT_INTERVAL_MS, REFRESH_INTERVAL_MS,
};

const CATEGORIES: [MetricCategory; 4] = [
    MetricCategory::CpuUsage,
    MetricCategory::Memory,
    MetricCategory::SysInfo,
    MetricCategory::Processes,
];

#[test]
fn nothing_runs_on_a_new_sampler() {
    let sampler = LiveSampler::new();
    for category in CATEGORIES {
        assert!(!sampler.is_running(category));
    }
    assert!(!sampler.refresher_is_running());
}

#[test]
fn second_start_of_a_category_is_a_no_op() {
    let mut sampler = LiveSampler::new();
    assert_eq!(sampler.start(MetricCategory::CpuUsage), StartAction::Launch);
    assert_eq!(sampler.start(MetricCategory::CpuUsage), StartAction::AlreadyRunning);
    assert!(sampler.is_running(MetricCategory::CpuUsage));
}

#[test]
fn many_starts_launch_one_loop_per_category() {
    let mut sampler = LiveSampler::new();
    for category in CATEGORIES {
        let mut launches = 0;
        for _ in 0..50 {
            if sampler.start(category) == StartAction::Launch {
                launches += 1;
            }
        }
        assert_eq!(launches, 1);
        assert!(sampler.is_running(category));
    }
}

#[test]
fn categories_start_independently() {
    let mut sampler = LiveSampler::new();
    assert_eq!(sampler.start(MetricCategory::Memory), StartAction::Launch);
    assert!(sampler.is_running(MetricCategory::Memory));
    assert!(!sampler.is_running(MetricCategory::CpuUsage));
    assert!(!sampler.is_running(MetricCategory::SysInfo));
    assert!(!sampler.is_running(MetricCategory::Processes));
    assert!(!sampler.refresher_is_running());
    assert_eq!(sampler.start(MetricCategory::Processes), StartAction::Launch);
    assert_eq!(sampler.start(MetricCategory::Memory), StartAction::AlreadyRunning);
}

#[test]
fn refresher_is_launched_once() {
    let mut sampler = LiveSampler::new();
    assert_eq!(sampler.start_refresher(), StartAction::Launch);
    assert_eq!(sampler.start_refresher(), StartAction::AlreadyRunning);
    assert_eq!(sampler.start_refresher(), StartAction::AlreadyRunning);
    assert!(sampler.refresher_is_running());
    for category in CATEGORIES {
        assert!(!sampler.is_running(category));
    }
}

#[test]
fn event_names_and_intervals() {
    assert_eq!(LiveSampler::event_name(MetricCategory::CpuUsage), "cpu_usage");
    assert_eq!(LiveSampler::event_name(MetricCategory::Memory), "memory");
    assert_eq!(LiveSampler::event_name(MetricCategory::SysInfo), "sys_info");
    assert_eq!(LiveSampler::event_name(MetricCategory::Processes), "processes");
    assert_eq!(EMIT_INTERVAL_MS, 1000);
    assert_eq!(REFRESH_INTERVAL_MS, 200);
}
