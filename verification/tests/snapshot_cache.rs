use std::cell::Cell;
use std::sync::atomic::{AtomicUsize, Ordering};
use std::sync::{Arc, Mutex};

use sysprobe::cache::{CacheSlot, SnapshotCache};
use sysprobe::snapshot::Snapshot;
use sysprobe::types::CoreError;
use sysprobe::utils::disks::{Disk, DiskKind, DisksInfo};
use sysprobe::utils::gpu::opengl::OpenGLInfo;

fn disks() -> DisksInfo {
    DisksInfo::get(vec![Disk {
        name: "nvme0n1".to_string(),
        file_system: "ext4".to_string(),
        mount_point: "/".to_string(),
        total_space: 512,
        available_space: 128,
        kind: DiskKind::SSD,
    }])
}

fn opengl() -> OpenGLInfo {
    OpenGLInfo {
        vendor: "Mesa".to_string(),
        renderer: "llvmpipe".to_string(),
        version: "4.5".to_string(),
        free_video_mem: Some(1024),
    }
}

#[test]
fn two_calls_return_equal_snapshots() {
    let mut slot: CacheSlot<DisksInfo> = CacheSlot::new();
    assert!(!slot.is_filled());
    let first = slot.get_or_compute(disks);
    let second = slot.get_or_compute(disks);
    assert_eq!(first, second);
    assert!(slot.is_filled());
    assert_eq!(slot.peek(), Some(first));
}

#[test]
fn probe_runs_once_over_many_calls() {
    let runs = Cell::new(0usize);
    let mut slot: CacheSlot<DisksInfo> = CacheSlot::new();
    let first = slot.get_or_compute(|| {
        runs.set(runs.get() + 1);
        disks()
    });
    for _ in 0..60 {
        let next = slot.get_or_compute(|| {
            runs.set(runs.get() + 1);
            disks()
        });
        assert_eq!(next, first);
    }
    assert_eq!(runs.get(), 1);
}

#[test]
fn later_probe_with_other_answer_is_ignored() {
    let mut slot: CacheSlot<OpenGLInfo> = CacheSlot::new();
    let first = slot.get_or_compute(opengl);
    let second = slot.get_or_compute(|| OpenGLInfo {
        vendor: "other".to_string(),
        renderer: "other".to_string(),
        version: "other".to_string(),
        free_video_mem: None,
    });
    assert_eq!(second, first);
    assert_eq!(second.vendor, "Mesa");
}

#[test]
fn probe_runs_once_for_callers_that_share_a_locked_slot() {
    let runs = AtomicUsize::new(0);
    let slot: Arc<Mutex<CacheSlot<DisksInfo>>> = Arc::new(Mutex::new(CacheSlot::new()));
    let callers: Vec<Arc<Mutex<CacheSlot<DisksInfo>>>> =
        (0..64).map(|_| Arc::clone(&slot)).collect();
    let mut answers: Vec<DisksInfo> = Vec::new();
    for caller in &callers {
        let answer = caller.lock().unwrap().get_or_compute(|| {
            runs.fetch_add(1, Ordering::SeqCst);
            disks()
        });
        answers.push(answer);
    }
    assert_eq!(runs.load(Ordering::SeqCst), 1);
    assert_eq!(answers.len(), 64);
    for answer in &answers {
        assert_eq!(answer, &answers[0]);
    }
}

#[test]
fn failure_is_not_cached() {
    let runs = Cell::new(0usize);
    let mut slot: CacheSlot<OpenGLInfo> = CacheSlot::new();
    let first = slot.get_or_compute_checked(|| {
        runs.set(runs.get() + 1);
        Err(CoreError::OpenGLInfoError("no display".to_string()))
    });
    assert_eq!(first, Err(CoreError::OpenGLInfoError("no display".to_string())));
    assert!(!slot.is_filled());
    assert_eq!(slot.peek(), None);

    let second = slot.get_or_compute_checked(|| {
        runs.set(runs.get() + 1);
        Ok(opengl())
    });
    assert_eq!(second, Ok(opengl()));
    assert_eq!(runs.get(), 2);
    assert!(slot.is_filled());

    let third = slot.get_or_compute_checked(|| {
        runs.set(runs.get() + 1);
        Err(CoreError::OpenGLInfoError("late failure".to_string()))
    });
    assert_eq!(third, Ok(opengl()));
    assert_eq!(runs.get(), 2);
}

#[test]
fn repeated_failures_rerun_the_probe_each_time() {
    let runs = Cell::new(0usize);
    let mut slot: CacheSlot<OpenGLInfo> = CacheSlot::new();
    for attempt in 1..=5usize {
        let outcome = slot.get_or_compute_checked(|| {
            runs.set(runs.get() + 1);
            Err(CoreError::Error(format!("attempt {}", attempt)))
        });
        assert_eq!(outcome, Err(CoreError::Error(format!("attempt {}", attempt))));
        assert_eq!(runs.get(), attempt);
    }
}

#[test]
fn categories_are_independent() {
    let mut cache = SnapshotCache::new();
    assert!(!cache.disks.is_filled());
    assert!(!cache.opengl.is_filled());
    let first = cache.disks.get_or_compute(disks);
    assert!(cache.disks.is_filled());
    assert!(!cache.opengl.is_filled());
    assert!(!cache.cpu.is_filled());
    let gl = cache.opengl.get_or_compute_checked(|| Ok(opengl())).unwrap();
    assert_eq!(gl, opengl());
    assert_eq!(cache.disks.get_or_compute(disks), first);
}

#[test]
fn duplicate_says_the_same() {
    let info = disks();
    let copy = info.duplicate();
    assert_eq!(copy, info);
    let strings = vec!["a".to_string(), "b".to_string()];
    assert_eq!(strings.duplicate(), strings);
    assert_eq!(Some("x".to_string()).duplicate(), Some("x".to_string()));
    assert_eq!(None::<String>.duplicate(), None);
}
