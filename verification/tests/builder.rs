use dirtio::runtime::park::ParkState;
use dirtio::runtime::Builder;

#[test]
fn default_is_one_worker_per_cpu() {
    let b = Builder::new();
    assert_eq!(b.threads(Some(8)), 8);
    assert_eq!(b.threads(Some(1)), 1);
}

#[test]
fn default_without_detection_is_one_worker() {
    let b = Builder::new();
    assert_eq!(b.threads(None), 1);
    assert_eq!(Builder::default().threads(None), 1);
}

#[test]
fn configured_number_wins() {
    let mut b = Builder::new();
    b.worker_threads(3);
    assert_eq!(b.threads(Some(8)), 3);
    assert_eq!(b.threads(None), 3);
    b.worker_threads(5).worker_threads(2);
    assert_eq!(b.threads(Some(8)), 2);
}

#[test]
fn zero_workers_counts_as_one() {
    let mut b = Builder::new();
    b.worker_threads(0);
    assert_eq!(b.threads(Some(8)), 1);
    assert_eq!(b.threads(None), 1);
    assert_eq!(Builder::new().threads(Some(0)), 1);
    let (workers, handle, _) = b.build(Some(8)).into_parts();
    assert_eq!(workers.len(), 1);
    assert_eq!(handle.workers(), 1);
}

#[test]
fn build_creates_idle_pool_and_empty_driver() {
    let mut b = Builder::new();
    let (workers, mut handle, driver) = b.worker_threads(3).build(Some(16)).into_parts();
    assert_eq!(workers.len(), 3);
    assert_eq!(handle.workers(), 3);
    for (i, w) in workers.iter().enumerate() {
        assert_eq!(w.index(), i);
        assert_eq!(handle.parker(i), Some(ParkState::Empty));
    }
    assert_eq!(driver.channel(0), None);
    // No task waits and no worker asked to be unparked.
    assert_eq!(handle.schedule(1), None);
}

#[test]
fn build_can_be_repeated() {
    let mut b = Builder::new();
    b.worker_threads(2);
    let (first, _, _) = b.build(None).into_parts();
    let (second, _, _) = b.build(Some(4)).into_parts();
    assert_eq!(first.len(), 2);
    assert_eq!(second.len(), 2);
}
