use std::sync::{mpsc, Arc};
use futures_executor::ThreadPool;
use futures_util::task::SpawnExt;
use futures_global_spawner::binding::Binding;
use futures_global_spawner::slot::Slot;

fn submit_value(worker: &Slot<ThreadPool>, value: u32) -> mpsc::Receiver<u32> {
    let (tx, rx) = mpsc::channel::<u32>();
    let b = Binding::capture(worker).unwrap();
    b.capability()
        .spawn(async move {
            let mut here: Slot<ThreadPool> = Slot::new();
            b.reinstall(&mut here);
            tx.send(value).unwrap();
        })
        .unwrap();
    rx
}

#[test]
fn two_workers_sum_nested_results() {
    for _ in 0..5 {
        let pool = ThreadPool::builder().pool_size(2).create().unwrap();
        let mut slot: Slot<ThreadPool> = Slot::new();
        slot.install(Arc::new(pool));
        let b = Binding::capture(&slot).unwrap();
        let (tx, rx) = mpsc::channel::<u32>();
        b.capability()
            .spawn(async move {
                let mut worker: Slot<ThreadPool> = Slot::new();
                b.reinstall(&mut worker);
                let a = submit_value(&worker, 5);
                let c = submit_value(&worker, 6);
                let sum = a.recv().unwrap() + c.recv().unwrap();
                tx.send(sum).unwrap();
            })
            .unwrap();
        assert_eq!(rx.recv().unwrap(), 11);
    }
}
