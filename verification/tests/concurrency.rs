use cashier::memory::MemoryCashier;

#[test]
fn concurrent_distinct_key_sets_lose_nothing() {
    let rt = tokio::runtime::Builder::new_multi_thread().worker_threads(4).build().unwrap();
    let cache = MemoryCashier::new();
    rt.block_on(async {
        let mut tasks = Vec::new();
        for i in 0..16u32 {
            let handle = cache.clone();
            tasks.push(tokio::spawn(async move {
                let key = format!("key-{}", i);
                let value = format!("value-{}", i);
                handle.set(&key, &value).unwrap();
            }));
        }
        for t in tasks {
            t.await.unwrap();
        }
    });
    for i in 0..16u32 {
        let key = format!("key-{}", i);
        assert_eq!(cache.get(&key).unwrap().unwrap(), format!("value-{}", i));
    }
}

#[test]
fn concurrent_readers_and_writers_agree_per_key() {
    let rt = tokio::runtime::Builder::new_multi_thread().worker_threads(4).build().unwrap();
    let cache = MemoryCashier::new();
    cache.set("stable", "fixed").unwrap();
    rt.block_on(async {
        let mut tasks = Vec::new();
        for i in 0..8u32 {
            let handle = cache.clone();
            tasks.push(tokio::spawn(async move {
                let key = format!("key-{}", i);
                handle.set(&key, "value").unwrap();
                assert_eq!(handle.get("stable").unwrap().unwrap(), "fixed");
            }));
        }
        for t in tasks {
            t.await.unwrap();
        }
    });
    assert_eq!(cache.get("stable").unwrap().unwrap(), "fixed");
}
