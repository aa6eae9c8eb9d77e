use gigadoram::speed_cache::SpeedCache;

#[test]
fn writes_fill_slots_in_order() {
    let mut cache: SpeedCache<u32, u64> = SpeedCache::new(4, 3, 8, 0);
    assert_eq!(cache.addrs, vec![8, 8, 8, 8]);
    assert!(cache.is_writeable());
    cache.skip(1);
    cache.write(vec![7, 5], vec![70, 50]);
    assert_eq!(cache.num_stored, 3);
    assert_eq!(cache.addrs, vec![8, 7, 5, 8]);
    assert_eq!(cache.data, vec![0, 70, 50, 0]);
    cache.write(vec![1], vec![10]);
    assert!(!cache.is_writeable());
    let (addrs, data) = cache.extract();
    assert_eq!(addrs, vec![8, 7, 5, 1]);
    assert_eq!(data, vec![0, 70, 50, 10]);
    cache.clear();
    assert_eq!(cache.num_stored, 0);
    assert!(cache.is_writeable());
}
