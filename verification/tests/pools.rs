use vector_field::pool::{resize_pool, respawn_where};

#[test]
fn grow_pool_keeps_existing_and_spawns_rest() {
    let mut pool = vec![1, 2, 3];
    resize_pool(&mut pool, 6, &|| 0);
    assert_eq!(pool, vec![1, 2, 3, 0, 0, 0]);
}

#[test]
fn shrink_pool_keeps_prefix() {
    let mut pool = vec![1, 2, 3, 4, 5];
    resize_pool(&mut pool, 2, &|| 0);
    assert_eq!(pool, vec![1, 2]);
}

#[test]
fn resize_to_same_count_changes_nothing() {
    let mut pool = vec![4, 5, 6];
    resize_pool(&mut pool, 3, &|| 0);
    assert_eq!(pool, vec![4, 5, 6]);
}

#[test]
fn fresh_pool_of_default_count() {
    let mut pool: Vec<u8> = Vec::new();
    resize_pool(&mut pool, 4000, &|| 9);
    assert_eq!(pool.len(), 4000);
    assert!(pool.iter().all(|&p| p == 9));
}

#[test]
fn respawn_replaces_only_flagged() {
    let mut pool = vec![1, -2, 3, -4];
    respawn_where(&mut pool, &|p: &i32| *p < 0, &|| 0);
    assert_eq!(pool, vec![1, 0, 3, 0]);
}

#[test]
fn respawn_everything() {
    let mut pool = vec![1, 2, 3];
    respawn_where(&mut pool, &|_: &i32| true, &|| 7);
    assert_eq!(pool, vec![7, 7, 7]);
}
