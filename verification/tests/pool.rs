use load_balancer::dispatch::{dispatch, Accepted, Dispatch};
use load_balancer::pool::{BackendPool, ConfigError};

fn addresses(count: usize) -> Vec<String> {
    let mut list = Vec::new();
    for i in 0..count {
        list.push(format!("127.0.0.1:{}", 8081 + i));
    }
    list
}

#[test]
fn empty_list_is_refused() {
    let made = BackendPool::new(Vec::new());
    assert!(matches!(made, Err(ConfigError::NoBackends)));
}

#[test]
fn non_empty_list_is_accepted() {
    let made = BackendPool::new(addresses(2));
    assert_eq!(made.ok().map(|pool| pool.len()), Some(2));
}

#[test]
fn two_backends_three_connections() {
    let a = "127.0.0.1:8081".to_string();
    let b = "127.0.0.1:8082".to_string();
    let mut pool = BackendPool::new(vec![a.clone(), b.clone()]).unwrap();
    let routed = vec![
        pool.get_next_backend().clone(),
        pool.get_next_backend().clone(),
        pool.get_next_backend().clone(),
    ];
    assert_eq!(routed, vec![a.clone(), b, a]);
}

#[test]
fn nth_connection_gets_backend_n_minus_one_mod_k() {
    for k in 1..6usize {
        let list = addresses(k);
        let mut pool = BackendPool::new(list.clone()).unwrap();
        for i in 1..=23usize {
            assert_eq!(pool.get_next_backend(), &list[(i - 1) % k]);
        }
    }
}

#[test]
fn single_backend_serves_every_connection() {
    let mut pool = BackendPool::new(vec!["10.0.0.1:80".to_string()]).unwrap();
    for _ in 0..5 {
        assert_eq!(pool.get_next_backend(), "10.0.0.1:80");
    }
    assert_eq!(pool.len(), 1);
}

#[test]
fn rotation_wraps_after_the_last_backend() {
    let list = addresses(3);
    let mut pool = BackendPool::new(list.clone()).unwrap();
    assert_eq!(pool.get_next_backend(), &list[0]);
    assert_eq!(pool.get_next_backend(), &list[1]);
    assert_eq!(pool.get_next_backend(), &list[2]);
    assert_eq!(pool.get_next_backend(), &list[0]);
}

#[test]
fn dispatch_spawns_in_arrival_order() {
    let list = addresses(2);
    let mut pool = BackendPool::new(list.clone()).unwrap();
    assert_eq!(dispatch(&mut pool, Accepted::Connection), Dispatch::Spawn(list[0].clone()));
    assert_eq!(dispatch(&mut pool, Accepted::Connection), Dispatch::Spawn(list[1].clone()));
    assert_eq!(dispatch(&mut pool, Accepted::Connection), Dispatch::Spawn(list[0].clone()));
}

#[test]
fn failed_accept_is_reported_and_keeps_the_rotation() {
    let list = addresses(3);
    let mut pool = BackendPool::new(list.clone()).unwrap();
    assert_eq!(dispatch(&mut pool, Accepted::Connection), Dispatch::Spawn(list[0].clone()));
    assert_eq!(dispatch(&mut pool, Accepted::Failure), Dispatch::Report);
    assert_eq!(dispatch(&mut pool, Accepted::Failure), Dispatch::Report);
    assert_eq!(dispatch(&mut pool, Accepted::Connection), Dispatch::Spawn(list[1].clone()));
    assert_eq!(pool.get_next_backend(), &list[2]);
}
