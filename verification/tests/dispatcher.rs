use fleet_addon::controller::{
    clusters_for_mapping, Barrier, BarrierState, Flags, State, BARRIER_PARTIES, DISPATCH_CAPACITY,
};
use fleet_addon::api::capi_cluster::{
    Cluster, ClusterProxy, ClusterSpec, ClusterTopology, ClusterTopologyClassRef,
};
use fleet_addon::meta::{ObjectMeta, TypeMeta};
use fleet_addon::multi_dispatcher::{
    accepts, DynamicObject, MultiDispatcher, Recv, Store, WatchEvent,
};

fn object(namespace: Option<&str>, name: &str, data: &str) -> DynamicObject {
    DynamicObject {
        types: Some(TypeMeta { api_version: "v1".to_string(), kind: "Namespace".to_string() }),
        metadata: ObjectMeta::named(Some(name.to_string()), namespace.map(|n| n.to_string())),
        data: data.to_string(),
    }
}

#[test]
fn subscriber_before_an_event_sees_it_and_one_after_does_not() {
    let mut d: MultiDispatcher<u32> = MultiDispatcher::new(128);
    let mut s1 = d.subscribe();
    assert!(d.broadcast_event(7).is_ok());
    let mut s2 = d.subscribe();
    assert!(matches!(d.recv(&mut s1), Recv::Event(&7)));
    assert!(matches!(d.recv(&mut s1), Recv::Empty));
    assert!(matches!(d.recv(&mut s2), Recv::Empty));
    assert!(d.broadcast_event(8).is_ok());
    assert!(matches!(d.recv(&mut s2), Recv::Event(&8)));
    assert!(matches!(d.recv(&mut s1), Recv::Event(&8)));
    assert!(matches!(d.recv(&mut s2), Recv::Empty));
}

#[test]
fn events_arrive_in_the_order_of_publication() {
    let mut d: MultiDispatcher<u32> = MultiDispatcher::new(4);
    let mut s = d.subscribe();
    for e in [1, 2, 3] {
        assert!(d.broadcast_event(e).is_ok());
    }
    assert!(matches!(d.recv(&mut s), Recv::Event(&1)));
    assert!(matches!(d.recv(&mut s), Recv::Event(&2)));
    assert!(matches!(d.recv(&mut s), Recv::Event(&3)));
    assert!(matches!(d.recv(&mut s), Recv::Empty));
    assert_eq!(s.cursor, 3);
}

#[test]
fn lagging_subscriber_skips_and_is_told_how_many() {
    let mut d: MultiDispatcher<u32> = MultiDispatcher::new(2);
    let mut s = d.subscribe();
    for e in [1, 2, 3, 4, 5] {
        assert!(d.broadcast_event(e).is_ok());
    }
    assert!(matches!(d.recv(&mut s), Recv::Lagged(3)));
    assert!(matches!(d.recv(&mut s), Recv::Event(&4)));
    assert!(matches!(d.recv(&mut s), Recv::Event(&5)));
    assert!(matches!(d.recv(&mut s), Recv::Empty));
}

#[test]
fn subscriber_at_exact_capacity_misses_nothing() {
    let mut d: MultiDispatcher<u32> = MultiDispatcher::new(2);
    let mut s = d.subscribe();
    assert!(d.broadcast_event(1).is_ok());
    assert!(d.broadcast_event(2).is_ok());
    assert!(matches!(d.recv(&mut s), Recv::Event(&1)));
    assert!(matches!(d.recv(&mut s), Recv::Event(&2)));
}

#[test]
fn capacity_of_zero_retains_one_event() {
    let mut d: MultiDispatcher<u32> = MultiDispatcher::new(0);
    let mut s = d.subscribe();
    assert!(d.broadcast_event(1).is_ok());
    assert!(matches!(d.recv(&mut s), Recv::Event(&1)));
    assert!(d.broadcast_event(2).is_ok());
    assert!(d.broadcast_event(3).is_ok());
    assert!(matches!(d.recv(&mut s), Recv::Lagged(1)));
    assert!(matches!(d.recv(&mut s), Recv::Event(&3)));
}

#[test]
fn cache_holds_the_last_seen_state() {
    let mut store = Store::new();
    store.apply_watcher_event(&WatchEvent::Apply(object(Some("ns"), "a", "1")));
    store.apply_watcher_event(&WatchEvent::Apply(object(Some("ns"), "b", "1")));
    store.apply_watcher_event(&WatchEvent::Apply(object(Some("ns"), "a", "2")));
    assert_eq!(store.len(), 2);
    assert_eq!(store.get(&object(Some("ns"), "a", "")).unwrap().data, "2");
    assert_eq!(store.get(&object(Some("ns"), "b", "")).unwrap().data, "1");
    assert!(store.get(&object(Some("other"), "a", "")).is_none());
    assert!(store.get(&object(None, "a", "")).is_none());
    assert_eq!(store.object(0).metadata.name.as_deref(), Some("a"));
}

#[test]
fn cache_drops_a_deleted_object() {
    let mut store = Store::new();
    store.apply_watcher_event(&WatchEvent::Apply(object(Some("ns"), "a", "1")));
    store.apply_watcher_event(&WatchEvent::Apply(object(Some("ns"), "b", "1")));
    store.apply_watcher_event(&WatchEvent::Delete(object(Some("ns"), "a", "ignored")));
    assert_eq!(store.len(), 1);
    assert!(store.get(&object(Some("ns"), "a", "")).is_none());
    store.apply_watcher_event(&WatchEvent::Delete(object(Some("ns"), "zz", "")));
    assert_eq!(store.len(), 1);
}

#[test]
fn relist_replaces_the_cache_when_it_is_complete() {
    let mut store = Store::new();
    store.apply_watcher_event(&WatchEvent::Apply(object(Some("ns"), "gone", "1")));
    store.apply_watcher_event(&WatchEvent::Init);
    store.apply_watcher_event(&WatchEvent::InitApply(object(Some("ns"), "a", "1")));
    store.apply_watcher_event(&WatchEvent::InitApply(object(Some("ns"), "a", "2")));
    assert_eq!(store.len(), 1);
    assert!(store.get(&object(Some("ns"), "gone", "")).is_some());
    store.apply_watcher_event(&WatchEvent::InitDone);
    assert_eq!(store.len(), 1);
    assert!(store.get(&object(Some("ns"), "gone", "")).is_none());
    assert_eq!(store.get(&object(Some("ns"), "a", "")).unwrap().data, "2");
    store.apply_watcher_event(&WatchEvent::Init);
    store.apply_watcher_event(&WatchEvent::InitDone);
    assert_eq!(store.len(), 0);
}

#[test]
fn subscriber_takes_only_objects_of_its_kind() {
    let namespaces = TypeMeta { api_version: "v1".to_string(), kind: "Namespace".to_string() };
    let clusters = Cluster::type_meta();
    let ev = WatchEvent::Apply(object(None, "n", ""));
    assert!(accepts(&namespaces, &ev));
    assert!(!accepts(&clusters, &ev));
    assert!(accepts(&clusters, &WatchEvent::Init));
    assert!(accepts(&clusters, &WatchEvent::InitDone));
    let mut untyped = object(None, "n", "");
    untyped.types = None;
    assert!(!accepts(&namespaces, &WatchEvent::Delete(untyped)));
}

#[test]
fn barrier_releases_when_all_parties_have_arrived() {
    let mut b = Barrier::new(3);
    assert_eq!(b.state(), BarrierState::Waiting);
    assert_eq!(b.arrive(), BarrierState::Waiting);
    assert_eq!(b.arrive(), BarrierState::Waiting);
    assert_eq!(b.arrive(), BarrierState::Released);
    assert_eq!(b.arrive(), BarrierState::Released);
    assert_eq!(b.fail(), BarrierState::Released);
}

#[test]
fn barrier_aborts_when_a_party_fails_before_all_arrived() {
    let mut b = Barrier::new(3);
    assert_eq!(b.arrive(), BarrierState::Waiting);
    assert_eq!(b.fail(), BarrierState::Aborted);
    assert_eq!(b.arrive(), BarrierState::Aborted);
    assert_eq!(b.arrive(), BarrierState::Aborted);
    assert_eq!(b.state(), BarrierState::Aborted);
}

#[test]
fn barrier_without_parties_is_released_at_once() {
    let b = Barrier::new(0);
    assert_eq!(b.state(), BarrierState::Released);
}

#[test]
fn state_is_built_with_the_fixed_sizes() {
    assert_eq!(DISPATCH_CAPACITY, 128);
    assert_eq!(BARRIER_PARTIES, 3);
    let mut s = State::new(31, Flags { helm_install: true });
    assert_eq!(s.version, 31);
    assert!(s.flags.helm_install);
    assert_eq!(s.stream.len(), 0);
    assert_eq!(s.barrier.state(), BarrierState::Waiting);
    s.barrier.arrive();
    s.barrier.arrive();
    assert_eq!(s.barrier.arrive(), BarrierState::Released);
    let mut sub = s.dispatcher.subscribe();
    assert_eq!(sub.cursor, 0);
    for _ in 0..129 {
        assert!(s.dispatcher.broadcast_event(WatchEvent::Init).is_ok());
    }
    assert!(matches!(s.dispatcher.recv(&mut sub), Recv::Lagged(1)));
    assert!(!Flags::default().helm_install);
}

fn capi(name: &str, class_namespace: Option<&str>, topology: bool) -> Cluster {
    Cluster {
        metadata: ObjectMeta::named(Some(name.to_string()), Some("ns".to_string())),
        spec: ClusterProxy {
            proxy: ClusterSpec {
                topology: if topology {
                    Some(ClusterTopology {
                        class_ref: ClusterTopologyClassRef {
                            name: "class".to_string(),
                            namespace: class_namespace.map(|n| n.to_string()),
                        },
                    })
                } else {
                    None
                },
                control_plane_ref: None,
                infrastructure_ref: None,
            },
        },
        status: None,
    }
}

#[test]
fn mapping_change_requeues_the_clusters_of_its_namespace() {
    let clusters = vec![
        capi("a", Some("classes"), true),
        capi("b", Some("other"), true),
        capi("c", Some("classes"), true),
        capi("d", None, false),
        capi("e", None, true),
    ];
    assert_eq!(clusters_for_mapping(&clusters, &Some("classes".to_string())), vec![0, 2]);
    assert_eq!(clusters_for_mapping(&clusters, &Some("nobody".to_string())), Vec::<usize>::new());
    assert_eq!(clusters_for_mapping(&clusters, &None), vec![4]);
}
