use rpcedge_relay::routes::{RelayRoute, RouteSet, RouteSetMode};

#[test]
fn route_set_resolves_modes() {
    let defaults = [RelayRoute::TpuQuic, RelayRoute::TpuUdp];

    assert_eq!(RouteSet::server_default().resolve(&defaults), defaults);
    assert_eq!(
        RouteSet::only(vec![RelayRoute::JitoBundle]).resolve(&defaults),
        [RelayRoute::JitoBundle]
    );
    assert_eq!(
        RouteSet::default_plus(vec![RelayRoute::JitoBundle]).resolve(&defaults),
        [
            RelayRoute::TpuQuic,
            RelayRoute::TpuUdp,
            RelayRoute::JitoBundle
        ]
    );
    assert_eq!(
        RouteSet::default_minus(vec![RelayRoute::TpuUdp]).resolve(&defaults),
        [RelayRoute::TpuQuic]
    );
}

#[test]
fn the_default_set_is_the_servers_choice() {
    let set = RouteSet::default();
    assert_eq!(set, RouteSet::server_default());
    assert_eq!(set.mode, RouteSetMode::ServerDefault);
    assert!(set.routes.is_empty());
    assert_eq!(set.clone(), set);
}

#[test]
fn asking_twice_for_a_route_adds_it_once() {
    let asked = vec![
        RelayRoute::JitoBundle,
        RelayRoute::TpuUdp,
        RelayRoute::JitoBundle,
        RelayRoute::RpcFallback,
    ];
    let defaults = [RelayRoute::TpuUdp, RelayRoute::TpuQuic];
    assert_eq!(
        RouteSet::only(asked.clone()).resolve(&defaults),
        [
            RelayRoute::JitoBundle,
            RelayRoute::TpuUdp,
            RelayRoute::RpcFallback
        ]
    );
    assert_eq!(
        RouteSet::default_plus(asked).resolve(&defaults),
        [
            RelayRoute::TpuUdp,
            RelayRoute::TpuQuic,
            RelayRoute::JitoBundle,
            RelayRoute::RpcFallback
        ]
    );
}

#[test]
fn repeated_defaults_are_kept_as_they_are() {
    let defaults = [
        RelayRoute::TpuQuic,
        RelayRoute::HarmonicBundle,
        RelayRoute::TpuQuic,
    ];
    assert_eq!(RouteSet::server_default().resolve(&defaults), defaults);
    assert_eq!(
        RouteSet::default_plus(vec![RelayRoute::TpuQuic]).resolve(&defaults),
        defaults
    );
    assert_eq!(
        RouteSet::default_minus(vec![RelayRoute::HarmonicBundle]).resolve(&defaults),
        [RelayRoute::TpuQuic, RelayRoute::TpuQuic]
    );
    assert!(RouteSet::default_minus(defaults.to_vec())
        .resolve(&defaults)
        .is_empty());
}

#[test]
fn only_does_not_look_at_the_defaults() {
    let set = RouteSet::only(vec![RelayRoute::HeliusSenderSwqos]);
    assert_eq!(set.resolve(&[]), set.resolve(&[RelayRoute::TpuUdp]));
    assert!(RouteSet::only(vec![])
        .resolve(&[RelayRoute::TpuUdp])
        .is_empty());
}

#[test]
fn two_routes_go_through_jito() {
    let jito: Vec<RelayRoute> = [
        RelayRoute::TpuQuic,
        RelayRoute::TpuUdp,
        RelayRoute::HarmonicBundle,
        RelayRoute::HeliusSenderSwqos,
        RelayRoute::RpcFallback,
        RelayRoute::JitoTransaction,
        RelayRoute::JitoBundle,
    ]
    .into_iter()
    .filter(|route| route.is_jito())
    .collect();
    assert_eq!(jito, [RelayRoute::JitoTransaction, RelayRoute::JitoBundle]);
}

#[test]
fn routes_come_in_the_order_of_their_first_occurrence() {
    let set = RouteSet::default_plus(vec![
        RelayRoute::RpcFallback,
        RelayRoute::JitoBundle,
        RelayRoute::TpuQuic,
        RelayRoute::JitoTransaction,
        RelayRoute::RpcFallback,
        RelayRoute::JitoBundle,
    ]);
    assert_eq!(
        set.resolve(&[RelayRoute::TpuQuic]),
        [
            RelayRoute::TpuQuic,
            RelayRoute::RpcFallback,
            RelayRoute::JitoBundle,
            RelayRoute::JitoTransaction
        ]
    );
}
