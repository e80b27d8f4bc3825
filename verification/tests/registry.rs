use bevy_fundsp::assets::DspAssets;
use bevy_fundsp::manager::DspManager;
use bevy_fundsp::{FnDspGraph, GraphIdentity};
use fundsp::hacker32::dc;
use fundsp::net::Net32;

struct Dc05;

impl FnDspGraph for Dc05 {
    fn generate_graph(&self) -> Net32 {
        Net32::wrap(Box::new(dc(0.5)))
    }
}

#[test]
fn identities_distinct() {
    assert_ne!(GraphIdentity::new(1), GraphIdentity::new(2));
    assert_eq!(GraphIdentity::new(7), GraphIdentity::new(7));
}

#[test]
fn get_absent_yields_none() {
    let m = DspManager::default();
    assert_eq!(m.sample_rate(), 44100);
    assert!(m.get_graph(GraphIdentity::new(1)).is_none());
}

#[test]
fn second_add_wins() {
    let mut m = DspManager::default();
    let id = GraphIdentity::new(1);
    m.add_graph(id, Box::new(Dc05), 3);
    m.add_graph(id, Box::new(Dc05), 5);
    let src = m.get_graph(id).unwrap();
    assert_eq!(src.duration_secs(), 5);
}

#[test]
fn remove_then_get_absent() {
    let mut m = DspManager::default();
    let id = GraphIdentity::new(9);
    m.add_graph(id, Box::new(Dc05), 1);
    m.remove_graph(id);
    assert!(m.get_graph(id).is_none());
    m.remove_graph(GraphIdentity::new(1234));
    assert!(m.get_graph(GraphIdentity::new(1234)).is_none());
}

#[test]
fn lookup_distinguishes_identities() {
    let mut m = DspManager::default();
    m.add_graph(GraphIdentity::new(1), Box::new(Dc05), 1);
    m.add_graph(GraphIdentity::new(2), Box::new(Dc05), 4);
    assert_eq!(m.get_graph(GraphIdentity::new(1)).unwrap().duration_secs(), 1);
    assert_eq!(m.get_graph(GraphIdentity::new(2)).unwrap().duration_secs(), 4);
    assert!(m.get_graph(GraphIdentity::new(3)).is_none());
}

#[test]
fn assets_table_lookup() {
    let pairs = vec![(GraphIdentity::new(1), 10u64), (GraphIdentity::new(2), 20u64)];
    let table = DspAssets::new(pairs);
    assert_eq!(*table.graph(GraphIdentity::new(1)), 10);
    assert_eq!(*table.get_graph(GraphIdentity::new(2)).unwrap(), 20);
    assert!(table.get_graph(GraphIdentity::new(3)).is_none());
}
