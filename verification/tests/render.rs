use std::time::Duration;

use bevy_fundsp::assets::DspAssets;
use bevy_fundsp::dsp::{DspError, DspSource};
use bevy_fundsp::manager::DspManager;
use bevy_fundsp::wav::{decode_wav16, wave_frames};
use bevy_fundsp::{FnDspGraph, GraphIdentity};
use fundsp::hacker32::dc;
use fundsp::net::Net32;
use kira::sound::static_sound::StaticSoundSettings;

struct Dc05;

impl FnDspGraph for Dc05 {
    fn generate_graph(&self) -> Net32 {
        Net32::wrap(Box::new(dc(0.5)))
    }
}

struct NoOut;

impl FnDspGraph for NoOut {
    fn generate_graph(&self) -> Net32 {
        Net32::new(0, 0)
    }
}

#[test]
fn silence_renders_exact_frame_count() {
    let src = DspSource::new(Net32::wrap(Box::new(dc(0.0))), 2);
    let bytes = src.try_raw_bytes(44100).unwrap();
    let w = decode_wav16(&bytes).unwrap();
    assert_eq!(w.sample_rate, 44100);
    assert_eq!(w.channels, 1);
    assert_eq!(wave_frames(&w), 88200);
    assert!(w.samples.iter().all(|&s| s == 0));
}

#[test]
fn dc_value_is_quantized_to_16_bits() {
    let src = DspSource::new(Net32::wrap(Box::new(dc(0.5))), 1);
    let bytes = src.try_raw_bytes(8000).unwrap();
    let w = decode_wav16(&bytes).unwrap();
    assert_eq!(wave_frames(&w), 8000);
    assert_eq!(w.samples[100], 16384);
}

#[test]
fn unrenderable_graphs_report_errors() {
    let no_outputs = DspSource::new(Net32::new(0, 0), 1);
    assert!(matches!(no_outputs.try_raw_bytes(44100), Err(DspError::NoOutputs)));
    let has_inputs = DspSource::new(Net32::new(2, 2), 1);
    assert!(matches!(has_inputs.try_raw_bytes(44100), Err(DspError::GraphHasInputs)));
    let zero_rate = DspSource::new(Net32::wrap(Box::new(dc(0.1))), 1);
    assert!(matches!(zero_rate.try_raw_bytes(0), Err(DspError::UnsupportedSampleRate)));
    let too_long = DspSource::new(Net32::wrap(Box::new(dc(0.1))), 4000);
    assert!(matches!(too_long.try_raw_bytes(44100), Err(DspError::TooLarge)));
}

#[test]
fn bulk_render_two_second_dc() {
    let mut m = DspManager::default();
    let id = GraphIdentity::new(1);
    m.add_graph(id, Box::new(Dc05), 2);
    let sounds = m.add_assets().unwrap();
    assert_eq!(sounds.len(), 1);
    assert_eq!(sounds[0].0, id);
    assert_eq!(sounds[0].1.duration(), Duration::from_secs(2));
    let table = DspAssets::new(sounds);
    assert!(table.get_graph(id).is_some());
    assert!(table.get_graph(GraphIdentity::new(2)).is_none());
}

#[test]
fn bulk_render_covers_every_entry() {
    let mut m = DspManager::default();
    m.add_graph(GraphIdentity::new(1), Box::new(Dc05), 1);
    m.add_graph(GraphIdentity::new(2), Box::new(Dc05), 1);
    m.add_graph(GraphIdentity::new(3), Box::new(Dc05), 2);
    let sounds = m.add_assets().unwrap();
    assert_eq!(sounds.len(), 3);
    let table = DspAssets::new(sounds);
    for tag in 1..=3u64 {
        assert!(table.get_graph(GraphIdentity::new(tag)).is_some());
    }
    assert!(table.get_graph(GraphIdentity::new(4)).is_none());
}

#[test]
fn into_kira_sound_data_reports_rate_and_frames() {
    let src = DspSource::new(Net32::wrap(Box::new(dc(0.25))), 1);
    let sound = src.into_kira_sound_data(44100, StaticSoundSettings::default()).unwrap();
    assert_eq!(sound.sample_rate, 44100);
    assert_eq!(sound.frames.len(), 44100);
}

#[test]
fn failing_entry_aborts_bulk_render() {
    let mut m = DspManager::default();
    let id = GraphIdentity::new(5);
    m.add_graph(id, Box::new(NoOut), 1);
    let err = match m.add_assets() {
        Ok(_) => panic!("a graph without outputs must not render"),
        Err(e) => e,
    };
    assert_eq!(err.0, id);
    assert!(matches!(err.1, DspError::NoOutputs));
}
