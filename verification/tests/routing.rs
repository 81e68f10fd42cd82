use imbolc::routing::{
    group_for_module, kind_of, mixer_bus_audio, plan_voice_chain, poly_chain, spawn_voice_chain, synth_def_name,
    topological_sort, ChainModule, Connection, ModuleType, VoiceCounters,
};
use imbolc::voices::{record_voice, release_voice, ChainTemplate, ReleasedVoice, VoiceChain, VoiceEntry, VoiceError};

fn link(src: u32, dst: u32) -> Connection {
    Connection { src, dst }
}

#[test]
fn sources_start_before_what_they_feed() {
    let r = topological_sort(&vec![3, 2, 1], &vec![link(1, 2), link(2, 3)]);
    assert_eq!(r, vec![1, 2, 3]);
}

#[test]
fn unlisted_sources_are_included() {
    let r = topological_sort(&vec![2], &vec![link(5, 2)]);
    assert_eq!(r, vec![5, 2]);
}

#[test]
fn cycles_are_skipped() {
    let r = topological_sort(&vec![1, 2], &vec![link(1, 2), link(2, 1)]);
    assert_eq!(r, vec![2, 1]);
    let r = topological_sort(&vec![1], &vec![link(1, 1)]);
    assert_eq!(r, vec![1]);
}

#[test]
fn each_module_once() {
    let r = topological_sort(&vec![1, 1, 4], &vec![link(4, 1), link(4, 1)]);
    assert_eq!(r, vec![4, 1]);
    assert_eq!(topological_sort(&Vec::new(), &vec![link(1, 2)]), Vec::<u32>::new());
}

#[test]
fn diamond_orders_both_branches_first() {
    // 1 feeds 2 and 3, which both feed 4.
    let conns = vec![link(1, 2), link(1, 3), link(2, 4), link(3, 4)];
    let r = topological_sort(&vec![4, 3, 2, 1], &conns);
    assert_eq!(r, vec![1, 2, 3, 4]);
}

#[test]
fn module_groups_and_synth_names() {
    assert_eq!(group_for_module(ModuleType::Midi), 100);
    assert_eq!(group_for_module(ModuleType::AdsrEnv), 100);
    assert_eq!(group_for_module(ModuleType::Reverb), 200);
    assert_eq!(group_for_module(ModuleType::Output), 300);
    assert_eq!(synth_def_name(ModuleType::SawOsc), "tuidaw_saw");
    assert_eq!(synth_def_name(ModuleType::AdsrEnv), "tuidaw_adsr");
    assert_eq!(synth_def_name(ModuleType::Output), "tuidaw_output");
    assert_eq!(mixer_bus_audio(1), 200);
    assert_eq!(mixer_bus_audio(3), 204);
}

fn rack() -> Vec<(u32, ModuleType)> {
    vec![
        (1, ModuleType::Midi),
        (2, ModuleType::SawOsc),
        (3, ModuleType::Lpf),
        (4, ModuleType::Output),
    ]
}

#[test]
fn poly_chain_walks_to_the_output() {
    let conns = vec![link(1, 2), link(2, 3), link(3, 4), link(2, 4)];
    let (chain, out) = poly_chain(1, &conns, &rack()).unwrap();
    assert_eq!(chain, vec![(2, ModuleType::SawOsc), (3, ModuleType::Lpf)]);
    assert_eq!(out, 4);
    assert_eq!(kind_of(&rack(), 3), Some(ModuleType::Lpf));
    assert_eq!(kind_of(&rack(), 9), None);
}

#[test]
fn poly_chain_without_an_output() {
    assert!(poly_chain(1, &vec![link(1, 2)], &rack()).is_none());
    assert!(poly_chain(1, &vec![link(1, 9)], &rack()).is_none());
    assert!(poly_chain(1, &vec![link(1, 2), link(2, 3), link(3, 2)], &rack()).is_none());
}

#[test]
fn voice_chain_takes_fresh_ids_and_wires_the_chain() {
    let mut c = VoiceCounters { next_group_id: 1000, next_node_id: 2000, next_control_bus: 500, next_audio_bus: 64 };
    let chain = vec![
        ChainModule { id: 2, module_type: ModuleType::SawOsc, audio_in: false, audio_out: true },
        ChainModule { id: 3, module_type: ModuleType::Lpf, audio_in: true, audio_out: true },
    ];
    let p = plan_voice_chain(&mut c, &chain, 20);
    assert_eq!(p.group_id, 1000);
    assert_eq!(p.midi_node, 2000);
    assert_eq!((p.freq_bus, p.gate_bus, p.vel_bus), (500, 501, 502));
    assert_eq!(p.module_nodes, vec![2001, 2002]);
    assert_eq!(p.audio_ins, vec![None, Some(64)]);
    assert_eq!(p.audio_outs, vec![Some(64), Some(20)]);
    assert_eq!(c, VoiceCounters { next_group_id: 1001, next_node_id: 2003, next_control_bus: 503, next_audio_bus: 68 });
    let q = plan_voice_chain(&mut c, &chain, 20);
    assert_eq!(q.group_id, 1001);
    assert_eq!(q.module_nodes, vec![2004, 2005]);
    assert_eq!(q.audio_outs, vec![Some(68), Some(20)]);
}

fn template() -> ChainTemplate<ChainModule> {
    ChainTemplate {
        modules: vec![
            (2, ChainModule { id: 2, module_type: ModuleType::SawOsc, audio_in: false, audio_out: true }),
            (3, ChainModule { id: 3, module_type: ModuleType::Lpf, audio_in: true, audio_out: true }),
        ],
        output_audio_bus: 20,
    }
}

#[test]
fn spawning_a_voice_chain_steals_the_oldest_at_the_limit() {
    let t = template();
    let mut c = VoiceCounters { next_group_id: 1000, next_node_id: 2000, next_control_bus: 500, next_audio_bus: 64 };
    let mut chains: Vec<VoiceChain> = Vec::new();
    assert_eq!(spawn_voice_chain(&mut chains, &mut c, false, 1, 60, Some(&t)).err(), Some(VoiceError::NotConnected));
    assert_eq!(spawn_voice_chain(&mut chains, &mut c, true, 1, 60, None).err(), Some(VoiceError::NoTemplate(1)));
    assert!(chains.is_empty());
    assert_eq!(c.next_group_id, 1000);
    let s = spawn_voice_chain(&mut chains, &mut c, true, 1, 60, Some(&t)).ok().unwrap();
    assert!(s.stolen.is_none());
    assert!(chains.is_empty());
    assert_eq!(s.plan.module_nodes, vec![2001, 2002]);
    assert_eq!(s.plan.audio_outs, vec![Some(64), Some(20)]);
    assert_eq!(s.voice, VoiceChain { midi_module_id: 1, pitch: 60, group_id: 1000, midi_node_id: 2000 });
    assert_eq!(c, VoiceCounters { next_group_id: 1001, next_node_id: 2003, next_control_bus: 503, next_audio_bus: 68 });
    record_voice(&mut chains, s.voice);
    for p in 61..76u8 {
        let s = spawn_voice_chain(&mut chains, &mut c, true, 1, p, Some(&t)).ok().unwrap();
        record_voice(&mut chains, s.voice);
    }
    assert_eq!(chains.len(), 16);
    let s = spawn_voice_chain(&mut chains, &mut c, true, 1, 90, Some(&t)).ok().unwrap();
    assert_eq!(s.stolen, Some(VoiceChain { midi_module_id: 1, pitch: 60, group_id: 1000, midi_node_id: 2000 }));
    assert_eq!(chains.len(), 15);
    assert_eq!(chains[0].pitch, 61);
    record_voice(&mut chains, s.voice);
    assert_eq!(chains.len(), 16);
    assert_eq!(chains[15].pitch, 90);
}

#[test]
fn releasing_a_note_prefers_the_chain_then_the_mono_voice() {
    let mut chains = vec![
        VoiceChain { midi_module_id: 1, pitch: 60, group_id: 10, midi_node_id: 20 },
        VoiceChain { midi_module_id: 1, pitch: 60, group_id: 11, midi_node_id: 21 },
    ];
    let mut mono = vec![VoiceEntry { module_id: 1, pitch: 60, node_id: 30 }, VoiceEntry { module_id: 2, pitch: 62, node_id: 31 }];
    assert_eq!(release_voice(&mut chains, &mut mono, false, 1, 60), Err(VoiceError::NotConnected));
    assert_eq!(chains.len(), 2);
    assert_eq!(
        release_voice(&mut chains, &mut mono, true, 1, 60),
        Ok(ReleasedVoice::Chain(VoiceChain { midi_module_id: 1, pitch: 60, group_id: 10, midi_node_id: 20 }))
    );
    assert_eq!(chains, vec![VoiceChain { midi_module_id: 1, pitch: 60, group_id: 11, midi_node_id: 21 }]);
    assert_eq!(mono.len(), 2);
    assert_eq!(
        release_voice(&mut chains, &mut mono, true, 2, 62),
        Ok(ReleasedVoice::Mono(VoiceEntry { module_id: 2, pitch: 62, node_id: 31 }))
    );
    assert_eq!(release_voice(&mut chains, &mut mono, true, 2, 62), Ok(ReleasedVoice::Silent));
    assert_eq!(mono, vec![VoiceEntry { module_id: 1, pitch: 60, node_id: 30 }]);
}
