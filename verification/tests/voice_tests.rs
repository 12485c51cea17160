use gsteng::voice::advanced_tts::LRUCache;
use gsteng::voice::realtime_processing::{
    default_optimization_strategies, AsyncSynthesizer, AudioCachePolicies, AudioStreaming, BufferConfiguration,
    CacheStrategy, ChunkProcessor, ConnectionManagement, InvalidationPolicy, LatencyTargets, OptimizationStrategy,
    OverlapHandling, PreloadStrategy, ReconnectionStrategy, SecurityConfiguration, TuningSchedule, UpdateFrequency,
    UpdateSchedule, WorkloadContext,
};
use gsteng::voice::speech_patterns::{
    create_movie_speech_processor, get_tars_timing_patterns, process_tars_speech, EmphasisDetector, EmphasisStrength,
    EmphasisType, F0Transition, GeneratedTiming, IntonationPatternDB, MovieAccurateSpeechProcessor, PhraseAnalyzer,
    ProsodyEngine, RhythmGenerator, ServoSoundGenerator, ServoSynthMethod, TimingEngine, TimingEvent,
    TimingEventType,
};
use gsteng::voice::speech_recognition::{
    get_recognition_stats, interpret_transcript, transcribe, AudioProcessor, CommandType, RecognitionResult,
    SpeechRecognitionEngine, WakeWordDetector,
};
use gsteng::voice::voice_cloning::{
    DataOrganization, DataPreprocessing, DataQualityAssurance, ModelDeploymentManager, UserEmotionControl,
};
use gsteng::voice::tars_voice_profile::{analyze_text_for_emotion, get_famous_quotes, mood_for_lowered, EmotionConfig};
use gsteng::voice::text_to_speech::{
    apply_tars_personality_processing, AudioFormat, Emotion, EmotionalState, SpeechContext, SpeechPriority, SpeechQueue,
    SpeechRequest, TTSEngine, TextToSpeechEngine, VoiceProfile,
};

#[test]
fn test_lru_cache() {
    let mut cache = LRUCache::new(2);
    cache.put("key1", "value1");
    cache.put("key2", "value2");
    cache.put("key3", "value3");

    assert!(cache.get(&"key1").is_none());
    assert!(cache.get(&"key2").is_some());
    assert!(cache.get(&"key3").is_some());
}

#[test]
fn lru_cache_read_refreshes_an_entry() {
    let mut cache = LRUCache::new(2);
    cache.put(1u32, 10u32);
    cache.put(2, 20);
    assert_eq!(cache.get(&1), Some(&10));
    cache.put(3, 30);
    assert_eq!(cache.get(&2), None);
    assert_eq!(cache.get(&1), Some(&10));
    assert_eq!(cache.get(&3), Some(&30));
    cache.put(1, 11);
    assert_eq!(cache.get(&1), Some(&11));
}

#[test]
fn test_speech_queue() {
    let mut queue: SpeechQueue<String> = SpeechQueue::new();
    queue.clear();
    assert!(queue.enqueue(SpeechPriority::High, "Test message".to_string()).is_ok());
    let status = queue.get_status();
    assert!(status.get("high").unwrap_or(&0) > &0);
    let dequeued = queue.dequeue();
    assert!(dequeued.is_some());
}

#[test]
fn speech_queue_serves_by_priority() {
    let mut queue: SpeechQueue<&str> = SpeechQueue::new();
    queue.enqueue(SpeechPriority::Low, "low").unwrap();
    queue.enqueue(SpeechPriority::Critical, "critical").unwrap();
    queue.enqueue(SpeechPriority::Normal, "normal-1").unwrap();
    queue.enqueue(SpeechPriority::Normal, "normal-2").unwrap();
    assert_eq!(queue.len(), 4);
    assert_eq!(queue.dequeue().unwrap().1, "critical");
    assert_eq!(queue.dequeue().unwrap().1, "normal-1");
    assert_eq!(queue.dequeue().unwrap().1, "normal-2");
    assert_eq!(queue.dequeue().unwrap().1, "low");
    assert!(queue.dequeue().is_none());
}

#[test]
fn test_emotional_speech() {
    let processed = apply_tars_personality_processing(
        "Emergency protocol activated",
        false,
        false,
        true,
        true,
        SpeechContext::Conversation,
    );
    assert!(processed.contains("Emergency"));
    let alert = apply_tars_personality_processing("hold on", false, false, false, false, SpeechContext::Emergency);
    assert_eq!(alert, "ALERT: HOLD ON");
}

#[test]
fn test_tts_engine_creation() {
    let engine = TextToSpeechEngine::new();
    assert!(engine.tars_personality);
    assert_eq!(engine.voice_profile.name, "TARS");
    assert_eq!(engine.volume_milli, 800);
}

#[test]
fn test_voice_profile_tars_default() {
    let profile = VoiceProfile::tars_default();
    assert_eq!(profile.name, "TARS");
    assert!(profile.tars_calibration.humor_modulation_milli > 0);
    assert!(profile.tars_calibration.movie_reference_emphasis);
    assert_eq!(profile.personality_traits.len(), 5);
}

fn request(text: &str, priority: SpeechPriority, context: SpeechContext, state: Option<EmotionalState>) -> SpeechRequest {
    SpeechRequest { text: text.to_string(), priority, context, emotional_state: state, override_settings: None }
}

#[test]
fn synthesis_plan_of_a_greeting() {
    let engine = TextToSpeechEngine::new();
    let plan = engine
        .plan_synthesis(&request("Hello Cooper, this is TARS.", SpeechPriority::Normal, SpeechContext::Conversation, None))
        .unwrap();
    // humour at 0.75 adds its markers; sarcasm at exactly 0.3 does not
    assert!(plan.text_processed.contains("TARS"));
    assert_eq!(plan.ms_per_char, 40);
    assert_eq!(plan.sample_rate, 24000);
    assert_eq!(plan.format, AudioFormat::WAV);
    assert_eq!(plan.params.rate_modifier_milli, 1000);
    assert_eq!(plan.params.emphasis_intensity_milli, 500);
    let mut cloud = TextToSpeechEngine::new();
    cloud.engine_type = TTSEngine::Cloud(cloud.default_cloud_config());
    cloud.tars_personality = false;
    let plain = cloud.plan_synthesis(&request("hi", SpeechPriority::Normal, SpeechContext::Emergency, None)).unwrap();
    assert_eq!(plain.text_processed, "hi");
    assert_eq!(plain.format, AudioFormat::MP3);
    assert_eq!(plain.sample_rate, 22050);
}

#[test]
fn emotional_parameters_by_mood_and_priority() {
    let engine = TextToSpeechEngine::new();
    let urgent = EmotionalState { primary_emotion: Emotion::Urgent, intensity_milli: 900, secondary_emotions: vec![] };
    let p = engine
        .calculate_emotional_parameters(&request("x", SpeechPriority::Critical, SpeechContext::Emergency, Some(urgent)))
        .unwrap();
    assert_eq!(p.rate_modifier_milli, 1560);
    assert_eq!(p.volume_modifier_milli, 400);
    assert_eq!(p.emphasis_intensity_milli, 900);
    let calm = EmotionalState { primary_emotion: Emotion::Reassuring, intensity_milli: 300, secondary_emotions: vec![] };
    let q = engine
        .calculate_emotional_parameters(&request("x", SpeechPriority::Low, SpeechContext::Conversation, Some(calm)))
        .unwrap();
    assert_eq!(q.rate_modifier_milli, 765);
    assert_eq!(q.volume_modifier_milli, -200);
    let r = engine.calculate_emotional_parameters(&request("x", SpeechPriority::High, SpeechContext::Conversation, None)).unwrap();
    assert_eq!(r.rate_modifier_milli, 1000);
    assert_eq!(r.volume_modifier_milli, 100);
    assert_eq!(engine.default_local_config().engine_name, "festival");
    assert_eq!(engine.default_neural_config().vocoder_path, "/opt/tars/models/tts/neural/waveglow.pt");
}

#[test]
fn test_tars_interpretation() {
    let engine = SpeechRecognitionEngine::new();
    let dummy_result = RecognitionResult {
        text: "TARS, review the code".to_string(),
        confidence_milli: 900,
        alternatives: vec![],
        detected_language: Some("en-US".to_string()),
        speech_segments: vec![],
        tars_interpretation: None,
    };
    let interpreted = engine.apply_tars_interpretation(dummy_result).unwrap();
    assert!(interpreted.tars_interpretation.is_some());
    let interp = interpreted.tars_interpretation.unwrap();
    assert!(matches!(interp.command_type, CommandType::CodeReview));
    assert!(matches!(interpret_transcript("stop now").command_type, CommandType::Emergency));
}

#[test]
fn test_speech_recognition_engine() {
    let engine = SpeechRecognitionEngine::new();
    assert!(engine.tars_mode);
    assert!(engine.noise_reduction);
    assert!(!engine.wake_words.is_empty());
    assert_eq!(engine.confidence_threshold_milli, 700);
    assert_eq!(engine.default_cloud_config().region, "us-central1");
    assert_eq!(engine.default_local_config().beam_width, 16);
}

#[test]
fn test_wake_word_detector() {
    let detector = WakeWordDetector::new();
    assert!(detector.enabled);
    assert!(detector.wake_words.contains(&"TARS".to_string()));
}

#[test]
fn test_audio_transcription() {
    let engine = SpeechRecognitionEngine::new();
    let dummy_audio = vec![0u8; 1024];
    let result = transcribe(&engine, &dummy_audio);
    assert!(!result.is_empty());
}

#[test]
fn transcription_reads_one_of_the_examples() {
    let mut engine = SpeechRecognitionEngine::new();
    let heard = engine.transcribe_audio(&[1, 2, 3]).unwrap();
    assert_eq!(heard.confidence_milli, 850);
    assert_eq!(heard.alternatives.len(), 2);
    assert!(heard.alternatives[1].text.ends_with(" (alternative)"));
    assert_eq!(heard.speech_segments[0].end_ms, 2500);
    assert!(heard.tars_interpretation.is_some());
    engine.tars_mode = false;
    assert!(engine.transcribe_audio(&[]).unwrap().tars_interpretation.is_none());
}

#[test]
fn noise_reduction_silences_quiet_samples() {
    let engine = SpeechRecognitionEngine::new();
    // 16, 4096, -1 and a trailing odd byte
    let audio = [0x10, 0x00, 0x00, 0x10, 0xFF, 0xFF, 7];
    let out = engine.apply_noise_reduction(&audio).unwrap();
    assert_eq!(out, vec![0, 0, 0x00, 0x10, 0, 0, 7]);
    // 3276 is silenced, 3277 is kept
    let edge = [0xCC, 0x0C, 0xCD, 0x0C];
    assert_eq!(engine.apply_noise_reduction(&edge).unwrap(), vec![0, 0, 0xCD, 0x0C]);
}

#[test]
fn noise_gate_threshold_from_decibels() {
    let mut processor = AudioProcessor::new();
    assert_eq!(processor.sample_rate, 16000);
    // at -40 dB nothing is gated
    let audio = [0x01, 0x00, 0x00, 0x00];
    assert_eq!(processor.process_audio(&audio).unwrap(), audio.to_vec());
    // at 1 dB the threshold is 1638
    processor.noise_gate_threshold_db = 1;
    let samples = [0x65, 0x06, 0x66, 0x06];
    assert_eq!(processor.process_audio(&samples).unwrap(), vec![0, 0, 0x66, 0x06]);
}

#[test]
fn wake_words_are_added_once_and_removed() {
    let mut detector = WakeWordDetector::new();
    detector.add_wake_word("Case".to_string());
    detector.add_wake_word("Case".to_string());
    assert_eq!(detector.wake_words, vec!["TARS", "Hey TARS", "Computer", "Case"]);
    detector.remove_wake_word("Case");
    assert_eq!(detector.wake_words, vec!["TARS", "Hey TARS", "Computer"]);
    detector.set_sensitivity(1500);
    assert_eq!(detector.sensitivity_milli, 1000);
    detector.set_sensitivity(-3);
    assert_eq!(detector.sensitivity_milli, 0);
}

#[test]
fn wake_word_draws() {
    let mut detector = WakeWordDetector::new();
    assert_eq!(detector.wake_word_for_draw(949, 0), None);
    assert_eq!(detector.wake_word_for_draw(950, 1), Some("Hey TARS".to_string()));
    let heard = detector.detect_wake_word(&[]).unwrap();
    assert!(heard.map_or(true, |w| detector.wake_words.contains(&w)));
    detector.enabled = false;
    assert_eq!(detector.detect_wake_word(&[]).unwrap(), None);
    assert_eq!(detector.wake_word_for_draw(999, 0), None);
}

#[test]
fn recognition_stats() {
    let stats = get_recognition_stats();
    assert_eq!(stats.len(), 6);
    assert_eq!(stats.get("engine_type").unwrap(), "Hybrid");
    assert_eq!(stats.get("status").unwrap(), "operational");
}

#[test]
fn test_emotion_detection() {
    let emergency_emotion = analyze_text_for_emotion("Emergency alert!", "emergency").unwrap();
    assert_eq!(emergency_emotion.primary_emotion, "emergency_alert");
    assert_eq!(emergency_emotion.valence_milli, -200);

    let cooper_emotion = analyze_text_for_emotion("Hello Cooper", "conversation").unwrap();
    assert_eq!(cooper_emotion.primary_emotion, "cooper_interaction");
}

#[test]
fn mood_rules_apply_in_order() {
    assert_eq!(mood_for_lowered("a funny danger", "x").primary_emotion, "emergency_alert");
    assert_eq!(mood_for_lowered("a funny cooper", "x").primary_emotion, "deadpan_humor");
    assert_eq!(mood_for_lowered("perfect, cooper", "x").primary_emotion, "cooper_interaction");
    assert_eq!(mood_for_lowered("perfect report", "x").primary_emotion, "sarcastic_response");
    assert_eq!(mood_for_lowered("all quiet", "status").primary_emotion, "status_report");
    let plain = mood_for_lowered("all quiet", "conversation");
    assert_eq!(plain.primary_emotion, "mission_focused");
    assert_eq!(plain.intensity_milli, 500);
    assert_eq!(plain.arousal_milli, 300);
}

#[test]
fn test_famous_quotes() {
    let quotes = get_famous_quotes();
    assert!(!quotes.is_empty());
    let colony_quote = &quotes[0];
    assert!(colony_quote.0.contains("robot colony"));
    assert_eq!(colony_quote.1.primary_emotion, "deadpan_humor");
    assert_eq!(quotes.len(), 5);
    assert_eq!(quotes[3].1.valence_milli, -300);
}

fn mission_focus() -> EmotionConfig {
    EmotionConfig {
        primary_emotion: "mission_focused".to_string(),
        intensity_milli: 500,
        arousal_milli: 300,
        valence_milli: 0,
    }
}

#[test]
fn test_speech_processor_creation() {
    let processor = MovieAccurateSpeechProcessor::new();
    assert!(processor.phrase_analyzer.movie_phrases.is_empty());
    assert_eq!(processor.phrase_analyzer.cooper_specific_patterns.address_patterns, vec!["Cooper", "Coop"]);
}

#[test]
fn test_movie_quotes_loading() {
    let mut processor = MovieAccurateSpeechProcessor::new();
    let result = processor.load_movie_quotes();
    assert!(result.is_ok());
    assert!(!processor.phrase_analyzer.movie_phrases.is_empty());
    assert_eq!(processor.phrase_analyzer.movie_phrases.len(), 2);
    let caution = processor.phrase_analyzer.movie_phrases.get("no_time_for_caution").unwrap();
    assert_eq!(caution.original_text, "Cooper, this is no time for caution");
    assert_eq!(caution.emphasis_points[0].emphasis_type, EmphasisType::Cooper);
    let colony = processor.phrase_analyzer.movie_phrases.get("robot_colony").unwrap();
    assert_eq!(colony.timing_markers.len(), 3);
}

#[test]
fn test_text_processing() {
    let processor = create_movie_speech_processor();
    let emotion = mission_focus();
    let result = processor.process_text("Cooper, this is TARS.", "conversation", &emotion);
    assert!(result.is_ok());
    let processed = result.unwrap();
    assert_eq!(processed.original_text, "Cooper, this is TARS.");
    assert!(processed.processing_metadata.quality_milli > 900);
}

#[test]
fn processed_speech_carries_every_stage() {
    let processed = process_tars_speech("Cooper, this is TARS.", "conversation", &mission_focus()).unwrap();
    assert_eq!(processed.phrase_analysis.phrases[0].word_count, 4);
    // 200 before, 4 words of 300, 400 after
    assert_eq!(processed.timing_pattern.total_duration_ms, 1800);
    assert_eq!(processed.servo_events.events.len(), 1);
    assert_eq!(processed.servo_events.events[0].timestamp_ms, 1600);
    assert_eq!(processed.emphasis.emphasis_points.len(), 1);
    assert_eq!(processed.prosody.intonation_type, "declarative");
    assert_eq!(processed.prosody.rhythm_pattern.tempo_bpm, 110);
    assert_eq!(processed.processing_metadata.context, "conversation");
    assert_eq!(processed.processing_metadata.emotion.primary_emotion, "mission_focused");
    assert_eq!(processed.processing_metadata.processing_time_ms, 50);
    assert_eq!(processed.processing_metadata.quality_milli, 950);
}

#[test]
fn analysis_counts_words_and_vowels() {
    let analyzer = PhraseAnalyzer::new();
    let analysis = analyzer.analyze_text("Cooper, this is TARS.", "conversation").unwrap();
    assert_eq!(analysis.phrases.len(), 1);
    assert_eq!(analysis.phrases[0].text, "Cooper, this is TARS.");
    assert_eq!(analysis.phrases[0].word_count, 4);
    // o, o, e, i, i: the capitals of TARS are not counted
    assert_eq!(analysis.phrases[0].syllable_count, 5);
    assert_eq!(analysis.context_classification, "conversation");
    assert_eq!(analysis.overall_emotion.primary_emotion, "mission_focused");
}

#[test]
fn syllable_estimate_is_at_least_one() {
    let analyzer = PhraseAnalyzer::new();
    let analysis = analyzer.analyze_text("TRK", "x").unwrap();
    assert_eq!(analysis.phrases[0].syllable_count, 1);
    assert_eq!(analysis.phrases[0].word_count, 1);
    let empty = analyzer.analyze_text("   ", "x").unwrap();
    assert_eq!(empty.phrases[0].word_count, 0);
}

#[test]
fn emphasis_marks_each_phrase_naming_cooper() {
    let analyzer = PhraseAnalyzer::new();
    let detector = EmphasisDetector::new();
    let analysis = analyzer.analyze_text("Cooper, this is TARS.", "conversation").unwrap();
    let mapping = detector.detect_emphasis(&analysis, "conversation").unwrap();
    assert_eq!(mapping.emphasis_points.len(), 1);
    assert_eq!(mapping.emphasis_points[0].emphasis_type, EmphasisType::Cooper);
    assert_eq!(mapping.emphasis_points[0].intensity_milli, 900);
    let other = analyzer.analyze_text("Hello Brand", "conversation").unwrap();
    assert!(detector.detect_emphasis(&other, "conversation").unwrap().emphasis_points.is_empty());
}

#[test]
fn emphasis_keywords() {
    let detector = EmphasisDetector::new();
    assert_eq!(*detector.keyword_patterns.get("Cooper").unwrap(), EmphasisStrength::Strong);
    assert_eq!(*detector.keyword_patterns.get("emergency").unwrap(), EmphasisStrength::Extreme);
    assert_eq!(*detector.keyword_patterns.get("percent").unwrap(), EmphasisStrength::Moderate);
    assert_eq!(detector.cooper_specific_emphasis.cooper_address_milli, 900);
}

#[test]
fn timing_of_a_four_word_phrase() {
    let analyzer = PhraseAnalyzer::new();
    let engine = TimingEngine::new();
    let analysis = analyzer.analyze_text("Cooper, this is TARS.", "conversation").unwrap();
    let timing = engine.generate_timing(&analysis, &mission_focus()).unwrap();
    // 200 before, 4 words of 300, 400 after
    assert_eq!(timing.total_duration_ms, 1800);
    assert_eq!(timing.timing_events.len(), 6);
    assert_eq!(timing.timing_events[0].event_type, TimingEventType::Pause);
    assert_eq!(timing.timing_events[1].timestamp_ms, 200);
    assert_eq!(timing.timing_events[4].timestamp_ms, 1100);
    assert_eq!(timing.timing_events[5].timestamp_ms, 1400);
    assert_eq!(timing.timing_events[5].duration_ms, 400);
    assert_eq!(*engine.contextual_adjustments.get("humor").unwrap(), 950);
    assert_eq!(engine.breath_patterns.phrase_length_threshold, 15);
}

#[test]
fn test_servo_sound_generation() {
    let generator = ServoSoundGenerator::new();
    let timing = GeneratedTiming {
        total_duration_ms: 1000,
        timing_events: vec![TimingEvent { timestamp_ms: 500, event_type: TimingEventType::Pause, duration_ms: 400 }],
        pause_insertions: vec![],
    };
    let servo_events = generator.generate_servo_sounds(&timing, "conversation").unwrap();
    assert!(!servo_events.events.is_empty());
    assert_eq!(servo_events.events[0].timestamp_ms, 700);
    assert_eq!(servo_events.events[0].servo_type, "head_turn");
    assert_eq!(servo_events.total_duration_ms, 1000);
}

#[test]
fn servo_generator_profile() {
    let generator = ServoSoundGenerator::new();
    let head = generator.servo_profiles.get("head_turn").unwrap();
    assert_eq!(head.base_frequency_hz, 8500);
    assert_eq!(head.amplitude_envelope_milli, vec![0, 1000, 800, 0]);
    assert_eq!(head.mechanical_characteristics.motor_type, "servo_mg996r");
    assert_eq!(generator.audio_synthesis.sample_rate, 44100);
    assert!(matches!(generator.audio_synthesis.synthesis_method, ServoSynthMethod::PhysicalModeling));
    assert!(!generator.contextual_triggers.paragraph_boundaries);
}

#[test]
fn servo_sounds_fall_inside_the_delivery() {
    let analyzer = PhraseAnalyzer::new();
    let analysis = analyzer.analyze_text("Cooper, this is TARS.", "conversation").unwrap();
    let timing = TimingEngine::new().generate_timing(&analysis, &mission_focus()).unwrap();
    let sounds = ServoSoundGenerator::new().generate_servo_sounds(&timing, "conversation").unwrap();
    // only the 400 ms closing pause is long enough
    assert_eq!(sounds.events.len(), 1);
    assert_eq!(sounds.events[0].timestamp_ms, 1600);
    assert!(sounds.events.iter().all(|e| e.timestamp_ms < timing.total_duration_ms));
}

#[test]
fn timing_patterns_by_name() {
    let patterns = get_tars_timing_patterns();
    assert_eq!(patterns.len(), 2);
    assert_eq!(patterns.get("default").unwrap().post_phrase_pause_ms, 400);
    assert_eq!(patterns.get("emergency").unwrap().inter_word_spacing_ms, 80);
    assert_eq!(patterns.get("emergency").unwrap().pre_phrase_pause_ms, 100);
}

#[test]
fn tars_intonation_contours() {
    let db = IntonationPatternDB::new();
    assert!(db.declarative_patterns.is_empty());
    let t = &db.tars_specific_patterns;
    assert_eq!(t.deadpan_delivery.pattern_id, "deadpan");
    assert_eq!(t.deadpan_delivery.f0_points.len(), 2);
    assert_eq!(t.deadpan_delivery.f0_points[1].f0_hz, 200);
    assert_eq!(t.technical_explanation.f0_points[1].time_permille, 500);
    assert_eq!(t.technical_explanation.duration_scaling_milli, 900);
    assert_eq!(t.emergency_alert.f0_points[0].transition_type, F0Transition::Sharp);
    assert_eq!(t.sarcastic_response.context_conditions, vec!["sarcasm"]);
    assert_eq!(t.cooper_address.f0_points[0].f0_hz, 222);
    assert_eq!(t.status_report.duration_scaling_milli, 1050);
}

#[test]
fn tars_rhythm_and_prosody() {
    let rhythm = RhythmGenerator::new();
    assert_eq!(rhythm.tempo_variations.base_tempo_bpm, 110);
    assert_eq!(rhythm.tempo_variations.phrase_level_adjustments.post_pause_acceleration_milli, 1100);
    assert_eq!(rhythm.syllable_timing.base_duration_ms, 150);
    assert_eq!(rhythm.word_spacing.base_spacing_ms, 100);
    let engine = ProsodyEngine::new();
    let analysis = PhraseAnalyzer::new().analyze_text("Hello", "x").unwrap();
    let prosody = engine.generate_prosody(&analysis, &mission_focus()).unwrap();
    assert_eq!(prosody.f0_contour.len(), 2);
    assert_eq!(prosody.f0_contour[0].f0_hz, 220);
    assert_eq!(prosody.f0_contour[1].time_permille, 1000);
    assert_eq!(prosody.rhythm_pattern.time_signature, (4, 4));
}

#[test]
fn realtime_defaults() {
    let buffer = BufferConfiguration::default();
    assert_eq!(buffer.chunk_size_ms, 20);
    assert_eq!(buffer.max_latency_ms, 100);
    let chunks = ChunkProcessor::default();
    assert_eq!(chunks.chunk_overlap_handling, OverlapHandling::WindowedBlend);
    let synth = AsyncSynthesizer::default();
    assert_eq!(synth.synthesis_workers, 4);
    assert_eq!(synth.synthesis_priorities.real_time_synthesis, 255);
    assert_eq!(AudioCachePolicies::default().max_memory_usage, 512 * 1024 * 1024);
    let cache = CacheStrategy::default();
    assert_eq!(cache.preload_strategy, PreloadStrategy::AdaptivePreloading);
    assert_eq!(cache.invalidation_policy, InvalidationPolicy::HybridPolicy);
    let streaming = AudioStreaming::default();
    assert_eq!(streaming.codec_preferences[0].codec_name, "Opus");
    assert_eq!(streaming.codec_preferences[1].sample_rate, 16000);
    assert_eq!(streaming.streaming_settings.max_bitrate, 128000);
    let connection = ConnectionManagement::default();
    assert_eq!(connection.ice_servers[0].url, "stun:stun.l.google.com:19302");
    assert_eq!(connection.reconnection_strategy, ReconnectionStrategy::ExponentialBackoff);
    assert!(SecurityConfiguration::default().media_encryption_mandatory);
    assert_eq!(LatencyTargets::default().emergency_response_ms, 50);
    assert_eq!(default_optimization_strategies()[0], OptimizationStrategy::ChunkSizeOptimization);
}

#[test]
fn voice_cloning_defaults() {
    let control = UserEmotionControl::default();
    assert!(control.manual_override && control.intensity_slider && control.emotion_selection);
    assert!(control.real_time_modification);
    let pre = DataPreprocessing::default();
    assert_eq!(pre.preprocessing_steps, vec!["normalization", "filtering"]);
    assert_eq!(pre.augmentation_techniques, vec!["pitch_shift", "time_stretch"]);
    let org = DataOrganization::default();
    assert_eq!(org.indexing_system, "hash_based");
    let qa = DataQualityAssurance::default();
    assert_eq!(qa.validation_processes, vec!["manual_review", "automated_check"]);
    let deploy = ModelDeploymentManager::default();
    assert_eq!(deploy.deployment_strategies, vec!["blue_green", "canary"]);
    assert_eq!(deploy.rollback_procedures, vec!["automatic_rollback", "manual_rollback"]);
}

#[test]
fn noise_reduction_twice_is_once() {
    let engine = SpeechRecognitionEngine::new();
    let audio = [0x10, 0x00, 0x00, 0x10, 0xFF, 0xFF, 0x00, 0x80, 9];
    let once = engine.apply_noise_reduction(&audio).unwrap();
    let twice = engine.apply_noise_reduction(&once).unwrap();
    assert_eq!(once, twice);
}

#[test]
fn urgency_speeds_delivery() {
    let engine = TextToSpeechEngine::new();
    let rate = |p: SpeechPriority| {
        let state = EmotionalState { primary_emotion: Emotion::Serious, intensity_milli: 500, secondary_emotions: vec![] };
        engine.calculate_emotional_parameters(&request("x", p, SpeechContext::Conversation, Some(state))).unwrap().rate_modifier_milli
    };
    assert!(rate(SpeechPriority::Low) <= rate(SpeechPriority::Normal));
    assert_eq!(rate(SpeechPriority::Normal), rate(SpeechPriority::High));
    assert!(rate(SpeechPriority::High) <= rate(SpeechPriority::Critical));
    assert_eq!(rate(SpeechPriority::Critical), 1080);
}

#[test]
fn schedules_and_workload_defaults() {
    let tuning = TuningSchedule::default();
    assert_eq!(tuning.tuning_interval_seconds, 300);
    assert_eq!(tuning.max_concurrent_tunings, 1);
    let updates = UpdateSchedule::default();
    assert_eq!(updates.update_frequency, UpdateFrequency::Daily);
    assert!(updates.maintenance_windows.is_empty() && updates.staged_rollout);
    let work = WorkloadContext::default();
    assert_eq!(work.current_projects, vec!["TARS_Engineering"]);
    assert_eq!(work.active_tasks, vec!["system_monitoring"]);
    assert!(work.priority_levels.is_empty());
}
