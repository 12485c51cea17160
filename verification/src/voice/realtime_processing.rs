//! Settings of the real-time voice pipeline: buffering, chunking, synthesis
//! workers, caching, WebRTC streaming and latency targets, each with the
//! defaults TARS runs with; and the vocabulary of connection states,
//! conversation phases, learning feedback and deployment that the pipeline
//! reports in.

#![allow(non_camel_case_types)]

use vstd::prelude::*;
use vstd::hash_map::StringHashMap;
use crate::text::{strings_view, svec1};

verus! {

broadcast use vstd::string::group_string_axioms;

/// Sizes of the text and audio buffers and how audio is chunked.
#[derive(Debug, Clone, Copy, PartialEq, Eq, Structural)]
pub struct BufferConfiguration {
    pub input_buffer_size: usize,
    pub audio_buffer_size: usize,
    pub chunk_size_ms: u32,
    pub overlap_ms: u32,
    pub max_latency_ms: u32,
    pub prebuffer_chunks: usize,
}

impl Default for BufferConfiguration {
    /// 1 KiB of text, 4 KiB of audio, 20 ms chunks overlapping by 5 ms, at
    /// most 100 ms of latency, 3 chunks buffered ahead.
    fn default() -> (c: Self)
        ensures
            c == (BufferConfiguration {
                input_buffer_size: 1024,
                audio_buffer_size: 4096,
                chunk_size_ms: 20,
                overlap_ms: 5,
                max_latency_ms: 100,
                prebuffer_chunks: 3,
            }),
    {
        BufferConfiguration {
            input_buffer_size: 1024,
            audio_buffer_size: 4096,
            chunk_size_ms: 20,
            overlap_ms: 5,
            max_latency_ms: 100,
            prebuffer_chunks: 3,
        }
    }
}

/// How overlapping audio chunks are joined.
#[derive(Debug, Clone, Copy, PartialEq, Eq, Structural)]
pub enum OverlapHandling {
    NoOverlap,
    SimpleBlend,
    WindowedBlend,
    PhaseVocoder,
    PitchSynchronous,
}

/// How text is cut into chunks and synthesised.
#[derive(Debug, Clone, Copy, PartialEq, Eq, Structural)]
pub struct ChunkProcessor {
    pub chunk_size: usize,
    pub processing_threads: usize,
    pub parallel_synthesis: bool,
    pub chunk_overlap_handling: OverlapHandling,
    pub crossfade_duration_ms: u32,
}

impl Default for ChunkProcessor {
    /// 1024-sample chunks on 4 threads in parallel, windowed blending with a
    /// 10 ms crossfade.
    fn default() -> (c: Self)
        ensures
            c == (ChunkProcessor {
                chunk_size: 1024,
                processing_threads: 4,
                parallel_synthesis: true,
                chunk_overlap_handling: OverlapHandling::WindowedBlend,
                crossfade_duration_ms: 10,
            }),
    {
        ChunkProcessor {
            chunk_size: 1024,
            processing_threads: 4,
            parallel_synthesis: true,
            chunk_overlap_handling: OverlapHandling::WindowedBlend,
            crossfade_duration_ms: 10,
        }
    }
}

/// Priorities (0 to 255) of the kinds of synthesis work.
#[derive(Debug, Clone, Copy, PartialEq, Eq, Structural)]
pub struct SynthesisPriorities {
    pub real_time_synthesis: u8,
    pub cache_preloading: u8,
    pub quality_enhancement: u8,
    pub background_tasks: u8,
}

impl Default for SynthesisPriorities {
    /// Real-time work first (255), then preloading (128), enhancement (64)
    /// and background tasks (32).
    fn default() -> (p: Self)
        ensures
            p == (SynthesisPriorities {
                real_time_synthesis: 255,
                cache_preloading: 128,
                quality_enhancement: 64,
                background_tasks: 32,
            }),
    {
        SynthesisPriorities {
            real_time_synthesis: 255,
            cache_preloading: 128,
            quality_enhancement: 64,
            background_tasks: 32,
        }
    }
}

/// Which background work runs.
#[derive(Debug, Clone, Copy, PartialEq, Eq, Structural)]
pub struct BackgroundProcessing {
    pub preload_common_phrases: bool,
    pub voice_model_optimization: bool,
    pub cache_warmup: bool,
    pub predictive_synthesis: bool,
}

impl Default for BackgroundProcessing {
    /// All background work on.
    fn default() -> (b: Self)
        ensures
            b == (BackgroundProcessing {
                preload_common_phrases: true,
                voice_model_optimization: true,
                cache_warmup: true,
                predictive_synthesis: true,
            }),
    {
        BackgroundProcessing {
            preload_common_phrases: true,
            voice_model_optimization: true,
            cache_warmup: true,
            predictive_synthesis: true,
        }
    }
}

/// The synthesis workers and their queue.
#[derive(Debug, Clone, Copy, PartialEq, Eq, Structural)]
pub struct AsyncSynthesizer {
    pub synthesis_workers: usize,
    pub work_queue_size: usize,
    pub synthesis_priorities: SynthesisPriorities,
    pub background_processing: BackgroundProcessing,
}

impl Default for AsyncSynthesizer {
    /// 4 workers, a queue of 100, default priorities and background work.
    fn default() -> (a: Self)
        ensures
            a.synthesis_workers == 4,
            a.work_queue_size == 100,
            a.synthesis_priorities == (SynthesisPriorities {
                real_time_synthesis: 255,
                cache_preloading: 128,
                quality_enhancement: 64,
                background_tasks: 32,
            }),
            a.background_processing == (BackgroundProcessing {
                preload_common_phrases: true,
                voice_model_optimization: true,
                cache_warmup: true,
                predictive_synthesis: true,
            }),
    {
        AsyncSynthesizer {
            synthesis_workers: 4,
            work_queue_size: 100,
            synthesis_priorities: SynthesisPriorities::default(),
            background_processing: BackgroundProcessing::default(),
        }
    }
}

/// Limits of the audio chunk cache.
#[derive(Debug, Clone, Copy, PartialEq, Eq, Structural)]
pub struct AudioCachePolicies {
    pub max_memory_usage: usize,
    pub chunk_expiry_ms: u32,
    pub compression_threshold: usize,
    pub priority_preservation: bool,
}

impl Default for AudioCachePolicies {
    /// 512 MiB of cache, chunks kept 30 s, compression above 1 MiB,
    /// priorities preserved.
    fn default() -> (p: Self)
        ensures
            p == (AudioCachePolicies {
                max_memory_usage: 536870912,
                chunk_expiry_ms: 30000,
                compression_threshold: 1048576,
                priority_preservation: true,
            }),
    {
        AudioCachePolicies {
            max_memory_usage: 512 * 1024 * 1024,
            chunk_expiry_ms: 30000,
            compression_threshold: 1024 * 1024,
            priority_preservation: true,
        }
    }
}

/// What the phrase cache loads ahead of use.
#[derive(Debug, Clone, Copy, PartialEq, Eq, Structural)]
pub enum PreloadStrategy {
    NoPreloading,
    CommonPhrases,
    ContextualPreloading,
    PredictivePreloading,
    AdaptivePreloading,
}

/// How cached phrases are dropped.
#[derive(Debug, Clone, Copy, PartialEq, Eq, Structural)]
pub enum InvalidationPolicy {
    TimeBasedTTL,
    AccessBasedLRU,
    PriorityBasedEviction,
    MemoryPressureBased,
    HybridPolicy,
}

/// Size, lifetime and policies of the phrase cache.
#[derive(Debug, Clone, Copy, PartialEq, Eq, Structural)]
pub struct CacheStrategy {
    pub cache_size_mb: usize,
    pub cache_duration_hours: u32,
    pub preload_strategy: PreloadStrategy,
    pub invalidation_policy: InvalidationPolicy,
    pub compression_enabled: bool,
}

impl Default for CacheStrategy {
    /// 256 MB kept 24 hours, adaptive preloading, hybrid invalidation,
    /// compressed.
    fn default() -> (c: Self)
        ensures
            c == (CacheStrategy {
                cache_size_mb: 256,
                cache_duration_hours: 24,
                preload_strategy: PreloadStrategy::AdaptivePreloading,
                invalidation_policy: InvalidationPolicy::HybridPolicy,
                compression_enabled: true,
            }),
    {
        CacheStrategy {
            cache_size_mb: 256,
            cache_duration_hours: 24,
            preload_strategy: PreloadStrategy::AdaptivePreloading,
            invalidation_policy: InvalidationPolicy::HybridPolicy,
            compression_enabled: true,
        }
    }
}

/// An audio codec TARS can stream with.
#[derive(Debug, Clone)]
pub struct AudioCodec {
    pub codec_name: String,
    pub sample_rate: u32,
    pub channels: u8,
    pub bitrate: u32,
    pub frame_duration_ms: u32,
    pub supported: bool,
}

/// Bitrates and framing of the outgoing stream.
#[derive(Debug, Clone, Copy, PartialEq, Eq, Structural)]
pub struct StreamingSettings {
    pub initial_bitrate: u32,
    pub min_bitrate: u32,
    pub max_bitrate: u32,
    pub frame_duration_ms: u32,
    pub packet_loss_resilience: bool,
}

impl Default for StreamingSettings {
    /// Start at 64 kbit/s within 32 to 128 kbit/s, 20 ms frames, resilient
    /// to packet loss.
    fn default() -> (s: Self)
        ensures
            s == (StreamingSettings {
                initial_bitrate: 64000,
                min_bitrate: 32000,
                max_bitrate: 128000,
                frame_duration_ms: 20,
                packet_loss_resilience: true,
            }),
    {
        StreamingSettings {
            initial_bitrate: 64000,
            min_bitrate: 32000,
            max_bitrate: 128000,
            frame_duration_ms: 20,
            packet_loss_resilience: true,
        }
    }
}

/// How the bitrate follows the network.
#[derive(Debug, Clone, Copy, PartialEq, Eq, Structural)]
pub enum AdaptationAlgorithm {
    Simple,
    GradualAdaptation,
    AggressiveAdaptation,
    MLBasedAdaptation,
    HybridAdaptation,
}

/// Whether and how the bitrate adapts.
#[derive(Debug, Clone, Copy, PartialEq, Eq, Structural)]
pub struct AdaptiveBitrate {
    pub enabled: bool,
    pub adaptation_algorithm: AdaptationAlgorithm,
    pub bandwidth_probing: bool,
    pub quality_scaling: bool,
}

impl Default for AdaptiveBitrate {
    /// Gradual adaptation with probing and quality scaling.
    fn default() -> (a: Self)
        ensures
            a == (AdaptiveBitrate {
                enabled: true,
                adaptation_algorithm: AdaptationAlgorithm::GradualAdaptation,
                bandwidth_probing: true,
                quality_scaling: true,
            }),
    {
        AdaptiveBitrate {
            enabled: true,
            adaptation_algorithm: AdaptationAlgorithm::GradualAdaptation,
            bandwidth_probing: true,
            quality_scaling: true,
        }
    }
}

/// How the stream survives lost packets.
#[derive(Debug, Clone, Copy, PartialEq, Eq, Structural)]
pub struct ErrorResilience {
    pub forward_error_correction: bool,
    pub redundancy_encoding: bool,
    pub packet_loss_concealment: bool,
    pub jitter_buffer_adaptive: bool,
}

impl Default for ErrorResilience {
    /// Every protection on.
    fn default() -> (e: Self)
        ensures
            e == (ErrorResilience {
                forward_error_correction: true,
                redundancy_encoding: true,
                packet_loss_concealment: true,
                jitter_buffer_adaptive: true,
            }),
    {
        ErrorResilience {
            forward_error_correction: true,
            redundancy_encoding: true,
            packet_loss_concealment: true,
            jitter_buffer_adaptive: true,
        }
    }
}

/// Whether `c` is the codec named `name` at `rate` Hz, mono, 64 kbit/s,
/// 20 ms frames, supported.
pub open spec fn is_mono_codec(c: AudioCodec, name: Seq<char>, rate: u32) -> bool {
    &&& c.codec_name@ == name
    &&& c.sample_rate == rate
    &&& c.channels == 1
    &&& c.bitrate == 64000
    &&& c.frame_duration_ms == 20
    &&& c.supported
}

/// Codecs in order of preference and how the stream is run.
#[derive(Debug, Clone)]
pub struct AudioStreaming {
    pub codec_preferences: Vec<AudioCodec>,
    pub streaming_settings: StreamingSettings,
    pub adaptive_bitrate: AdaptiveBitrate,
    pub error_resilience: ErrorResilience,
}

impl Default for AudioStreaming {
    /// Opus at 48 kHz first, G.722 at 16 kHz second, with the default
    /// settings, adaptation and resilience.
    fn default() -> (a: Self)
        ensures
            a.codec_preferences@.len() == 2,
            is_mono_codec(a.codec_preferences@[0], "Opus"@, 48000),
            is_mono_codec(a.codec_preferences@[1], "G.722"@, 16000),
            a.streaming_settings == (StreamingSettings {
                initial_bitrate: 64000,
                min_bitrate: 32000,
                max_bitrate: 128000,
                frame_duration_ms: 20,
                packet_loss_resilience: true,
            }),
            a.adaptive_bitrate.adaptation_algorithm == AdaptationAlgorithm::GradualAdaptation,
            a.adaptive_bitrate.enabled && a.adaptive_bitrate.bandwidth_probing && a.adaptive_bitrate.quality_scaling,
            a.error_resilience.forward_error_correction && a.error_resilience.redundancy_encoding,
            a.error_resilience.packet_loss_concealment && a.error_resilience.jitter_buffer_adaptive,
    {
        let mut codec_preferences: Vec<AudioCodec> = Vec::new();
        codec_preferences.push(AudioCodec {
            codec_name: String::from_str("Opus"),
            sample_rate: 48000,
            channels: 1,
            bitrate: 64000,
            frame_duration_ms: 20,
            supported: true,
        });
        codec_preferences.push(AudioCodec {
            codec_name: String::from_str("G.722"),
            sample_rate: 16000,
            channels: 1,
            bitrate: 64000,
            frame_duration_ms: 20,
            supported: true,
        });
        AudioStreaming {
            codec_preferences,
            streaming_settings: StreamingSettings::default(),
            adaptive_bitrate: AdaptiveBitrate::default(),
            error_resilience: ErrorResilience::default(),
        }
    }
}

/// A STUN or TURN server.
#[derive(Debug, Clone)]
pub struct IceServer {
    pub url: String,
    pub username: Option<String>,
    pub credential: Option<String>,
    pub credential_type: String,
}

/// How a dropped connection is re-established.
#[derive(Debug, Clone, Copy, PartialEq, Eq, Structural)]
pub enum ReconnectionStrategy {
    NoReconnection,
    Immediate,
    ExponentialBackoff,
    LinearBackoff,
    AdaptiveReconnection,
}

/// Servers, timeouts and reconnection of the peer connection.
#[derive(Debug, Clone)]
pub struct ConnectionManagement {
    pub ice_servers: Vec<IceServer>,
    pub connection_timeout_ms: u32,
    pub reconnection_strategy: ReconnectionStrategy,
    pub heartbeat_interval_ms: u32,
}

impl Default for ConnectionManagement {
    /// Google's public STUN server without credentials, a 30 s timeout,
    /// exponential backoff, a heartbeat every 5 s.
    fn default() -> (c: Self)
        ensures
            c.ice_servers@.len() == 1,
            c.ice_servers@[0].url@ == "stun:stun.l.google.com:19302"@,
            c.ice_servers@[0].username is None,
            c.ice_servers@[0].credential is None,
            c.ice_servers@[0].credential_type@ == "password"@,
            c.connection_timeout_ms == 30000,
            c.reconnection_strategy == ReconnectionStrategy::ExponentialBackoff,
            c.heartbeat_interval_ms == 5000,
    {
        let mut ice_servers: Vec<IceServer> = Vec::new();
        ice_servers.push(IceServer {
            url: String::from_str("stun:stun.l.google.com:19302"),
            username: None,
            credential: None,
            credential_type: String::from_str("password"),
        });
        ConnectionManagement {
            ice_servers,
            connection_timeout_ms: 30000,
            reconnection_strategy: ReconnectionStrategy::ExponentialBackoff,
            heartbeat_interval_ms: 5000,
        }
    }
}

/// Security requirements of the peer connection.
#[derive(Debug, Clone, Copy, PartialEq, Eq, Structural)]
pub struct SecurityConfiguration {
    pub dtls_fingerprint_verification: bool,
    pub ice_credential_rotation: bool,
    pub media_encryption_mandatory: bool,
    pub secure_signaling_required: bool,
}

impl Default for SecurityConfiguration {
    /// Every requirement on.
    fn default() -> (c: Self)
        ensures
            c == (SecurityConfiguration {
                dtls_fingerprint_verification: true,
                ice_credential_rotation: true,
                media_encryption_mandatory: true,
                secure_signaling_required: true,
            }),
    {
        SecurityConfiguration {
            dtls_fingerprint_verification: true,
            ice_credential_rotation: true,
            media_encryption_mandatory: true,
            secure_signaling_required: true,
        }
    }
}

/// A way of cutting latency.
#[derive(Debug, Clone, Copy, PartialEq, Eq, Structural)]
pub enum OptimizationStrategy {
    ChunkSizeOptimization,
    ParallelProcessing,
    PredictiveCaching,
    ModelPreloading,
    NetworkOptimization,
    AudioCompression,
    QualityScaling,
}

/// The latency optimizer's strategies by default: chunk sizing, parallel
/// processing, predictive caching, model preloading, in that order.
pub fn default_optimization_strategies() -> (v: Vec<OptimizationStrategy>)
    ensures
        v@ == seq![
            OptimizationStrategy::ChunkSizeOptimization,
            OptimizationStrategy::ParallelProcessing,
            OptimizationStrategy::PredictiveCaching,
            OptimizationStrategy::ModelPreloading,
        ],
{
    let mut v: Vec<OptimizationStrategy> = Vec::new();
    v.push(OptimizationStrategy::ChunkSizeOptimization);
    v.push(OptimizationStrategy::ParallelProcessing);
    v.push(OptimizationStrategy::PredictiveCaching);
    v.push(OptimizationStrategy::ModelPreloading);
    assert(v@ =~= seq![
        OptimizationStrategy::ChunkSizeOptimization,
        OptimizationStrategy::ParallelProcessing,
        OptimizationStrategy::PredictiveCaching,
        OptimizationStrategy::ModelPreloading,
    ]);
    v
}

/// Response-time targets by kind of work.
#[derive(Debug, Clone, Copy, PartialEq, Eq, Structural)]
pub struct LatencyTargets {
    pub interactive_response_ms: u32,
    pub conversation_response_ms: u32,
    pub background_task_ms: u32,
    pub emergency_response_ms: u32,
}

impl Default for LatencyTargets {
    /// 100 ms interactive, 200 ms conversation, 1 s background, 50 ms in an
    /// emergency.
    fn default() -> (t: Self)
        ensures
            t == (LatencyTargets {
                interactive_response_ms: 100,
                conversation_response_ms: 200,
                background_task_ms: 1000,
                emergency_response_ms: 50,
            }),
    {
        LatencyTargets {
            interactive_response_ms: 100,
            conversation_response_ms: 200,
            background_task_ms: 1000,
            emergency_response_ms: 50,
        }
    }
}


#[derive(Debug, Clone, Copy, PartialEq, Eq, Structural)]
pub enum CompressionType {
    NoCompression,
    FLAC,
    MP3,
    Opus,
    AAC,
    Vorbis,
}

#[derive(Debug, Clone, Copy, PartialEq, Eq, Structural)]
pub enum ConnectionQuality {
    Excellent,
    Good,
    Fair,
    Poor,
    Unstable,
}

#[derive(Debug, Clone, Copy, PartialEq, Eq, Structural)]
pub enum TaskPriority {
    Emergency,
    High,
    Normal,
    Background,
}

#[derive(Debug, Clone)]
pub struct AudioChunk {
    pub chunk_id: String,
    pub audio_data: Vec<u8>,
    pub timestamp_ms: u32,
    pub duration_ms: u32,
    pub sample_rate: u32,
    pub channels: u16,
    pub format: String,
}

#[derive(Debug, Clone, Copy, PartialEq, Eq, Structural)]
pub enum ModelPreloadingStrategy {
    NoModelPreloading,
    CommonModels,
    PredictiveLoading,
    ContextualLoading,
    FullPreload,
}

#[derive(Debug, Clone, Copy, PartialEq, Eq, Structural)]
pub enum EvictionPolicy {
    LRU,
    LFU,
    TTL,
    Priority,
    Hybrid,
}

#[derive(Debug, Clone, Copy, PartialEq, Eq, Structural)]
pub enum ConnectionState {
    New,
    Connecting,
    Connected,
    Disconnected,
    Failed,
    Closed,
}

#[derive(Debug, Clone, Copy, PartialEq, Eq, Structural)]
pub enum IceConnectionState {
    New,
    Gathering,
    Checking,
    Connected,
    Completed,
    Disconnected,
    Failed,
    Closed,
}

#[derive(Debug, Clone, Copy, PartialEq, Eq, Structural)]
pub enum SignalingState {
    Stable,
    HaveLocalOffer,
    HaveRemoteOffer,
    HaveLocalPranswer,
    HaveRemotePranswer,
    Closed,
}

#[derive(Debug, Clone)]
pub struct DataChannel {
    pub channel_id: String,
    pub channel_name: String,
    pub ordered: bool,
    pub max_retransmits: Option<u16>,
    pub max_packet_life_time: Option<u16>,
    pub protocol: String,
}

#[derive(Debug, Clone, Copy, PartialEq, Eq, Structural)]
pub enum BottleneckType {
    CPUBound,
    MemoryBound,
    NetworkBound,
    DiskIOBound,
    GPUBound,
    ModelLoadingBound,
    CacheMissBound,
}

#[derive(Debug, Clone, Copy, PartialEq, Eq, Structural)]
pub struct TuningSchedule {
    pub tuning_interval_seconds: u32,
    pub warmup_period_seconds: u32,
    pub cool_down_period_seconds: u32,
    pub max_concurrent_tunings: usize,
}

#[derive(Debug, Clone, Copy, PartialEq, Eq, Structural)]
pub enum PredictionModelType {
    MarkovChain,
    LSTM,
    Transformer,
    RuleBased,
    HybridModel,
}

#[derive(Debug, Clone, Copy, PartialEq, Eq, Structural)]
pub enum ConversationPhase {
    Opening,
    TaskDiscussion,
    ProblemSolving,
    CooperInteraction,
    Emergency,
    Casual,
    SystemStatus,
    Closing,
}

#[derive(Debug, Clone, Copy, PartialEq, Eq, Structural)]
pub enum InteractionMode {
    Engineering,
    Management,
    Debugging,
    CodeReview,
    Mentoring,
    Emergency,
    Casual,
}

pub struct WorkloadContext {
    pub current_projects: Vec<String>,
    pub active_tasks: Vec<String>,
    pub priority_levels: StringHashMap<u8>,
    pub deadlines: StringHashMap<String>,
}

#[derive(Debug, Clone, Copy, PartialEq, Eq, Structural)]
pub enum AlgorithmType {
    SupervisedLearning,
    ReinforcementLearning,
    UnsupervisedLearning,
    OnlineLearning,
    TransferLearning,
}

#[derive(Debug, Clone, Copy, PartialEq, Eq, Structural)]
pub enum FeedbackType {
    VoiceQuality,
    ResponseAccuracy,
    PersonalityMatch,
    TechnicalCompetence,
    OverallSatisfaction,
    LatencyPerformance,
}

#[derive(Debug, Clone)]
pub struct UpdateSchedule {
    pub update_frequency: UpdateFrequency,
    pub maintenance_windows: Vec<MaintenanceWindow>,
    pub emergency_update_capability: bool,
    pub staged_rollout: bool,
}

#[derive(Debug, Clone, Copy, PartialEq, Eq, Structural)]
pub enum UpdateFrequency {
    RealTime,
    Hourly,
    Daily,
    Weekly,
    Monthly,
    OnDemand,
}

#[derive(Debug, Clone)]
pub struct MaintenanceWindow {
    pub window_id: String,
    pub start_time: String,
    pub end_time: String,
    pub time_zone: String,
    pub allowed_operations: Vec<String>,
}

#[derive(Debug, Clone, Copy, PartialEq, Eq, Structural)]
pub enum DeploymentStatus {
    Development,
    Testing,
    Staging,
    Production,
    Deprecated,
    Rolled_back,
}

#[derive(Debug, Clone)]
pub struct FeedbackLoop {
    pub loop_id: String,
    pub loop_name: String,
    pub input_metrics: Vec<String>,
    pub output_actions: Vec<String>,
    pub feedback_delay_seconds: u32,
    pub enabled: bool,
}

#[derive(Debug, Clone, Copy, PartialEq, Eq, Structural)]
pub enum AlertLevel {
    Info,
    Warning,
    Critical,
    Emergency,
}

#[derive(Debug, Clone, Copy, PartialEq, Eq, Structural)]
pub enum TrendDirection {
    Improving,
    Stable,
    Declining,
    Volatile,
}

#[derive(Debug, Clone, Copy, PartialEq, Eq, Structural)]
pub enum AdaptationSpeed {
    Instant,
    Fast,
    Moderate,
    Gradual,
    Conservative,
}

impl Default for TuningSchedule {
    /// Tuning every 5 minutes after a minute's warm-up, with 30 s to cool
    /// down between rounds, one round at a time.
    fn default() -> (t: Self)
        ensures
            t == (TuningSchedule {
                tuning_interval_seconds: 300,
                warmup_period_seconds: 60,
                cool_down_period_seconds: 30,
                max_concurrent_tunings: 1,
            }),
    {
        TuningSchedule {
            tuning_interval_seconds: 300,
            warmup_period_seconds: 60,
            cool_down_period_seconds: 30,
            max_concurrent_tunings: 1,
        }
    }
}

impl Default for UpdateSchedule {
    /// Daily staged updates with no maintenance windows, emergency updates
    /// allowed.
    fn default() -> (u: Self)
        ensures
            u.update_frequency == UpdateFrequency::Daily,
            u.maintenance_windows@.len() == 0,
            u.emergency_update_capability,
            u.staged_rollout,
    {
        UpdateSchedule {
            update_frequency: UpdateFrequency::Daily,
            maintenance_windows: Vec::new(),
            emergency_update_capability: true,
            staged_rollout: true,
        }
    }
}

impl Default for WorkloadContext {
    /// TARS's engineering project with system monitoring under way, no
    /// priorities and no deadlines.
    fn default() -> (w: Self)
        ensures
            strings_view(w.current_projects@) == seq!["TARS_Engineering"@],
            strings_view(w.active_tasks@) == seq!["system_monitoring"@],
            w.priority_levels@ == Map::<Seq<char>, u8>::empty(),
            w.deadlines@ == Map::<Seq<char>, String>::empty(),
    {
        WorkloadContext {
            current_projects: svec1("TARS_Engineering"),
            active_tasks: svec1("system_monitoring"),
            priority_levels: StringHashMap::new(),
            deadlines: StringHashMap::new(),
        }
    }
}

} // verus!
