//! The data model of TARS voice cloning: model architectures, the features
//! a model reads and writes, speaker conditioning, training data handling,
//! and how models are updated, monitored and reported on, with the defaults
//! of the user controls and data pipeline.

#![allow(non_camel_case_types)]

use vstd::prelude::*;
use crate::text::{strings_view, svec2};

verus! {

broadcast use vstd::string::group_string_axioms;

#[derive(Debug, Clone, Copy, PartialEq, Eq, Structural)]
pub enum VoiceModelType {
    Baseline,
    MovieAccurate,
    Emotional,
    PersonalityTuned,
    Production,
    Experimental,
}

#[derive(Debug, Clone, Copy, PartialEq, Eq, Structural)]
pub enum DataSourceType {
    InterstellarMovieAudio,
    BillIrwinInterviews,
    TARSDialogueScenes,
    Behind_the_scenes,
    FanCreatedContent,
    SyntheticData,
    UserInteractions,
}

#[derive(Debug, Clone, Copy, PartialEq, Eq, Structural)]
pub enum ValidationStatus {
    Pending,
    Approved,
    Rejected,
    NeedsReview,
    Copyrighted,
    Fair_use,
}

#[derive(Debug, Clone, Copy, PartialEq, Eq, Structural)]
pub enum ArchitectureType {
    Tacotron2_Modified,
    FastSpeech2_Custom,
    VITS_Enhanced,
    YourTTS_Adapted,
    Coqui_XTTS_Tuned,
    Custom_TARS_Architecture,
}

#[derive(Debug, Clone, Copy, PartialEq, Eq, Structural)]
pub struct ModelParameters {
    pub total_parameters: usize,
    pub encoder_parameters: usize,
    pub decoder_parameters: usize,
    pub vocoder_parameters: usize,
    pub embedding_dimensions: usize,
    pub hidden_dimensions: usize,
    pub attention_heads: usize,
    pub encoder_layers: usize,
    pub decoder_layers: usize,
}

#[derive(Debug, Clone, Copy, PartialEq, Eq, Structural)]
pub enum LayerType {
    Linear,
    Convolutional1D,
    Convolutional2D,
    LSTM,
    GRU,
    Transformer,
    Attention,
    SelfAttention,
    CrossAttention,
    Embedding,
    Positional_Encoding,
}

#[derive(Debug, Clone, Copy, PartialEq, Eq, Structural)]
pub struct SkipConnection {
    pub from_layer: usize,
    pub to_layer: usize,
    pub connection_type: SkipConnectionType,
}

#[derive(Debug, Clone, Copy, PartialEq, Eq, Structural)]
pub enum SkipConnectionType {
    Residual,
    Dense,
    Highway,
    Custom,
}

#[derive(Debug, Clone, Copy, PartialEq, Eq, Structural)]
pub enum NormalizationType {
    BatchNorm,
    LayerNorm,
    GroupNorm,
    InstanceNorm,
}

#[derive(Debug, Clone, Copy, PartialEq, Eq, Structural)]
pub enum AttentionType {
    MultiHeadAttention,
    SelfAttention,
    CrossAttention,
    LocalAttention,
    SparseAttention,
    LinearAttention,
}

#[derive(Debug, Clone, Copy, PartialEq, Eq, Structural)]
pub enum EncoderType {
    TextEncoder,
    AudioEncoder,
    MultiModalEncoder,
    HierarchicalEncoder,
}

#[derive(Debug, Clone)]
pub struct InputFeatures {
    pub text_features: TextFeatures,
    pub audio_features: AudioFeatures,
    pub prosody_features: ProsodyFeatures,
    pub emotion_features: EmotionFeatures,
    pub speaker_features: SpeakerFeatures,
}

#[derive(Debug, Clone, Copy, PartialEq, Eq, Structural)]
pub struct TextFeatures {
    pub phoneme_embeddings: bool,
    pub character_embeddings: bool,
    pub word_embeddings: bool,
    pub pos_tagging: bool,
    pub stress_markers: bool,
    pub punctuation_features: bool,
}

#[derive(Debug, Clone, Copy, PartialEq, Eq, Structural)]
pub struct AudioFeatures {
    pub mel_spectrograms: bool,
    pub mfcc_features: bool,
    pub pitch_contours: bool,
    pub energy_features: bool,
    pub formant_features: bool,
    pub spectral_features: bool,
}

#[derive(Debug, Clone, Copy, PartialEq, Eq, Structural)]
pub struct ProsodyFeatures {
    pub fundamental_frequency: bool,
    pub speaking_rate: bool,
    pub pause_patterns: bool,
    pub stress_patterns: bool,
    pub intonation_patterns: bool,
    pub rhythm_features: bool,
}

#[derive(Debug, Clone, Copy, PartialEq, Eq, Structural)]
pub struct EmotionFeatures {
    pub emotion_embeddings: bool,
    pub arousal_valence: bool,
    pub emotional_intensity: bool,
    pub emotional_transitions: bool,
    pub contextual_emotions: bool,
}

#[derive(Debug, Clone, Copy, PartialEq, Eq, Structural)]
pub struct SpeakerFeatures {
    pub speaker_embeddings: bool,
    pub vocal_tract_features: bool,
    pub voice_quality_features: bool,
    pub accent_features: bool,
    pub age_gender_features: bool,
}

#[derive(Debug, Clone)]
pub struct FeatureExtractor {
    pub extractor_name: String,
    pub extractor_type: ExtractorType,
    pub window_size: usize,
    pub hop_length: usize,
    pub features_per_frame: usize,
}

#[derive(Debug, Clone, Copy, PartialEq, Eq, Structural)]
pub enum ExtractorType {
    MFCC,
    MelSpectrogram,
    Chroma,
    SpectralCentroid,
    SpectralRolloff,
    ZeroCrossingRate,
    F0_Contour,
    Formants,
}

#[derive(Debug, Clone, Copy, PartialEq, Eq, Structural)]
pub enum CombinationMethod {
    Concatenation,
    WeightedSum,
    Attention,
    GatedFusion,
    MultimodalFusion,
}

#[derive(Debug, Clone, Copy, PartialEq, Eq, Structural)]
pub enum ReductionMethod {
    PCA,
    ICA,
    UMAP,
    t_SNE,
    AutoEncoder,
    LinearProjection,
}

#[derive(Debug, Clone, Copy, PartialEq, Eq, Structural)]
pub struct FeatureNormalization {
    pub normalization_method: NormalizationMethod,
    pub per_channel: bool,
    pub global_statistics: bool,
}

#[derive(Debug, Clone, Copy, PartialEq, Eq, Structural)]
pub enum NormalizationMethod {
    StandardNormalization,
    MinMaxNormalization,
    RobustNormalization,
    UnitNormalization,
}

#[derive(Debug, Clone)]
pub struct SpeakerConditioning {
    pub conditioning_method: ConditioningMethod,
    pub speaker_embedding_size: usize,
    pub conditioning_layers: Vec<ConditioningLayer>,
    pub adaptive_conditioning: bool,
}

#[derive(Debug, Clone, Copy, PartialEq, Eq, Structural)]
pub enum ConditioningMethod {
    Concatenation,
    FeatureWiseLinearModulation,
    AdaptiveBatchNormalization,
    ConditionalLayerNorm,
    AttentionBasedConditioning,
}

#[derive(Debug, Clone)]
pub struct ConditioningLayer {
    pub layer_name: String,
    pub conditioning_type: ConditioningType,
    pub input_dimension: usize,
    pub output_dimension: usize,
}

#[derive(Debug, Clone, Copy, PartialEq, Eq, Structural)]
pub enum ConditioningType {
    Linear,
    Affine,
    Gated,
    Attention,
}

#[derive(Debug, Clone, Copy, PartialEq, Eq, Structural)]
pub enum DecoderType {
    AutoRegressive,
    NonAutoRegressive,
    FlowBased,
    GANBased,
    DiffusionBased,
    HybridDecoder,
}

#[derive(Debug, Clone, Copy, PartialEq, Eq, Structural)]
pub struct OutputFeatures {
    pub mel_spectrograms: bool,
    pub linear_spectrograms: bool,
    pub raw_audio: bool,
    pub intermediate_features: bool,
}

#[derive(Debug, Clone, Copy, PartialEq, Eq, Structural)]
pub enum GenerationType {
    Greedy,
    BeamSearch,
    Sampling,
    NucleusSampling,
    TopK,
    Temperature,
}

#[derive(Debug, Clone, Copy, PartialEq, Eq, Structural)]
pub struct DeterministicConfig {
    pub seed: u64,
    pub consistent_generation: bool,
    pub reproducible_results: bool,
}

#[derive(Debug, Clone, Copy, PartialEq, Eq, Structural)]
pub enum VocoderType {
    WaveNet,
    WaveGlow,
    HiFi_GAN,
    MelGAN,
    Parallel_WaveGAN,
    WaveRNN,
    Neural_Vocoder,
}

#[derive(Debug, Clone, Copy, PartialEq, Eq, Structural)]
pub enum QualityMode {
    RealTime,
    Balanced,
    HighQuality,
    UltraHigh,
}

#[derive(Debug, Clone, Copy, PartialEq, Eq, Structural)]
pub enum ProcessingType {
    NoiseReduction,
    EQ_Adjustment,
    Compression,
    Limiting,
    Reverb,
    Chorus,
    PitchCorrection,
    TimeStretching,
    Normalization,
}

#[derive(Debug, Clone, Copy, PartialEq, Eq, Structural)]
pub enum MovementType {
    Head_Turn,
    Body_Rotation,
    Limb_Movement,
    Gesture,
    Walking,
    Standing,
    Emergency_Movement,
}

#[derive(Debug, Clone, Copy, PartialEq, Eq, Structural)]
pub enum ResonanceType {
    Modal,
    Cavity,
    Helmholtz,
    Plate,
    Shell,
}

#[derive(Debug, Clone, Copy, PartialEq, Eq, Structural)]
pub enum SurfaceType {
    Flat,
    Curved,
    Textured,
    Perforated,
    Composite,
}

#[derive(Debug, Clone)]
pub struct InteractionPatterns {
    pub greeting_patterns: Vec<String>,
    pub response_patterns: Vec<String>,
    pub question_patterns: Vec<String>,
    pub farewell_patterns: Vec<String>,
    pub emergency_patterns: Vec<String>,
}

#[derive(Debug, Clone, Copy, PartialEq, Eq, Structural)]
pub enum ModulationType {
    Prosodic,
    Spectral,
    Temporal,
    Amplitude,
    Hybrid,
}

#[derive(Debug, Clone, Copy, PartialEq, Eq, Structural)]
pub enum AdaptationSpeed {
    Instant,
    Fast,
    Moderate,
    Gradual,
    Slow,
}

#[derive(Debug, Clone, Copy, PartialEq, Eq, Structural)]
pub enum ContourType {
    Rising,
    Falling,
    Level,
    Complex,
    Statement,
    Question,
    Emphasis,
}

#[derive(Debug, Clone, Copy, PartialEq, Eq, Structural)]
pub enum StressLevel {
    Primary,
    Secondary,
    Unstressed,
    Reduced,
}

#[derive(Debug, Clone, Copy, PartialEq, Eq, Structural)]
pub enum IndicatorType {
    Prosodic,
    Spectral,
    Temporal,
    Linguistic,
    Paralinguistic,
}

#[derive(Debug, Clone, Copy, PartialEq, Eq, Structural)]
pub enum PatternType {
    Linear,
    Exponential,
    Sigmoid,
    Oscillatory,
    Stepwise,
}

#[derive(Debug, Clone, Copy, PartialEq, Eq, Structural)]
pub enum AdaptationDirection {
    Increase,
    Decrease,
    Maintain,
    Oscillate,
}

#[derive(Debug, Clone, Copy, PartialEq, Eq, Structural)]
pub enum TrendDirection {
    Improving,
    Declining,
    Stable,
    Fluctuating,
}

#[derive(Debug, Clone, Copy, PartialEq, Eq, Structural)]
pub enum AdjustmentType {
    Parametric,
    NonParametric,
    Neural,
    Statistical,
    Hybrid,
}

#[derive(Debug, Clone, Copy, PartialEq, Eq, Structural)]
pub enum LearningType {
    Supervised,
    Unsupervised,
    Reinforcement,
    SemiSupervised,
    ActiveLearning,
}

#[derive(Debug, Clone)]
pub struct DataRequirements {
    pub minimum_data_size: usize,
    pub data_quality_requirements: Vec<String>,
    pub data_diversity_requirements: Vec<String>,
    pub annotation_requirements: Vec<String>,
}

#[derive(Debug, Clone, Copy, PartialEq, Eq, Structural)]
pub enum FeedbackSourceType {
    UserFeedback,
    AutomaticMetrics,
    ExpertEvaluation,
    ABTesting,
    PerformanceMonitoring,
}

#[derive(Debug, Clone)]
pub struct IntegrationStrategy {
    pub strategy_name: String,
    pub integration_method: IntegrationMethod,
    pub update_frequency: UpdateFrequency,
    pub validation_requirements: Vec<String>,
}

#[derive(Debug, Clone, Copy, PartialEq, Eq, Structural)]
pub enum IntegrationMethod {
    Immediate,
    Batch,
    Streaming,
    Scheduled,
    Triggered,
}

#[derive(Debug, Clone, Copy, PartialEq, Eq, Structural)]
pub enum UpdateFrequency {
    RealTime,
    Hourly,
    Daily,
    Weekly,
    Monthly,
    OnDemand,
}

#[derive(Debug, Clone)]
pub struct UpdateStrategy {
    pub strategy_name: String,
    pub update_scope: UpdateScope,
    pub update_method: UpdateMethod,
    pub risk_assessment: RiskAssessment,
}

#[derive(Debug, Clone, Copy, PartialEq, Eq, Structural)]
pub enum UpdateScope {
    Full,
    Incremental,
    Targeted,
    Experimental,
}

#[derive(Debug, Clone, Copy, PartialEq, Eq, Structural)]
pub enum UpdateMethod {
    GradientDescent,
    EvolutionaryAlgorithm,
    BayesianOptimization,
    ReinforcementLearning,
    TransferLearning,
}

#[derive(Debug, Clone)]
pub struct RiskAssessment {
    pub risk_level: RiskLevel,
    pub potential_impacts: Vec<String>,
    pub mitigation_strategies: Vec<String>,
    pub monitoring_requirements: Vec<String>,
}

#[derive(Debug, Clone, Copy, PartialEq, Eq, Structural)]
pub enum RiskLevel {
    Low,
    Medium,
    High,
    Critical,
}

#[derive(Debug, Clone)]
pub struct VersionControl {
    pub versioning_scheme: String,
    pub version_history_retention: usize,
    pub branching_strategy: String,
    pub merge_policies: Vec<String>,
}

#[derive(Debug, Clone, Copy, PartialEq, Eq, Structural)]
pub enum RollbackScope {
    Complete,
    Partial,
    Component,
    Feature,
}

#[derive(Debug, Clone, Copy, PartialEq, Eq, Structural)]
pub enum TestType {
    UnitTest,
    IntegrationTest,
    PerformanceTest,
    AccuracyTest,
    RegressionTest,
    ABTest,
    UserAcceptanceTest,
}

#[derive(Debug, Clone, Copy, PartialEq, Eq, Structural)]
pub enum MetricType {
    Accuracy,
    Performance,
    Quality,
    Efficiency,
    UserSatisfaction,
    SystemHealth,
}

#[derive(Debug, Clone, Copy, PartialEq, Eq, Structural)]
pub enum MonitoringFrequency {
    Continuous,
    RealTime,
    Periodic,
    OnDemand,
    EventDriven,
}

#[derive(Debug, Clone, Copy, PartialEq, Eq, Structural)]
pub enum AlertSeverity {
    Info,
    Warning,
    Critical,
    Emergency,
}

#[derive(Debug, Clone)]
pub struct NotificationChannel {
    pub channel_name: String,
    pub channel_type: ChannelType,
    pub target_audience: Vec<String>,
    pub message_template: String,
}

#[derive(Debug, Clone, Copy, PartialEq, Eq, Structural)]
pub enum ChannelType {
    Email,
    SMS,
    Slack,
    Dashboard,
    Log,
    API,
}

#[derive(Debug, Clone)]
pub struct EscalationLevel {
    pub level: u8,
    pub responsible_parties: Vec<String>,
    pub required_actions: Vec<String>,
}

#[derive(Debug, Clone)]
pub struct ReportingSystem {
    pub report_types: Vec<ReportType>,
    pub reporting_schedule: ReportingSchedule,
    pub report_distribution: ReportDistribution,
}

#[derive(Debug, Clone)]
pub struct ReportType {
    pub report_name: String,
    pub report_content: Vec<String>,
    pub report_format: ReportFormat,
    pub target_audience: Vec<String>,
}

#[derive(Debug, Clone, Copy, PartialEq, Eq, Structural)]
pub enum ReportFormat {
    PDF,
    HTML,
    JSON,
    CSV,
    Dashboard,
}

#[derive(Debug, Clone)]
pub struct ReportingSchedule {
    pub frequency: ReportingFrequency,
    pub delivery_time: String,
    pub time_zone: String,
}

#[derive(Debug, Clone, Copy, PartialEq, Eq, Structural)]
pub enum ReportingFrequency {
    RealTime,
    Hourly,
    Daily,
    Weekly,
    Monthly,
    Quarterly,
    OnDemand,
}

#[derive(Debug, Clone)]
pub struct ReportDistribution {
    pub distribution_channels: Vec<String>,
    pub access_controls: Vec<String>,
    pub archival_policies: Vec<String>,
}

#[derive(Debug, Clone, Copy, PartialEq, Eq, Structural)]
pub enum EnhancementType {
    NoiseReduction,
    ClarityImprovement,
    NaturalnessEnhancement,
    ConsistencyImprovement,
    PersonalityAlignment,
}

#[derive(Debug, Clone, Copy, PartialEq, Eq, Structural)]
pub enum ArtifactType {
    Click,
    Pop,
    Distortion,
    Noise,
    Echo,
    Reverb,
    Aliasing,
    Clipping,
}

#[derive(Debug, Clone, Copy, PartialEq, Eq, Structural)]
pub enum ModelDeploymentStatus {
    Development,
    Testing,
    Staging,
    Production,
    Deprecated,
    Archived,
}

#[derive(Debug, Clone, Copy, PartialEq, Eq, Structural)]
pub enum CloningAlgorithmType {
    NeuralVocoding,
    SpectralMapping,
    ProsodyTransfer,
    EndToEnd,
    Hybrid,
}

#[derive(Debug, Clone, Copy, PartialEq, Eq, Structural)]
pub enum ProsodyModelType {
    RulesBased,
    Statistical,
    NeuralNetwork,
    HybridModel,
    DeepLearning,
}

#[derive(Debug, Clone, Copy, PartialEq, Eq, Structural)]
pub struct UserEmotionControl {
    pub manual_override: bool,
    pub intensity_slider: bool,
    pub emotion_selection: bool,
    pub real_time_modification: bool,
}

#[derive(Debug, Clone)]
pub struct PipelineStage {
    pub stage_name: String,
    pub stage_type: String,
    pub input_requirements: Vec<String>,
    pub output_specifications: Vec<String>,
}

#[derive(Debug, Clone)]
pub struct DataPreprocessing {
    pub preprocessing_steps: Vec<String>,
    pub quality_filters: Vec<String>,
    pub augmentation_techniques: Vec<String>,
}

#[derive(Debug, Clone)]
pub struct DataOrganization {
    pub categorization_scheme: String,
    pub indexing_system: String,
    pub metadata_management: String,
}

#[derive(Debug, Clone)]
pub struct DataQualityAssurance {
    pub quality_metrics: Vec<String>,
    pub filtering_criteria: Vec<String>,
    pub validation_processes: Vec<String>,
}

#[derive(Debug, Clone)]
pub struct ModelDeploymentManager {
    pub deployment_strategies: Vec<String>,
    pub rollout_procedures: Vec<String>,
    pub monitoring_systems: Vec<String>,
    pub rollback_procedures: Vec<String>,
}

impl Default for UserEmotionControl {
    /// Every user control over emotion enabled.
    fn default() -> (c: Self)
        ensures
            c == (UserEmotionControl {
                manual_override: true,
                intensity_slider: true,
                emotion_selection: true,
                real_time_modification: true,
            }),
    {
        UserEmotionControl {
            manual_override: true,
            intensity_slider: true,
            emotion_selection: true,
            real_time_modification: true,
        }
    }
}

impl Default for DataPreprocessing {
    /// Normalize and filter; keep clips by signal-to-noise ratio and
    /// duration; augment by pitch shifting and time stretching.
    fn default() -> (d: Self)
        ensures
            strings_view(d.preprocessing_steps@) == seq!["normalization"@, "filtering"@],
            strings_view(d.quality_filters@) == seq!["SNR_threshold"@, "duration_filter"@],
            strings_view(d.augmentation_techniques@) == seq!["pitch_shift"@, "time_stretch"@],
    {
        DataPreprocessing {
            preprocessing_steps: svec2("normalization", "filtering"),
            quality_filters: svec2("SNR_threshold", "duration_filter"),
            augmentation_techniques: svec2("pitch_shift", "time_stretch"),
        }
    }
}

impl Default for DataOrganization {
    /// Hierarchical categories, hash-based indexing, metadata under a JSON
    /// schema.
    fn default() -> (d: Self)
        ensures
            d.categorization_scheme@ == "hierarchical"@,
            d.indexing_system@ == "hash_based"@,
            d.metadata_management@ == "json_schema"@,
    {
        DataOrganization {
            categorization_scheme: String::from_str("hierarchical"),
            indexing_system: String::from_str("hash_based"),
            metadata_management: String::from_str("json_schema"),
        }
    }
}

impl Default for DataQualityAssurance {
    /// Measured by signal-to-noise ratio and clarity, filtered by duration
    /// and a quality threshold, validated by hand and automatically.
    fn default() -> (d: Self)
        ensures
            strings_view(d.quality_metrics@) == seq!["SNR"@, "clarity"@],
            strings_view(d.filtering_criteria@) == seq!["duration_range"@, "quality_threshold"@],
            strings_view(d.validation_processes@) == seq!["manual_review"@, "automated_check"@],
    {
        DataQualityAssurance {
            quality_metrics: svec2("SNR", "clarity"),
            filtering_criteria: svec2("duration_range", "quality_threshold"),
            validation_processes: svec2("manual_review", "automated_check"),
        }
    }
}

impl Default for ModelDeploymentManager {
    /// Blue-green and canary deployments, rolled out in stages, monitored
    /// for performance and quality, rolled back automatically or by hand.
    fn default() -> (d: Self)
        ensures
            strings_view(d.deployment_strategies@) == seq!["blue_green"@, "canary"@],
            strings_view(d.rollout_procedures@) == seq!["staged_rollout"@, "gradual_deployment"@],
            strings_view(d.monitoring_systems@) == seq!["performance_monitoring"@, "quality_monitoring"@],
            strings_view(d.rollback_procedures@) == seq!["automatic_rollback"@, "manual_rollback"@],
    {
        ModelDeploymentManager {
            deployment_strategies: svec2("blue_green", "canary"),
            rollout_procedures: svec2("staged_rollout", "gradual_deployment"),
            monitoring_systems: svec2("performance_monitoring", "quality_monitoring"),
            rollback_procedures: svec2("automatic_rollback", "manual_rollback"),
        }
    }
}

} // verus!
