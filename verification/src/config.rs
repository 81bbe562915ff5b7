//! Settings of the pipeline and of Kafka routing, with their built-in defaults.

use vstd::prelude::*;
use vstd::string::*;

verus! {

/// How events go to their sink. Every setting has a default; the service
/// overrides only what its environment names.
pub struct PipelineConfig {
    pub batch_size: usize,
    pub batch_capacity: usize,
    pub flush_timeout_ms: u64,
    pub prime_path: String,
    pub enable_kafka: bool,
    pub kafka_routing_conf_path: String,
    pub kafka_brokers: String,
    pub kafka_timeout_ms: u64,
    pub kafka_timeout_slack_ms: u64,
    pub kafka_compression: String,
    pub enable_circuit_breaker: bool,
    pub circuit_breaker_threshold: usize,
    pub circuit_breaker_timeout: u64,
}

impl PipelineConfig {
    /// The settings that hold where nothing overrides them.
    pub open spec fn is_default(&self) -> bool {
        &&& self.batch_size == 512
        &&& self.batch_capacity == 8192
        &&& self.flush_timeout_ms == 128
        &&& self.prime_path@ == "/dev/null"@
        &&& !self.enable_kafka
        &&& self.kafka_routing_conf_path@ == "kafka_routing.yaml"@
        &&& self.kafka_brokers@ == "127.0.0.1:9092"@
        &&& self.kafka_timeout_ms == 512
        &&& self.kafka_timeout_slack_ms == 1024
        &&& self.kafka_compression@ == "lz4"@
        &&& !self.enable_circuit_breaker
        &&& self.circuit_breaker_threshold == 2
        &&& self.circuit_breaker_timeout == 2048
    }
}

impl Default for PipelineConfig {
    fn default() -> (c: PipelineConfig)
        ensures
            c.is_default(),
    {
        PipelineConfig {
            batch_size: 512,
            batch_capacity: 8192,
            flush_timeout_ms: 128,
            prime_path: String::from_str("/dev/null"),
            enable_kafka: false,
            kafka_routing_conf_path: String::from_str("kafka_routing.yaml"),
            kafka_brokers: String::from_str("127.0.0.1:9092"),
            kafka_timeout_ms: 512,
            kafka_timeout_slack_ms: 1024,
            kafka_compression: String::from_str("lz4"),
            enable_circuit_breaker: false,
            circuit_breaker_threshold: 2,
            circuit_breaker_timeout: 2048,
        }
    }
}

/// Where Kafka events go: a topic per event type, and a default topic for
/// every other type. Where a type is listed more than once, its first entry
/// counts.
pub struct KafkaRoutingConfig {
    pub default_topic: String,
    pub topic_mapping: Vec<(String, String)>,
}

} // verus!
