//! Why a sink failed to take a batch.

use vstd::prelude::*;
use vstd::string::*;
use crate::config::PipelineConfig;

verus! {

/// A sink's failure, with the text of its cause where it has one.
#[derive(Debug)]
pub enum SinkError {
    Io(String),
    Serialization(String),
    ChannelClosed,
    MutexPoisoned,
    TaskFailed(String),
    KafkaPublish(String),
    Timeout,
}

impl SinkError {
    /// The text of the error, as the service logs it.
    pub open spec fn spec_message(&self) -> Seq<char> {
        match self {
            SinkError::Io(e) => "Error: "@ + e@,
            SinkError::Serialization(e) => "Serialization error: "@ + e@,
            SinkError::ChannelClosed => "Channel is closed"@,
            SinkError::MutexPoisoned => "Mutex poisoned"@,
            SinkError::TaskFailed(e) => "Blocking task failed: "@ + e@,
            SinkError::KafkaPublish(e) => "Kafka publish failed: "@ + e@,
            SinkError::Timeout => "Kafka batch send timeout"@,
        }
    }

    pub fn message(&self) -> (s: String)
        ensures
            s@ == self.spec_message(),
    {
        match self {
            SinkError::Io(e) => String::from_str("Error: ").concat(e.as_str()),
            SinkError::Serialization(e) => String::from_str("Serialization error: ").concat(e.as_str()),
            SinkError::ChannelClosed => String::from_str("Channel is closed"),
            SinkError::MutexPoisoned => String::from_str("Mutex poisoned"),
            SinkError::TaskFailed(e) => String::from_str("Blocking task failed: ").concat(e.as_str()),
            SinkError::KafkaPublish(e) => String::from_str("Kafka publish failed: ").concat(e.as_str()),
            SinkError::Timeout => String::from_str("Kafka batch send timeout"),
        }
    }
}

/// Which sinks the pipeline writes to.
#[derive(Debug, Clone, Copy, PartialEq, Eq, Structural)]
pub enum SinkPlan {
    /// The file sink alone.
    File,
    /// The Kafka sink alone.
    Kafka,
    /// The Kafka sink behind a circuit breaker, with the file sink as the
    /// fallback.
    KafkaWithFileFallback,
}

/// The sinks that the configuration asks for: the file sink unless Kafka is
/// enabled; Kafka behind the circuit breaker where the breaker is enabled.
pub fn plan_sinks(pipeline_config: &PipelineConfig) -> (plan: SinkPlan)
    ensures
        plan == if !pipeline_config.enable_kafka {
            SinkPlan::File
        } else if pipeline_config.enable_circuit_breaker {
            SinkPlan::KafkaWithFileFallback
        } else {
            SinkPlan::Kafka
        },
{
    if !pipeline_config.enable_kafka {
        SinkPlan::File
    } else if pipeline_config.enable_circuit_breaker {
        SinkPlan::KafkaWithFileFallback
    } else {
        SinkPlan::Kafka
    }
}

} // verus!
