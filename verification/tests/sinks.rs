use blazingrail::config::{KafkaRoutingConfig, PipelineConfig};
use blazingrail::models::EventInput;
use blazingrail::sink::{plan_sinks, SinkError, SinkPlan};
use blazingrail::sinks::file::frame_batch;
use blazingrail::sinks::kafka::KafkaSink;

fn routing() -> KafkaRoutingConfig {
    KafkaRoutingConfig {
        default_topic: "blazing_events".to_string(),
        topic_mapping: vec![("load_test".to_string(), "test".to_string())],
    }
}

#[test]
fn default_pipeline_config() {
    let c = PipelineConfig::default();
    assert_eq!(c.batch_size, 512);
    assert_eq!(c.batch_capacity, 8192);
    assert_eq!(c.flush_timeout_ms, 128);
    assert_eq!(c.prime_path, "/dev/null");
    assert!(!c.enable_kafka);
    assert_eq!(c.kafka_routing_conf_path, "kafka_routing.yaml");
    assert_eq!(c.kafka_brokers, "127.0.0.1:9092");
    assert_eq!(c.kafka_timeout_ms, 512);
    assert_eq!(c.kafka_timeout_slack_ms, 1024);
    assert_eq!(c.kafka_compression, "lz4");
    assert!(!c.enable_circuit_breaker);
    assert_eq!(c.circuit_breaker_threshold, 2);
    assert_eq!(c.circuit_breaker_timeout, 2048);
}

#[test]
fn mapped_event_type_goes_to_its_topic() {
    let sink = KafkaSink::new(&PipelineConfig::default(), &routing());
    assert_eq!(sink.topic_for(&"load_test".to_string()), "test");
}

#[test]
fn other_event_types_go_to_the_default_topic() {
    let sink = KafkaSink::new(&PipelineConfig::default(), &routing());
    assert_eq!(sink.topic_for(&"user_action".to_string()), "blazing_events");
}

#[test]
fn first_mapping_entry_counts() {
    let mut r = routing();
    r.topic_mapping.push(("load_test".to_string(), "other".to_string()));
    let sink = KafkaSink::new(&PipelineConfig::default(), &r);
    assert_eq!(sink.topic_for(&"load_test".to_string()), "test");
}

#[test]
fn kafka_record_of_an_event() {
    let sink = KafkaSink::new(&PipelineConfig::default(), &routing());
    let record = sink.record_for(EventInput { event_type: "load_test".to_string(), payload: "{\"id\":1}".to_string() });
    assert_eq!(record.topic, "test");
    assert_eq!(record.key, "load_test");
    assert_eq!(record.payload, "{\"id\":1}");
}

#[test]
fn kafka_batch_timeout_adds_the_slack() {
    let sink = KafkaSink::new(&PipelineConfig::default(), &routing());
    assert_eq!(sink.timeout_ms(), 1536);
}

#[test]
fn producer_settings_from_config() {
    let mut c = PipelineConfig::default();
    c.kafka_timeout_ms = 7009;
    let s = KafkaSink::producer_settings(&c);
    let expected: Vec<(String, String)> = vec![
        ("bootstrap.servers", "127.0.0.1:9092"),
        ("message.timeout.ms", "7009"),
        ("request.required.acks", "1"),
        ("queue.buffering.max.ms", "0"),
        ("compression.type", "lz4"),
        ("message.send.max.retries", "3"),
        ("retry.backoff.ms", "100"),
        ("socket.keepalive.enable", "true"),
        ("socket.nagle.disable", "true"),
    ]
    .into_iter()
    .map(|(k, v)| (k.to_string(), v.to_string()))
    .collect();
    assert_eq!(s, expected);
}

#[test]
fn batch_outcome_is_the_first_failure() {
    assert!(KafkaSink::batch_outcome(vec![Ok(()), Ok(())]).is_ok());
    assert!(KafkaSink::batch_outcome(vec![]).is_ok());
    let r = KafkaSink::batch_outcome(vec![
        Ok(()),
        Err(SinkError::KafkaPublish("first".to_string())),
        Err(SinkError::KafkaPublish("second".to_string())),
    ]);
    match r {
        Err(SinkError::KafkaPublish(m)) => assert_eq!(m, "first"),
        _ => panic!("expected the first failure"),
    }
}

#[test]
fn sink_error_messages() {
    assert_eq!(SinkError::Io("disk".to_string()).message(), "Error: disk");
    assert_eq!(SinkError::Serialization("bad".to_string()).message(), "Serialization error: bad");
    assert_eq!(SinkError::ChannelClosed.message(), "Channel is closed");
    assert_eq!(SinkError::MutexPoisoned.message(), "Mutex poisoned");
    assert_eq!(SinkError::TaskFailed("join".to_string()).message(), "Blocking task failed: join");
    assert_eq!(SinkError::KafkaPublish("x".to_string()).message(), "Kafka publish failed: x");
    assert_eq!(SinkError::Timeout.message(), "Kafka batch send timeout");
}

#[test]
fn json_lines_framing() {
    let records = vec![b"{\"a\":1}".to_vec(), b"{\"b\":2}".to_vec()];
    assert_eq!(frame_batch(&records), b"{\"a\":1}\n{\"b\":2}\n".to_vec());
    assert!(frame_batch(&vec![]).is_empty());
}

#[test]
fn sink_plans() {
    let mut c = PipelineConfig::default();
    assert_eq!(plan_sinks(&c), SinkPlan::File);
    c.enable_circuit_breaker = true;
    assert_eq!(plan_sinks(&c), SinkPlan::File);
    c.enable_kafka = true;
    assert_eq!(plan_sinks(&c), SinkPlan::KafkaWithFileFallback);
    c.enable_circuit_breaker = false;
    assert_eq!(plan_sinks(&c), SinkPlan::Kafka);
}
