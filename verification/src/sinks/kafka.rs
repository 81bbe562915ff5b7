//! What the Kafka sink computes: the producer's settings, the topic and
//! record of each event, and the outcome of a batch.

use vstd::prelude::*;
use vstd::string::*;
use crate::config::{KafkaRoutingConfig, PipelineConfig};
use crate::models::EventInput;
use crate::sink::SinkError;
use crate::text::{decimal_digits, u64_to_decimal};

verus! {

/// The topic of events of type `key`: the first mapping entry for it, or
/// the default topic.
pub open spec fn topic_for(mapping: Seq<(Seq<char>, Seq<char>)>, default_topic: Seq<char>, key: Seq<char>) -> Seq<char>
    decreases mapping.len(),
{
    if mapping.len() == 0 {
        default_topic
    } else if mapping[0].0 == key {
        mapping[0].1
    } else {
        topic_for(mapping.drop_first(), default_topic, key)
    }
}

/// Events whose type the mapping lists go to the topic of its first entry
/// for that type; all others go to the default topic.
pub proof fn lemma_topic_routing(mapping: Seq<(Seq<char>, Seq<char>)>, default_topic: Seq<char>, key: Seq<char>)
    ensures
        (forall|i: int| 0 <= i < mapping.len() ==> mapping[i].0 != key)
            ==> topic_for(mapping, default_topic, key) == default_topic,
        forall|i: int| 0 <= i < mapping.len() && mapping[i].0 == key
            && (forall|j: int| 0 <= j < i ==> mapping[j].0 != key)
            ==> topic_for(mapping, default_topic, key) == mapping[i].1,
    decreases mapping.len(),
{
    if mapping.len() > 0 {
        let rest = mapping.drop_first();
        lemma_topic_routing(rest, default_topic, key);
        assert forall|i: int| 0 <= i < mapping.len() && mapping[i].0 == key
            && (forall|j: int| 0 <= j < i ==> mapping[j].0 != key)
            implies topic_for(mapping, default_topic, key) == mapping[i].1 by {
            if i > 0 {
                assert(mapping[0].0 != key);
                assert(rest[i - 1] == mapping[i]);
                assert forall|j: int| 0 <= j < i - 1 implies rest[j].0 != key by {
                    assert(rest[j] == mapping[j + 1]);
                }
            }
        }
        if forall|i: int| 0 <= i < mapping.len() ==> mapping[i].0 != key {
            assert(mapping[0].0 != key);
            assert forall|i: int| 0 <= i < rest.len() implies rest[i].0 != key by {
                assert(rest[i] == mapping[i + 1]);
            }
        }
    }
}

/// A list of pairs of strings as pairs of texts.
pub open spec fn pairs_view(pairs: Seq<(String, String)>) -> Seq<(Seq<char>, Seq<char>)> {
    pairs.map_values(|p: (String, String)| (p.0@, p.1@))
}

/// The settings of the producer, in the order in which they are set.
pub open spec fn spec_producer_settings(c: PipelineConfig) -> Seq<(Seq<char>, Seq<char>)> {
    seq![
        ("bootstrap.servers"@, c.kafka_brokers@),
        ("message.timeout.ms"@, decimal_digits(c.kafka_timeout_ms as nat)),
        ("request.required.acks"@, "1"@),
        ("queue.buffering.max.ms"@, "0"@),
        ("compression.type"@, c.kafka_compression@),
        ("message.send.max.retries"@, "3"@),
        ("retry.backoff.ms"@, "100"@),
        ("socket.keepalive.enable"@, "true"@),
        ("socket.nagle.disable"@, "true"@),
    ]
}

/// The value that a list of settings gives `key`: that of its first entry
/// for the key, if any.
pub open spec fn setting_value(settings: Seq<(Seq<char>, Seq<char>)>, key: Seq<char>) -> Option<Seq<char>>
    decreases settings.len(),
{
    if settings.len() == 0 {
        None
    } else if settings[0].0 == key {
        Some(settings[0].1)
    } else {
        setting_value(settings.drop_first(), key)
    }
}

/// The producer gets the configured brokers, delivery timeout (in decimal)
/// and compression exactly as configured, and each setting is named once.
pub proof fn lemma_producer_settings_carry_config(c: PipelineConfig)
    ensures
        setting_value(spec_producer_settings(c), "bootstrap.servers"@) == Some(c.kafka_brokers@),
        setting_value(spec_producer_settings(c), "message.timeout.ms"@) == Some(decimal_digits(c.kafka_timeout_ms as nat)),
        setting_value(spec_producer_settings(c), "compression.type"@) == Some(c.kafka_compression@),
        spec_producer_settings(c).len() == 9,
        forall|i: int, j: int| 0 <= i < j < spec_producer_settings(c).len()
            ==> spec_producer_settings(c)[i].0 != spec_producer_settings(c)[j].0,
{
    reveal_with_fuel(setting_value, 6);
    reveal_strlit("bootstrap.servers");
    reveal_strlit("message.timeout.ms");
    reveal_strlit("request.required.acks");
    reveal_strlit("queue.buffering.max.ms");
    reveal_strlit("compression.type");
    reveal_strlit("message.send.max.retries");
    reveal_strlit("retry.backoff.ms");
    reveal_strlit("socket.keepalive.enable");
    reveal_strlit("socket.nagle.disable");
    let s = spec_producer_settings(c);
    let keys = seq![
        "bootstrap.servers"@, "message.timeout.ms"@, "request.required.acks"@,
        "queue.buffering.max.ms"@, "compression.type"@, "message.send.max.retries"@,
        "retry.backoff.ms"@, "socket.keepalive.enable"@, "socket.nagle.disable"@,
    ];
    assert forall|i: int| 0 <= i < 9 implies #[trigger] s[i].0 == keys[i] by {}
    // Each name differs from every other by its length or its first letters.
    assert forall|i: int, j: int| 0 <= i < j < 9 implies keys[i] != keys[j] by {
        if keys[i] == keys[j] {
            assert(keys[i].len() == keys[j].len());
            assert(keys[i][0] == keys[j][0]);
            assert(keys[i][1] == keys[j][1]);
            assert(keys[i][7] == keys[j][7]);
        }
    }
    assert(s.drop_first().drop_first().drop_first().drop_first()[0] == s[4]);
    assert(s.drop_first()[0] == s[1]);
    assert(s.drop_first().drop_first()[0] == s[2]);
    assert(s.drop_first().drop_first().drop_first()[0] == s[3]);
}

/// The first failure among the outcomes of a batch's events, if any.
pub open spec fn first_failure(results: Seq<Result<(), SinkError>>) -> Option<int>
    decreases results.len(),
{
    if results.len() == 0 {
        None
    } else if results[0] is Err {
        Some(0)
    } else {
        match first_failure(results.drop_first()) {
            Some(i) => Some(i + 1),
            None => None,
        }
    }
}

/// A batch fails exactly when one of its events failed, and then with the
/// failure of the first event that failed.
pub proof fn lemma_first_failure(results: Seq<Result<(), SinkError>>)
    ensures
        first_failure(results) is None <==> forall|i: int| 0 <= i < results.len() ==> results[i] is Ok,
        first_failure(results) matches Some(k) ==> {
            &&& 0 <= k < results.len()
            &&& results[k] is Err
            &&& forall|j: int| 0 <= j < k ==> results[j] is Ok
        },
    decreases results.len(),
{
    if results.len() > 0 {
        let rest = results.drop_first();
        lemma_first_failure(rest);
        assert forall|i: int| 0 <= i < rest.len() implies rest[i] == results[i + 1] by {}
        if results[0] is Ok {
            if forall|i: int| 0 <= i < rest.len() ==> rest[i] is Ok {
                assert forall|i: int| 0 <= i < results.len() implies results[i] is Ok by {
                    if i > 0 {
                        assert(rest[i - 1] is Ok);
                    }
                }
            }
            match first_failure(rest) {
                Some(k) => {
                    assert forall|j: int| 0 <= j < k + 1 implies results[j] is Ok by {
                        if j > 0 {
                            assert(rest[j - 1] is Ok);
                        }
                    }
                },
                None => {},
            }
        }
    }
}

/// One event as Kafka takes it: the topic, the key (the event's type) and
/// the payload's JSON text.
pub struct KafkaRecord {
    pub topic: String,
    pub key: String,
    pub payload: String,
}

/// The sink's routing and its batch timeout.
pub struct KafkaSinkView {
    pub timeout_ms: nat,
    pub routing: Seq<(Seq<char>, Seq<char>)>,
    pub default_topic: Seq<char>,
}

/// The routing and timeout of the Kafka sink; the producer that sends its
/// records stands beside it.
pub struct KafkaSink {
    timeout_ms: u64,
    routing: Vec<(String, String)>,
    default_topic: String,
}

impl View for KafkaSink {
    type V = KafkaSinkView;

    closed spec fn view(&self) -> KafkaSinkView {
        KafkaSinkView {
            timeout_ms: self.timeout_ms as nat,
            routing: pairs_view(self.routing@),
            default_topic: self.default_topic@,
        }
    }
}

fn copy_pairs(pairs: &Vec<(String, String)>) -> (out: Vec<(String, String)>)
    ensures
        pairs_view(out@) == pairs_view(pairs@),
{
    let mut out: Vec<(String, String)> = Vec::new();
    let mut i: usize = 0;
    while i < pairs.len()
        invariant
            i <= pairs@.len(),
            pairs_view(out@) =~= pairs_view(pairs@).take(i as int),
        decreases pairs@.len() - i,
    {
        let key = pairs[i].0.clone();
        let topic = pairs[i].1.clone();
        out.push((key, topic));
        assert(pairs_view(pairs@).take(i + 1) =~= pairs_view(pairs@).take(i as int).push(pairs_view(pairs@)[i as int]));
        i = i + 1;
    }
    out
}

impl KafkaSink {
    /// The producer's settings: brokers, delivery timeout and compression
    /// from the configuration, with fixed acknowledgement, batching, retry
    /// and socket settings.
    pub fn producer_settings(pipeline_config: &PipelineConfig) -> (settings: Vec<(String, String)>)
        ensures
            pairs_view(settings@) == spec_producer_settings(*pipeline_config),
            settings@.len() == 9,
            settings@[0].0@ == "bootstrap.servers"@ && settings@[0].1@ == pipeline_config.kafka_brokers@,
            settings@[1].0@ == "message.timeout.ms"@
                && settings@[1].1@ == decimal_digits(pipeline_config.kafka_timeout_ms as nat),
            settings@[4].0@ == "compression.type"@ && settings@[4].1@ == pipeline_config.kafka_compression@,
    {
        let mut settings: Vec<(String, String)> = Vec::new();
        settings.push((String::from_str("bootstrap.servers"), pipeline_config.kafka_brokers.clone()));
        settings.push((String::from_str("message.timeout.ms"), u64_to_decimal(pipeline_config.kafka_timeout_ms)));
        settings.push((String::from_str("request.required.acks"), String::from_str("1")));
        settings.push((String::from_str("queue.buffering.max.ms"), String::from_str("0")));
        settings.push((String::from_str("compression.type"), pipeline_config.kafka_compression.clone()));
        settings.push((String::from_str("message.send.max.retries"), String::from_str("3")));
        settings.push((String::from_str("retry.backoff.ms"), String::from_str("100")));
        settings.push((String::from_str("socket.keepalive.enable"), String::from_str("true")));
        settings.push((String::from_str("socket.nagle.disable"), String::from_str("true")));
        assert(pairs_view(settings@) =~= spec_producer_settings(*pipeline_config));
        settings
    }

    /// The sink's routing, from the routing configuration, and its batch
    /// timeout: the delivery timeout plus its slack.
    pub fn new(pipeline_config: &PipelineConfig, routing_config: &KafkaRoutingConfig) -> (sink: KafkaSink)
        requires
            pipeline_config.kafka_timeout_ms + pipeline_config.kafka_timeout_slack_ms <= u64::MAX,
        ensures
            sink@ == (KafkaSinkView {
                timeout_ms: (pipeline_config.kafka_timeout_ms + pipeline_config.kafka_timeout_slack_ms) as nat,
                routing: pairs_view(routing_config.topic_mapping@),
                default_topic: routing_config.default_topic@,
            }),
    {
        KafkaSink {
            timeout_ms: pipeline_config.kafka_timeout_ms + pipeline_config.kafka_timeout_slack_ms,
            routing: copy_pairs(&routing_config.topic_mapping),
            default_topic: routing_config.default_topic.clone(),
        }
    }

    /// How long a whole batch may take.
    pub fn timeout_ms(&self) -> (t: u64)
        ensures
            t == self@.timeout_ms,
    {
        self.timeout_ms
    }

    /// The topic that events of this type go to.
    pub fn topic_for(&self, event_type: &String) -> (topic: String)
        ensures
            topic@ == topic_for(self@.routing, self@.default_topic, event_type@),
    {
        let mut i: usize = 0;
        assert(self@.routing.skip(0) =~= self@.routing);
        while i < self.routing.len()
            invariant
                i <= self.routing@.len(),
                topic_for(self@.routing, self@.default_topic, event_type@)
                    == topic_for(self@.routing.skip(i as int), self@.default_topic, event_type@),
            decreases self.routing@.len() - i,
        {
            let ghost rest = self@.routing.skip(i as int);
            assert(rest[0] == self@.routing[i as int]);
            if self.routing[i].0 == *event_type {
                return self.routing[i].1.clone();
            }
            assert(rest.drop_first() =~= self@.routing.skip(i + 1));
            i = i + 1;
        }
        assert(self@.routing.skip(i as int) =~= Seq::<(Seq<char>, Seq<char>)>::empty());
        self.default_topic.clone()
    }

    /// The record of an event: its topic, its type as key, its payload.
    pub fn record_for(&self, input: EventInput) -> (record: KafkaRecord)
        ensures
            record.topic@ == topic_for(self@.routing, self@.default_topic, input.event_type@),
            record.key@ == input.event_type@,
            record.payload@ == input.payload@,
    {
        let topic = self.topic_for(&input.event_type);
        KafkaRecord { topic, key: input.event_type, payload: input.payload }
    }

    /// The outcome of a batch from the outcomes of its events, in order:
    /// the first failure, or success when every event was delivered.
    pub fn batch_outcome(results: Vec<Result<(), SinkError>>) -> (r: Result<(), SinkError>)
        ensures
            match first_failure(results@) {
                Some(i) => r == results@[i],
                None => r is Ok,
            },
            r is Ok <==> forall|i: int| 0 <= i < results@.len() ==> results@[i] is Ok,
            r is Err ==> exists|i: int| 0 <= i < results@.len() && r == results@[i]
                && forall|j: int| 0 <= j < i ==> results@[j] is Ok,
    {
        let ghost original = results@;
        let mut outcomes = results;
        let mut i: usize = 0;
        assert(outcomes@.skip(0) =~= outcomes@);
        while i < outcomes.len()
            invariant
                i <= outcomes@.len(),
                outcomes@ == original,
                original == results@,
                first_failure(outcomes@) == match first_failure(outcomes@.skip(i as int)) {
                    Some(k) => Some(k + i),
                    None => None,
                },
            decreases outcomes@.len() - i,
        {
            let ghost rest = outcomes@.skip(i as int);
            assert(rest[0] == outcomes@[i as int]);
            if outcomes[i].is_err() {
                assert(first_failure(rest) == Some(0int));
                proof {
                    lemma_first_failure(original);
                }
                return outcomes.remove(i);
            }
            assert(rest.drop_first() =~= outcomes@.skip(i + 1));
            i = i + 1;
        }
        assert(outcomes@.skip(i as int) =~= Seq::<Result<(), SinkError>>::empty());
        proof {
            lemma_first_failure(original);
        }
        Ok(())
    }
}

} // verus!
