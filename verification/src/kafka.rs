//! Kafka configuration (global settings with per-topic overrides), topic
//! names, message payloads, and the producer and consumer handles.
use vstd::prelude::*;
use crate::text::{concat, owned, str_eq};
use core::time::Duration;

verus! {

/// What `Duration::from_millis` gives for a number of milliseconds.
pub uninterp spec fn duration_of_millis(ms: int) -> Duration;

/// What `Duration::from_secs` gives for a number of seconds.
pub uninterp spec fn duration_of_secs(secs: int) -> Duration;

/// `Duration::from_millis`.
#[verifier::external_body]
pub(crate) fn millis(ms: u64) -> (r: Duration)
    ensures
        r == duration_of_millis(ms as int),
{
    Duration::from_millis(ms)
}

/// `Duration::from_secs`.
#[verifier::external_body]
pub(crate) fn secs(s: u64) -> (r: Duration)
    ensures
        r == duration_of_secs(s as int),
{
    Duration::from_secs(s)
}

/// A duration of `ms` milliseconds when positive, else the default.
pub open spec fn millis_or(ms: i32, default: Duration) -> Duration {
    if ms > 0 {
        duration_of_millis(ms as int)
    } else {
        default
    }
}

/// Per-topic producer overrides; zero and empty values leave the global
/// settings in force.
pub struct ProducerTopicConfig {
    pub acks: String,
    pub compression: String,
    pub retries: i32,
    pub retry_backoff_ms: i32,
    pub linger_ms: i32,
    pub batch_size: i32,
    pub max_message_bytes: i32,
}

/// Global producer settings and the overrides of each topic.
pub struct ProducerConfig {
    pub brokers: Vec<String>,
    pub client_id: String,
    pub topic: String,
    pub compression: String,
    pub linger_ms: i32,
    pub required_acks: i32,
    pub request_timeout_ms: i32,
    pub batch_max_bytes: i32,
    pub topics: Vec<(String, ProducerTopicConfig)>,
}

/// Per-topic consumer overrides; zero and empty values leave the global
/// settings in force.
pub struct ConsumerTopicConfig {
    pub group_id: String,
    pub auto_offset_reset: String,
    pub auto_commit_interval_ms: i32,
    pub fetch_min_bytes: i32,
    pub fetch_max_wait_ms: i32,
    pub concurrency: i32,
}

/// Global consumer settings and the overrides of each topic.
pub struct ConsumerConfig {
    pub brokers: Vec<String>,
    pub client_id: String,
    pub group_id: String,
    pub auto_offset_reset: String,
    pub default_topics: Vec<String>,
    pub max_poll_records: i32,
    pub fetch_max_wait_ms: i32,
    pub session_timeout_ms: i32,
    pub heartbeat_interval_ms: i32,
    pub concurrency: i32,
    pub fetch_max_bytes: i32,
    pub fetch_min_bytes: i32,
    pub topics: Vec<(String, ConsumerTopicConfig)>,
}

/// The `[kafka]` configuration.
pub struct KafkaConfig {
    pub producer: ProducerConfig,
    pub consumer: ConsumerConfig,
}

/// The overrides listed first under `topic`.
pub open spec fn topic_entry<T>(s: Seq<(String, T)>, topic: Seq<char>) -> Option<T>
    decreases s.len(),
{
    if s.len() == 0 {
        None
    } else if s[0].0@ == topic {
        Some(s[0].1)
    } else {
        topic_entry(s.drop_first(), topic)
    }
}

fn find_topic<T>(s: &Vec<(String, T)>, topic: &str) -> (r: Option<usize>)
    ensures
        match r {
            Some(i) => i < s.len() && topic_entry(s@, topic@) == Some(s@[i as int].1),
            None => topic_entry(s@, topic@) is None,
        },
{
    let mut i: usize = 0;
    assert(s@.subrange(0, s.len() as int) =~= s@);
    while i < s.len()
        invariant
            i <= s.len(),
            topic_entry(s@, topic@) == topic_entry(s@.subrange(i as int, s.len() as int), topic@),
        decreases s.len() - i,
    {
        let ghost rest = s@.subrange(i as int, s.len() as int);
        assert(rest.drop_first() =~= s@.subrange(i + 1, s.len() as int));
        if str_eq(s[i].0.as_str(), topic) {
            return Some(i);
        }
        i = i + 1;
    }
    None
}

/// A producer topic configuration by its text.
pub struct ProducerTopicView {
    pub acks: Seq<char>,
    pub compression: Seq<char>,
    pub retries: i32,
    pub retry_backoff_ms: i32,
    pub linger_ms: i32,
    pub batch_size: i32,
    pub max_message_bytes: i32,
}

impl View for ProducerTopicConfig {
    type V = ProducerTopicView;

    open spec fn view(&self) -> ProducerTopicView {
        ProducerTopicView {
            acks: self.acks@,
            compression: self.compression@,
            retries: self.retries,
            retry_backoff_ms: self.retry_backoff_ms,
            linger_ms: self.linger_ms,
            batch_size: self.batch_size,
            max_message_bytes: self.max_message_bytes,
        }
    }
}

/// A value, or its override when the override is set.
pub open spec fn override_num(base: i32, ov: i32) -> i32 {
    if ov > 0 {
        ov
    } else {
        base
    }
}

/// A text, or its override when the override is not empty.
pub open spec fn override_text(base: Seq<char>, ov: Seq<char>) -> Seq<char> {
    if ov.len() > 0 {
        ov
    } else {
        base
    }
}

/// The global batch size limit, 1 MiB when unset.
pub open spec fn batch_max_bytes_of(c: ProducerConfig) -> i32 {
    if c.batch_max_bytes > 0 {
        c.batch_max_bytes
    } else {
        1048576
    }
}

/// The settings in force for a topic: the global compression, batch limit
/// and linger, each replaced by the topic's override where it sets one.
pub open spec fn effective_producer(c: ProducerConfig, topic: Seq<char>) -> ProducerTopicView {
    let base = ProducerTopicView {
        acks: Seq::empty(),
        compression: c.compression@,
        retries: 0,
        retry_backoff_ms: 0,
        linger_ms: c.linger_ms,
        batch_size: 0,
        max_message_bytes: batch_max_bytes_of(c),
    };
    match topic_entry(c.topics@, topic) {
        None => base,
        Some(ov) => ProducerTopicView {
            acks: override_text(base.acks, ov.acks@),
            compression: override_text(base.compression, ov.compression@),
            retries: override_num(base.retries, ov.retries),
            retry_backoff_ms: override_num(base.retry_backoff_ms, ov.retry_backoff_ms),
            linger_ms: override_num(base.linger_ms, ov.linger_ms),
            batch_size: override_num(base.batch_size, ov.batch_size),
            max_message_bytes: override_num(base.max_message_bytes, ov.max_message_bytes),
        },
    }
}

fn pick_text(base: &String, ov: &String) -> (r: String)
    ensures
        r@ == override_text(base@, ov@),
{
    if ov.as_str().is_empty() {
        base.clone()
    } else {
        ov.clone()
    }
}

fn pick_num(base: i32, ov: i32) -> (r: i32)
    ensures
        r == override_num(base, ov),
{
    if ov > 0 {
        ov
    } else {
        base
    }
}

impl ProducerConfig {
    /// The settings in force for `topic`.
    pub fn effective_topic_config(&self, topic: &str) -> (r: ProducerTopicConfig)
        ensures
            r@ == effective_producer(*self, topic@),
    {
        let base_compression = self.compression.clone();
        let base_max = self.batch_max_bytes();
        match find_topic(&self.topics, topic) {
            None => ProducerTopicConfig {
                acks: String::new(),
                compression: base_compression,
                retries: 0,
                retry_backoff_ms: 0,
                linger_ms: self.linger_ms,
                batch_size: 0,
                max_message_bytes: base_max,
            },
            Some(i) => {
                let ov = &self.topics[i].1;
                let empty = String::new();
                ProducerTopicConfig {
                    acks: pick_text(&empty, &ov.acks),
                    compression: pick_text(&base_compression, &ov.compression),
                    retries: pick_num(0, ov.retries),
                    retry_backoff_ms: pick_num(0, ov.retry_backoff_ms),
                    linger_ms: pick_num(self.linger_ms, ov.linger_ms),
                    batch_size: pick_num(0, ov.batch_size),
                    max_message_bytes: pick_num(base_max, ov.max_message_bytes),
                }
            },
        }
    }

    /// The batch size limit, 1 MiB when unset.
    pub fn batch_max_bytes(&self) -> (r: i32)
        ensures
            r == batch_max_bytes_of(*self),
    {
        if self.batch_max_bytes > 0 {
            self.batch_max_bytes
        } else {
            1024 * 1024
        }
    }

    /// The request timeout, 30 s when unset.
    pub fn request_timeout(&self) -> (r: Duration)
        ensures
            r == millis_or(self.request_timeout_ms, duration_of_secs(30)),
    {
        if self.request_timeout_ms > 0 {
            millis(self.request_timeout_ms as u64)
        } else {
            secs(30)
        }
    }
}

impl ConsumerTopicConfig {
    /// The auto-commit interval, 5 s when unset.
    pub fn auto_commit_interval(&self) -> (r: Duration)
        ensures
            r == millis_or(self.auto_commit_interval_ms, duration_of_secs(5)),
    {
        if self.auto_commit_interval_ms > 0 {
            millis(self.auto_commit_interval_ms as u64)
        } else {
            secs(5)
        }
    }

    /// The longest a fetch waits, 500 ms when unset.
    pub fn fetch_max_wait(&self) -> (r: Duration)
        ensures
            r == millis_or(self.fetch_max_wait_ms, duration_of_millis(500)),
    {
        if self.fetch_max_wait_ms > 0 {
            millis(self.fetch_max_wait_ms as u64)
        } else {
            millis(500)
        }
    }
}

/// The canonical name of an offset-reset policy: `newest` and empty mean
/// `latest`, `oldest` means `earliest`, any other name stands.
pub open spec fn normalized_offset_reset(v: Seq<char>) -> Seq<char> {
    if v == "newest"@ || v.len() == 0 {
        "latest"@
    } else if v == "oldest"@ {
        "earliest"@
    } else {
        v
    }
}

/// The canonical name of an offset-reset policy.
pub fn normalize_offset_reset(v: &str) -> (r: String)
    ensures
        r@ == normalized_offset_reset(v@),
{
    if str_eq(v, "newest") || v.is_empty() {
        owned("latest")
    } else if str_eq(v, "oldest") {
        owned("earliest")
    } else {
        owned(v)
    }
}

/// A consumer topic configuration by its text.
pub struct ConsumerTopicView {
    pub group_id: Seq<char>,
    pub auto_offset_reset: Seq<char>,
    pub auto_commit_interval_ms: i32,
    pub fetch_min_bytes: i32,
    pub fetch_max_wait_ms: i32,
    pub concurrency: i32,
}

impl View for ConsumerTopicConfig {
    type V = ConsumerTopicView;

    open spec fn view(&self) -> ConsumerTopicView {
        ConsumerTopicView {
            group_id: self.group_id@,
            auto_offset_reset: self.auto_offset_reset@,
            auto_commit_interval_ms: self.auto_commit_interval_ms,
            fetch_min_bytes: self.fetch_min_bytes,
            fetch_max_wait_ms: self.fetch_max_wait_ms,
            concurrency: self.concurrency,
        }
    }
}

/// A positive setting, or its default.
pub open spec fn positive_or(v: i32, default: i32) -> i32 {
    if v > 0 {
        v
    } else {
        default
    }
}

/// The settings in force for a topic: the global group, offset policy
/// (normalized), fetch sizes and concurrency, each replaced by the topic's
/// override where it sets one.
pub open spec fn effective_consumer(c: ConsumerConfig, topic: Seq<char>) -> ConsumerTopicView {
    let base = ConsumerTopicView {
        group_id: c.group_id@,
        auto_offset_reset: normalized_offset_reset(c.auto_offset_reset@),
        auto_commit_interval_ms: 0,
        fetch_min_bytes: positive_or(c.fetch_min_bytes, 1),
        fetch_max_wait_ms: positive_or(c.fetch_max_wait_ms, 500),
        concurrency: positive_or(c.concurrency, 1),
    };
    match topic_entry(c.topics@, topic) {
        None => base,
        Some(ov) => ConsumerTopicView {
            group_id: override_text(base.group_id, ov.group_id@),
            auto_offset_reset: if ov.auto_offset_reset@.len() > 0 {
                normalized_offset_reset(ov.auto_offset_reset@)
            } else {
                base.auto_offset_reset
            },
            auto_commit_interval_ms: override_num(0, ov.auto_commit_interval_ms),
            fetch_min_bytes: override_num(base.fetch_min_bytes, ov.fetch_min_bytes),
            fetch_max_wait_ms: override_num(base.fetch_max_wait_ms, ov.fetch_max_wait_ms),
            concurrency: override_num(base.concurrency, ov.concurrency),
        },
    }
}

impl ConsumerConfig {
    /// The settings in force for `topic`.
    pub fn effective_topic_config(&self, topic: &str) -> (r: ConsumerTopicConfig)
        ensures
            r@ == effective_consumer(*self, topic@),
    {
        let group_id = self.group_id.clone();
        let reset = normalize_offset_reset(self.auto_offset_reset.as_str());
        let fetch_min = self.fetch_min_bytes();
        let fetch_wait = self.fetch_max_wait_ms();
        let conc = self.concurrency();
        match find_topic(&self.topics, topic) {
            None => ConsumerTopicConfig {
                group_id,
                auto_offset_reset: reset,
                auto_commit_interval_ms: 0,
                fetch_min_bytes: fetch_min,
                fetch_max_wait_ms: fetch_wait,
                concurrency: conc,
            },
            Some(i) => {
                let ov = &self.topics[i].1;
                let reset2 = if ov.auto_offset_reset.as_str().is_empty() {
                    reset
                } else {
                    normalize_offset_reset(ov.auto_offset_reset.as_str())
                };
                ConsumerTopicConfig {
                    group_id: pick_text(&group_id, &ov.group_id),
                    auto_offset_reset: reset2,
                    auto_commit_interval_ms: pick_num(0, ov.auto_commit_interval_ms),
                    fetch_min_bytes: pick_num(fetch_min, ov.fetch_min_bytes),
                    fetch_max_wait_ms: pick_num(fetch_wait, ov.fetch_max_wait_ms),
                    concurrency: pick_num(conc, ov.concurrency),
                }
            },
        }
    }

    /// The session timeout, 10 s when unset.
    pub fn session_timeout(&self) -> (r: Duration)
        ensures
            r == millis_or(self.session_timeout_ms, duration_of_secs(10)),
    {
        if self.session_timeout_ms > 0 {
            millis(self.session_timeout_ms as u64)
        } else {
            secs(10)
        }
    }

    /// The heartbeat interval, 3 s when unset.
    pub fn heartbeat_interval(&self) -> (r: Duration)
        ensures
            r == millis_or(self.heartbeat_interval_ms, duration_of_secs(3)),
    {
        if self.heartbeat_interval_ms > 0 {
            millis(self.heartbeat_interval_ms as u64)
        } else {
            secs(3)
        }
    }

    /// The fetch size limit, 50 MiB when unset.
    pub fn fetch_max_bytes_or_default(&self) -> (r: i32)
        ensures
            r == positive_or(self.fetch_max_bytes, 52428800),
    {
        if self.fetch_max_bytes > 0 {
            self.fetch_max_bytes
        } else {
            50 * 1024 * 1024
        }
    }

    /// The records per poll, 100 when unset.
    pub fn max_poll_records_or_default(&self) -> (r: i32)
        ensures
            r == positive_or(self.max_poll_records, 100),
    {
        if self.max_poll_records > 0 {
            self.max_poll_records
        } else {
            100
        }
    }

    fn fetch_max_wait_ms(&self) -> (r: i32)
        ensures
            r == positive_or(self.fetch_max_wait_ms, 500),
    {
        if self.fetch_max_wait_ms > 0 {
            self.fetch_max_wait_ms
        } else {
            500
        }
    }

    fn fetch_min_bytes(&self) -> (r: i32)
        ensures
            r == positive_or(self.fetch_min_bytes, 1),
    {
        if self.fetch_min_bytes > 0 {
            self.fetch_min_bytes
        } else {
            1
        }
    }

    fn concurrency(&self) -> (r: i32)
        ensures
            r == positive_or(self.concurrency, 1),
    {
        if self.concurrency > 0 {
            self.concurrency
        } else {
            1
        }
    }
}

// ── Topics and payloads ──────────────────────────────────────────────────────

pub const TOPIC_BI_PROMOTION_RANK: &'static str = "bi-rank-promotion-event";
pub const TOPIC_RANK_EVENT: &'static str = "rank-event";
pub const TOPIC_COHORT_INITIALIZATION_EVENT: &'static str = "cohort-initialization-event";
pub const TOPIC_TASK_UPDATE_EVENT: &'static str = "task-update-event";
pub const TOPIC_PROP_EVENT: &'static str = "prop-event";
pub const TOPIC_PURCHASE_EVENT: &'static str = "purchase-event";
pub const TOPIC_TASK_PROGRESSES_EVENT: &'static str = "task-progresses-event";
pub const TOPIC_UCS_FE: &'static str = "tcg-ucs-fe";
pub const TOPIC_UCS_FE_EVENTS: &'static str = "ucs-fe-events";
pub const TOPIC_MCS_SUCCESS_PLAYER_DEPOSIT: &'static str = "mcs_success_player_deposit";

/// A task-completion event.
pub struct TaskUpdate {
    pub message: String,
    pub task_type: i64,
    pub task_id: i64,
    pub task_item_id: i64,
    pub task_item_progresses_id: i64,
}

/// A prop-sending event.
pub struct SendProp {
    pub send_user_id: i64,
    pub receive_user_id: i64,
    pub prop_id: i64,
    pub track_type: i64,
}

// ── Clients ──────────────────────────────────────────────────────────────────

/// Why a Kafka operation failed.
pub enum KafkaError {
    ProducerNotInitialized,
    ConsumerNotInitialized,
    Other(String),
}

impl KafkaError {
    /// The error's text.
    pub fn message(&self) -> (r: String)
        ensures
            r@ == (match *self {
                KafkaError::ProducerNotInitialized => "Kafka producer not initialized"@,
                KafkaError::ConsumerNotInitialized => "Kafka consumer not initialized"@,
                KafkaError::Other(s) => "Kafka error: "@ + s@,
            }),
    {
        match self {
            KafkaError::ProducerNotInitialized => owned("Kafka producer not initialized"),
            KafkaError::ConsumerNotInitialized => owned("Kafka consumer not initialized"),
            KafkaError::Other(s) => concat("Kafka error: ", s.as_str()),
        }
    }
}

/// A Kafka message.
pub struct Record {
    pub topic: String,
    pub key: Vec<u8>,
    pub value: Vec<u8>,
    pub partition: i32,
    pub offset: i64,
}

/// A producer handle; no broker client is linked in, so nothing is delivered.
pub struct Producer {
    pub cfg_topic: String,
    pub cfg_client_id: String,
    pub broker_count: usize,
}

impl Producer {
    /// A producer for `cfg`, or `None` when it names no broker.
    pub fn new(cfg: &ProducerConfig) -> (r: Option<Producer>)
        ensures
            cfg.brokers@.len() == 0 <==> r is None,
            r matches Some(p) ==> p.cfg_topic@ == cfg.topic@ && p.cfg_client_id@ == cfg.client_id@
                && p.broker_count == cfg.brokers@.len(),
    {
        if cfg.brokers.len() == 0 {
            return None;
        }
        Some(
            Producer {
                cfg_topic: cfg.topic.clone(),
                cfg_client_id: cfg.client_id.clone(),
                broker_count: cfg.brokers.len(),
            },
        )
    }

    /// Sends to the default topic: refused, no broker client is linked in.
    pub fn produce(&self, key: &[u8], value: &[u8]) -> (r: Result<(), KafkaError>)
        ensures
            r matches Err(KafkaError::ProducerNotInitialized),
    {
        Err(KafkaError::ProducerNotInitialized)
    }

    /// Sends to `topic`: refused, no broker client is linked in.
    pub fn produce_to(&self, topic: &str, key: &[u8], value: &[u8]) -> (r: Result<(), KafkaError>)
        ensures
            r matches Err(KafkaError::ProducerNotInitialized),
    {
        Err(KafkaError::ProducerNotInitialized)
    }

    /// Closes the producer.
    pub fn close(&self) {
    }
}

/// A consumer handle; no broker client is linked in, so nothing is consumed.
pub struct Consumer {
    pub cfg: ConsumerConfig,
}

impl Consumer {
    /// A consumer for `cfg`, or `None` when it names no broker.
    pub fn new(cfg: ConsumerConfig) -> (r: Option<Consumer>)
        ensures
            cfg.brokers@.len() == 0 <==> r is None,
            r matches Some(c) ==> c.cfg == cfg,
    {
        if cfg.brokers.len() == 0 {
            return None;
        }
        Some(Consumer { cfg })
    }

    /// Subscribes to `topic` with the settings in force for it: refused, no
    /// broker client is linked in.
    pub fn subscribe_topic(&self, topic: &str) -> (r: Result<ConsumerTopicConfig, KafkaError>)
        ensures
            r matches Err(KafkaError::ConsumerNotInitialized),
    {
        let _settings = self.cfg.effective_topic_config(topic);
        Err(KafkaError::ConsumerNotInitialized)
    }

    /// Closes the consumer.
    pub fn close(&self) {
    }
}

/// The producer and consumer of the service.
pub struct KafkaClients {
    pub producer: Option<Producer>,
    pub consumer: Option<Consumer>,
}

impl KafkaClients {
    /// A producer and a consumer for the configuration, each only where
    /// brokers are configured.
    pub fn init(cfg: KafkaConfig) -> (r: KafkaClients)
        ensures
            (r.producer is Some) == (cfg.producer.brokers@.len() > 0),
            (r.consumer is Some) == (cfg.consumer.brokers@.len() > 0),
    {
        let producer = if cfg.producer.brokers.len() == 0 {
            None
        } else {
            Producer::new(&cfg.producer)
        };
        let consumer = if cfg.consumer.brokers.len() == 0 {
            None
        } else {
            Consumer::new(cfg.consumer)
        };
        KafkaClients { producer, consumer }
    }
}

} // verus!
