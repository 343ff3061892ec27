use samp_bcrypt::args::ArgumentValue;
use samp_bcrypt::args::HashJobResult;
use samp_bcrypt::args::VerifyJobResult;
use samp_bcrypt::args::begin_verify_replay;
use samp_bcrypt::args::encode_success;
use samp_bcrypt::args::push_order_for_hash;
use samp_bcrypt::args::push_order_for_verify;
use samp_bcrypt::channel::ResultChannel;
use samp_bcrypt::dispatch::ContextTrial;
use samp_bcrypt::plugin::ContextHandle;
use samp_bcrypt::plugin::SampBcrypt;

fn handle(id: u64) -> ContextHandle {
    ContextHandle { id }
}

/// Drives one job's walk as the consumer thread does, with `services`
/// saying which contexts would service the callback; returns the
/// contexts attempted, in order, and whether the job was serviced.
fn run_walk(contexts: &Vec<ContextHandle>, services: &dyn Fn(ContextHandle) -> bool) -> (Vec<ContextHandle>, bool) {
    let mut trial = ContextTrial::new();
    let mut attempted = Vec::new();
    while let Some(ctx) = trial.next_context(contexts) {
        attempted.push(ctx);
        trial.record_outcome(services(ctx));
    }
    (attempted, trial.succeeded)
}

#[test]
fn channel_drain_yields_all_in_send_order() {
    let mut channel: ResultChannel<i32> = ResultChannel::new();
    channel.send(11);
    channel.send(22);
    channel.send(33);
    assert_eq!(channel.len(), 3);
    let drained = channel.drain();
    assert_eq!(drained, vec![11, 22, 33]);
    assert_eq!(channel.len(), 0);
}

#[test]
fn channel_drain_with_nothing_pending_is_empty() {
    let mut channel: ResultChannel<i32> = ResultChannel::new();
    let drained = channel.drain();
    assert!(drained.is_empty());
    channel.send(5);
    channel.drain();
    assert!(channel.drain().is_empty());
}

#[test]
fn hash_push_order_reverses_extra_args() {
    let extra = vec![
        ArgumentValue::Primitive(10),
        ArgumentValue::Text("middle".to_string()),
        ArgumentValue::Primitive(30),
    ];
    let order = push_order_for_hash(extra, 7);
    assert_eq!(
        order,
        vec![
            ArgumentValue::Primitive(30),
            ArgumentValue::Text("middle".to_string()),
            ArgumentValue::Primitive(10),
            ArgumentValue::Primitive(7),
        ]
    );
}

#[test]
fn hash_push_order_with_no_extra_args_is_id_only() {
    let order = push_order_for_hash(Vec::new(), 42);
    assert_eq!(order, vec![ArgumentValue::Primitive(42)]);
}

#[test]
fn verify_push_order_is_args_reversed_then_outcome_then_id() {
    let extra = vec![
        ArgumentValue::Text("a".to_string()),
        ArgumentValue::Text("b".to_string()),
        ArgumentValue::Text("c".to_string()),
    ];
    let order = push_order_for_verify(extra, true, 9);
    assert_eq!(
        order,
        vec![
            ArgumentValue::Text("c".to_string()),
            ArgumentValue::Text("b".to_string()),
            ArgumentValue::Text("a".to_string()),
            ArgumentValue::Primitive(1),
            ArgumentValue::Primitive(9),
        ]
    );
    let order = push_order_for_verify(Vec::new(), false, 9);
    assert_eq!(order, vec![ArgumentValue::Primitive(0), ArgumentValue::Primitive(9)]);
}

#[test]
fn verify_replay_carries_callback_and_encoded_outcome() {
    let job = VerifyJobResult {
        requester_id: 12,
        callback_name: "OnChecked".to_string(),
        success: false,
        extra_args: vec![ArgumentValue::Primitive(77)],
    };
    let (callback, order) = begin_verify_replay(job);
    assert_eq!(callback, "OnChecked");
    assert_eq!(
        order,
        vec![
            ArgumentValue::Primitive(77),
            ArgumentValue::Primitive(0),
            ArgumentValue::Primitive(12),
        ]
    );
}

#[test]
fn success_is_encoded_as_one_and_failure_as_zero() {
    assert_eq!(encode_success(true), ArgumentValue::Primitive(1));
    assert_eq!(encode_success(false), ArgumentValue::Primitive(0));
}

#[test]
fn first_success_wins_and_later_contexts_are_never_attempted() {
    let contexts = vec![handle(1), handle(2), handle(3)];
    let (attempted, serviced) = run_walk(&contexts, &|ctx| ctx.id == 2);
    assert_eq!(attempted, vec![handle(1), handle(2)]);
    assert!(serviced);
}

#[test]
fn exhaustion_attempts_every_context_and_is_non_fatal() {
    let contexts = vec![handle(1), handle(2), handle(3)];
    let (attempted, serviced) = run_walk(&contexts, &|_| false);
    assert_eq!(attempted, contexts);
    assert!(!serviced);
    // the next job in the same drain still gets dispatched normally
    let (attempted, serviced) = run_walk(&contexts, &|ctx| ctx.id == 1);
    assert_eq!(attempted, vec![handle(1)]);
    assert!(serviced);
}

#[test]
fn walk_over_an_empty_registry_is_immediately_exhausted() {
    let contexts = Vec::new();
    let (attempted, serviced) = run_walk(&contexts, &|_| true);
    assert!(attempted.is_empty());
    assert!(!serviced);
}

#[test]
fn registry_keeps_registration_order_across_unload() {
    let mut plugin = SampBcrypt::new();
    plugin.on_amx_load(handle(1));
    plugin.on_amx_load(handle(2));
    plugin.on_amx_load(handle(3));
    assert_eq!(plugin.amx_list, vec![handle(1), handle(2), handle(3)]);
    plugin.on_amx_unload(handle(2));
    assert_eq!(plugin.amx_list, vec![handle(1), handle(3)]);
    plugin.on_amx_load(handle(2));
    assert_eq!(plugin.amx_list, vec![handle(1), handle(3), handle(2)]);
}

#[test]
fn pending_log_of_one_cycle_is_gone_in_the_next() {
    let mut plugin = SampBcrypt::new();
    plugin.on_load();
    // cycle K records one hash
    plugin.record_hash("$2y$12$k-cycle-hash".to_string());
    assert_eq!(plugin.hashes, vec!["$2y$12$k-cycle-hash".to_string()]);
    plugin.end_tick();
    // cycle K + 1 processes zero hash results and still sees nothing
    let batch = plugin.take_hash_results();
    assert!(batch.is_empty());
    assert!(plugin.hashes.is_empty());
    plugin.end_tick();
    assert!(plugin.hashes.is_empty());
}

#[test]
fn pending_log_records_newest_first() {
    let mut plugin = SampBcrypt::new();
    plugin.record_hash("first".to_string());
    plugin.record_hash("second".to_string());
    assert_eq!(plugin.hashes, vec!["second".to_string(), "first".to_string()]);
}

#[test]
fn verify_batch_is_independent_of_hash_traffic() {
    let verify_job = |id: i32| VerifyJobResult {
        requester_id: id,
        callback_name: "OnChecked".to_string(),
        success: id % 2 == 0,
        extra_args: Vec::new(),
    };
    let hash_job = |tag: &str| HashJobResult {
        requester_id: 1,
        callback_name: "OnHashed".to_string(),
        hashed_value: tag.to_string(),
        extra_args: Vec::new(),
    };

    let mut quiet = SampBcrypt::new();
    quiet.verify_results.send(verify_job(4));
    quiet.verify_results.send(verify_job(5));

    let mut busy = SampBcrypt::new();
    busy.verify_results.send(verify_job(4));
    busy.verify_results.send(verify_job(5));
    busy.hash_results.send(hash_job("one"));
    busy.hash_results.send(hash_job("two"));
    busy.hash_results.send(hash_job("three"));

    let hash_batch = busy.take_hash_results();
    assert_eq!(hash_batch.len(), 3);
    assert_eq!(quiet.take_verify_results(), busy.take_verify_results());
}

#[test]
fn on_load_sets_up_empty_channels() {
    let mut plugin = SampBcrypt::new();
    plugin.hash_results.send(HashJobResult {
        requester_id: 1,
        callback_name: "OnHashed".to_string(),
        hashed_value: "stale".to_string(),
        extra_args: Vec::new(),
    });
    plugin.on_load();
    assert!(plugin.take_hash_results().is_empty());
    assert!(plugin.take_verify_results().is_empty());
}

#[test]
fn hash_job_replay_end_to_end() {
    let mut plugin = SampBcrypt::new();
    plugin.on_load();
    plugin.on_amx_load(handle(100));

    // a worker finishes hashing "abc123" and sends the completed job
    let computed = "$2y$12$abc123-digest".to_string();
    plugin.hash_results.send(HashJobResult {
        requester_id: 7,
        callback_name: "OnHashed".to_string(),
        hashed_value: computed.clone(),
        extra_args: vec![ArgumentValue::Text("tag1".to_string())],
    });

    // the next tick drains exactly that job
    let batch = plugin.take_hash_results();
    assert_eq!(batch.len(), 1);
    let job = batch.into_iter().next().unwrap();

    // its hash is observable for the rest of the cycle, and the
    // callback is invoked in some registered context with the
    // push order [Text("tag1"), Primitive(7)]
    let (callback, order) = plugin.begin_hash_replay(job);
    assert_eq!(plugin.hashes, vec![computed.clone()]);
    assert_eq!(callback, "OnHashed");
    assert_eq!(
        order,
        vec![ArgumentValue::Text("tag1".to_string()), ArgumentValue::Primitive(7)]
    );
    let (attempted, serviced) = run_walk(&plugin.amx_list, &|_| true);
    assert_eq!(attempted, vec![handle(100)]);
    assert!(serviced);

    // the hash stays logged until the end of the cycle, and no longer
    assert_eq!(plugin.hashes, vec![computed]);
    plugin.end_tick();
    assert!(plugin.hashes.is_empty());
}
