use rpc_dispatch::producer::PollAction;
use rpc_dispatch::producer::ProducerExit;
use rpc_dispatch::producer::QueryError;
use rpc_dispatch::producer::plan_iteration;
use rpc_dispatch::producer::run_producer;
use rpc_dispatch::testing::CollectingSink;
use rpc_dispatch::testing::ScriptedClient;

fn open_sink() -> CollectingSink {
    CollectingSink { received: Vec::new(), consumer_gone: false }
}

fn closed_sink() -> CollectingSink {
    CollectingSink { received: Vec::new(), consumer_gone: true }
}

#[test]
fn two_failures_then_a_success_forward_exactly_one_value_on_the_third_tick() {
    // The first two queries fail; the third succeeds. After three poll
    // ticks exactly one value has reached the consumer, and the producer
    // is still going.
    let mut client = ScriptedClient::new(vec![None, None, Some(7)]);
    let mut sink = open_sink();
    let exit = run_producer(&mut client, &mut sink, 3);
    assert_eq!(exit, ProducerExit::Completed);
    assert_eq!(sink.received, vec![7]);
}

#[test]
fn nothing_is_forwarded_before_the_first_success() {
    let mut client = ScriptedClient::new(vec![None, None, Some(7)]);
    let mut sink = open_sink();
    let exit = run_producer(&mut client, &mut sink, 2);
    assert_eq!(exit, ProducerExit::Completed);
    assert_eq!(sink.received, Vec::<u64>::new());
}

#[test]
fn query_failures_alone_never_end_the_run() {
    let mut client = ScriptedClient::new(vec![None, None, None, None, None]);
    let mut sink = open_sink();
    let exit = run_producer(&mut client, &mut sink, 5);
    assert_eq!(exit, ProducerExit::Completed);
    assert_eq!(sink.received, Vec::<u64>::new());
    assert_eq!(client.position, 5);
}

#[test]
fn successes_are_forwarded_in_order_around_failures() {
    let mut client = ScriptedClient::new(vec![Some(1), None, Some(2), None, Some(3)]);
    let mut sink = open_sink();
    let exit = run_producer(&mut client, &mut sink, 5);
    assert_eq!(exit, ProducerExit::Completed);
    assert_eq!(sink.received, vec![1, 2, 3]);
}

#[test]
fn gone_consumer_ends_the_task_with_no_further_queries() {
    // The consumer end is gone before the producer's next send: the first
    // successful query hits the refused send, the task ends with an
    // error, and the remaining queries are never made.
    let mut client = ScriptedClient::new(vec![Some(1), Some(2), Some(3)]);
    let mut sink = closed_sink();
    let exit = run_producer(&mut client, &mut sink, 3);
    assert_eq!(exit, ProducerExit::ConsumerGone);
    assert_eq!(sink.received, Vec::<u64>::new());
    assert_eq!(client.position, 1);
}

#[test]
fn gone_consumer_is_only_noticed_on_a_send() {
    let mut client = ScriptedClient::new(vec![None, None, Some(9)]);
    let mut sink = closed_sink();
    let exit = run_producer(&mut client, &mut sink, 3);
    assert_eq!(exit, ProducerExit::ConsumerGone);
    assert_eq!(client.position, 3);
    assert_eq!(sink.received, Vec::<u64>::new());
}

#[test]
fn a_successful_query_is_planned_as_a_forward() {
    assert_eq!(plan_iteration(Ok(5u64)), PollAction::Forward(5));
}

#[test]
fn a_failed_query_is_planned_as_a_tolerated_skip() {
    assert_eq!(plan_iteration::<u64>(Err(QueryError {})), PollAction::ContinueAfterFailure);
}
