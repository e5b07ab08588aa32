use std::time::Duration;

use overwatch::handle::ServiceHandle;
use overwatch::overwatch::OverwatchHandle;
use overwatch::relay::{relay, RecvOutcome, SendOutcome};
use overwatch::service::{RelayMessage, ServiceData, ServiceId};
use overwatch::state::{NoOperator, NoState};

struct PingService;

impl ServiceData for PingService {
    type Settings = String;
    type State = NoState<String>;
    type StateOperator = NoOperator<NoState<String>>;
    type Message = u64;

    fn spec_service_id() -> ServiceId {
        "PingService"
    }

    fn service_id() -> ServiceId {
        "PingService"
    }

    fn spec_relay_buffer_size() -> usize {
        8
    }

    fn relay_buffer_size() -> usize {
        8
    }
}

struct SettingsService;

#[derive(Clone, Debug)]
pub struct SettingsMsg;

impl RelayMessage for SettingsMsg {}

impl ServiceData for SettingsService {
    type Settings = String;
    type State = NoState<String>;
    type StateOperator = NoOperator<NoState<String>>;
    type Message = SettingsMsg;

    fn spec_service_id() -> ServiceId {
        "FooService"
    }

    fn service_id() -> ServiceId {
        "FooService"
    }

    fn spec_relay_buffer_size() -> usize {
        16
    }

    fn relay_buffer_size() -> usize {
        16
    }
}

fn test_runtime() -> tokio::runtime::Runtime {
    tokio::runtime::Builder::new_multi_thread()
        .worker_threads(2)
        .enable_all()
        .build()
        .unwrap()
}

#[test]
fn handle_reports_its_service_id() {
    let runtime = test_runtime();
    let handle: ServiceHandle<PingService> =
        ServiceHandle::new(String::new(), OverwatchHandle::new(runtime.handle().clone()));
    assert_eq!(handle.id(), "PingService");
}

#[test]
fn handle_exposes_a_usable_scheduling_runtime() {
    let runtime = test_runtime();
    let handle: ServiceHandle<PingService> =
        ServiceHandle::new(String::new(), OverwatchHandle::new(runtime.handle().clone()));
    let spawned = handle.runtime().spawn(async { 7u64 });
    assert_eq!(runtime.block_on(spawned).unwrap(), 7u64);

    let cloned_context = handle.overwatch_handle().clone();
    let spawned_via_clone = cloned_context.runtime().spawn(async { 8u64 });
    assert_eq!(runtime.block_on(spawned_via_clone).unwrap(), 8u64);
}

#[test]
fn relay_producer_absent_before_runner_built() {
    let runtime = test_runtime();
    let handle: ServiceHandle<PingService> =
        ServiceHandle::new(String::new(), OverwatchHandle::new(runtime.handle().clone()));
    assert!(handle.relay_with().is_none());
}

#[test]
fn relay_producer_reaches_the_built_runner() {
    let runtime = test_runtime();
    let mut handle: ServiceHandle<PingService> =
        ServiceHandle::new(String::new(), OverwatchHandle::new(runtime.handle().clone()));
    let runner = handle.service_runner();
    assert_eq!(runner.service_state.id(), "PingService");

    let producer = handle.relay_with().expect("a producer must be installed by the build");
    assert!(matches!(producer.try_send(99), SendOutcome::Sent));

    let mut inbound = runner.service_state.inbound_relay;
    assert!(matches!(inbound.try_receive(), RecvOutcome::Msg(99)));
}

#[test]
fn rebuilding_replaces_the_producer_with_the_new_channel() {
    let runtime = test_runtime();
    let mut handle: ServiceHandle<PingService> =
        ServiceHandle::new(String::new(), OverwatchHandle::new(runtime.handle().clone()));
    let first_runner = handle.service_runner();
    let orphaned_producer = handle.relay_with().unwrap();
    let second_runner = handle.service_runner();

    let current_producer = handle.relay_with().unwrap();
    assert!(matches!(current_producer.try_send(2), SendOutcome::Sent));
    assert!(matches!(orphaned_producer.try_send(1), SendOutcome::Sent));

    let mut first_inbound = first_runner.service_state.inbound_relay;
    let mut second_inbound = second_runner.service_state.inbound_relay;
    assert!(matches!(first_inbound.try_receive(), RecvOutcome::Msg(1)));
    assert!(matches!(first_inbound.try_receive(), RecvOutcome::Pending));
    assert!(matches!(second_inbound.try_receive(), RecvOutcome::Msg(2)));
    assert!(matches!(second_inbound.try_receive(), RecvOutcome::Pending));

    // The rebuild detached the handle's end of the first relay; once the
    // cloned-out producer goes too, the first consumer sees end-of-stream.
    orphaned_producer.close();
    assert!(matches!(first_inbound.try_receive(), RecvOutcome::EndOfStream));
}

#[test]
fn settings_service_update_settings() {
    let runtime = test_runtime();
    let overwatch_handle = OverwatchHandle::new(runtime.handle().clone());
    let mut handle: ServiceHandle<SettingsService> =
        ServiceHandle::new(String::default(), overwatch_handle);
    let runner = handle.service_runner();
    let bundle = runner.service_state;

    let service_task = runtime.spawn(async move {
        let settings_reader = bundle.settings_reader;
        let mut asserted = false;
        let mut polls: u32 = 0;
        while polls < 10 {
            let new_settings = settings_reader.get_updated_settings();
            if new_settings.as_str() == "New settings" {
                asserted = true;
            }
            tokio::time::sleep(Duration::from_millis(50)).await;
            polls += 1;
        }
        asserted
    });

    handle.update_settings("New settings".to_string());
    let asserted = runtime.block_on(service_task).unwrap();
    assert!(asserted);
}

#[test]
fn cancelled_service_task_releases_its_consumer() {
    let runtime = test_runtime();
    let (mut inbound, outbound) = relay::<u64>(4);
    let (abort_handle, abort_registration) = futures::future::AbortHandle::new_pair();

    let service_task = runtime.spawn(async move {
        let service_loop = futures::future::Abortable::new(
            async {
                loop {
                    let _ = inbound.try_receive();
                    tokio::time::sleep(Duration::from_millis(5)).await;
                }
            },
            abort_registration,
        );
        let outcome: Result<(), futures::future::Aborted> = service_loop.await;
        assert!(outcome.is_err());
        inbound.close();
    });

    runtime.block_on(async {
        tokio::time::sleep(Duration::from_millis(20)).await;
    });
    abort_handle.abort();
    runtime.block_on(service_task).unwrap();

    match outbound.try_send(5) {
        SendOutcome::ChannelClosed(returned) => assert_eq!(returned, 5),
        _ => panic!("after the cancelled task released the consumer, sends must fail"),
    }
}
