use cosmic_ext_calculator::calculator::operations::extract_value;
use cosmic_ext_calculator::launcher::{
    client_request, client_spawned, relay, relay_notice, service, spawn_failure_notice,
    starting_notice, subscription, Args, ClientHandle, ClientPlan, DriverAction, Event, Phase,
    Relay, RelayInput, Request, ServiceAction, ServiceInput, ServiceLoop, SpawnError,
    EVENT_CAPACITY, MAX_FILES, MAX_OPEN, MAX_SEARCH, OUTPUT_CAPACITY, REQUEST_CAPACITY,
};
use pop_launcher::{Response, SearchResult};
use tokio::sync::{mpsc, oneshot};

/// A stand-in for the daemon connection: it records what it was sent.
struct Connection {
    sent: Vec<String>,
}

fn handle() -> (ClientHandle<Connection>, oneshot::Receiver<()>) {
    let (cancel, cancelled) = oneshot::channel();
    (ClientHandle { connection: Connection { sent: Vec::new() }, cancel }, cancelled)
}

fn sender() -> mpsc::Sender<Request> {
    mpsc::channel(REQUEST_CAPACITY).0
}

fn running() -> ServiceLoop<Connection> {
    let mut state = ServiceLoop::new();
    let action = service(&mut state, ServiceInput::Open(sender()));
    assert!(matches!(action, ServiceAction::Emit(Event::Started(_))));
    state
}

fn search(query: &str) -> ServiceInput {
    ServiceInput::Request(Request::Search(query.to_string()))
}

fn answer(name: &str) -> Response {
    Response::Update(vec![SearchResult {
        id: 0,
        name: name.to_string(),
        description: String::new(),
        icon: None,
        category_icon: None,
        window: None,
    }])
}

fn text_of(event: &Event) -> Option<String> {
    match event {
        Event::Response(Response::Update(results)) => {
            results.first().map(|result| extract_value(&result.name).to_string())
        }
        Event::Response(Response::Fill(text)) => Some(extract_value(text).to_string()),
        _ => None,
    }
}

/// Serves a search with a daemon that starts, and sends the query on.
fn serve(state: &mut ServiceLoop<Connection>, query: &str) -> Option<oneshot::Receiver<()>> {
    let mut started = None;
    let mut action = service(state, search(query));
    if let ServiceAction::Spawn(args, waiting) = action {
        assert_eq!(args, Args { max_files: 20, max_open: 99, max_search: 20 });
        let (client, cancelled) = handle();
        started = Some(cancelled);
        action = client_spawned(state, Ok(client), waiting);
    }
    match action {
        ServiceAction::Connect(sent) => {
            assert!(started.is_some(), "only a new client is connected");
            assert_eq!(sent, query);
            state.client.as_mut().unwrap().connection.sent.push(sent);
        }
        ServiceAction::Dispatch(sent) => {
            assert!(started.is_none(), "a new client must be connected first");
            assert_eq!(sent, query);
            state.client.as_mut().unwrap().connection.sent.push(sent);
        }
        other => panic!("the search was not dispatched: {:?}", kind(&other)),
    }
    started
}

fn kind(action: &ServiceAction) -> &'static str {
    match action {
        ServiceAction::Emit(_) => "emit",
        ServiceAction::Spawn(_, _) => "spawn",
        ServiceAction::Connect(_) => "connect",
        ServiceAction::Dispatch(_) => "dispatch",
        ServiceAction::Report(_) => "report",
        ServiceAction::Idle => "idle",
        ServiceAction::Exit => "exit",
    }
}

#[test]
fn capacities_and_bounds_are_the_fixed_ones() {
    assert_eq!(REQUEST_CAPACITY, 4);
    assert_eq!(EVENT_CAPACITY, 4);
    assert_eq!(OUTPUT_CAPACITY, 1);
    assert_eq!(MAX_FILES, 20);
    assert_eq!(MAX_OPEN, 99);
    assert_eq!(MAX_SEARCH, 20);
}

#[test]
fn fresh_loop_emits_started_once_and_first() {
    let mut state: ServiceLoop<Connection> = ServiceLoop::new();
    assert_eq!(state.phase, Phase::Fresh);
    assert!(state.client.is_none());
    // Nothing but the opening moves a fresh loop.
    assert!(matches!(service(&mut state, search("1")), ServiceAction::Idle));
    assert_eq!(state.phase, Phase::Fresh);
    let action = service(&mut state, ServiceInput::Open(sender()));
    assert!(matches!(action, ServiceAction::Emit(Event::Started(_))));
    assert_eq!(state.phase, Phase::Running);
    // A second opening emits nothing.
    assert!(matches!(service(&mut state, ServiceInput::Open(sender())), ServiceAction::Idle));
    assert_eq!(state.phase, Phase::Running);
}

#[test]
fn started_handle_is_the_one_given() {
    let (tx, mut rx) = mpsc::channel(REQUEST_CAPACITY);
    let mut state: ServiceLoop<Connection> = ServiceLoop::new();
    match service(&mut state, ServiceInput::Open(tx)) {
        ServiceAction::Emit(Event::Started(handle)) => {
            handle.try_send(Request::Search("7".to_string())).unwrap();
            assert!(matches!(rx.try_recv(), Ok(Request::Search(query)) if query == "7"));
        }
        other => panic!("no start event: {}", kind(&other)),
    }
}

#[test]
fn client_manager_reuses_a_live_client() {
    let (client, _cancelled) = handle();
    assert_eq!(client_request(&Some(client)), ClientPlan::Reuse);
    assert_eq!(
        client_request::<Connection>(&None),
        ClientPlan::Spawn(Args { max_files: 20, max_open: 99, max_search: 20 })
    );
}

#[test]
fn search_with_daemon_gives_one_response_with_value_four() {
    let mut state = running();
    let cancelled = serve(&mut state, "2+2");
    assert!(cancelled.is_some());
    assert_eq!(state.client.as_ref().unwrap().connection.sent, vec!["2+2".to_string()]);

    let mut pump = Relay::new();
    let mut delivered = Vec::new();
    if let Some(event) = relay(&mut pump, RelayInput::Message(answer("2 + 2 = 4"))) {
        match subscription(Some(event)) {
            DriverAction::Forward(event) => delivered.push(event),
            _ => panic!("a response must be forwarded and nothing else"),
        }
    }
    let responses: Vec<_> =
        delivered.iter().filter(|event| matches!(event, Event::Response(_))).collect();
    assert_eq!(responses.len(), 1);
    assert_eq!(text_of(responses[0]).as_deref(), Some("4"));
    assert!(!pump.finished);
}

#[test]
fn search_without_daemon_gives_nothing_and_next_search_retries() {
    let mut state = running();
    let mut attempts = 0;
    let mut reports = Vec::new();
    for query in ["2+2", "3+3"] {
        match service(&mut state, search(query)) {
            ServiceAction::Spawn(args, waiting) => {
                attempts += 1;
                assert_eq!(args, Args { max_files: 20, max_open: 99, max_search: 20 });
                assert_eq!(waiting, query);
                match client_spawned(&mut state, Err(SpawnError::NotFound), waiting) {
                    ServiceAction::Report(notice) => reports.push(notice),
                    other => panic!("a failed start must be reported: {}", kind(&other)),
                }
            }
            other => panic!("an empty slot must ask for a daemon: {}", kind(&other)),
        }
        assert!(state.client.is_none());
        assert_eq!(state.phase, Phase::Running);
    }
    assert_eq!(attempts, 2);
    assert_eq!(
        reports,
        vec!["pop-launcher failed to start: executable not found".to_string(); 2]
    );
}

#[test]
fn spawn_is_retried_after_many_failures() {
    let mut state = running();
    for round in 0..25 {
        let query = format!("{}+1", round);
        match service(&mut state, search(&query)) {
            ServiceAction::Spawn(_, waiting) => {
                let failure = SpawnError::Other(format!("failure {}", round));
                let action = client_spawned(&mut state, Err(failure), waiting);
                assert!(
                    matches!(action, ServiceAction::Report(notice) if notice == format!("pop-launcher failed to start: failure {}", round))
                );
            }
            other => panic!("round {} did not ask for a daemon: {}", round, kind(&other)),
        }
    }
    // The next search finds a daemon and is dispatched.
    assert!(serve(&mut state, "26+1").is_some());
}

#[test]
fn spawn_failure_notices_tell_missing_from_other() {
    assert_eq!(
        spawn_failure_notice(&SpawnError::NotFound),
        "pop-launcher failed to start: executable not found"
    );
    assert_eq!(
        spawn_failure_notice(&SpawnError::Other("permission denied".to_string())),
        "pop-launcher failed to start: permission denied"
    );
    assert_eq!(starting_notice(), "starting pop-launcher service");
    assert_eq!(relay_notice(), "starting pop-launcher instance");
}

#[test]
fn close_without_client_changes_nothing() {
    let mut state = running();
    for _ in 0..3 {
        let action = service(&mut state, ServiceInput::Request(Request::NotifyClosed));
        assert!(matches!(action, ServiceAction::Idle));
        assert!(state.client.is_none());
        assert_eq!(state.phase, Phase::Running);
    }
}

#[test]
fn close_before_any_response_silences_the_relay_and_next_search_respawns() {
    let mut state = running();
    let mut cancelled = serve(&mut state, "a").unwrap();
    assert!(matches!(cancelled.try_recv(), Err(oneshot::error::TryRecvError::Empty)));

    let action = service(&mut state, ServiceInput::Request(Request::NotifyClosed));
    assert!(matches!(action, ServiceAction::Idle));
    assert!(state.client.is_none());
    // Releasing the handle fired the cancellation.
    assert!(matches!(cancelled.try_recv(), Err(oneshot::error::TryRecvError::Closed)));

    let mut pump = Relay::new();
    assert!(relay(&mut pump, RelayInput::Cancelled).is_none());
    assert!(pump.finished);
    assert!(relay(&mut pump, RelayInput::Message(answer("a = 1"))).is_none());
    assert!(relay(&mut pump, RelayInput::StreamEnded).is_none());

    assert!(matches!(service(&mut state, search("b")), ServiceAction::Spawn(_, query) if query == "b"));
}

#[test]
fn daemon_death_gives_one_closed_and_a_new_generation() {
    let mut state = running();
    serve(&mut state, "1+1");
    let mut pump = Relay::new();
    let mut output = Vec::new();
    let mut restarts = 0;
    let inputs = vec![
        RelayInput::Message(answer("1 + 1 = 2")),
        RelayInput::StreamEnded,
        RelayInput::Message(answer("late")),
        RelayInput::StreamEnded,
    ];
    for input in inputs {
        if let Some(event) = relay(&mut pump, input) {
            match subscription(Some(event)) {
                DriverAction::Forward(event) => output.push(event),
                DriverAction::ForwardAndRestart(event) => {
                    output.push(event);
                    restarts += 1;
                    // The generation ends: its loop leaves and releases the client.
                    let left = service(&mut state, ServiceInput::Disconnected);
                    assert!(matches!(left, ServiceAction::Exit));
                    assert!(state.client.is_none());
                    assert_eq!(state.phase, Phase::Exited);
                    // The next one starts at once.
                    state = ServiceLoop::new();
                    match service(&mut state, ServiceInput::Open(sender())) {
                        ServiceAction::Emit(started) => output.push(started),
                        other => panic!("no start event: {}", kind(&other)),
                    }
                }
                DriverAction::Restart => panic!("an event is never swallowed"),
            }
        }
    }
    assert_eq!(restarts, 1);
    assert_eq!(output.len(), 3);
    assert!(matches!(output[0], Event::Response(_)));
    assert!(matches!(output[1], Event::Closed));
    assert!(matches!(output[2], Event::Started(_)));
    assert_eq!(output.iter().filter(|event| matches!(event, Event::Closed)).count(), 1);
}

#[test]
fn searches_are_dispatched_in_submission_order() {
    let mut state = running();
    let queries = ["1", "2+2", "3*3", "4/4", "5%5", "6.6"];
    for query in queries {
        serve(&mut state, query);
    }
    let sent = &state.client.as_ref().unwrap().connection.sent;
    assert_eq!(sent.len(), queries.len());
    for (sent, query) in sent.iter().zip(queries) {
        assert_eq!(sent, query);
    }
}

#[test]
fn relay_forwards_messages_in_order() {
    let mut pump = Relay::new();
    let names = ["first", "second", "third"];
    let mut seen = Vec::new();
    for name in names {
        match relay(&mut pump, RelayInput::Message(Response::Fill(name.to_string()))) {
            Some(Event::Response(Response::Fill(text))) => seen.push(text),
            _ => panic!("a message must come out as a response"),
        }
    }
    assert_eq!(seen, names);
}

#[test]
fn relay_emits_nothing_after_closed() {
    let mut pump = Relay::new();
    assert!(matches!(relay(&mut pump, RelayInput::StreamEnded), Some(Event::Closed)));
    assert!(pump.finished);
    assert!(relay(&mut pump, RelayInput::Message(Response::Close)).is_none());
    assert!(relay(&mut pump, RelayInput::StreamEnded).is_none());
    assert!(relay(&mut pump, RelayInput::Cancelled).is_none());
}

#[test]
fn driver_restarts_when_the_stream_ends() {
    assert!(matches!(subscription(None), DriverAction::Restart));
    assert!(matches!(
        subscription(Some(Event::Started(sender()))),
        DriverAction::Forward(Event::Started(_))
    ));
    assert!(matches!(
        subscription(Some(Event::Response(Response::Close))),
        DriverAction::Forward(Event::Response(Response::Close))
    ));
    assert!(matches!(
        subscription(Some(Event::Closed)),
        DriverAction::ForwardAndRestart(Event::Closed)
    ));
}

#[test]
fn loop_exit_releases_the_client() {
    let mut state = running();
    let mut cancelled = serve(&mut state, "9").unwrap();
    assert!(matches!(service(&mut state, ServiceInput::Disconnected), ServiceAction::Exit));
    assert_eq!(state.phase, Phase::Exited);
    assert!(state.client.is_none());
    assert!(matches!(cancelled.try_recv(), Err(oneshot::error::TryRecvError::Closed)));
    // An exited loop does nothing.
    assert!(matches!(service(&mut state, search("10")), ServiceAction::Idle));
    assert!(matches!(service(&mut state, ServiceInput::Disconnected), ServiceAction::Idle));
}

#[test]
fn second_client_for_an_occupied_slot_is_released() {
    let mut state = running();
    serve(&mut state, "1");
    let (second, mut cancelled) = handle();
    let action = client_spawned(&mut state, Ok(second), "2".to_string());
    assert!(matches!(action, ServiceAction::Idle));
    assert!(matches!(cancelled.try_recv(), Err(oneshot::error::TryRecvError::Closed)));
    assert_eq!(state.client.as_ref().unwrap().connection.sent, vec!["1".to_string()]);
}

#[test]
fn events_and_requests_can_be_cloned() {
    let request = Request::Search("1+1".to_string());
    assert!(matches!(request.clone(), Request::Search(query) if query == "1+1"));
    let event = Event::Response(Response::Fill("2".to_string()));
    assert!(matches!(event.clone(), Event::Response(Response::Fill(text)) if text == "2"));
    assert!(matches!(Event::Started(sender()).clone(), Event::Started(_)));
}

#[test]
fn at_most_one_client_is_live_at_any_time() {
    fn live(cancellations: &mut Vec<oneshot::Receiver<()>>) -> usize {
        let mut count = 0;
        for cancelled in cancellations.iter_mut() {
            if matches!(cancelled.try_recv(), Err(oneshot::error::TryRecvError::Empty)) {
                count += 1;
            }
        }
        count
    }
    let mut cancellations = Vec::new();
    let mut state = running();
    for round in 0..4 {
        for query in ["1", "2", "3"] {
            if let Some(cancelled) = serve(&mut state, query) {
                cancellations.push(cancelled);
            }
            assert_eq!(live(&mut cancellations), 1);
        }
        if round % 2 == 0 {
            service(&mut state, ServiceInput::Request(Request::NotifyClosed));
        } else {
            service(&mut state, ServiceInput::Disconnected);
            state = running();
        }
        assert_eq!(live(&mut cancellations), 0);
    }
    assert_eq!(cancellations.len(), 4);
}
