use std::sync::Mutex;
use std::time::Duration;

use backend::bootstrap::{Action, Bootstrap, Endpoint, Event};
use backend::outcome::{StartupError, StartupOutcome};
use backend::routes::assemble;
use tokio::net::TcpListener;
use tokio::sync::oneshot;

/// One test at a time may hold port 8000.
static PORT: Mutex<()> = Mutex::new(());

fn socket_addr(endpoint: Endpoint) -> String {
    let (a, b, c, d) = endpoint.host;
    format!("{a}.{b}.{c}.{d}:{}", endpoint.port)
}

/// Takes the steps of a run as the program does. Tells through `serving`
/// that requests are about to be served, and returns the result of the run
/// together with the steps that were due.
async fn drive(serving: oneshot::Sender<()>) -> (Result<StartupOutcome, StartupError>, Vec<String>) {
    let mut serving = Some(serving);
    let mut listener = None;
    let mut app = None;
    let mut steps = Vec::new();
    let (mut run, mut action) = Bootstrap::start();
    loop {
        let event = match action {
            Action::Bind(endpoint) => {
                steps.push(String::from("bind"));
                match TcpListener::bind(socket_addr(endpoint)).await {
                    Ok(bound) => {
                        listener = Some(bound);
                        Event::Done
                    }
                    Err(cause) => Event::Failed(cause.to_string()),
                }
            }
            Action::Assemble => {
                steps.push(String::from("assemble"));
                app = Some(assemble());
                Event::Done
            }
            Action::ResolveAddress => {
                steps.push(String::from("resolve"));
                match listener.as_ref().unwrap().local_addr() {
                    Ok(address) => Event::Address(address.to_string()),
                    Err(cause) => Event::Failed(cause.to_string()),
                }
            }
            Action::Announce(line) => {
                steps.push(line.text);
                Event::Done
            }
            Action::Serve => {
                steps.push(String::from("serve"));
                serving.take().unwrap().send(()).unwrap();
                match axum::serve(listener.take().unwrap(), app.take().unwrap()).await {
                    Ok(()) => Event::Done,
                    Err(cause) => Event::Failed(cause.to_string()),
                }
            }
            Action::Finish(result) => return (result, steps),
        };
        action = run.step(event).unwrap();
    }
}

#[test]
fn server_on_port_8000_comes_up_and_keeps_serving() {
    let _port = PORT.lock().unwrap_or_else(|poisoned| poisoned.into_inner());
    let runtime = tokio::runtime::Builder::new_multi_thread()
        .worker_threads(2)
        .enable_all()
        .build()
        .unwrap();
    runtime.block_on(async {
        let (tell, serving) = oneshot::channel();
        let server = tokio::spawn(drive(tell));
        tokio::time::timeout(Duration::from_secs(10), serving)
            .await
            .unwrap()
            .unwrap();
        tokio::time::sleep(Duration::from_millis(200)).await;
        assert!(!server.is_finished());
        server.abort();
        assert!(server.await.unwrap_err().is_cancelled());
    });
}

#[test]
fn steps_of_a_run_on_a_free_port_end_with_serving() {
    let _port = PORT.lock().unwrap_or_else(|poisoned| poisoned.into_inner());
    let runtime = tokio::runtime::Builder::new_current_thread()
        .enable_all()
        .build()
        .unwrap();
    runtime.block_on(async {
        let mut listener = None;
        let mut seen = Vec::new();
        let (mut run, mut action) = Bootstrap::start();
        while action != Action::Serve {
            let event = match action {
                Action::Bind(endpoint) => {
                    listener = Some(TcpListener::bind(socket_addr(endpoint)).await.unwrap());
                    Event::Done
                }
                Action::ResolveAddress => {
                    Event::Address(listener.as_ref().unwrap().local_addr().unwrap().to_string())
                }
                Action::Announce(line) => {
                    seen.push(line.text);
                    Event::Done
                }
                _ => Event::Done,
            };
            action = run.step(event).unwrap();
        }
        assert_eq!(seen, vec![String::from("backend listening on 127.0.0.1:8000")]);
    });
}

#[test]
fn taken_port_8000_fails_the_bind_and_serves_nothing() {
    let _port = PORT.lock().unwrap_or_else(|poisoned| poisoned.into_inner());
    let runtime = tokio::runtime::Builder::new_current_thread()
        .enable_all()
        .build()
        .unwrap();
    runtime.block_on(async {
        let holder = TcpListener::bind("127.0.0.1:8000").await.unwrap();
        let (tell, mut serving) = oneshot::channel();
        let (result, steps) = tokio::time::timeout(Duration::from_secs(10), drive(tell))
            .await
            .unwrap();
        assert!(matches!(result, Err(StartupError::BindTcpListener(_))));
        assert_eq!(steps, vec![String::from("bind")]);
        assert!(serving.try_recv().is_err());
        if let Err(error) = result {
            assert!(error.message().starts_with("could not bind to network interface: "));
            assert!(error.message().len() > "could not bind to network interface: ".len());
        }
        drop(holder);
    });
}
