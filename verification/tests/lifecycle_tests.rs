use local_server::envelope::ServerError;
use local_server::lifecycle::HttpServer;

#[test]
fn start_twice_on_same_port_is_idempotent() {
    let mut server: HttpServer<i32> = HttpServer::new(7);
    let first = server.start(8080).unwrap();
    assert!(first.is_some(), "the first start launches the listener");
    let second = server.start(8080).unwrap();
    assert!(second.is_none(), "the second start launches nothing");
}

#[test]
fn start_on_other_port_conflicts_and_names_the_bound_port() {
    let mut server: HttpServer<i32> = HttpServer::new(7);
    server.start(8080).unwrap();
    match server.start(9090) {
        Err(ServerError::StartupError(msg)) => {
            assert_eq!(msg, "HTTP server already running on port 8080");
        }
        _ => panic!("expected a conflict"),
    }
    // the active instance is untouched: same port still answers as a no-op
    assert!(server.start(8080).unwrap().is_none());
}

#[test]
fn stop_without_start_fails_with_not_running() {
    let mut server: HttpServer<i32> = HttpServer::new(7);
    match server.stop() {
        Err(ServerError::StartupError(msg)) => {
            assert_eq!(msg, "HTTP server not running");
        }
        _ => panic!("expected a not-running error"),
    }
}

#[test]
fn start_stop_start_succeeds_at_each_step() {
    let mut server: HttpServer<i32> = HttpServer::new(7);
    assert!(server.start(8080).unwrap().is_some());
    assert!(server.stop().is_ok());
    assert!(server.start(8080).unwrap().is_some(), "stop fully reset the singleton");
}

#[test]
fn stop_delivers_the_shutdown_signal() {
    let mut server: HttpServer<i32> = HttpServer::new(7);
    let rx = server.start(8080).unwrap().unwrap();
    server.stop().unwrap();
    assert!(rx.blocking_recv().is_ok(), "the serving task would observe the signal");
}

#[test]
fn stop_after_receiver_dropped_still_resets() {
    let mut server: HttpServer<i32> = HttpServer::new(7);
    let rx = server.start(8080).unwrap().unwrap();
    drop(rx);
    assert!(server.stop().is_ok());
    assert!(matches!(server.stop(), Err(ServerError::StartupError(_))));
}
