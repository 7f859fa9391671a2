use pixelstrip::eventhandler::handle;
use pixelstrip::events::wifi::Creds;
use pixelstrip::events::{ApiEvent, Event};
use pixelstrip::eventsystem::api::{ApiCommand, ApiError, ApiEventHandler};
use pixelstrip::eventsystem::{mk_queue, EventHandler, SubHandlers};

fn creds(ssid: &str, psk: &str) -> Creds {
    Creds::new(ssid.to_string(), psk.to_string())
}

#[test]
fn report_names_ssid_and_psk() {
    let line = handle(Event::Api(ApiEvent::ConnectToWifi(creds("home", "secret"))));
    assert_eq!(line, "ssid: home, psk: secret");
    let line = handle(Event::Api(ApiEvent::ConnectToWifi(creds("", ""))));
    assert_eq!(line, "ssid: , psk: ");
    let line = handle(Event::Api(ApiEvent::ConnectToWifi(creds("caf\u{e9}", "p, psk: q"))));
    assert_eq!(line, "ssid: caf\u{e9}, psk: p, psk: q");
}

#[test]
fn queue_carries_events_in_order() {
    let (tx, rx) = mk_queue();
    tx.send(Event::Api(ApiEvent::ConnectToWifi(creds("a", "1")))).unwrap();
    tx.send(Event::Api(ApiEvent::ConnectToWifi(creds("b", "2")))).unwrap();
    match rx.recv().unwrap() {
        Event::Api(ApiEvent::ConnectToWifi(c)) => assert_eq!(c.ssid, "a"),
    }
    match rx.recv().unwrap() {
        Event::Api(ApiEvent::ConnectToWifi(c)) => assert_eq!(c.ssid, "b"),
    }
}

#[test]
fn handler_keeps_the_ends_it_was_given() {
    let handler = EventHandler::init(mk_queue());
    handler.channel.0.send(Event::Api(ApiEvent::ConnectToWifi(creds("x", "y")))).unwrap();
    match handler.channel.1.recv().unwrap() {
        Event::Api(ApiEvent::ConnectToWifi(c)) => {
            assert_eq!(c.ssid, "x");
            assert_eq!(c.psk, "y");
        }
    }
}

#[test]
fn connect_event_with_wifi_up_asks_to_store_and_connect() {
    let mut handler = EventHandler::init(mk_queue());
    let api = ApiEventHandler::new(true);
    let res = handler.handle(
        Event::Api(ApiEvent::ConnectToWifi(creds("home", "secret"))),
        SubHandlers { api_handler: &api },
    );
    match res {
        Ok(ApiCommand::StoreAndConnect(c)) => {
            assert_eq!(c.ssid, "home");
            assert_eq!(c.psk, "secret");
        }
        Err(_) => panic!("the event was refused"),
    }
}

#[test]
fn connect_event_without_wifi_is_refused() {
    let mut handler = EventHandler::init(mk_queue());
    let api = ApiEventHandler::new(false);
    let res = handler.handle(
        Event::Api(ApiEvent::ConnectToWifi(creds("home", "secret"))),
        SubHandlers { api_handler: &api },
    );
    assert!(matches!(res, Err(ApiError::WifiNotInitialized)));
    assert_eq!(ApiError::WifiNotInitialized.message(), "wifi not initialized");
    assert!(matches!(
        api.handle(ApiEvent::ConnectToWifi(creds("a", "b"))),
        Err(ApiError::WifiNotInitialized)
    ));
}

#[test]
fn credentials_clone_field_by_field() {
    let c = creds("name", "word");
    let d = c.clone();
    assert_eq!(d.ssid, "name");
    assert_eq!(d.psk, "word");
}
