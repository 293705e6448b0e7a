use worker_runtime::events::Dispatch;
use worker_runtime::message::console_line;
use worker_runtime::message::console_record;
use worker_runtime::message::fetch_message_reply;
use worker_runtime::message::logger_line;
use worker_runtime::message::message_from_worker;
use worker_runtime::message::AmbientPoll;
use worker_runtime::message::AmbientTimer;
use worker_runtime::message::MessageHandler;
use worker_runtime::message::MessageKind;
use worker_runtime::message::RuntimeBasicMessage;
use worker_runtime::message::RuntimeMessage;
use worker_runtime::protocol::ProtocolError;
use worker_runtime::timers::clear_interval;
use worker_runtime::timers::clear_timeout;
use worker_runtime::timers::clear_timer;
use worker_runtime::timers::queue_microtask;
use worker_runtime::timers::set_interval;
use worker_runtime::timers::set_timeout;
use worker_runtime::timers::set_timer;
use worker_runtime::timers::Timers;

fn texts(args: &[&str]) -> Vec<String> {
    args.iter().map(|a| a.to_string()).collect()
}

#[test]
fn basic_message_carries_kind_and_data() {
    let mut message: RuntimeBasicMessage<u8> = RuntimeBasicMessage::new("timer".to_string());
    assert_eq!(message.kind(), "timer");
    assert_eq!(message.data(), None);
    message.set_data(4);
    assert_eq!(message.data(), Some(&4));
    message.set_data(5);
    assert_eq!(message.data(), Some(&5));
    message.clear_data();
    assert_eq!(message.data(), None);
    assert_eq!(message.kind(), "timer");
    let message = RuntimeBasicMessage::new_with_data("custom".to_string(), 9u8);
    assert_eq!(message.kind(), "custom");
    assert_eq!(message.data(), Some(&9));
}

#[test]
fn on_message_registers_one_handler() {
    let mut slot: MessageHandler<u8> = MessageHandler::new();
    assert!(matches!(slot.send_message(), Dispatch::NoHandler));
    assert_eq!(slot.register(None), Err(ProtocolError::HandlerNotFunction));
    assert!(matches!(slot.send_message(), Dispatch::NoHandler));
    assert_eq!(slot.register(Some(1)), Ok(()));
    assert!(matches!(slot.send_message(), Dispatch::Invoke(&1)));
    assert_eq!(slot.register(Some(2)), Err(ProtocolError::HandlerAlreadyRegistered));
    assert_eq!(slot.register(None), Err(ProtocolError::HandlerNotFunction));
    assert!(matches!(slot.send_message(), Dispatch::Invoke(&1)));
    assert_eq!(ProtocolError::HandlerNotFunction.message(), "Arg 0 is not a function");
    assert_eq!(ProtocolError::HandlerAlreadyRegistered.message(), "Handler already registered");
    assert!(ProtocolError::HandlerNotFunction.is_type_error());
    assert!(!ProtocolError::HandlerAlreadyRegistered.is_type_error());
}

#[test]
fn post_message_names_the_kind() {
    assert_eq!(message_from_worker(1, "console"), Ok(MessageKind::Console));
    assert_eq!(message_from_worker(1, "timer"), Ok(MessageKind::Timer));
    assert_eq!(message_from_worker(1, "fetch"), Ok(MessageKind::Fetch));
    assert_eq!(message_from_worker(1, "Fetch"), Ok(MessageKind::Other));
    assert_eq!(message_from_worker(1, ""), Ok(MessageKind::Other));
    assert_eq!(message_from_worker(1, "undefined"), Ok(MessageKind::Other));
}

#[test]
fn post_message_takes_one_argument() {
    assert_eq!(message_from_worker(0, "console"), Err(ProtocolError::MessageArgumentCount));
    assert_eq!(message_from_worker(2, "console"), Err(ProtocolError::MessageArgumentCount));
    assert_eq!(ProtocolError::MessageArgumentCount.message(), "postMessage expects 1 argument");
    assert!(ProtocolError::MessageArgumentCount.is_type_error());
}

#[test]
fn console_line_lists_the_arguments() {
    assert_eq!(console_line("log", "stamp", &texts(&[])), "[stamp] console.log:");
    assert_eq!(console_line("warn", "s", &texts(&["a"])), "[s] console.warn: a");
    assert_eq!(console_line("info", "", &texts(&["a", "", "b c"])), "[] console.info: a  b c");
}

#[test]
fn console_record_dates_the_line() {
    assert_eq!(
        console_record("log", 0, &texts(&["hello", "world"])).unwrap(),
        "[1970-01-01T00:00:00] console.log: hello world"
    );
    assert_eq!(
        console_record("error", 1662921288123, &texts(&["x"])).unwrap(),
        "[2022-09-11T18:34:48.123] console.error: x"
    );
    assert_eq!(console_record("log", -1, &texts(&[])).unwrap(), "[1969-12-31T23:59:59.999] console.log:");
}

#[test]
fn console_record_has_no_line_for_a_date_out_of_range() {
    assert_eq!(console_record("log", i64::MAX, &texts(&["x"])), None);
    assert_eq!(console_record("log", i64::MIN, &texts(&["x"])), None);
}

#[test]
fn logger_line_starts_with_the_level() {
    assert_eq!(logger_line("log", &texts(&[])), "console output: [log]");
    assert_eq!(logger_line("log", &texts(&["hello world"])), "console output: [log] hello world");
    assert_eq!(logger_line("debug", &texts(&["1", "{a: 1}"])), "console output: [debug] 1 {a: 1}");
}

#[test]
fn fetch_message_gets_the_canned_body() {
    assert_eq!(
        fetch_message_reply("https://example.org/get", true),
        Ok("Response for https://example.org/get".to_string())
    );
    assert_eq!(fetch_message_reply("", true), Ok("Response for ".to_string()));
    assert_eq!(fetch_message_reply("/x", false), Err(ProtocolError::SendResponseNotFunction));
    assert_eq!(ProtocolError::SendResponseNotFunction.message(), "sendResponse is not a function");
}

#[test]
fn ambient_timer_fires_once() {
    let mut timer = AmbientTimer::new();
    assert_eq!(timer.poll_timer(0), AmbientPoll::Idle);
    timer.set(Some(25), 100);
    assert_eq!(timer.poll_timer(100), AmbientPoll::Sleep { delay: 25 });
    assert_eq!(timer.poll_timer(124), AmbientPoll::Sleep { delay: 1 });
    assert_eq!(timer.poll_timer(125), AmbientPoll::Fire);
    assert_eq!(timer.poll_timer(125), AmbientPoll::Idle);
}

#[test]
fn ambient_timer_can_be_disarmed_and_rearmed() {
    let mut timer = AmbientTimer::new();
    timer.set(Some(25), 100);
    timer.set(None, 101);
    assert_eq!(timer.poll_timer(1000), AmbientPoll::Idle);
    timer.set(Some(25), 100);
    timer.set(Some(0), 200);
    assert_eq!(timer.poll_timer(150), AmbientPoll::Sleep { delay: 50 });
    assert_eq!(timer.poll_timer(200), AmbientPoll::Fire);
}

#[test]
fn set_timer_needs_a_callable() {
    let mut timers: Timers<&str> = Timers::new();
    assert_eq!(set_timer(&mut timers, None, 10, false, 0), Err(ProtocolError::CallbackNotFunction));
    assert_eq!(set_timeout(&mut timers, None, 10, 0), Err(ProtocolError::CallbackNotFunction));
    assert_eq!(set_interval(&mut timers, None, 10, 0), Err(ProtocolError::CallbackNotFunction));
    assert!(timers.is_empty());
    assert_eq!(timers.next_id(), 0);
    assert_eq!(ProtocolError::CallbackNotFunction.message(), "Argument must be a function");
}

#[test]
fn set_timeout_and_set_interval_register_timers() {
    let mut timers: Timers<&str> = Timers::new();
    assert_eq!(set_timeout(&mut timers, Some("a"), 10, 1000), Ok(0));
    assert_eq!(set_interval(&mut timers, Some("b"), u32::MAX, 1000), Ok(1));
    assert_eq!(set_timer(&mut timers, Some("c"), 0, true, 1000), Ok(2));
    let a = timers.get(0).unwrap();
    assert_eq!((a.due, a.interval, a.callback), (1010, None, "a"));
    let b = timers.get(1).unwrap();
    assert_eq!((b.due, b.interval, b.callback), (1000 + 4294967295, Some(4294967295), "b"));
    let c = timers.get(2).unwrap();
    assert_eq!((c.due, c.interval, c.callback), (1000, Some(0), "c"));
}

#[test]
fn clear_timer_removes_and_reports_the_id() {
    let mut timers: Timers<&str> = Timers::new();
    set_timeout(&mut timers, Some("a"), 10, 0).unwrap();
    set_interval(&mut timers, Some("b"), 10, 0).unwrap();
    assert_eq!(clear_timer(&mut timers, None), None);
    assert_eq!(timers.len(), 2);
    assert_eq!(clear_timeout(&mut timers, Some(0)), Some(0));
    assert_eq!(clear_timeout(&mut timers, Some(0)), Some(0));
    assert_eq!(clear_interval(&mut timers, Some(5)), Some(5));
    assert_eq!(timers.len(), 1);
    assert_eq!(clear_interval(&mut timers, Some(1)), Some(1));
    assert!(timers.is_empty());
}

#[test]
fn queue_microtask_needs_a_callable() {
    assert_eq!(queue_microtask(Some(3)), Ok(3));
    assert_eq!(queue_microtask::<u8>(None), Err(ProtocolError::CallbackNotFunction));
}
