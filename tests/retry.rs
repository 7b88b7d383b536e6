use dbus_api::api::{method_call_failed, DBusApi};
use dbus_api::error::Error;
use dbus_api::retry::{Decision, RetryPolicy, TransportError};
use dbus_api::value::Value;

fn failure(name: &str) -> TransportError {
    TransportError { name: Some(name.to_string()), message: Some(format!("{} happened", name)) }
}

/// What an invocation did: the reply attempt (if any), the error, the
/// number of attempts and the waits in seconds.
struct Outcome {
    replied: bool,
    error: Option<Error>,
    attempts: u32,
    waited: Vec<u64>,
}

/// Runs one invocation against scripted bus answers: `Ok(())` is a reply.
fn invoke(api: &DBusApi, script: Vec<Result<(), TransportError>>) -> Outcome {
    let mut retries: u32 = 0;
    let mut attempts: u32 = 0;
    let mut waited = Vec::new();
    for answer in script {
        attempts += 1;
        match answer {
            Ok(()) => return Outcome { replied: true, error: None, attempts, waited },
            Err(e) => match api.on_call_failure("/org/example", "org.example.Iface", "Do", retries, e) {
                Ok((n, delay)) => {
                    retries = n;
                    waited.push(delay);
                }
                Err(err) => return Outcome { replied: false, error: Some(err), attempts, waited },
            },
        }
    }
    panic!("script ran out after {} attempts", attempts);
}

fn context_of(e: &Error) -> (&str, &Error) {
    match e {
        Error::Context { message, cause } => (message.as_str(), cause),
        other => panic!("no context: {:?}", other),
    }
}

#[test]
fn busy_nine_times_then_success() {
    let api = DBusApi::new("org.example", &["Busy"], None);
    let mut script: Vec<Result<(), TransportError>> = (0..9).map(|_| Err(failure("Busy"))).collect();
    script.push(Ok(()));
    let out = invoke(&api, script);
    assert!(out.replied);
    assert!(out.error.is_none());
    assert_eq!(out.attempts, 10);
    assert_eq!(out.waited, vec![1; 9]);
}

#[test]
fn busy_every_time_exhausts_retries() {
    let api = DBusApi::new("org.example", &["Busy"], None);
    let script: Vec<Result<(), TransportError>> = (0..12).map(|_| Err(failure("Busy"))).collect();
    let out = invoke(&api, script);
    assert!(!out.replied);
    assert_eq!(out.attempts, 10);
    assert_eq!(out.waited.len(), 9);
    let err = out.error.unwrap();
    let (message, cause) = context_of(&err);
    assert_eq!(message, "org.example.Iface::Do method call failed on /org/example");
    assert!(matches!(cause, Error::RetriesExhausted { attempts: 10 }));
}

#[test]
fn fatal_error_stops_at_once() {
    let api = DBusApi::new("org.example", &["Busy"], None);
    let script = vec![Err(failure("PermissionDenied")), Ok(())];
    let out = invoke(&api, script);
    assert!(!out.replied);
    assert_eq!(out.attempts, 1);
    assert!(out.waited.is_empty());
    let err = out.error.unwrap();
    let (message, cause) = context_of(&err);
    assert_eq!(message, "org.example.Iface::Do method call failed on /org/example");
    match cause {
        Error::Transport(t) => assert_eq!(t.name.as_deref(), Some("PermissionDenied")),
        other => panic!("unexpected cause {:?}", other),
    }
}

#[test]
fn unnamed_failure_is_fatal() {
    let api = DBusApi::new("org.example", &["Busy"], None);
    let out = invoke(&api, vec![Err(TransportError { name: None, message: None }), Ok(())]);
    assert_eq!(out.attempts, 1);
    assert!(!out.replied);
}

#[test]
fn first_success_returns_immediately() {
    let api = DBusApi::new("org.example", &["Busy", "Timeout"], None);
    let out = invoke(&api, vec![Err(failure("Timeout")), Ok(()), Err(failure("Busy"))]);
    assert!(out.replied);
    assert_eq!(out.attempts, 2);
    assert_eq!(out.waited, vec![1]);
}

#[test]
fn policy_decisions() {
    let policy = RetryPolicy { transient_names: vec!["Busy".to_string()], max_attempts: 3, delay_secs: 4 };
    assert!(policy.is_transient(&failure("Busy")));
    assert!(!policy.is_transient(&failure("Bus")));
    assert_eq!(policy.after_failure(0, &failure("Busy")), Decision::Retry { retries: 1, delay_secs: 4 });
    assert_eq!(policy.after_failure(1, &failure("Busy")), Decision::Retry { retries: 2, delay_secs: 4 });
    assert_eq!(policy.after_failure(2, &failure("Busy")), Decision::Exhausted { attempts: 3 });
    assert_eq!(policy.after_failure(0, &failure("Other")), Decision::Fatal);
    let single = RetryPolicy { transient_names: vec!["Busy".to_string()], max_attempts: 1, delay_secs: 1 };
    assert_eq!(single.after_failure(0, &failure("Busy")), Decision::Exhausted { attempts: 1 });
}

#[test]
fn settings_defaults() {
    let api = DBusApi::new("org.example", &["Busy"], None);
    assert_eq!(api.method_timeout(), 15);
    assert_eq!(api.base, "org.example");
    assert_eq!(api.policy.max_attempts, 10);
    assert_eq!(api.policy.delay_secs, 1);
    assert_eq!(api.policy.transient_names, vec!["Busy".to_string()]);
    assert_eq!(DBusApi::new("x", &[], Some(30)).method_timeout(), 30);
}

#[test]
fn malformed_call_context() {
    let err = method_call_failed("bad path", "org.example.Iface", "Do", Error::MalformedCall { details: "invalid".to_string() });
    let (message, cause) = context_of(&err);
    assert_eq!(message, "org.example.Iface::Do method call failed on bad path");
    assert!(matches!(cause, Error::MalformedCall { .. }));
}

#[test]
fn property_read_failure_context() {
    let api = DBusApi::new("org.example", &[], None);
    let r: Result<String, Error> = api.property("/p", "org.example.I", "Name", Err(failure("NoReply")));
    let err = r.unwrap_err();
    let (message, cause) = context_of(&err);
    assert_eq!(message, "Get org.example.I::Name property failed on /p: NoReply happened");
    assert!(matches!(cause, Error::Transport(_)));
    let r: Result<String, Error> =
        api.property("/p", "org.example.I", "Name", Err(TransportError { name: None, message: None }));
    let err = r.unwrap_err();
    assert_eq!(context_of(&err).0, "Get org.example.I::Name property failed on /p: no details");
}

#[test]
fn property_wrong_type() {
    let api = DBusApi::new("org.example", &[], None);
    let r: Result<bool, Error> = api.property("/p", "org.example.I", "On", Ok(Value::Str("yes".to_string())));
    match r {
        Err(Error::WrongPropertyType { message }) => {
            assert_eq!(message, "Get org.example.I::On property failed on /p: wrong property type")
        }
        other => panic!("unexpected {:?}", other),
    }
    let ok: Result<bool, Error> = api.property("/p", "org.example.I", "On", Ok(Value::UInt32(0)));
    assert_eq!(ok.unwrap(), true);
}
