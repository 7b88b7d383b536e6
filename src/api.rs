use vstd::prelude::*;
use crate::convert::VariantTo;
use crate::error::Error;
use crate::extract::Get;
use crate::retry::{decide, Decision, RetryPolicy, TransportError};
use crate::value::Value;

verus! {

/// Default time allowed for one method call or property read, in seconds.
pub const DEFAULT_TIMEOUT: u64 = 15;

/// How many attempts a method call gets.
pub const RETRIES_ALLOWED: u32 = 10;

/// How long to wait between two attempts, in seconds.
pub const RETRY_DELAY_SECS: u64 = 1;

/// The settings under which calls are made to one service on the bus.
pub struct DBusApi {
    pub base: String,
    pub policy: RetryPolicy,
    pub method_timeout: u64,
}

/// The context given to a failed method call.
pub open spec fn method_call_context(interface: Seq<char>, method: Seq<char>, path: Seq<char>) -> Seq<char> {
    interface + "::"@ + method + " method call failed on "@ + path
}

/// The context given to a failed property read.
pub open spec fn property_context(
    interface: Seq<char>,
    name: Seq<char>,
    path: Seq<char>,
    details: Seq<char>,
) -> Seq<char> {
    "Get "@ + interface + "::"@ + name + " property failed on "@ + path + ": "@ + details
}

/// What a transport failure says of itself.
pub open spec fn details_of(err: TransportError) -> Seq<char> {
    match err.message {
        Some(m) => m@,
        None => "no details"@,
    }
}

/// `e` is `cause` under the context `message`.
pub open spec fn is_context(e: Error, message: Seq<char>, cause: Error) -> bool {
    match e {
        Error::Context { message: m, cause: c } => m@ == message && *c == cause,
        _ => false,
    }
}

/// Wraps a failure of the method call `interface::method` on `path` in
/// its context.
pub fn method_call_failed(path: &str, interface: &str, method: &str, cause: Error) -> (r: Error)
    ensures
        is_context(r, method_call_context(interface@, method@, path@), cause),
{
    let mut message = String::new();
    message.append(interface);
    message.append("::");
    message.append(method);
    message.append(" method call failed on ");
    message.append(path);
    assert(message@ =~= method_call_context(interface@, method@, path@));
    Error::Context { message, cause: Box::new(cause) }
}

fn property_message(path: &str, interface: &str, name: &str, details: &str) -> (r: String)
    ensures
        r@ == property_context(interface@, name@, path@, details@),
{
    let mut message = String::new();
    message.append("Get ");
    message.append(interface);
    message.append("::");
    message.append(name);
    message.append(" property failed on ");
    message.append(path);
    message.append(": ");
    message.append(details);
    assert(message@ =~= property_context(interface@, name@, path@, details@));
    message
}

impl DBusApi {
    pub open spec fn wf(&self) -> bool {
        self.policy.wf()
    }

    /// Settings for calls to the service `base`: failures named in
    /// `method_retry_error_names` are retried, and each call or read may
    /// take `method_timeout` seconds, 15 when none is given.
    pub fn new(base: &str, method_retry_error_names: &[&str], method_timeout: Option<u64>) -> (r: Self)
        ensures
            r.wf(),
            r.base@ == base@,
            r.policy.names() == Seq::new(method_retry_error_names@.len(), |i: int| method_retry_error_names@[i]@),
            r.policy.max_attempts == RETRIES_ALLOWED,
            r.policy.delay_secs == RETRY_DELAY_SECS,
            r.method_timeout == match method_timeout {
                Some(t) => t,
                None => DEFAULT_TIMEOUT,
            },
    {
        let mut names: Vec<String> = Vec::new();
        let mut i: usize = 0;
        while i < method_retry_error_names.len()
            invariant
                i <= method_retry_error_names@.len(),
                names@.len() == i,
                forall|j: int| 0 <= j < i ==> names@[j]@ == method_retry_error_names@[j]@,
            decreases method_retry_error_names@.len() - i,
        {
            names.push(String::from_str(method_retry_error_names[i]));
            i = i + 1;
        }
        let method_timeout = match method_timeout {
            Some(t) => t,
            None => DEFAULT_TIMEOUT,
        };
        let r = DBusApi {
            base: String::from_str(base),
            policy: RetryPolicy {
                transient_names: names,
                max_attempts: RETRIES_ALLOWED,
                delay_secs: RETRY_DELAY_SECS,
            },
            method_timeout,
        };
        assert(r.policy.names() =~= Seq::new(method_retry_error_names@.len(), |i: int| method_retry_error_names@[i]@));
        r
    }

    pub fn method_timeout(&self) -> (r: u64)
        ensures
            r == self.method_timeout,
    {
        self.method_timeout
    }

    /// What to do after attempt `retries + 1` of the method call
    /// `interface::method` on `path` failed with `err`: `Ok` with the new
    /// count of failed attempts and the seconds to wait before the next one,
    /// or `Err` with the failure to report, in its context.
    pub fn on_call_failure(
        &self,
        path: &str,
        interface: &str,
        method: &str,
        retries: u32,
        err: TransportError,
    ) -> (r: Result<(u32, u64), Error>)
        requires
            self.wf(),
            retries < self.policy.max_attempts,
        ensures
            match decide(
                self.policy.names(),
                self.policy.max_attempts,
                self.policy.delay_secs,
                retries,
                err.name.deep_view(),
            ) {
                Decision::Retry { retries: n, delay_secs } => r == Ok::<(u32, u64), Error>((n, delay_secs)),
                Decision::Exhausted { attempts } => r is Err && is_context(
                    r->Err_0,
                    method_call_context(interface@, method@, path@),
                    Error::RetriesExhausted { attempts },
                ),
                Decision::Fatal => r is Err && is_context(
                    r->Err_0,
                    method_call_context(interface@, method@, path@),
                    Error::Transport(err),
                ),
            },
    {
        match self.policy.after_failure(retries, &err) {
            Decision::Retry { retries, delay_secs } => Ok((retries, delay_secs)),
            Decision::Exhausted { attempts } => Err(
                method_call_failed(path, interface, method, Error::RetriesExhausted { attempts }),
            ),
            Decision::Fatal => Err(method_call_failed(path, interface, method, Error::Transport(err))),
        }
    }

    /// The property `interface::name` of `path`, from what the bus answered
    /// to the read: the value converted to `T`, or the failure in its context.
    pub fn property<T: DeepView>(
        &self,
        path: &str,
        interface: &str,
        name: &str,
        fetched: Result<Value, TransportError>,
    ) -> (r: Result<T, Error>)
        where DBusApi: VariantTo<T>,
        ensures
            match fetched {
                Ok(v) => match <DBusApi as VariantTo<T>>::converted(v) {
                    Some(x) => r is Ok && r->Ok_0.deep_view() == x,
                    None => r is Err && (match r->Err_0 {
                        Error::WrongPropertyType { message } => message@ == property_context(
                            interface@,
                            name@,
                            path@,
                            "wrong property type"@,
                        ),
                        _ => false,
                    }),
                },
                Err(e) => r is Err && is_context(
                    r->Err_0,
                    property_context(interface@, name@, path@, details_of(e)),
                    Error::Transport(e),
                ),
            },
    {
        match fetched {
            Ok(value) => match <DBusApi as VariantTo<T>>::variant_to(&value) {
                Some(data) => Ok(data),
                None => Err(
                    Error::WrongPropertyType {
                        message: property_message(path, interface, name, "wrong property type"),
                    },
                ),
            },
            Err(e) => {
                let message = match &e.message {
                    Some(details) => property_message(path, interface, name, details.as_str()),
                    None => property_message(path, interface, name, "no details"),
                };
                Err(Error::Context { message, cause: Box::new(Error::Transport(e)) })
            },
        }
    }

    /// The first field of a reply, read as a `T`.
    pub fn extract<T: Get>(&self, response: &Vec<Value>) -> (r: Result<T, Error>)
        ensures
            if response@.len() > 0 && T::spec_get(response@[0]) is Some {
                r is Ok && r->Ok_0.deep_view() == T::spec_get(response@[0]).unwrap()
            } else {
                r == Err::<T, Error>(Error::WrongResponseType)
            },
    {
        if response.len() == 0 {
            return Err(Error::WrongResponseType);
        }
        match T::get(&response[0]) {
            Some(x) => Ok(x),
            None => Err(Error::WrongResponseType),
        }
    }

    /// The first two fields of a reply, read as a `T1` and a `T2`.
    pub fn extract_two<T1: Get, T2: Get>(&self, response: &Vec<Value>) -> (r: Result<(T1, T2), Error>)
        ensures
            if response@.len() > 1 && T1::spec_get(response@[0]) is Some && T2::spec_get(response@[1]) is Some {
                r is Ok && r->Ok_0.0.deep_view() == T1::spec_get(response@[0]).unwrap()
                    && r->Ok_0.1.deep_view() == T2::spec_get(response@[1]).unwrap()
            } else {
                r == Err::<(T1, T2), Error>(Error::WrongResponseType)
            },
    {
        if response.len() < 2 {
            return Err(Error::WrongResponseType);
        }
        let first = T1::get(&response[0]);
        let second = T2::get(&response[1]);
        match (first, second) {
            (Some(a), Some(b)) => Ok((a, b)),
            _ => Err(Error::WrongResponseType),
        }
    }
}

} // verus!
