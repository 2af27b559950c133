use ort::error::{Error, ErrorCode};
use ort::io_binding::IoBinding;
use ort::memory::Allocator;
use ort::pointer::{AsPointer, Pointer};
use ort::session::bound::{
    AfterBoundRun, BoundRunRequest, FetchRequest, FetchedOutputs, FreeRequest,
};
use ort::session::run_options::RunOptions;
use ort::session::{Session, SharedSessionInner};
use ort::value::Value;
use std::sync::Arc;

fn pointer(addr: usize) -> Pointer {
    Pointer::new(addr).unwrap()
}

fn session() -> Session {
    Session {
        inner: Arc::new(SharedSessionInner {
            session_ptr: pointer(0x5e55),
            allocator: Allocator { ptr: pointer(0xa110) },
        }),
        inputs: vec![],
        outputs: vec![],
    }
}

fn binding(names: &[&str]) -> IoBinding {
    IoBinding {
        ptr: pointer(0xb1d),
        output_values: names.iter().map(|name| (name.to_string(), None)).collect(),
    }
}

fn failure(msg: &str) -> Error {
    Error::new_with_code(ErrorCode::RuntimeException, msg.to_string())
}

#[test]
fn bound_outputs_are_fetched_and_their_array_freed() {
    let mut session = session();
    let mut binding = binding(&["y", "z"]);
    binding.output_values[0].1 = Some(Value::from_ptr(pointer(90), None));
    let mut calls: Vec<String> = vec![];
    let mut freed: Option<FreeRequest> = None;
    let outputs = session
        .run_binding(
            &binding,
            |request| {
                assert_eq!(
                    request,
                    BoundRunRequest { session: 0x5e55, run_options: 0, binding: 0xb1d }
                );
                calls.push("run".to_string());
                Ok(())
            },
            |request| {
                assert_eq!(request, FetchRequest { binding: 0xb1d, allocator: 0xa110, count: 2 });
                Ok(FetchedOutputs { array: pointer(0xaaa), values: vec![41, 42] })
            },
            |request| freed = Some(request),
        )
        .unwrap();
    assert_eq!(calls, vec!["run".to_string()]);
    assert_eq!(freed, Some(FreeRequest { allocator: 0xa110, block: 0xaaa }));
    assert_eq!(outputs.names, vec!["y".to_string(), "z".to_string()]);
    let addresses: Vec<usize> = outputs.values.iter().map(|value| value.ptr()).collect();
    assert_eq!(addresses, vec![41, 42]);
    for value in &outputs.values {
        assert!(Arc::ptr_eq(value.inner.session.as_ref().unwrap(), &session.inner));
    }
}

#[test]
fn nothing_is_fetched_where_nothing_is_bound() {
    let mut session = session();
    let mut fetched = false;
    let mut freed = false;
    let outputs = session
        .run_binding(
            &binding(&[]),
            |_request| Ok(()),
            |_request| {
                fetched = true;
                Err(failure("not bound"))
            },
            |_request| freed = true,
        )
        .unwrap();
    assert!(!fetched);
    assert!(!freed);
    assert!(outputs.names.is_empty());
    assert!(outputs.values.is_empty());
}

#[test]
fn failed_bound_run_fetches_nothing() {
    let mut session = session();
    let mut fetched = false;
    let error = session
        .run_binding(
            &binding(&["y"]),
            |_request| Err(failure("run")),
            |_request| {
                fetched = true;
                Err(failure("fetch"))
            },
            |_request| {},
        )
        .unwrap_err();
    assert!(!fetched);
    assert_eq!(error, failure("run"));
}

#[test]
fn failed_fetch_frees_nothing() {
    let mut session = session();
    let mut freed = false;
    let error = session
        .run_binding(
            &binding(&["y"]),
            |_request| Ok(()),
            |_request| Err(failure("fetch")),
            |_request| freed = true,
        )
        .unwrap_err();
    assert!(!freed);
    assert_eq!(error, failure("fetch"));
}

#[test]
fn options_reach_a_bound_run() {
    let session = session();
    let options = RunOptions::new(pointer(0x0b7));
    let request = session.start_bound_run(&binding(&[]), Some(&options));
    assert_eq!(request, BoundRunRequest { session: 0x5e55, run_options: 0x0b7, binding: 0xb1d });
}

#[test]
fn steps_of_a_bound_run() {
    let session = session();
    let bound = binding(&["y"]);
    assert_eq!(bound.ptr(), 0xb1d);
    match session.after_bound_run(&bound, Ok(())) {
        AfterBoundRun::Fetch(request) => assert_eq!(request.count, 1),
        AfterBoundRun::Done(_) => panic!("outputs are bound"),
    }
    match session.after_bound_run(&bound, Err(failure("run"))) {
        AfterBoundRun::Done(result) => assert_eq!(result.unwrap_err(), failure("run")),
        AfterBoundRun::Fetch(_) => panic!("the run failed"),
    }
    match session.after_bound_run(&binding(&[]), Ok(())) {
        AfterBoundRun::Done(result) => assert!(result.unwrap().values.is_empty()),
        AfterBoundRun::Fetch(_) => panic!("nothing is bound"),
    }
    let outputs = session.collect_bound_outputs(&bound, &vec![41]);
    assert_eq!(outputs.names, vec!["y".to_string()]);
    assert_eq!(outputs.values[0].ptr(), 41);
}
