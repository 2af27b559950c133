use ort::ep::{Arch, Platform, RegisterError, Vendor, MPS};
use ort::error::{Error, ErrorCode};
use ort::memory::Allocator;
use ort::pointer::{AsPointer, Pointer};
use ort::session::builder::SessionBuilder;
use ort::session::output::{Output, SessionOutputs};
use ort::session::run_options::{select_every, OutputSelector, SelectedOutput};
use ort::session::{Session, SharedSessionInner};
use ort::text::{push_decimal, to_c_string};
use ort::value::Value;
use std::sync::Arc;

fn builder() -> SessionBuilder {
    SessionBuilder { options: Pointer::new(0x0b7).unwrap() }
}

#[test]
fn null_is_no_pointer() {
    assert!(Pointer::new(0).is_none());
    assert_eq!(Pointer::new(1).unwrap().addr(), 1);
    assert_eq!(Pointer::new(usize::MAX).unwrap().addr(), usize::MAX);
}

#[test]
fn numbers_are_written_in_decimal() {
    for n in [0, 1, 9, 10, 11, 99, 100, 101, 4096, 65535, 1234567890, usize::MAX] {
        let mut text = "n = ".to_string();
        push_decimal(&mut text, n);
        assert_eq!(text, format!("n = {}", n));
    }
}

#[test]
fn c_strings_end_in_their_only_zero() {
    assert_eq!(to_c_string("mel"), vec![b'm', b'e', b'l', 0]);
    assert_eq!(to_c_string(""), vec![0]);
    assert_eq!(to_c_string("é"), vec![0xc3, 0xa9, 0]);
}

#[test]
fn different_names_give_different_c_strings() {
    assert_ne!(to_c_string("x"), to_c_string("xx"));
    assert_ne!(to_c_string("e"), to_c_string("é"));
}

#[test]
fn builder_wraps_the_options_that_were_made() {
    let made = Session::builder(|| Ok(Pointer::new(0x0b7).unwrap())).unwrap();
    assert_eq!(made.ptr(), 0x0b7);
}

#[test]
fn builder_hands_a_failure_on() {
    let failure = Error::new_with_code(ErrorCode::GenericFailure, "no memory".to_string());
    let answer = failure.clone();
    assert_eq!(Session::builder(|| Err(answer)).unwrap_err(), failure);
}

#[test]
fn inner_is_shared() {
    let session = Session {
        inner: Arc::new(SharedSessionInner {
            session_ptr: Pointer::new(0x5e55).unwrap(),
            allocator: Allocator { ptr: Pointer::new(0xa110).unwrap() },
        }),
        inputs: vec![],
        outputs: vec![],
    };
    let inner = session.inner();
    assert!(Arc::ptr_eq(&inner, &session.inner));
    assert_eq!(Arc::strong_count(&inner), 2);
    assert_eq!(inner.ptr(), session.ptr());
    assert_eq!(inner.allocator.ptr(), 0xa110);
}

#[test]
fn clone_of_shares_the_object() {
    let value = Value::from_ptr(Pointer::new(7).unwrap(), None);
    let other = Value::clone_of(&value);
    assert!(Arc::ptr_eq(&value.inner, &other.inner));
    assert_eq!(Arc::strong_count(&value.inner), 2);
}

#[test]
fn selectors_resolve_in_order() {
    let outputs = vec![Output { name: "y".to_string() }, Output { name: "z".to_string() }];
    let every = select_every(&outputs);
    assert_eq!(every.len(), 2);
    assert_eq!(every[1].name, "z");
    assert!(every[0].value.is_none());
    let all = OutputSelector::All.resolve_outputs(&outputs);
    assert_eq!(all.len(), 2);
    assert_eq!(all[0].name, "y");
    let only = OutputSelector::Only(vec![SelectedOutput {
        name: "w".to_string(),
        value: Some(Value::from_ptr(Pointer::new(7).unwrap(), None)),
    }])
    .resolve_outputs(&outputs);
    assert_eq!(only.len(), 1);
    assert_eq!(only[0].name, "w");
    assert_eq!(only[0].value.as_ref().unwrap().ptr(), 7);
}

#[test]
fn outputs_hold_what_they_are_made_of() {
    let value = Value::from_ptr(Pointer::new(7).unwrap(), None);
    let outputs = SessionOutputs::new(vec!["y".to_string()], vec![value]);
    assert_eq!(outputs.names, vec!["y".to_string()]);
    assert_eq!(outputs.values[0].ptr(), 7);
    assert!(SessionOutputs::new_empty().names.is_empty());
}

#[test]
fn outputs_are_found_by_name() {
    let values = (1..=3).map(|addr| Value::from_ptr(Pointer::new(addr).unwrap(), None)).collect();
    let names = vec!["mu".to_string(), "velocity".to_string(), "mu".to_string()];
    let outputs = SessionOutputs::new(names, values);
    assert_eq!(outputs.get("velocity").unwrap().ptr(), 2);
    assert_eq!(outputs.get("mu").unwrap().ptr(), 1);
    assert!(outputs.get("m").is_none());
    assert!(outputs.get("").is_none());
    assert!(SessionOutputs::new_empty().get("mu").is_none());
}

#[test]
fn mps_runs_on_apple_silicon_only() {
    let mps = MPS::default();
    let on = |vendor, arch| mps.supported_by_platform(&Platform { vendor, arch });
    assert!(on(Vendor::Apple, Arch::Aarch64));
    assert!(!on(Vendor::Apple, Arch::Other));
    assert!(!on(Vendor::Other, Arch::Aarch64));
    assert!(!on(Vendor::Other, Arch::Other));
}

#[test]
fn mps_has_a_name() {
    assert_eq!(MPS::default().name(), "MPSExecutionProvider");
}

#[test]
fn mps_registers_with_its_flags() {
    let mut builder = builder();
    let mut appended: Option<(usize, u32)> = None;
    let mps = MPS::default().with_flags(1).with_flags(5).clone();
    let result = mps.register(
        &mut builder,
        Some(|options: usize, flags: u32| {
            appended = Some((options, flags));
            Ok(())
        }),
    );
    assert_eq!(result, Ok(()));
    assert_eq!(appended, Some((0x0b7, 5)));
    assert_eq!(builder.ptr(), 0x0b7);
}

#[test]
fn mps_has_no_flags_by_default() {
    let result = MPS::default().register(
        &mut builder(),
        Some(|_options: usize, flags: u32| {
            assert_eq!(flags, 0);
            Ok(())
        }),
    );
    assert_eq!(result, Ok(()));
}

#[test]
fn mps_reports_what_the_runtime_says() {
    let failure = Error::new_with_code(ErrorCode::ExecutionProviderFailure, "no GPU".to_string());
    let answer = failure.clone();
    let result =
        MPS::default().register(&mut builder(), Some(|_options: usize, _flags: u32| Err(answer)));
    assert_eq!(result, Err(RegisterError::Error(failure)));
}

#[test]
fn mps_needs_support_built_in() {
    let none: Option<fn(usize, u32) -> Result<(), Error>> = None;
    let result = MPS::default().register(&mut builder(), none);
    assert_eq!(result, Err(RegisterError::MissingFeature));
}
