use ort::error::{Error, ErrorCode};
use ort::memory::Allocator;
use ort::pointer::{AsPointer, Pointer};
use ort::session::input::{Input, SessionInputValue, SessionInputs};
use ort::session::output::Output;
use ort::session::request::{PendingRun, RunRequest};
use ort::session::run_options::{OutputSelector, RunOptions, SelectedOutput};
use ort::session::{Session, SharedSessionInner};
use ort::value::Value;
use std::sync::Arc;

fn pointer(addr: usize) -> Pointer {
    Pointer::new(addr).unwrap()
}

fn value(addr: usize) -> Value {
    Value::from_ptr(pointer(addr), None)
}

fn owned(addr: usize) -> SessionInputValue<'static> {
    SessionInputValue::Owned(value(addr))
}

fn session(inputs: &[&str], outputs: &[&str]) -> Session {
    Session {
        inner: Arc::new(SharedSessionInner {
            session_ptr: pointer(0x5e55),
            allocator: Allocator { ptr: pointer(0xa110) },
        }),
        inputs: inputs.iter().map(|name| Input { name: name.to_string() }).collect(),
        outputs: outputs.iter().map(|name| Output { name: name.to_string() }).collect(),
    }
}

fn c_strings(names: &[&str]) -> Vec<Vec<u8>> {
    names
        .iter()
        .map(|name| {
            let mut bytes = name.as_bytes().to_vec();
            bytes.push(0);
            bytes
        })
        .collect()
}

fn addresses(values: &[Value]) -> Vec<usize> {
    values.iter().map(|value| value.ptr()).collect()
}

fn named(entries: &[(&str, usize)]) -> SessionInputs<'static, 'static, 0> {
    SessionInputs::ValueMap(
        entries.iter().map(|(name, addr)| (name.to_string(), owned(*addr))).collect(),
    )
}

#[test]
fn slice_of_values_is_sent_in_the_models_order() {
    let mut session = session(&["a", "b"], &["y", "z"]);
    let values = [owned(11), owned(12)];
    let mut sent: Option<RunRequest> = None;
    let outputs = session
        .run(SessionInputs::<0>::ValueSlice(&values), |request| {
            sent = Some(request);
            Ok(vec![21, 22])
        })
        .unwrap();
    let sent = sent.unwrap();
    assert_eq!(sent.session, 0x5e55);
    assert_eq!(sent.run_options, 0);
    assert_eq!(sent.input_names, c_strings(&["a", "b"]));
    assert_eq!(sent.input_values, vec![11, 12]);
    assert_eq!(sent.output_names, c_strings(&["y", "z"]));
    assert_eq!(sent.output_values, vec![0, 0]);
    assert_eq!(outputs.names, vec!["y".to_string(), "z".to_string()]);
    assert_eq!(addresses(&outputs.values), vec![21, 22]);
}

#[test]
fn array_of_values_is_sent_like_a_slice() {
    let session = session(&["a", "b"], &["y"]);
    let slice = [owned(11), owned(12)];
    let array = SessionInputs::ValueArray([owned(11), owned(12)]);
    let (from_slice, _) = session.prepare(&SessionInputs::<0>::ValueSlice(&slice), None).unwrap();
    let (from_array, _) = session.prepare(&array, None).unwrap();
    assert_eq!(from_array.input_names, from_slice.input_names);
    assert_eq!(from_array.input_values, from_slice.input_values);
    assert_eq!(from_array.output_names, from_slice.output_names);
    assert_eq!(from_array.output_values, from_slice.output_values);
}

#[test]
fn named_values_are_sent_in_the_order_given() {
    let mut session = session(&["tokens", "lens"], &["mu"]);
    let mut sent: Option<RunRequest> = None;
    let outputs = session
        .run(named(&[("lens", 12), ("tokens", 11)]), |request| {
            sent = Some(request);
            Ok(vec![21])
        })
        .unwrap();
    let sent = sent.unwrap();
    assert_eq!(sent.input_names, c_strings(&["lens", "tokens"]));
    assert_eq!(sent.input_values, vec![12, 11]);
    assert_eq!(outputs.names, vec!["mu".to_string()]);
}

#[test]
fn named_values_for_the_models_inputs_are_sent_like_positional_ones() {
    let session = session(&["a", "b", "c"], &["y"]);
    let values = [owned(11), owned(12)];
    let (positional, _) = session.prepare(&SessionInputs::<0>::ValueSlice(&values), None).unwrap();
    let (by_name, _) = session.prepare(&named(&[("a", 11), ("b", 12)]), None).unwrap();
    assert_eq!(by_name.input_values, positional.input_values);
    assert_eq!(by_name.input_names, positional.input_names[..2].to_vec());
}

#[test]
fn a_run_may_leave_inputs_out() {
    let session = session(&["a", "b", "c"], &["y"]);
    let values = [owned(11)];
    let (request, _) = session.prepare(&SessionInputs::<0>::ValueSlice(&values), None).unwrap();
    assert_eq!(request.input_values, vec![11]);
    assert_eq!(request.input_names, c_strings(&["a", "b", "c"]));
}

#[test]
fn too_many_values_are_refused_before_the_runtime_is_called() {
    let mut session = session(&["a", "b"], &["y"]);
    let values = SessionInputs::ValueArray([owned(11), owned(12), owned(13)]);
    let mut called = false;
    let error = session
        .run(values, |_request| {
            called = true;
            Ok(vec![21])
        })
        .unwrap_err();
    assert!(!called);
    assert_eq!(error.code, ErrorCode::InvalidArgument);
    assert_eq!(error.msg, "3 inputs were provided, but the model only accepts 2.");
}

#[test]
fn refusal_counts_in_decimal() {
    let mut session = session(&["a"; 10], &[]);
    let values: Vec<SessionInputValue> = (1..=123).map(owned).collect();
    let error = session
        .run(SessionInputs::<0>::ValueSlice(&values), |_request| Ok(vec![]))
        .unwrap_err();
    assert_eq!(error.msg, "123 inputs were provided, but the model only accepts 10.");
    assert_eq!(
        error.msg,
        format!("{} inputs were provided, but the model only accepts {}.", 123, 10)
    );
}

#[test]
fn a_model_without_inputs_takes_no_values() {
    let mut session = session(&[], &[]);
    let outputs = session
        .run(SessionInputs::ValueArray([]), |request| {
            assert!(request.input_names.is_empty());
            assert!(request.output_names.is_empty());
            Ok(vec![])
        })
        .unwrap();
    assert!(outputs.names.is_empty());
    assert!(outputs.values.is_empty());
    let error = session.run(SessionInputs::ValueArray([owned(1)]), |_request| Ok(vec![])).unwrap_err();
    assert_eq!(error.msg, "1 inputs were provided, but the model only accepts 0.");
}

#[test]
fn named_values_are_not_counted_against_the_model() {
    let mut session = session(&["a"], &["y"]);
    let outputs = session.run(named(&[("a", 1), ("b", 2), ("c", 3)]), |request| {
        assert_eq!(request.input_values, vec![1, 2, 3]);
        Ok(vec![21])
    });
    assert!(outputs.is_ok());
}

#[test]
fn failure_of_the_runtime_is_handed_on() {
    let mut session = session(&["a"], &["y"]);
    let failure = Error::new_with_code(ErrorCode::InvalidGraph, "cycle".to_string());
    let answer = failure.clone();
    let error = session.run(SessionInputs::ValueArray([owned(11)]), |_request| Err(answer)).unwrap_err();
    assert_eq!(error, failure);
}

#[test]
fn a_run_leaves_the_session_as_it_was() {
    let mut session = session(&["a"], &["y"]);
    let inner = session.inner();
    let _ = session.run(SessionInputs::ValueArray([owned(11)]), |_request| Ok(vec![21]));
    assert!(Arc::ptr_eq(&inner, &session.inner));
    assert_eq!(session.inputs().len(), 1);
    assert_eq!(session.inputs()[0].name(), "a");
    assert_eq!(session.outputs().len(), 1);
    assert_eq!(session.outputs()[0].name(), "y");
    assert_eq!(session.ptr(), 0x5e55);
}

#[test]
fn allocated_outputs_keep_the_session_alive() {
    let mut session = session(&[], &["y", "z"]);
    assert_eq!(Arc::strong_count(&session.inner), 1);
    let outputs = session.run(SessionInputs::ValueArray([]), |_request| Ok(vec![21, 22])).unwrap();
    assert_eq!(Arc::strong_count(&session.inner), 3);
    for value in &outputs.values {
        assert!(Arc::ptr_eq(value.inner.session.as_ref().unwrap(), &session.inner));
    }
    drop(outputs);
    assert_eq!(Arc::strong_count(&session.inner), 1);
}

#[test]
fn options_reach_the_runtime_and_ask_for_everything() {
    let mut session = session(&["a"], &["y", "z"]);
    let options = RunOptions::new(pointer(0x0b7));
    assert_eq!(options.ptr(), 0x0b7);
    let outputs = session
        .run_with_options(SessionInputs::ValueArray([owned(11)]), &options, |request| {
            assert_eq!(request.run_options, 0x0b7);
            assert_eq!(request.output_names, c_strings(&["y", "z"]));
            assert_eq!(request.output_values, vec![0, 0]);
            Ok(vec![21, 22])
        })
        .unwrap();
    assert_eq!(outputs.names, vec!["y".to_string(), "z".to_string()]);
}

#[test]
fn options_select_outputs_and_places_for_them() {
    let mut session = session(&["a"], &["x", "y", "z"]);
    let place = value(77);
    let options = RunOptions::new(pointer(0x0b7)).with_outputs(OutputSelector::Only(vec![
        SelectedOutput { name: "z".to_string(), value: Some(Value::clone_of(&place)) },
        SelectedOutput { name: "x".to_string(), value: None },
    ]));
    let outputs = session
        .run_with_options(SessionInputs::ValueArray([owned(11)]), &options, |request| {
            assert_eq!(request.run_options, 0x0b7);
            assert_eq!(request.output_names, c_strings(&["z", "x"]));
            assert_eq!(request.output_values, vec![77, 0]);
            Ok(vec![0, 22])
        })
        .unwrap();
    assert_eq!(outputs.names, vec!["z".to_string(), "x".to_string()]);
    assert_eq!(addresses(&outputs.values), vec![77, 22]);
    assert!(Arc::ptr_eq(&outputs.values[0].inner, &place.inner));
    assert!(outputs.values[0].inner.session.is_none());
    assert!(outputs.values[1].inner.session.is_some());
}

#[test]
fn options_do_not_lift_the_limit_on_values() {
    let mut session = session(&["a"], &["y"]);
    let options = RunOptions::new(pointer(0x0b7));
    let error = session
        .run_with_options(SessionInputs::ValueArray([owned(1), owned(2)]), &options, |_request| {
            Ok(vec![21])
        })
        .unwrap_err();
    assert_eq!(error.msg, "2 inputs were provided, but the model only accepts 1.");
}

#[test]
fn an_answer_finishes_the_run_that_it_is_for() {
    let session = session(&["a"], &["y"]);
    let values = [owned(11)];
    let (_, pending) = session.prepare(&SessionInputs::<0>::ValueSlice(&values), None).unwrap();
    let outputs = pending.finish(Ok(vec![21])).unwrap();
    assert_eq!(addresses(&outputs.values), vec![21]);

    let (_, pending) = session.prepare(&SessionInputs::<0>::ValueSlice(&values), None).unwrap();
    let again = pending.finish(Ok(vec![21])).unwrap();
    assert_eq!(again.names, outputs.names);
    assert_eq!(addresses(&again.values), addresses(&outputs.values));

    let pending = PendingRun { selected: vec![], session: session.inner() };
    let failure = Error::new_with_code(ErrorCode::EngineError, "stopped".to_string());
    assert_eq!(pending.finish(Err(failure.clone())).unwrap_err(), failure);
}

#[test]
fn lent_values_are_sent_by_address() {
    let session = session(&["a", "b"], &[]);
    let lent = value(31);
    let values = [SessionInputValue::View(&lent), owned(32)];
    assert_eq!(values[0].ptr(), 31);
    let (request, _) = session.prepare(&SessionInputs::<0>::ValueSlice(&values), None).unwrap();
    assert_eq!(request.input_values, vec![31, 32]);
}

#[test]
fn names_are_sent_as_utf8() {
    let session = session(&["größe", "入力", "🦀", ""], &["π"]);
    let (request, _) = session.prepare(&SessionInputs::<0>::ValueSlice(&[]), None).unwrap();
    assert_eq!(request.input_names, c_strings(&["größe", "入力", "🦀", ""]));
    assert_eq!(request.output_names, c_strings(&["π"]));
    assert_eq!(request.output_names[0], vec![0xcf, 0x80, 0]);
    for name in &request.input_names {
        assert_eq!(name.iter().filter(|byte| **byte == 0).count(), 1);
    }
}

#[test]
fn long_lists_keep_their_order() {
    let names: Vec<String> = (0..48)
        .map(|j| format!("past_key_values.{}.{}", j / 2, if j % 2 == 0 { "key" } else { "value" }))
        .collect();
    let mut entries = vec![("inputs_embeds".to_string(), owned(1000))];
    for (j, name) in names.iter().enumerate() {
        entries.push((name.clone(), owned(1001 + j)));
    }
    let outputs = ["last_hidden_state", "present.0.key", "present.0.value"];
    let mut session = session(&["inputs_embeds"], &outputs);
    let result = session
        .run(SessionInputs::<0>::ValueMap(entries), |request| {
            let mut expected = vec!["inputs_embeds"];
            expected.extend(names.iter().map(|name| name.as_str()));
            assert_eq!(request.input_names, c_strings(&expected));
            assert_eq!(request.input_values, (1000..1049).collect::<Vec<usize>>());
            Ok(vec![1, 2, 3])
        })
        .unwrap();
    assert_eq!(result.names, outputs.map(|name| name.to_string()).to_vec());
    assert_eq!(addresses(&result.values), vec![1, 2, 3]);
    assert_eq!(result.get("present.0.key").unwrap().ptr(), 2);
}

#[test]
fn positional_lists_longer_than_the_inline_room_keep_their_order() {
    let names = ["a", "b", "c", "d", "e", "f", "g", "h"];
    let session = session(&names, &[]);
    let values: Vec<SessionInputValue> = (1..=8).map(owned).collect();
    let (request, _) = session.prepare(&SessionInputs::<0>::ValueSlice(&values), None).unwrap();
    assert_eq!(request.input_names, c_strings(&names));
    assert_eq!(request.input_values, vec![1, 2, 3, 4, 5, 6, 7, 8]);
}
