use dyncord::commands::errors::{ArgumentError, CommandError, RuntimeError};
use dyncord::errors::{
    next_layer_errors, DyncordError, ErrorHandlerError, HandlerOutcome, IntoErrorHandlerResult,
};

fn runtime(kind: &str, message: &str) -> RuntimeError {
    RuntimeError { kind: kind.to_string(), message: message.to_string() }
}

fn run_layer(errors: &Vec<DyncordError>, outcome: impl Fn(usize, &DyncordError) -> Vec<HandlerOutcome>) -> Vec<DyncordError> {
    let outcomes: Vec<Vec<HandlerOutcome>> = errors.iter().enumerate().map(|(i, e)| outcome(i, e)).collect();
    next_layer_errors(errors, &outcomes)
}

#[test]
fn first_documented_example() {
    // Layer one: handler_1 lets the error through, handler_2 fails.
    let first_error = DyncordError::Command(CommandError::Runtime(runtime("Cmd", "boom")));
    let h2_error = runtime("H2", "handler 2 failed");
    let layer1 = next_layer_errors(
        &vec![first_error.clone()],
        &vec![vec![HandlerOutcome::NotHandled, HandlerOutcome::Failed(h2_error.clone())]],
    );
    assert_eq!(layer1, vec![DyncordError::Error(h2_error.clone()), first_error.clone()]);
    // Layer two: handler_3 lets everything through, handlers 4 and 5 handle everything.
    let layer2 = run_layer(&layer1, |_, _| {
        vec![HandlerOutcome::NotHandled, HandlerOutcome::Handled, HandlerOutcome::Handled]
    });
    assert!(layer2.is_empty());
}

#[test]
fn second_documented_example() {
    let first_error = DyncordError::Command(CommandError::Runtime(runtime("Cmd", "boom")));
    let h1 = runtime("H1", "h1");
    let h4a = runtime("H4", "h4 on h1");
    let h4b = runtime("H4", "h4 on first_error");
    // Layer one: handler_1 fails, handler_2 lets the error through.
    let layer1 = next_layer_errors(
        &vec![first_error.clone()],
        &vec![vec![HandlerOutcome::Failed(h1.clone()), HandlerOutcome::NotHandled]],
    );
    assert_eq!(layer1, vec![DyncordError::Error(h1.clone()), first_error.clone()]);
    // Layer two: handler_3 handles only command errors, handler_4 always fails.
    let layer2 = next_layer_errors(
        &layer1,
        &vec![
            vec![HandlerOutcome::NotHandled, HandlerOutcome::Failed(h4a.clone())],
            vec![HandlerOutcome::Handled, HandlerOutcome::Failed(h4b.clone())],
        ],
    );
    assert_eq!(
        layer2,
        vec![
            DyncordError::Error(h4a.clone()),
            DyncordError::Error(h1.clone()),
            DyncordError::Error(h4b.clone()),
        ]
    );
    // Layer three: handler_5 fails on each of the three errors.
    let layer3 = run_layer(&layer2, |i, _| vec![HandlerOutcome::Failed(runtime("H5", &i.to_string()))]);
    assert_eq!(layer3.len(), 6);
}

#[test]
fn downcast_picks_errors_by_type() {
    let e = DyncordError::Command(CommandError::Arguments(ArgumentError::Runtime(runtime("MyError", "x"))));
    assert_eq!(e.downcast("MyError").unwrap().message, "x");
    assert!(e.downcast("Other").is_none());
    let e = DyncordError::Command(CommandError::Arguments(ArgumentError::Missing));
    assert!(e.downcast("MyError").is_none());
    let e = DyncordError::Event(runtime("Io", "disk"));
    assert_eq!(e.downcast("Io").unwrap().kind, "Io");
}

#[test]
fn outcomes_from_results() {
    assert_eq!(HandlerOutcome::from_result(Ok(())), HandlerOutcome::Handled);
    assert_eq!(HandlerOutcome::from_result(Err(ErrorHandlerError::NotHandled)), HandlerOutcome::NotHandled);
    assert_eq!(
        HandlerOutcome::from_result(Err(ErrorHandlerError::Error(runtime("A", "b")))),
        HandlerOutcome::Failed(runtime("A", "b"))
    );
}

#[test]
fn error_handler_results_are_normalized() {
    assert_eq!(().into_error_handler_result(), Ok(()));
    let r: Result<u8, RuntimeError> = Err(runtime("E", "m"));
    assert_eq!(r.into_error_handler_result(), Err(ErrorHandlerError::Error(runtime("E", "m"))));
    let r: Result<u8, ErrorHandlerError> = Err(ErrorHandlerError::NotHandled);
    assert_eq!(r.into_error_handler_result(), Err(ErrorHandlerError::NotHandled));
    let r: Result<u8, RuntimeError> = Ok(3);
    assert_eq!(r.into_error_handler_result(), Ok(()));
}
