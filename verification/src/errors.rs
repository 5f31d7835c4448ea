//! Errors raised while the bot runs, and how they travel through layers of error
//! handlers.
//!
//! Handlers are grouped in layers, most specific first (a command's own handlers, then
//! those of its groups, then the bot's). Every handler of a layer is run on every error
//! still to handle. An error that some handler of the layer handles goes no further; an
//! error that no handler handles is passed to the next layer, and so is every error a
//! handler raises while handling.

use vstd::prelude::*;

use crate::commands::errors::{ArgumentError, CommandError, RuntimeError};

verus! {

/// A top-level error raised while the bot is running.
#[derive(Debug, PartialEq, Eq)]
pub enum DyncordError {
    /// An error occurred while running, or attempting to run, a command.
    Command(CommandError),
    /// An event handler returned an error.
    Event(RuntimeError),
    /// An error handler returned an error.
    Error(RuntimeError),
    /// The cache backend returned an error.
    Cache(RuntimeError),
}

impl Clone for DyncordError {
    fn clone(&self) -> (r: Self)
        ensures
            r == *self,
    {
        match self {
            DyncordError::Command(e) => DyncordError::Command(e.clone()),
            DyncordError::Event(e) => DyncordError::Event(e.clone()),
            DyncordError::Error(e) => DyncordError::Error(e.clone()),
            DyncordError::Cache(e) => DyncordError::Cache(e.clone()),
        }
    }
}

impl DyncordError {
    /// The error raised by user code that this error carries, if any: a handler's,
    /// a custom argument parser's, a permission check's, a prefix getter's, an event
    /// handler's, an error handler's or the cache's.
    pub open spec fn spec_runtime_error(&self) -> Option<RuntimeError> {
        match *self {
            DyncordError::Command(CommandError::Arguments(ArgumentError::Runtime(e))) => Some(e),
            DyncordError::Command(CommandError::Arguments(_)) => None,
            DyncordError::Command(CommandError::Runtime(e)) => Some(e),
            DyncordError::Command(CommandError::Permissions(e)) => Some(e),
            DyncordError::Command(CommandError::Prefixes(e)) => Some(e),
            DyncordError::Event(e) => Some(e),
            DyncordError::Error(e) => Some(e),
            DyncordError::Cache(e) => Some(e),
        }
    }

    /// Picks out the error raised by user code if its concrete type is the one named
    /// `kind`; `None` when this error carries no such error or one of another type.
    pub fn downcast(&self, kind: &str) -> (r: Option<&RuntimeError>)
        ensures
            match self.spec_runtime_error() {
                Some(e) => if e.kind@ == kind@ {
                    r matches Some(x) && *x == e
                } else {
                    r is None
                },
                None => r is None,
            },
    {
        let inner = match self {
            DyncordError::Command(error) => match error {
                CommandError::Arguments(error) => {
                    if let ArgumentError::Runtime(error) = error {
                        Some(error)
                    } else {
                        None
                    }
                },
                CommandError::Runtime(error) => Some(error),
                CommandError::Permissions(error) => Some(error),
                CommandError::Prefixes(error) => Some(error),
            },
            DyncordError::Event(error) => Some(error),
            DyncordError::Error(error) => Some(error),
            DyncordError::Cache(error) => Some(error),
        };
        match inner {
            Some(error) => if crate::text::str_eq(error.kind.as_str(), kind) {
                Some(error)
            } else {
                None
            },
            None => None,
        }
    }
}

/// Why an error handler did not handle an error.
#[derive(Debug, PartialEq, Eq)]
pub enum ErrorHandlerError {
    /// The handler chose not to handle the error; it goes on to the next layer.
    NotHandled,
    /// Another error occurred while handling the error.
    Error(RuntimeError),
}

/// What running one error handler on one error gave.
#[derive(Debug, PartialEq, Eq)]
pub enum HandlerOutcome {
    /// The handler handled the error.
    Handled,
    /// The handler chose not to handle the error.
    NotHandled,
    /// The handler failed with an error of its own.
    Failed(RuntimeError),
}

impl HandlerOutcome {
    /// The outcome of a handler that returned `result`.
    pub fn from_result(result: Result<(), ErrorHandlerError>) -> (r: HandlerOutcome)
        ensures
            match result {
                Ok(()) => r == HandlerOutcome::Handled,
                Err(ErrorHandlerError::NotHandled) => r == HandlerOutcome::NotHandled,
                Err(ErrorHandlerError::Error(e)) => r == HandlerOutcome::Failed(e),
            },
    {
        match result {
            Ok(()) => HandlerOutcome::Handled,
            Err(ErrorHandlerError::NotHandled) => HandlerOutcome::NotHandled,
            Err(ErrorHandlerError::Error(e)) => HandlerOutcome::Failed(e),
        }
    }
}

/// Whether some handler of a layer handled the error.
pub open spec fn is_handled(outcomes: Seq<HandlerOutcome>) -> bool {
    exists|h: int| 0 <= h < outcomes.len() && outcomes[h] == HandlerOutcome::Handled
}

/// The errors the handlers of a layer raised on one error, in order.
pub open spec fn raised_errors(outcomes: Seq<HandlerOutcome>) -> Seq<DyncordError>
    decreases outcomes.len(),
{
    if outcomes.len() == 0 {
        seq![]
    } else {
        raised_errors(outcomes.drop_last()) + match outcomes.last() {
            HandlerOutcome::Failed(e) => seq![DyncordError::Error(e)],
            _ => seq![],
        }
    }
}

/// What one error leaves for the next layer: the errors the layer's handlers raised on
/// it, followed by the error itself unless some handler handled it.
pub open spec fn errors_after(error: DyncordError, outcomes: Seq<HandlerOutcome>) -> Seq<
    DyncordError,
> {
    raised_errors(outcomes) + if is_handled(outcomes) {
        seq![]
    } else {
        seq![error]
    }
}

/// What a list of errors leaves for the next layer, error by error; `outcomes[i][h]` is
/// what handler `h` of the layer gave on error `i`.
pub open spec fn next_layer(errors: Seq<DyncordError>, outcomes: Seq<Vec<HandlerOutcome>>) -> Seq<
    DyncordError,
>
    decreases errors.len(),
{
    if errors.len() == 0 || outcomes.len() < errors.len() {
        seq![]
    } else {
        next_layer(errors.drop_last(), outcomes.take(errors.len() - 1)) + errors_after(
            errors.last(),
            outcomes[errors.len() - 1]@,
        )
    }
}

/// Computes the errors left for the next layer of error handlers, given what each
/// handler of the current layer gave on each error still to handle: `outcomes[i][h]` is
/// the outcome of handler `h` on error `i`.
pub fn next_layer_errors(errors: &Vec<DyncordError>, outcomes: &Vec<Vec<HandlerOutcome>>) -> (r: Vec<
    DyncordError,
>)
    requires
        outcomes@.len() == errors@.len(),
    ensures
        r@ == next_layer(errors@, outcomes@),
{
    let mut next: Vec<DyncordError> = Vec::new();
    let mut i: usize = 0;
    while i < errors.len()
        invariant
            i <= errors.len(),
            outcomes@.len() == errors@.len(),
            next@ == next_layer(errors@.take(i as int), outcomes@.take(i as int)),
        decreases errors.len() - i,
    {
        let ghost before = next@;
        let layer = &outcomes[i];
        let mut handled = false;
        let mut h: usize = 0;
        while h < layer.len()
            invariant
                h <= layer.len(),
                next@ == before + raised_errors(layer@.take(h as int)),
                handled == is_handled(layer@.take(h as int)),
            decreases layer.len() - h,
        {
            assert(layer@.take(h + 1).drop_last() =~= layer@.take(h as int));
            match &layer[h] {
                HandlerOutcome::Handled => {
                    handled = true;
                    assert(layer@.take(h + 1)[h as int] == HandlerOutcome::Handled);
                },
                HandlerOutcome::NotHandled => {
                    assert(is_handled(layer@.take(h + 1)) == is_handled(layer@.take(h as int)))
                        by {
                        if is_handled(layer@.take(h + 1)) {
                            let w = choose|j: int|
                                0 <= j < h + 1 && #[trigger] layer@.take(h + 1)[j]
                                    == HandlerOutcome::Handled;
                            assert(layer@.take(h as int)[w] == HandlerOutcome::Handled);
                        }
                    }
                },
                HandlerOutcome::Failed(e) => {
                    next.push(DyncordError::Error(e.clone()));
                    assert(is_handled(layer@.take(h + 1)) == is_handled(layer@.take(h as int)))
                        by {
                        if is_handled(layer@.take(h + 1)) {
                            let w = choose|j: int|
                                0 <= j < h + 1 && #[trigger] layer@.take(h + 1)[j]
                                    == HandlerOutcome::Handled;
                            assert(layer@.take(h as int)[w] == HandlerOutcome::Handled);
                        }
                    }
                },
            }
            h += 1;
            assert(next@ =~= before + raised_errors(layer@.take(h as int)));
        }
        assert(layer@.take(layer@.len() as int) =~= layer@);
        if !handled {
            next.push(errors[i].clone());
        }
        proof {
            let e = errors@.take(i + 1);
            let o = outcomes@.take(i + 1);
            assert(e.drop_last() =~= errors@.take(i as int));
            assert(o.take(i as int) =~= outcomes@.take(i as int));
            assert(next@ =~= next_layer(e, o));
        }
        i += 1;
    }
    assert(errors@.take(errors@.len() as int) =~= errors@);
    assert(outcomes@.take(outcomes@.len() as int) =~= outcomes@);
    next
}

/// Normalizes what an error handler returns into `Ok(())` when it handled the error, or
/// the reason it did not.
pub trait IntoErrorHandlerResult: Sized {
    /// The normalized result of this value.
    spec fn spec_error_handler_result(&self) -> Result<(), ErrorHandlerError>;

    /// Normalizes this value.
    fn into_error_handler_result(self) -> (r: Result<(), ErrorHandlerError>)
        ensures
            r == self.spec_error_handler_result(),
    ;
}

impl IntoErrorHandlerResult for () {
    open spec fn spec_error_handler_result(&self) -> Result<(), ErrorHandlerError> {
        Ok(())
    }

    fn into_error_handler_result(self) -> (r: Result<(), ErrorHandlerError>) {
        Ok(())
    }
}

impl<T> IntoErrorHandlerResult for Result<T, ErrorHandlerError> {
    open spec fn spec_error_handler_result(&self) -> Result<(), ErrorHandlerError> {
        match *self {
            Ok(_) => Ok(()),
            Err(e) => Err(e),
        }
    }

    fn into_error_handler_result(self) -> (r: Result<(), ErrorHandlerError>) {
        match self {
            Ok(_) => Ok(()),
            Err(e) => Err(e),
        }
    }
}

impl<T> IntoErrorHandlerResult for Result<T, RuntimeError> {
    open spec fn spec_error_handler_result(&self) -> Result<(), ErrorHandlerError> {
        match *self {
            Ok(_) => Ok(()),
            Err(e) => Err(ErrorHandlerError::Error(e)),
        }
    }

    fn into_error_handler_result(self) -> (r: Result<(), ErrorHandlerError>) {
        match self {
            Ok(_) => Ok(()),
            Err(e) => Err(ErrorHandlerError::Error(e)),
        }
    }
}

/// Marks error handlers that take every [`DyncordError`].
pub struct DummyA;

/// Marks error handlers that take the errors of one concrete type.
pub struct DummyB;

/// An error handler together with the kind of handler it is and the error type it takes.
pub struct ErrorHandlerWrapper<F, Dummy, Error> {
    /// The handler.
    pub func: F,
    /// The kind of handler.
    pub dummy: core::marker::PhantomData<Dummy>,
    /// The error type the handler takes.
    pub error: core::marker::PhantomData<Error>,
}

impl<F, Dummy, Error> ErrorHandlerWrapper<F, Dummy, Error> {
    /// Wraps a handler.
    pub fn new(handler: F) -> (r: Self)
        ensures
            r.func == handler,
    {
        ErrorHandlerWrapper {
            func: handler,
            dummy: core::marker::PhantomData,
            error: core::marker::PhantomData,
        }
    }
}

/// A handled error goes no further: what it leaves for the next layer is only the errors
/// the layer's handlers raised on it.
pub proof fn law_handled_error_is_not_passed_on(error: DyncordError, outcomes: Seq<HandlerOutcome>)
    requires
        is_handled(outcomes),
    ensures
        errors_after(error, outcomes) == raised_errors(outcomes),
{
    assert(errors_after(error, outcomes) =~= raised_errors(outcomes));
}

/// An error no handler of the layer handled is passed on to the next layer, after the errors
/// the layer's handlers raised on it.
pub proof fn law_unhandled_error_is_passed_on(error: DyncordError, outcomes: Seq<HandlerOutcome>)
    requires
        !is_handled(outcomes),
    ensures
        errors_after(error, outcomes) == raised_errors(outcomes).push(error),
{
    assert(errors_after(error, outcomes) =~= raised_errors(outcomes).push(error));
}

/// Every handler of a layer runs on the error, whatever the handlers before it did: the
/// errors raised by two groups of handlers are those of the first followed by those of the
/// second, and the error is handled when either group handles it.
pub proof fn law_all_handlers_of_a_layer_run(a: Seq<HandlerOutcome>, b: Seq<HandlerOutcome>)
    ensures
        raised_errors(a + b) == raised_errors(a) + raised_errors(b),
        is_handled(a + b) == (is_handled(a) || is_handled(b)),
    decreases b.len(),
{
    if b.len() == 0 {
        assert(a + b =~= a);
        assert(raised_errors(a) + raised_errors(b) =~= raised_errors(a));
    } else {
        assert((a + b).drop_last() =~= a + b.drop_last());
        assert((a + b).last() == b.last());
        law_all_handlers_of_a_layer_run(a, b.drop_last());
        assert(raised_errors(a + b) =~= raised_errors(a) + raised_errors(b));
    }
    if is_handled(a + b) {
        let h = choose|h: int| 0 <= h < (a + b).len() && (a + b)[h] == HandlerOutcome::Handled;
        if h < a.len() {
            assert(a[h] == HandlerOutcome::Handled);
        } else {
            assert(b[h - a.len()] == HandlerOutcome::Handled);
        }
    }
    if is_handled(a) {
        let h = choose|h: int| 0 <= h < a.len() && a[h] == HandlerOutcome::Handled;
        assert((a + b)[h] == HandlerOutcome::Handled);
    }
    if is_handled(b) {
        let h = choose|h: int| 0 <= h < b.len() && b[h] == HandlerOutcome::Handled;
        assert((a + b)[a.len() + h] == HandlerOutcome::Handled);
    }
}

/// A handler that fails raises exactly one error for the next layer, and a handler that
/// handles the error or lets it through raises none.
pub proof fn law_each_failure_raises_one_error(outcome: HandlerOutcome)
    ensures
        raised_errors(seq![outcome]) == (match outcome {
            HandlerOutcome::Failed(e) => seq![DyncordError::Error(e)],
            _ => Seq::<DyncordError>::empty(),
        }),
{
    assert(seq![outcome].drop_last() =~= Seq::<HandlerOutcome>::empty());
    assert(seq![outcome].last() == outcome);
    assert(raised_errors(Seq::<HandlerOutcome>::empty()) =~= Seq::<DyncordError>::empty());
    assert(raised_errors(seq![outcome]) =~= (match outcome {
        HandlerOutcome::Failed(e) => seq![DyncordError::Error(e)],
        _ => Seq::<DyncordError>::empty(),
    }));
}

/// The errors still to handle are handled one by one and independently: what two lists of
/// errors leave for the next layer is what the first leaves followed by what the second
/// leaves.
pub proof fn law_errors_are_handled_independently(
    e1: Seq<DyncordError>,
    o1: Seq<Vec<HandlerOutcome>>,
    e2: Seq<DyncordError>,
    o2: Seq<Vec<HandlerOutcome>>,
)
    requires
        o1.len() == e1.len(),
        o2.len() == e2.len(),
    ensures
        next_layer(e1 + e2, o1 + o2) == next_layer(e1, o1) + next_layer(e2, o2),
    decreases e2.len(),
{
    if e2.len() == 0 {
        assert(e1 + e2 =~= e1);
        assert(o1 + o2 =~= o1);
        assert(next_layer(e1, o1) + next_layer(e2, o2) =~= next_layer(e1, o1));
    } else {
        let n = (e1 + e2).len();
        assert((e1 + e2).drop_last() =~= e1 + e2.drop_last());
        assert((o1 + o2).take(n - 1) =~= o1 + o2.take(e2.len() - 1));
        assert((e1 + e2).last() == e2.last());
        assert((o1 + o2)[n - 1] == o2[e2.len() - 1]);
        law_errors_are_handled_independently(e1, o1, e2.drop_last(), o2.take(e2.len() - 1));
        assert(next_layer(e1 + e2, o1 + o2) =~= next_layer(e1, o1) + next_layer(e2, o2));
    }
}

} // verus!
