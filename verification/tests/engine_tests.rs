use js_engine::dispatcher::Dispatcher;
use js_engine::engine::{
    advance, fault_error, fault_event, fault_of, rearm, run_failure, wrap_source, Event, Fault,
    JsEngine, Phase, ScriptFailure, Stage,
};
use js_engine::error::Error;
use js_engine::limits::{Limits, DEFAULT_MAX_STACK_SIZE, DEFAULT_MEMORY_LIMIT};
use js_engine::msg_channel::MsgChannel;
use js_engine::router::{Echo, Router, Stop};
use js_engine::value::JsonValue;

const EVENTS: [Event; 9] = [
    Event::RuntimeFailed,
    Event::ContextFailed,
    Event::BindingFailed,
    Event::Ready,
    Event::Started,
    Event::CompileFailed,
    Event::ExecutionFailed,
    Event::LimitExceeded,
    Event::Finished,
];

fn exception(message: &str) -> ScriptFailure {
    ScriptFailure::Exception { message: message.to_string() }
}

#[test]
fn the_standard_limits() {
    let l = Limits::standard();
    assert_eq!(l.max_stack_size, 256 * 1024);
    assert_eq!(l.memory_limit, 2 * 1024 * 1024);
    assert_eq!(DEFAULT_MAX_STACK_SIZE, 262144);
    assert_eq!(DEFAULT_MEMORY_LIMIT, 2097152);
}

#[test]
fn source_is_wrapped_as_the_body_of_the_entry_function() {
    assert_eq!(
        wrap_source("return dispatcher.dispatch('auth', 'create_token', {a: 1})"),
        "export default async function(req) { return dispatcher.dispatch('auth', 'create_token', {a: 1}) }"
    );
    assert_eq!(wrap_source(""), "export default async function(req) {  }");
}

#[test]
fn an_engine_goes_through_its_phases() {
    let p = Phase::Uninitialized;
    let p = advance(p, Event::Ready);
    assert_eq!(p, Phase::Initialized);
    let p = advance(p, Event::Started);
    assert_eq!(p, Phase::Running);
    let p = advance(p, Event::Finished);
    assert_eq!(p, Phase::Completed);
}

#[test]
fn set_up_fails_into_a_fault() {
    assert_eq!(
        advance(Phase::Uninitialized, Event::RuntimeFailed),
        Phase::Faulted(Fault::RuntimeCreation)
    );
    assert_eq!(
        advance(Phase::Uninitialized, Event::ContextFailed),
        Phase::Faulted(Fault::ContextCreation)
    );
    assert_eq!(
        advance(Phase::Uninitialized, Event::BindingFailed),
        Phase::Faulted(Fault::Binding)
    );
}

#[test]
fn a_run_fails_into_a_fault() {
    assert_eq!(advance(Phase::Running, Event::CompileFailed), Phase::Faulted(Fault::Compile));
    assert_eq!(advance(Phase::Running, Event::ExecutionFailed), Phase::Faulted(Fault::Execution));
    assert_eq!(
        advance(Phase::Running, Event::LimitExceeded),
        Phase::Faulted(Fault::ResourceLimit)
    );
}

#[test]
fn final_phases_stay() {
    let finals = [
        Phase::Completed,
        Phase::Faulted(Fault::RuntimeCreation),
        Phase::Faulted(Fault::ContextCreation),
        Phase::Faulted(Fault::Binding),
        Phase::Faulted(Fault::Compile),
        Phase::Faulted(Fault::Execution),
        Phase::Faulted(Fault::ResourceLimit),
    ];
    for p in finals {
        for e in EVENTS {
            assert_eq!(advance(p, e), p);
        }
    }
}

#[test]
fn events_out_of_place_change_nothing() {
    assert_eq!(advance(Phase::Uninitialized, Event::Started), Phase::Uninitialized);
    assert_eq!(advance(Phase::Uninitialized, Event::Finished), Phase::Uninitialized);
    assert_eq!(advance(Phase::Initialized, Event::Finished), Phase::Initialized);
    assert_eq!(advance(Phase::Initialized, Event::Ready), Phase::Initialized);
    assert_eq!(advance(Phase::Running, Event::Started), Phase::Running);
    assert_eq!(advance(Phase::Running, Event::Ready), Phase::Running);
}

#[test]
fn only_a_finished_run_is_rearmed() {
    assert_eq!(rearm(Phase::Completed), Phase::Initialized);
    assert_eq!(rearm(Phase::Faulted(Fault::Compile)), Phase::Initialized);
    assert_eq!(rearm(Phase::Faulted(Fault::Execution)), Phase::Initialized);
    assert_eq!(rearm(Phase::Faulted(Fault::ResourceLimit)), Phase::Initialized);
    assert_eq!(rearm(Phase::Faulted(Fault::RuntimeCreation)), Phase::Faulted(Fault::RuntimeCreation));
    assert_eq!(rearm(Phase::Faulted(Fault::ContextCreation)), Phase::Faulted(Fault::ContextCreation));
    assert_eq!(rearm(Phase::Faulted(Fault::Binding)), Phase::Faulted(Fault::Binding));
    assert_eq!(rearm(Phase::Uninitialized), Phase::Uninitialized);
    assert_eq!(rearm(Phase::Running), Phase::Running);
    assert_eq!(rearm(Phase::Initialized), Phase::Initialized);
}

#[test]
fn going_past_a_limit_is_told_from_other_failures() {
    assert_eq!(fault_of(Stage::Execute, &exception("stack overflow")), Fault::ResourceLimit);
    assert_eq!(fault_of(Stage::Execute, &exception("out of memory")), Fault::ResourceLimit);
    assert_eq!(
        fault_of(Stage::Execute, &exception("InternalError: stack overflow at f")),
        Fault::ResourceLimit
    );
    assert_eq!(fault_of(Stage::Compile, &exception("stack overflow")), Fault::ResourceLimit);
    assert_eq!(fault_of(Stage::Execute, &ScriptFailure::Allocation), Fault::ResourceLimit);
    assert_eq!(fault_of(Stage::Execute, &exception("x is not defined")), Fault::Execution);
    assert_eq!(fault_of(Stage::Execute, &exception("stack overflo")), Fault::Execution);
    assert_eq!(fault_of(Stage::Execute, &exception("")), Fault::Execution);
    assert_eq!(fault_of(Stage::Compile, &exception("unexpected token")), Fault::Compile);
    assert_eq!(
        fault_of(Stage::Execute, &ScriptFailure::Other { message: "out of memory".to_string() }),
        Fault::Execution
    );
}

#[test]
fn faults_are_recorded_and_reported() {
    assert_eq!(fault_event(Fault::RuntimeCreation), Event::RuntimeFailed);
    assert_eq!(fault_event(Fault::ContextCreation), Event::ContextFailed);
    assert_eq!(fault_event(Fault::Binding), Event::BindingFailed);
    assert_eq!(fault_event(Fault::Compile), Event::CompileFailed);
    assert_eq!(fault_event(Fault::Execution), Event::ExecutionFailed);
    assert_eq!(fault_event(Fault::ResourceLimit), Event::LimitExceeded);
    let words = || "words".to_string();
    assert!(matches!(fault_error(Fault::RuntimeCreation, words()), Error::RuntimeCreation));
    assert!(matches!(fault_error(Fault::ContextCreation, words()), Error::ContextCreation));
    assert!(matches!(fault_error(Fault::ResourceLimit, words()), Error::ResourceLimitExceeded));
    assert!(matches!(fault_error(Fault::Compile, words()), Error::CompileError { msg } if msg == "words"));
    assert!(matches!(fault_error(Fault::Execution, words()), Error::ExecutionError { msg } if msg == "words"));
    assert!(matches!(fault_error(Fault::Binding, words()), Error::ExecutionError { msg } if msg == "words"));
}

#[test]
fn a_failed_run_is_reported_by_its_kind() {
    assert!(matches!(
        run_failure(Stage::Execute, exception("stack overflow")),
        Error::ResourceLimitExceeded
    ));
    assert!(matches!(
        run_failure(Stage::Execute, ScriptFailure::Allocation),
        Error::ResourceLimitExceeded
    ));
    assert!(matches!(
        run_failure(Stage::Compile, exception("unexpected token")),
        Error::CompileError { msg } if msg == "unexpected token"
    ));
    assert!(matches!(
        run_failure(Stage::Execute, exception("boom")),
        Error::ExecutionError { msg } if msg == "boom"
    ));
    assert!(matches!(
        run_failure(Stage::Execute, ScriptFailure::Other { message: "odd".to_string() }),
        Error::ExecutionError { msg } if msg == "odd"
    ));
}

#[test]
fn an_engine_is_created_with_its_limits() {
    let limits = Limits { max_stack_size: 128 * 1024, memory_limit: 1024 * 1024 };
    let (mut engine, queue) = JsEngine::create(limits, 4).ok().unwrap();
    assert_eq!(engine.configured_limits(), limits);
    assert_eq!(engine.current_phase(), Phase::Uninitialized);
    assert_eq!(engine.record(Event::Ready), Phase::Initialized);
    assert_eq!(engine.record(Event::Started), Phase::Running);
    assert_eq!(engine.record(Event::LimitExceeded), Phase::Faulted(Fault::ResourceLimit));
    assert_eq!(engine.current_phase(), Phase::Faulted(Fault::ResourceLimit));
    assert_eq!(engine.configured_limits(), limits);
    let seven: i32 = engine.context.with(|ctx| ctx.eval("3 + 4")).unwrap();
    assert_eq!(seven, 7);
    assert_eq!(queue.capacity(), Some(4));
}

#[test]
fn an_engine_hands_out_dispatchers_to_its_queue() {
    let (engine, queue) = JsEngine::create(Limits::standard(), 2).ok().unwrap();
    let dispatcher: Dispatcher = engine.dispatcher();
    let worker = tokio::runtime::Builder::new_multi_thread().worker_threads(1).build().unwrap();
    let served = worker.spawn_blocking(move || {
        let router =
            Router::new(vec![("auth".to_string(), "create_token".to_string(), Echo)]).ok().unwrap();
        router.serve(&queue, 1, 2000)
    });
    let reply =
        dispatcher.dispatch("auth".to_string(), "create_token".to_string(), JsonValue::null());
    assert_eq!(reply.ok(), Some(JsonValue::null()));
    assert_eq!(worker.block_on(served).unwrap(), (1, Stop::Limit));
    let _unused: Option<MsgChannel> = None;
}

#[test]
fn a_script_past_its_stack_limit_raises_an_exception_that_names_it() {
    let limits = Limits { max_stack_size: 64 * 1024, memory_limit: 8 * 1024 * 1024 };
    let (engine, _queue) = JsEngine::create(limits, 1).ok().unwrap();
    let outcome: Result<i32, rquickjs::Error> =
        engine.context.with(|ctx| ctx.eval("function f(n) { return 1 + f(n + 1); } f(0)"));
    match outcome {
        Err(rquickjs::Error::Exception { message, .. }) => {
            let failure = ScriptFailure::Exception { message };
            assert_eq!(fault_of(Stage::Execute, &failure), Fault::ResourceLimit);
        }
        _ => panic!("the script was not stopped"),
    }
    let sound: i32 = engine.context.with(|ctx| ctx.eval("1 + 1")).unwrap();
    assert_eq!(sound, 2);
}

#[test]
fn a_script_past_its_heap_limit_raises_an_exception_that_names_it() {
    let limits = Limits { max_stack_size: 256 * 1024, memory_limit: 1024 * 1024 };
    let (engine, _queue) = JsEngine::create(limits, 1).ok().unwrap();
    let outcome: Result<i32, rquickjs::Error> = engine.context.with(|ctx| {
        ctx.eval("let a = []; for (let i = 0; i < 10000000; i++) { a.push('x' + i); } a.length")
    });
    match outcome {
        Err(rquickjs::Error::Exception { message, .. }) => {
            let failure = ScriptFailure::Exception { message };
            assert_eq!(fault_of(Stage::Execute, &failure), Fault::ResourceLimit);
        }
        Err(rquickjs::Error::Allocation) => {
            assert_eq!(fault_of(Stage::Execute, &ScriptFailure::Allocation), Fault::ResourceLimit);
        }
        _ => panic!("the script was not stopped"),
    }
}

#[test]
fn an_engine_has_a_queue_of_the_capacity_it_was_created_with() {
    for capacity in [0usize, 1, 7] {
        let (_engine, queue) = JsEngine::create(Limits::standard(), capacity).ok().unwrap();
        assert_eq!(queue.capacity(), Some(capacity));
    }
    let (engine, queue) = JsEngine::create(Limits::standard(), 1).ok().unwrap();
    let dispatcher = engine.dispatcher();
    let (first, _first_reply) = MsgChannel::new("n".to_string(), "f".to_string(), JsonValue::null());
    assert!(dispatcher.submit(first).is_ok());
    let (second, _second_reply) =
        MsgChannel::new("n".to_string(), "g".to_string(), JsonValue::null());
    assert!(matches!(dispatcher.submit(second), Err(Error::EnqueueTimeout)));
    assert_eq!(queue.len(), 1);
}
