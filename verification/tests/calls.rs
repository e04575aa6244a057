use guest_tasks::abi::{
    flat_param_count, max_flat_results, CallPlan, LiftSource, ResultLift, MAX_FLAT_PARAMS,
    MAX_FLAT_RESULTS,
};
use guest_tasks::error::{CallError, GuestTaskCancelled};
use guest_tasks::func::{Func, TypedFunc};
use guest_tasks::ids::{GuestTaskId, StoreId, TaskId};
use guest_tasks::store::{Arguments, HostFuture, Progress, Store, TaskOutcome};
use guest_tasks::task::GuestTaskHandle;
use guest_tasks::call::collect_lifted;
use guest_tasks::wait::{Poll, Wakeups};
use guest_tasks::waker::WakerLog;
use std::sync::atomic::{AtomicUsize, Ordering};
use std::sync::Arc;
use std::task::{Wake, Waker};

#[derive(Default)]
struct WakeCounter {
    wakes: AtomicUsize,
}

impl Wake for WakeCounter {
    fn wake(self: Arc<Self>) {
        self.wakes.fetch_add(1, Ordering::SeqCst);
    }
}

const STORE: StoreId = StoreId { id: 7 };

fn store() -> Store<String, u32, String> {
    Store::new(STORE, true)
}

fn func(async_: bool) -> Func {
    Func { store: STORE, instance: 1, index: 2, params: 2, results: 1, async_ }
}

fn words(texts: &[&str]) -> Vec<String> {
    texts.iter().map(|text| text.to_string()).collect()
}

fn wake(result: Result<Wakeups, CallError<String>>) -> Result<(), CallError<String>> {
    result.map(|wakeups| wakeups.wake_all(&mut WakerLog::new()))
}

fn begin<V, L>(store: &mut Store<V, L, String>, task: TaskId) -> Option<Arguments<V, L>> {
    let args = store.begin_task(task);
    if args.is_some() {
        assert_eq!(store.progress(task), Progress::Lowering);
        assert_eq!(wake(store.finish_lowering(task, Ok(()))), Ok(()));
    }
    args
}

fn start(store: &mut Store<String, u32, String>) -> (TypedFunc<u32, u8>, guest_tasks::func::TypedFuncCallConcurrent<u8>) {
    let typed: TypedFunc<u32, u8> = TypedFunc::new(func(false), 1, 1);
    let call = typed.start_call_concurrent(store, 5, |params| params).ok().unwrap();
    (typed, call)
}

#[test]
fn call_returns_its_results() {
    let mut store = store();
    let func = func(false);
    let mut params = words(&["a", "b"]);
    let mut results = words(&["old"]);
    let call = func.start_call_concurrent(&mut store, &params, &mut results).ok().unwrap();
    assert_eq!(call.task(), GuestTaskId { index: 0 });
    let handle = call.task_handle();
    assert_eq!(handle, GuestTaskHandle::new(STORE, TaskId { index: 0 }));
    assert_eq!(store.progress(handle.task), Progress::Staged);
    assert_eq!(
        store.plan(handle.task),
        CallPlan {
            func,
            param_count: 16,
            host_future_present: false,
            lift: ResultLift::Dynamic { max_flat: 1 },
        }
    );
    params[0] = "changed".to_string();
    assert_eq!(begin(&mut store, handle.task), Some(Arguments::Dynamic(words(&["a", "b"]))));
    assert_eq!(store.progress(handle.task), Progress::Lowered);
    assert_eq!(begin(&mut store, handle.task), None);
    assert_eq!(store.outcome(handle.task), None);
    assert_eq!(wake(store.task_return(handle.task)), Ok(()));
    assert_eq!(store.outcome(handle.task), Some(TaskOutcome::Returned));
    assert!(!store.is_complete(handle.task));
    assert_eq!(func.finish_call_concurrent(&mut store, call, Some(Ok(words(&["new"])))), Ok(()));
    assert_eq!(results, words(&["new"]));
    assert_eq!(wake(store.exit_thread(handle.task)), Ok(()));
    assert!(store.is_complete(handle.task));
}

#[test]
fn results_are_written_in_order() {
    let mut store = store();
    let func = Func { params: 0, results: 3, ..func(true) };
    let mut results = words(&["", "", ""]);
    let call = func.start_call_concurrent(&mut store, &[], &mut results).ok().unwrap();
    let task = call.task_handle().task_id();
    assert_eq!(store.plan(task).lift, ResultLift::Dynamic { max_flat: 16 });
    assert_eq!(begin(&mut store, task), Some(Arguments::Dynamic(Vec::new())));
    assert_eq!(wake(store.task_return(task)), Ok(()));
    let lifted = words(&["x", "y", "z"]);
    assert_eq!(func.finish_call_concurrent(&mut store, call, Some(Ok(lifted))), Ok(()));
    assert_eq!(results, words(&["x", "y", "z"]));
}

#[test]
fn failed_lifting_leaves_the_results_alone() {
    let mut store = store();
    let func = func(false);
    let mut results = words(&["old"]);
    let params = words(&["a", "b"]);
    let call = func.start_call_concurrent(&mut store, &params, &mut results).ok().unwrap();
    let task = call.task_handle().task_id();
    assert!(begin(&mut store, task).is_some());
    assert_eq!(wake(store.task_return(task)), Ok(()));
    let lifted = Some(Err("no such string".to_string()));
    let result = func.finish_call_concurrent(&mut store, call, lifted);
    assert_eq!(result, Err(CallError::Runtime("no such string".to_string())));
    assert_eq!(results, words(&["old"]));
}

#[test]
fn wrong_counts_are_refused() {
    let mut store = store();
    let func = func(false);
    let mut one = words(&["r"]);
    let mut none = words(&[]);
    let short = func.start_call_concurrent(&mut store, &words(&["a"]), &mut one);
    assert_eq!(short.err(), Some(CallError::ParamCount { expected: 2, actual: 1 }));
    let both = func.start_call_concurrent(&mut store, &words(&[]), &mut none);
    assert_eq!(both.err(), Some(CallError::ParamCount { expected: 2, actual: 0 }));
    let result = func.start_call_concurrent(&mut store, &words(&["a", "b"]), &mut none);
    assert_eq!(result.err(), Some(CallError::ResultCount { expected: 1, actual: 0 }));
    assert!(!store.has(TaskId { index: 0 }));
}

#[test]
fn concurrency_support_is_needed() {
    let mut store: Store<String, u32, String> = Store::new(STORE, false);
    assert!(!store.concurrency_support());
    let mut results = words(&["r"]);
    let call = func(false).start_call_concurrent(&mut store, &words(&["a", "b"]), &mut results);
    assert_eq!(call.err(), Some(CallError::ConcurrencyDisabled));
    let typed: TypedFunc<u32, u8> = TypedFunc::new(func(false), 1, 1);
    let call = typed.start_call_concurrent(&mut store, 5, |params| params);
    let error = call.err().unwrap();
    assert_eq!(error, CallError::ConcurrencyDisabled);
    assert_eq!(
        error.message(),
        "cannot use `call_concurrent` Config::concurrency_support disabled"
    );
    assert!(!store.has(TaskId { index: 0 }));
}

#[test]
fn typed_functions_of_different_types_share_a_store() {
    let mut store: Store<(), String, String> = Store::new(STORE, true);
    let number: TypedFunc<u32, u8> = TypedFunc::new(func(false), 1, 1);
    let letter: TypedFunc<char, bool> = TypedFunc::new(func(true), 17, 17);
    let first = number.start_call_concurrent(&mut store, 5, |params| format!("{params}"));
    let second = letter.start_call_concurrent(&mut store, 'q', |params| format!("{params}"));
    let (first, second) = (first.ok().unwrap(), second.ok().unwrap());
    assert_eq!(first.task(), GuestTaskId { index: 0 });
    assert_eq!(second.task(), GuestTaskId { index: 1 });
    let (first, second) = (first.task_handle().task, second.task_handle().task);
    assert_eq!(store.plan(first).param_count, 1);
    assert_eq!(store.plan(first).lift, ResultLift::Stack { count: 1 });
    assert_eq!(store.plan(second).param_count, 1);
    assert_eq!(store.plan(second).lift, ResultLift::Heap);
    assert_eq!(begin(&mut store, second), Some(Arguments::Typed("q".to_string())));
    assert_eq!(store.progress(first), Progress::Staged);
    assert_eq!(begin(&mut store, first), Some(Arguments::Typed("5".to_string())));
}

#[test]
fn typed_call_returns_its_result() {
    let mut store = store();
    let (typed, call) = start(&mut store);
    let task = call.task_handle().task;
    assert_eq!(begin(&mut store, task), Some(Arguments::Typed(5)));
    assert_eq!(wake(store.task_return(task)), Ok(()));
    assert_eq!(typed.finish_call_concurrent(&mut store, call, Some(Ok(9))), Ok(9));
}

#[test]
fn cancel_before_lowering_ends_the_task() {
    let mut store = store();
    let (typed, call) = start(&mut store);
    let handle = call.task_handle();
    let counter = Arc::new(WakeCounter::default());
    let waker = Waker::from(counter.clone());
    let mut done = handle.task_done(&store);
    assert!(store.accepts(done.task, done.waiter));
    assert_eq!(done.poll(&mut store, &waker), Poll::Pending);

    assert_eq!(wake(handle.cancel(&mut store)), Ok(()));
    assert_eq!(counter.wakes.load(Ordering::SeqCst), 1);
    assert!(store.is_complete(handle.task));
    assert_eq!(store.progress(handle.task), Progress::NeverEntered);
    assert_eq!(begin(&mut store, handle.task), None);
    assert_eq!(done.poll(&mut store, &waker), Poll::Ready(()));
    let result = typed.finish_call_concurrent(&mut store, call, None);
    assert_eq!(result, Err(CallError::Cancelled(GuestTaskCancelled)));
    assert_eq!(result.unwrap_err().message(), "guest task was cancelled");
    assert_eq!(GuestTaskCancelled.message(), "guest task was cancelled");
}

#[test]
fn guest_acknowledges_cancellation() {
    let mut store = store();
    let (typed, call) = start(&mut store);
    let handle = call.task_handle();
    assert!(begin(&mut store, handle.task).is_some());
    assert_eq!(wake(store.task_cancel(handle.task)), Err(CallError::Trap));
    assert!(!store.cancel_requested(handle.task));
    assert_eq!(wake(handle.cancel(&mut store)), Ok(()));
    assert!(store.cancel_requested(handle.task));
    assert_eq!(store.outcome(handle.task), None);
    assert_eq!(wake(handle.cancel(&mut store)), Ok(()));
    assert_eq!(wake(store.task_cancel(handle.task)), Ok(()));
    assert_eq!(store.outcome(handle.task), Some(TaskOutcome::Cancelled));
    assert!(!store.is_complete(handle.task));
    assert_eq!(wake(store.exit_thread(handle.task)), Ok(()));
    assert!(store.is_complete(handle.task));
    assert_eq!(
        typed.finish_call_concurrent(&mut store, call, None),
        Err(CallError::Cancelled(GuestTaskCancelled))
    );
}

#[test]
fn guest_returns_despite_cancellation() {
    let mut store = store();
    let (typed, call) = start(&mut store);
    let handle = call.task_handle();
    assert!(begin(&mut store, handle.task).is_some());
    assert_eq!(wake(handle.cancel(&mut store)), Ok(()));
    assert_eq!(wake(store.task_return(handle.task)), Ok(()));
    assert_eq!(wake(store.task_cancel(handle.task)), Err(CallError::Trap));
    assert_eq!(wake(store.task_return(handle.task)), Err(CallError::Trap));
    assert_eq!(wake(handle.cancel(&mut store)), Ok(()));
    assert_eq!(store.outcome(handle.task), Some(TaskOutcome::Returned));
    assert_eq!(typed.finish_call_concurrent(&mut store, call, Some(Ok(3))), Ok(3));
}

#[test]
fn thread_may_exit_before_the_result() {
    let mut store = store();
    let (_, call) = start(&mut store);
    let task = call.task_handle().task;
    assert_eq!(wake(store.exit_thread(task)), Err(CallError::Trap));
    assert_eq!(wake(store.task_return(task)), Err(CallError::Trap));
    assert!(begin(&mut store, task).is_some());
    assert_eq!(wake(store.exit_thread(task)), Ok(()));
    assert_eq!(wake(store.exit_thread(task)), Err(CallError::Trap));
    assert!(!store.is_complete(task));
    assert_eq!(wake(store.task_return(task)), Ok(()));
    assert!(store.is_complete(task));
}

#[test]
fn cancel_after_completion_does_nothing() {
    let mut store = store();
    let (_, call) = start(&mut store);
    let handle = call.task_handle();
    assert!(begin(&mut store, handle.task).is_some());
    assert_eq!(wake(store.task_return(handle.task)), Ok(()));
    assert_eq!(wake(store.exit_thread(handle.task)), Ok(()));
    assert_eq!(wake(handle.cancel(&mut store)), Ok(()));
    assert!(!store.cancel_requested(handle.task));
    assert_eq!(store.outcome(handle.task), Some(TaskOutcome::Returned));
}

#[test]
fn task_done_waits_for_the_thread() {
    let mut store = store();
    let (_, call) = start(&mut store);
    let handle = call.task_handle();
    assert_eq!(handle.id(), GuestTaskId { index: 0 });
    let counter = Arc::new(WakeCounter::default());
    let waker = Waker::from(counter.clone());
    let mut kept = handle.task_done(&store);
    let mut dropped = handle.task_done(&store);
    assert_eq!(kept.poll(&mut store, &waker), Poll::Pending);
    assert_eq!(dropped.poll(&mut store, &waker), Poll::Pending);
    dropped.release(&mut store);
    assert!(begin(&mut store, handle.task).is_some());
    assert_eq!(wake(store.task_return(handle.task)), Ok(()));
    assert_eq!(counter.wakes.load(Ordering::SeqCst), 0);
    assert_eq!(kept.poll(&mut store, &waker), Poll::Pending);
    assert_eq!(wake(store.exit_thread(handle.task)), Ok(()));
    assert_eq!(counter.wakes.load(Ordering::SeqCst), 1);
    assert_eq!(kept.poll(&mut store, &waker), Poll::Ready(()));
    kept.release(&mut store);
}

#[test]
fn dropped_future_removes_a_task_that_has_not_begun() {
    let mut store = store();
    let typed: TypedFunc<u32, u8> = TypedFunc::new(func(false), 16, 2);
    let call = typed.start_call_async_concurrent(&mut store);
    let handle = call.call.task_handle();
    assert_eq!(
        store.plan(handle.task),
        CallPlan {
            func: func(false),
            param_count: 16,
            host_future_present: true,
            lift: ResultLift::Heap,
        }
    );
    call.abandon(&mut store);
    assert_eq!(store.progress(handle.task), Progress::NeverEntered);
    assert_eq!(begin(&mut store, handle.task), None);
    assert_eq!(store.outcome(handle.task), None);
    let error = wake(handle.cancel(&mut store)).unwrap_err();
    assert_eq!(error, CallError::TaskRemoved);
    assert_eq!(error.message(), "guest task was removed");
}

#[test]
fn dropped_future_lets_a_running_task_be() {
    let mut store = store();
    let typed: TypedFunc<u32, u8> = TypedFunc::new(func(false), 1, 1);
    let call = typed.start_call_async_concurrent(&mut store);
    let task = call.call.task_handle().task;
    assert_eq!(begin(&mut store, task), Some(Arguments::Borrowed));
    call.abandon(&mut store);
    assert_eq!(store.progress(task), Progress::Lowered);
    assert_eq!(wake(store.task_return(task)), Ok(()));
    assert_eq!(wake(store.exit_thread(task)), Ok(()));
    assert!(store.is_complete(task));
}

#[test]
fn async_call_returns_its_result() {
    let mut store = store();
    let typed: TypedFunc<u32, u8> = TypedFunc::new(func(true), 1, 1);
    let call = typed.start_call_async_concurrent(&mut store);
    let task = call.call.task_handle().task;
    assert_eq!(begin(&mut store, task), Some(Arguments::Borrowed));
    assert_eq!(wake(store.task_return(task)), Ok(()));
    assert_eq!(typed.finish_call_async_concurrent(&mut store, call, Some(Ok(4))), Ok(4));
    assert_eq!(store.outcome(task), Some(TaskOutcome::Returned));
}

#[test]
fn flat_counts_follow_the_abi() {
    assert_eq!((MAX_FLAT_PARAMS, MAX_FLAT_RESULTS), (16, 1));
    assert_eq!(flat_param_count(0), 0);
    assert_eq!(flat_param_count(16), 16);
    assert_eq!(flat_param_count(17), 1);
    assert_eq!(max_flat_results(true), 16);
    assert_eq!(max_flat_results(false), 1);
    assert_eq!(ResultLift::typed(1, false), ResultLift::Stack { count: 1 });
    assert_eq!(ResultLift::typed(2, false), ResultLift::Heap);
    assert_eq!(ResultLift::typed(16, true), ResultLift::Stack { count: 16 });
    assert_eq!(ResultLift::typed(17, true), ResultLift::Heap);
}

#[test]
fn lifting_picks_its_values() {
    let values: [u64; 3] = [10, 20, 30];
    let stack = ResultLift::Stack { count: 2 };
    assert!(stack.suffices(2));
    assert!(!stack.suffices(1));
    assert_eq!(stack.select(&values), LiftSource::Stack { values: &values[..2] });
    assert_eq!(
        ResultLift::Stack { count: 0 }.select(&values[..1]),
        LiftSource::Stack { values: &values[..0] }
    );
    assert!(!ResultLift::Heap.suffices(0));
    assert_eq!(ResultLift::Heap.select(&values), LiftSource::Heap { pointer: &10 });
    let dynamic = ResultLift::Dynamic { max_flat: 16 };
    assert!(dynamic.suffices(0));
    assert_eq!(
        dynamic.select(&values),
        LiftSource::Dynamic { values: &values, max_flat: 16 }
    );
}

#[test]
fn errors_have_messages() {
    let params: CallError<()> = CallError::ParamCount { expected: 1, actual: 2 };
    let results: CallError<()> = CallError::ResultCount { expected: 1, actual: 2 };
    assert_eq!(params.message(), "wrong number of arguments");
    assert_eq!(results.message(), "wrong number of results");
    assert_eq!(CallError::<()>::Trap.message(), "guest task trapped");
}

#[test]
fn tasks_are_independent() {
    let mut store = store();
    let (_, first) = start(&mut store);
    let (_, second) = start(&mut store);
    let (first, second) = (first.task_handle(), second.task_handle());
    assert_ne!(first.id(), second.id());
    assert_eq!(wake(first.cancel(&mut store)), Ok(()));
    assert!(store.is_complete(first.task));
    assert!(!store.is_complete(second.task));
    assert_eq!(begin(&mut store, second.task), Some(Arguments::Typed(5)));
    assert_eq!(store.outcome(first.task), Some(TaskOutcome::Cancelled));
}

#[test]
fn registrations_survive_other_events() {
    let mut store = store();
    let (_, call) = start(&mut store);
    let handle = call.task_handle();
    let counter = Arc::new(WakeCounter::default());
    let waker = Waker::from(counter.clone());
    let mut first = handle.task_done(&store);
    let mut second = handle.task_done(&store);
    assert_eq!(first.poll(&mut store, &waker), Poll::Pending);
    assert_eq!(second.poll(&mut store, &waker), Poll::Pending);
    assert!(begin(&mut store, handle.task).is_some());
    assert_eq!(wake(handle.cancel(&mut store)), Ok(()));
    second.release(&mut store);
    assert!(store.accepts(first.task, first.waiter));
    assert_eq!(wake(store.task_cancel(handle.task)), Ok(()));
    assert_eq!(wake(store.exit_thread(handle.task)), Ok(()));
    assert_eq!(counter.wakes.load(Ordering::SeqCst), 1);
}

#[test]
fn dropping_a_call_does_not_cancel_it() {
    let mut store = store();
    let (_, call) = start(&mut store);
    let handle = call.task_handle();
    drop(call);
    assert_eq!(store.progress(handle.task), Progress::Staged);
    assert_eq!(begin(&mut store, handle.task), Some(Arguments::Typed(5)));
    assert_eq!(wake(store.task_return(handle.task)), Ok(()));
    assert_eq!(wake(store.exit_thread(handle.task)), Ok(()));
    assert!(store.is_complete(handle.task));
}

#[test]
fn failed_lowering_is_the_error_of_the_call() {
    let mut store = store();
    let (typed, call) = start(&mut store);
    let handle = call.task_handle();
    let counter = Arc::new(WakeCounter::default());
    let waker = Waker::from(counter.clone());
    let mut done = handle.task_done(&store);
    assert_eq!(done.poll(&mut store, &waker), Poll::Pending);
    assert_eq!(wake(store.finish_lowering(handle.task, Ok(()))), Err(CallError::Trap));
    assert_eq!(store.progress(handle.task), Progress::Staged);

    assert_eq!(store.begin_task(handle.task), Some(Arguments::Typed(5)));
    assert_eq!(wake(handle.cancel(&mut store)), Ok(()));
    assert!(store.cancel_requested(handle.task));
    assert_eq!(wake(store.task_return(handle.task)), Err(CallError::Trap));
    assert_eq!(store.lowering_error(handle.task), None);
    let wakeups = store.finish_lowering(handle.task, Err("no room".to_string())).unwrap();
    assert_eq!(store.lowering_error(handle.task), Some(&"no room".to_string()));
    assert_eq!(counter.wakes.load(Ordering::SeqCst), 0);
    wakeups.wake_all(&mut WakerLog::new());
    assert_eq!(counter.wakes.load(Ordering::SeqCst), 1);
    assert_eq!(store.progress(handle.task), Progress::NeverEntered);
    assert_eq!(store.outcome(handle.task), Some(TaskOutcome::Failed));
    assert_eq!(done.poll(&mut store, &waker), Poll::Ready(()));
    assert_eq!(wake(store.exit_thread(handle.task)), Err(CallError::Trap));
    let error = typed.finish_call_concurrent(&mut store, call, None).unwrap_err();
    assert_eq!(error, CallError::Runtime("no room".to_string()));
    assert_eq!(error.message(), "values could not be lowered or lifted");
    assert_eq!(store.lowering_error(handle.task), None);
    assert_eq!(store.outcome(handle.task), Some(TaskOutcome::Failed));
}

#[test]
fn futures_stay_until_dropped() {
    let mut store = store();
    let typed: TypedFunc<u32, u8> = TypedFunc::new(func(false), 1, 1);
    let call = typed.start_call_async_concurrent(&mut store);
    let task = call.call.task_handle().task;
    assert_eq!(store.host_future(task), HostFuture::Live);
    assert_eq!(store.begin_task(task), Some(Arguments::Borrowed));
    assert_eq!(store.progress(task), Progress::Lowering);
    assert_eq!(store.host_future(task), HostFuture::Live);
    assert_eq!(wake(store.finish_lowering(task, Ok(()))), Ok(()));
    assert_eq!(wake(store.task_return(task)), Ok(()));
    assert_eq!(store.host_future(task), HostFuture::Live);
    assert_eq!(typed.finish_call_async_concurrent(&mut store, call, Some(Ok(4))), Ok(4));
    assert_eq!(store.host_future(task), HostFuture::Dropped);
    let (_, moved) = start(&mut store);
    assert_eq!(store.host_future(moved.task_handle().task), HostFuture::NotApplicable);
}

#[test]
fn lifted_results_are_collected() {
    assert_eq!(collect_lifted::<u8, String>(Vec::new()), Ok(Vec::new()));
    assert_eq!(collect_lifted::<u8, String>(vec![Ok(1), Ok(2), Ok(3)]), Ok(vec![1, 2, 3]));
    assert_eq!(collect_lifted(vec![Ok(1), Err("first"), Err("second")]), Err("first"));
    assert_eq!(collect_lifted(vec![Err::<u8, u32>(7)]), Err(7));
}
