use cndrv::queue::BenchAction;
use cndrv::queue::BenchAction::{Call, RecordEnd, RecordStart};
use cndrv::Queue;

fn run(times: usize, warm_up: usize) -> Vec<BenchAction> {
    let queue = Queue { ctx: 1, raw: 2 };
    let mut plan = queue.bench(times, warm_up);
    let mut steps = Vec::new();
    while let Some(a) = plan.next() {
        steps.push(a);
    }
    assert_eq!(plan.next(), None);
    steps
}

#[test]
fn bench_warms_up_then_times() {
    assert_eq!(
        run(3, 2),
        vec![Call(0), Call(1), RecordStart, Call(0), Call(1), Call(2), RecordEnd]
    );
}

#[test]
fn bench_without_calls() {
    assert_eq!(run(1, 0), vec![RecordStart, Call(0), RecordEnd]);
}

#[test]
fn bench_call_count() {
    let steps = run(100, 7);
    assert_eq!(steps.len(), 100 + 7 + 2);
    let calls = steps.iter().filter(|a| matches!(a, BenchAction::Call(_))).count();
    assert_eq!(calls, 107);
    assert_eq!(steps[7], BenchAction::RecordStart);
    assert_eq!(steps[108], BenchAction::RecordEnd);
}
