use gaudi_rust_bindings::algorithm::{Algorithm, AlgorithmTrait, ExecuteAction, StageAction};
use gaudi_rust_bindings::builder::AlgorithmBuilder;
use gaudi_rust_bindings::event::EventContext;
use gaudi_rust_bindings::host::Host;
use std::sync::atomic::{AtomicUsize, Ordering::Relaxed};

#[derive(Default)]
struct Counter {
    events_count: AtomicUsize,
}

struct Reset;

impl StageAction<Counter> for Reset {
    fn run(&self, state: &mut Counter, _host: &mut Host) -> Result<(), String> {
        state.events_count.store(0, Relaxed);
        Ok(())
    }
}

struct Count;

impl ExecuteAction<Counter> for Count {
    fn execute(&self, state: &Counter, host: &mut Host, _ctx: &EventContext) -> Result<(), String> {
        state.events_count.fetch_add(1, Relaxed);
        host.info("counted");
        Ok(())
    }
}

#[test]
fn execute_counts_each_event() {
    let mut alg: Algorithm<Counter, Reset, Count> = AlgorithmBuilder::new()
        .add_initialize_action(Reset)
        .set_execute_action(Count)
        .build();
    let mut host = Host::new("Counter");
    assert_eq!(alg.bind_host(&mut host), Ok(()));
    assert_eq!(alg.initialize(&mut host), Ok(()));
    assert_eq!(alg.start(&mut host), Ok(()));
    for evt in 0..17 {
        let ctx = EventContext::new(evt, 0, None, true);
        assert_eq!(alg.execute(&mut host, &ctx), Ok(()));
    }
    assert_eq!(alg.stop(&mut host), Ok(()));
    assert_eq!(alg.finalize(&mut host), Ok(()));
    assert_eq!(alg.state().events_count.load(Relaxed), 17);
    assert_eq!(host.messages().len(), 17);
}
