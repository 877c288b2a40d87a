use gaudi_rust_bindings::algorithm::{Algorithm, AlgorithmTrait, ExecuteAction, StageAction};
use gaudi_rust_bindings::builder::AlgorithmBuilder;
use gaudi_rust_bindings::event::EventContext;
use gaudi_rust_bindings::host::{Host, Severity};
use gaudi_rust_bindings::payload::BoxedDataObject;

#[derive(Default)]
struct Trail {
    steps: Vec<u32>,
    value: i32,
}

enum Step {
    Record(u32),
    Fail(&'static str),
    ParseValue,
}

impl StageAction<Trail> for Step {
    fn run(&self, state: &mut Trail, host: &mut Host) -> Result<(), String> {
        match self {
            Step::Record(n) => {
                state.steps.push(*n);
                Ok(())
            }
            Step::Fail(text) => Err(text.to_string()),
            Step::ParseValue => {
                let text = host.get_property("Value").ok_or("Value is not declared")?;
                state.value = text
                    .parse()
                    .map_err(|e| format!("{}.Value is not an integer: {}", host.instance_name(), e))?;
                Ok(())
            }
        }
    }
}

struct Produce;

impl ExecuteAction<Trail> for Produce {
    fn execute(&self, state: &Trail, host: &mut Host, ctx: &EventContext) -> Result<(), String> {
        host.info("producing");
        host.put(ctx, "Out", BoxedDataObject::from_i32(state.value))
    }
}

type Alg = Algorithm<Trail, Step, Produce>;

fn builder() -> AlgorithmBuilder<Trail, Step, Produce> {
    AlgorithmBuilder::new()
}

fn ctx(evt: usize) -> EventContext {
    EventContext::new(evt, 0, None, true)
}

#[test]
fn stage_actions_run_in_registration_order() {
    let mut alg: Alg = builder()
        .add_bind_host_action(Step::Record(0))
        .add_initialize_action(Step::Record(1))
        .add_initialize_action(Step::Record(2))
        .add_initialize_action(Step::Record(3))
        .add_start_action(Step::Record(4))
        .add_stop_action(Step::Record(5))
        .add_finalize_action(Step::Record(6))
        .build();
    let mut host = Host::new("Ordered");
    assert_eq!(alg.bind_host(&mut host), Ok(()));
    assert_eq!(alg.state().steps, vec![0]);
    assert_eq!(alg.initialize(&mut host), Ok(()));
    assert_eq!(alg.state().steps, vec![0, 1, 2, 3]);
    assert_eq!(alg.start(&mut host), Ok(()));
    assert_eq!(alg.stop(&mut host), Ok(()));
    assert_eq!(alg.finalize(&mut host), Ok(()));
    assert_eq!(alg.state().steps, vec![0, 1, 2, 3, 4, 5, 6]);
    assert!(!alg.has_execute_action());
}

#[test]
fn failing_action_stops_its_stage() {
    let mut alg: Alg = builder()
        .add_initialize_action(Step::Record(1))
        .add_initialize_action(Step::Fail("bad config"))
        .add_initialize_action(Step::Record(3))
        .add_start_action(Step::Record(4))
        .build();
    let mut host = Host::new("Broken");
    assert_eq!(alg.bind_host(&mut host), Ok(()));
    assert_eq!(alg.initialize(&mut host), Err("bad config".to_string()));
    assert_eq!(alg.state().steps, vec![1]);
}

#[test]
fn declared_property_gives_its_default() {
    let mut alg: Alg = builder()
        .add_property("int", "Value", "7", Some("The integer value to produce."))
        .add_initialize_action(Step::ParseValue)
        .build();
    let mut host = Host::new("IntProducer");
    assert_eq!(host.get_property("Value"), None);
    assert_eq!(alg.bind_host(&mut host), Ok(()));
    assert_eq!(alg.initialize(&mut host), Ok(()));
    assert_eq!(host.get_property("Value"), Some("7".to_string()));
    assert_eq!(alg.state().value, 7);
    assert_eq!(host.get_property("Value").unwrap().parse::<i32>(), Ok(7));
    assert_eq!(host.get_property("Unknown"), None);
}

#[test]
fn unparsable_property_fails_initialize() {
    let mut alg: Alg = builder()
        .add_property("int", "Value", "seven", None)
        .add_initialize_action(Step::ParseValue)
        .add_initialize_action(Step::Record(1))
        .build();
    let mut host = Host::new("IntProducer");
    assert_eq!(alg.bind_host(&mut host), Ok(()));
    let r = alg.initialize(&mut host);
    assert!(r.unwrap_err().starts_with("IntProducer.Value is not an integer"));
    assert!(alg.state().steps.is_empty());
}

#[test]
fn overridden_property_replaces_default() {
    let mut host = Host::new("Configured");
    host.add_property("int", "Value", "7", None);
    assert!(host.set_property("Value", "11"));
    assert_eq!(host.get_property("Value"), Some("11".to_string()));
    assert!(!host.set_property("Missing", "1"));
    assert_eq!(host.get_property("Missing"), None);
}

#[test]
fn execute_puts_value_that_get_returns() {
    let mut alg: Alg = builder()
        .add_property("int", "Value", "42", None)
        .add_output("int", "Out", "\"/Event/Int\"", None)
        .add_initialize_action(Step::ParseValue)
        .set_execute_action(Produce)
        .build();
    let mut host = Host::new("Producer");
    assert_eq!(alg.bind_host(&mut host), Ok(()));
    assert_eq!(alg.initialize(&mut host), Ok(()));
    assert_eq!(alg.start(&mut host), Ok(()));
    let c = ctx(1);
    assert_eq!(alg.execute(&mut host, &c), Ok(()));
    let got = host.get(&c, "Out").expect("stored");
    assert_eq!(*got.as_i32(), 42);
    assert!(host.get(&ctx(2), "Out").is_none());
    assert_eq!(
        alg.execute(&mut host, &c),
        Err("location already holds an object for this event".to_string())
    );
    assert_eq!(alg.execute(&mut host, &ctx(2)), Ok(()));
    assert_eq!(alg.stop(&mut host), Ok(()));
}

#[test]
fn put_under_unknown_handle_is_refused() {
    let mut host = Host::new("Lonely");
    host.add_input("int", "In", "\"/Event/Int\"", None);
    assert_eq!(
        host.put(&ctx(0), "In", BoxedDataObject::from_i32(1)),
        Err("unknown output handle".to_string())
    );
    assert_eq!(
        host.put(&ctx(0), "Nowhere", BoxedDataObject::from_i32(1)),
        Err("unknown output handle".to_string())
    );
}

#[test]
fn input_and_output_share_location() {
    let mut host = Host::new("Chain");
    host.add_output("int", "Out", "\"/Event/Int\"", None);
    host.add_input("int", "In", "\"/Event/Int\"", None);
    assert_eq!(host.put(&ctx(3), "Out", BoxedDataObject::from_i32(-5)), Ok(()));
    assert_eq!(*host.get(&ctx(3), "In").unwrap().as_i32(), -5);
    assert_eq!(host.get_property("In"), Some("\"/Event/Int\"".to_string()));
}

#[test]
fn instances_from_one_template_keep_own_state() {
    let template = || builder().add_initialize_action(Step::Record(1));
    let mut first: Alg = template().build();
    let mut second: Alg = template().build();
    let mut host = Host::new("Twin");
    assert_eq!(first.initialize(&mut host), Ok(()));
    assert_eq!(first.initialize(&mut host), Ok(()));
    assert_eq!(first.state().steps, vec![1, 1]);
    assert!(second.state().steps.is_empty());
    assert_eq!(second.initialize(&mut host), Ok(()));
    assert_eq!(second.state().steps, vec![1]);
    assert_eq!(first.state().steps, vec![1, 1]);
}

#[test]
fn messages_reach_the_sink_in_order() {
    let mut host = Host::new("Talker");
    host.trace("a");
    host.debug("b");
    host.info("c");
    host.warning("d");
    host.error("e");
    host.fatal("f");
    let levels: Vec<Severity> = host.messages().iter().map(|m| m.level).collect();
    assert_eq!(
        levels,
        vec![
            Severity::Verbose,
            Severity::Debug,
            Severity::Info,
            Severity::Warning,
            Severity::Error,
            Severity::Fatal
        ]
    );
    assert_eq!(host.messages()[2].text, "c");
    assert_eq!(host.instance_name(), "Talker");
}
