use gaudi_rust_bindings::algorithm::{Algorithm, AlgorithmTrait, ExecuteAction, StageAction};
use gaudi_rust_bindings::builder::AlgorithmBuilder;
use gaudi_rust_bindings::event::EventContext;
use gaudi_rust_bindings::host::Host;
use gaudi_rust_bindings::payload::BoxedDataObject;

#[derive(Default)]
struct Seen {
    last: std::cell::Cell<Option<i32>>,
}

enum Nothing {}

impl StageAction<Seen> for Nothing {
    fn run(&self, _state: &mut Seen, _host: &mut Host) -> Result<(), String> {
        match *self {}
    }
}

enum Job {
    Produce(i32),
    Consume,
}

impl ExecuteAction<Seen> for Job {
    fn execute(&self, state: &Seen, host: &mut Host, ctx: &EventContext) -> Result<(), String> {
        match self {
            Job::Produce(v) => host.put(ctx, "Out", BoxedDataObject::from(*v)),
            Job::Consume => {
                let obj = host.get(ctx, "Out").ok_or("nothing stored")?;
                state.last.set(Some(*obj.as_i32()));
                Ok(())
            }
        }
    }
}

#[test]
fn later_execute_reads_what_earlier_one_put() {
    let mut producer: Algorithm<Seen, Nothing, Job> = AlgorithmBuilder::new()
        .add_output("int", "Out", "\"/Event/Int\"", None)
        .set_execute_action(Job::Produce(42))
        .build();
    let consumer: Algorithm<Seen, Nothing, Job> =
        AlgorithmBuilder::new().set_execute_action(Job::Consume).build();
    let mut host = Host::new("Pipeline");
    assert_eq!(producer.bind_host(&mut host), Ok(()));
    let ctx = EventContext::new(4, 2, Some(1), true);
    assert_eq!(producer.execute(&mut host, &ctx), Ok(()));
    assert_eq!(consumer.execute(&mut host, &ctx), Ok(()));
    assert_eq!(consumer.state().last.get(), Some(42));
    let other = EventContext::new(5, 2, Some(1), true);
    assert_eq!(consumer.execute(&mut host, &other), Err("nothing stored".to_string()));
}

#[test]
fn host_placed_object_is_readable_and_exclusive() {
    let mut host = Host::new("Reader");
    host.add_input("float", "In", "\"/Event/Float\"", None);
    let ctx = EventContext::new(9, 0, None, true);
    let bits = 2.5f32.to_bits();
    assert!(host.insert_object(&ctx, "\"/Event/Float\"", BoxedDataObject::from_f32_bits(bits)));
    assert!(!host.insert_object(&ctx, "\"/Event/Float\"", BoxedDataObject::from_f32_bits(0)));
    let got = host.get(&ctx, "In").unwrap();
    assert_eq!(f32::from_bits(*got.as_f32_bits()), 2.5);
    assert_eq!(host.store().len(), 1);
    assert!(host.store()[0].handle.is_empty());
    host.clear_store();
    assert!(host.store().is_empty());
    assert!(host.get(&ctx, "In").is_none());
    assert_eq!(host.inputs().len(), 1);
}

#[test]
fn stored_entry_records_its_handle() {
    let mut host = Host::new("Writer");
    host.add_output("int", "Out", "\"/Event/Int\"", Some("where the value goes"));
    assert!(host.set_property("Out", "\"/Event/Other\""));
    let ctx = EventContext::new(0, 0, None, true);
    assert_eq!(host.put(&ctx, "Out", BoxedDataObject::from_i32(7)), Ok(()));
    let entry = &host.store()[0];
    assert_eq!(entry.handle, "Out");
    assert_eq!(entry.location, "\"/Event/Other\"");
    assert_eq!(entry.value, BoxedDataObject::Int32(7));
    assert_eq!(host.outputs()[0].location, "\"/Event/Int\"");
    assert_eq!(host.outputs()[0].doc, "where the value goes");
}

#[test]
fn default_component_has_no_actions() {
    let alg: Algorithm<Seen, Nothing, Job> = Algorithm::default();
    assert!(!alg.has_execute_action());
    assert_eq!(alg.state().last.get(), None);
}

#[test]
fn get_reads_only_through_a_data_handle() {
    let mut host = Host::new("Strict");
    host.add_property("std::string", "Plain", "\"/Event/Int\"", None);
    host.add_output("int", "Out", "\"/Event/Int\"", None);
    let ctx = EventContext::new(1, 0, None, true);
    assert_eq!(host.put(&ctx, "Out", BoxedDataObject::from_i32(3)), Ok(()));
    assert!(host.get(&ctx, "Plain").is_none());
    assert!(host.get(&ctx, "Missing").is_none());
    assert_eq!(*host.get(&ctx, "Out").unwrap().as_i32(), 3);
}

#[test]
fn built_component_starts_from_default_state() {
    let alg: Algorithm<Seen, Nothing, Job> = AlgorithmBuilder::new()
        .add_output("int", "Out", "\"/Event/Int\"", None)
        .set_execute_action(Job::Produce(1))
        .build();
    assert_eq!(alg.state().last.get(), None);
    assert!(alg.has_execute_action());
}
