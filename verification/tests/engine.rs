use papi_measurement::MeasurementError;
use papi_measurement::Sample;
use papi_measurement::StubEngine;

#[test]
fn init_sample_lays_out_one_zeroed_entry() {
    let mut engine = StubEngine::new();
    engine.add_event("TOTAL_CYCLES", 1000);
    let ready = engine.open_event_set("TOTAL_CYCLES").expect("event is recognized");

    let mut sample = Sample::default();
    ready.init_sample(&mut sample);
    assert_eq!(sample.len(), 1);
    assert_eq!(sample.name_at(0), "TOTAL_CYCLES");
    assert_eq!(sample.value_at(0), 0);
}

#[test]
fn duplicated_ready_sessions_measure_independently() {
    let mut engine = StubEngine::new();
    engine.add_event("TOTAL_CYCLES", 1000);
    let ready = engine.open_event_set("TOTAL_CYCLES").expect("event is recognized");

    let mut prototype = Sample::default();
    ready.init_sample(&mut prototype);

    let dup_a = ready.try_clone().expect("duplication succeeds");
    let dup_b = ready.try_clone().expect("duplication succeeds");

    let mut results = Vec::new();
    for dup in [dup_a, dup_b, ready] {
        let mut sample = prototype.duplicate();
        let running = dup.start().expect("starting a session succeeds");
        running.stop(&mut sample).expect("stopping a started session succeeds");
        results.push(sample.first_value().expect("sample holds a value"));
    }
    assert_eq!(results, vec![1000, 1000, 1000]);

    // The prototype itself is a read-only template: untouched by the cycles.
    assert_eq!(prototype.len(), 1);
    assert_eq!(prototype.value_at(0), 0);
}

#[test]
fn stop_without_a_matching_entry_fails_loudly() {
    let mut engine = StubEngine::new();
    engine.add_event("TOTAL_CYCLES", 1000);
    engine.add_event("CACHE_MISSES", 42);

    let cycles = engine.open_event_set("TOTAL_CYCLES").expect("event is recognized");
    let misses = engine.open_event_set("CACHE_MISSES").expect("event is recognized");

    // A sample shaped for one event cannot receive another event's count.
    let mut sample = Sample::default();
    cycles.init_sample(&mut sample);
    let running = misses.start().expect("starting a session succeeds");
    assert_eq!(running.stop(&mut sample), Err(MeasurementError::Stop));
    assert_eq!(sample.value_at(0), 0);

    // An empty sample cannot receive any count at all.
    let mut empty = Sample::default();
    let running = cycles.start().expect("starting a session succeeds");
    assert_eq!(running.stop(&mut empty), Err(MeasurementError::Stop));
    assert_eq!(empty.len(), 0);
}

#[test]
fn stop_writes_the_count_into_the_matching_entry() {
    let mut engine = StubEngine::new();
    engine.add_event("CACHE_MISSES", 42);
    let ready = engine.open_event_set("CACHE_MISSES").expect("event is recognized");

    let mut sample = Sample::default();
    ready.init_sample(&mut sample);
    let dup = ready.try_clone().expect("duplication succeeds");
    let running = dup.start().expect("starting a session succeeds");
    assert_eq!(running.event_name(), "CACHE_MISSES");
    running.stop(&mut sample).expect("stopping a started session succeeds");

    assert_eq!(sample.len(), 1);
    assert_eq!(sample.name_at(0), "CACHE_MISSES");
    assert_eq!(sample.value_at(0), 42);
    assert_eq!(sample.first_value(), Ok(42));
}

#[test]
fn duplicate_preserves_the_sample() {
    let mut engine = StubEngine::new();
    engine.add_event("TOTAL_CYCLES", 1000);
    let ready = engine.open_event_set("TOTAL_CYCLES").expect("event is recognized");

    let mut sample = Sample::default();
    ready.init_sample(&mut sample);
    let copy = sample.duplicate();
    assert_eq!(copy.len(), sample.len());
    assert_eq!(copy.name_at(0), sample.name_at(0));
    assert_eq!(copy.value_at(0), sample.value_at(0));
}

#[test]
fn lookup_takes_the_first_matching_event() {
    let mut engine = StubEngine::new();
    engine.add_event("TOTAL_CYCLES", 1000);
    engine.add_event("TOTAL_CYCLES", 5);
    let ready = engine.open_event_set("TOTAL_CYCLES").expect("event is recognized");
    assert_eq!(ready.event_name(), "TOTAL_CYCLES");

    let mut sample = Sample::default();
    ready.init_sample(&mut sample);
    let running = ready.start().expect("starting a session succeeds");
    running.stop(&mut sample).expect("stopping a started session succeeds");
    assert_eq!(sample.first_value(), Ok(1000));
}

#[test]
fn an_unrecognized_name_cannot_be_opened() {
    let engine = StubEngine::new();
    assert_eq!(
        engine.open_event_set("TOTAL_CYCLES").err(),
        Some(MeasurementError::Setup)
    );
}
