use measure_rollup::registry::MeasuresInner;
use measure_rollup::Measures;

const UNKNOWN_HANDLE_SENTINEL: &str = "measure_rollup::unknown_measure_handle_specified";
const UNKNOWN_NAME_SENTINEL: &str = "measure_rollup::unknown_measure_name_specified";

#[test]
fn test_measure() {
    let measures = Measures::new();

    {
        let measure_handle;
        {
            measure_handle = measures.new_measure(&"Water Meter 1".to_string());
        }

        measures.add_value(measure_handle, 45);
    }

    {
        let measure_handle;
        {
            measure_handle = measures.new_measure(&"Water Meter 2".to_string());
        }

        measures.add_value(measure_handle, 45);
    }

    {
        let measure_handle;
        {
            measure_handle = measures.new_measure(&"Water Meter 1".to_string());
        }

        measures.add_value(measure_handle, 45);
    }

    for handle in measures.handles() {
        let measure = measures.get_measure(handle).unwrap();
        println!("Measure Named: {} {:?}", measure.name(), measure.current_totals());
    }
}

#[test]
fn test_handle_idempotence() {
    let measures = Measures::new();
    let h1 = measures.new_measure(&"X".to_string());
    let h2 = measures.new_measure(&"X".to_string());
    let h3 = measures.new_measure(&"X".to_string());
    assert_eq!(h1, h2);
    assert_eq!(h1, h3);
    assert_eq!(measures.handles().len(), 1);
}

#[test]
fn test_shared_name_single_measure() {
    // many callers ask for the same unseen name; all end with one handle
    // and exactly one measure exists afterwards
    let measures = Measures::new();
    let first = measures.new_measure(&"Shared".to_string());
    for _ in 0..49 {
        assert_eq!(measures.new_measure(&"Shared".to_string()), first);
    }
    let handles = measures.handles();
    assert_eq!(handles.len(), 1);
    assert_eq!(
        measures.get_measure(handles[0]).unwrap().name(),
        "Shared".to_string()
    );
}

#[test]
fn test_handles_monotonic_distinct() {
    let measures = Measures::new();
    let mut previous = 0;
    for i in 0..50 {
        let handle = measures.new_measure(&format!("Meter {}", i));
        assert!(handle > previous);
        previous = handle;
    }
    assert_eq!(measures.handles().len(), 50);
}

#[test]
fn test_unknown_handle_fallback() {
    let measures = Measures::new();
    let real = measures.new_measure(&"Real".to_string());

    measures.add_value(real + 1000, 500);

    // the real measure never saw the 500
    let real_totals = measures.get_measure(real).unwrap().current_totals();
    assert_eq!(real_totals, vec![(0, 0), (0, 0), (0, 0)]);

    // the unknown-handle sentinel counted exactly 1, the value was discarded
    let sentinel_handle = measures.new_measure(&UNKNOWN_HANDLE_SENTINEL.to_string());
    let sentinel = measures.get_measure(sentinel_handle).unwrap();
    assert_eq!(sentinel.current_totals(), vec![(1, 1), (1, 1), (1, 1)]);

    measures.add_value(real + 1000, 500);
    assert_eq!(sentinel.current_totals(), vec![(2, 2), (2, 2), (2, 2)]);
}

#[test]
fn test_unknown_name_fallback() {
    let measures = Measures::new();
    measures.add_value_by_name("never-registered".to_string(), 500);

    // no measure was created for the asked-for name: the only registered
    // measure is the unknown-name sentinel, with one counted occurrence
    let handles = measures.handles();
    assert_eq!(handles.len(), 1);
    let sentinel = measures.get_measure(handles[0]).unwrap();
    assert_eq!(sentinel.name(), UNKNOWN_NAME_SENTINEL.to_string());
    assert_eq!(sentinel.current_totals(), vec![(1, 1), (1, 1), (1, 1)]);
}

#[test]
fn test_add_value_by_name_known_name() {
    let measures = Measures::new();
    let handle = measures.new_measure(&"W".to_string());
    measures.add_value_by_name("W".to_string(), 7);
    let totals = measures.get_measure(handle).unwrap().current_totals();
    assert_eq!(totals, vec![(7, 1), (7, 1), (7, 1)]);
    assert_eq!(measures.handles().len(), 1);
}

#[test]
fn test_get_measure_unknown_handle_is_none() {
    let measures = Measures::new();
    assert!(measures.get_measure(12345).is_none());
}

#[test]
fn test_scenario_two_samples_same_second() {
    let measures = Measures::new();
    let h1 = measures.new_measure(&"A".to_string());
    measures.add_value(h1, 10);
    measures.add_value(h1, 5);
    let totals = measures.get_measure(h1).unwrap().current_totals();
    assert_eq!(totals, vec![(15, 2), (15, 2), (15, 2)]);
}

#[test]
fn test_inner_registry_operations() {
    let mut inner = MeasuresInner::new();
    assert!(!inner.name_exists(&"Gauge".to_string()));

    let handle = inner.new_measure(&"Gauge".to_string());
    assert_eq!(handle, 1);
    assert!(inner.name_exists(&"Gauge".to_string()));
    assert_eq!(inner.get_handle(&"Gauge".to_string()), handle);

    let other = inner.new_measure(&"Other".to_string());
    assert_eq!(other, 2);
    assert_eq!(inner.new_measure(&"Gauge".to_string()), handle);
}

#[test]
fn test_measure_add_value_directly() {
    let measures = Measures::new();
    let handle = measures.new_measure(&"Direct".to_string());
    let measure = measures.get_measure(handle).unwrap();
    measure.add_value(32);
    measure.add_value(10);
    assert_eq!(measure.current_totals(), vec![(42, 2), (42, 2), (42, 2)]);
    assert_eq!(measure.name(), "Direct".to_string());
}
