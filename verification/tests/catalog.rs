use isrbe::parameters::{
    validate_movable, get_parameters, is_type_resource, new_parameter, Parameter, Parameter2,
    Parameter3, Value, PARAM_TYPE_NUMBER, PARAM_TYPE_RESOURCE,
};
use isrbe::resources::Resource;
use isrbe::{match_id, Catalog, Quantity, ResourceType, RowCollector, TransformType};

fn catalog() -> Catalog {
    Catalog::new(
        vec![
            Quantity::new(1, "mass".to_string(), "kg".to_string()),
            Quantity::new(2, "volume".to_string(), "l".to_string()),
            Quantity::new(3, "count".to_string(), "pcs".to_string()),
        ],
        vec![
            ResourceType::new(1, "food".to_string()),
            ResourceType::new(2, "tool".to_string()),
        ],
        vec![
            TransformType::new(1, "transport".to_string()),
            TransformType::new(2, "production".to_string()),
        ],
    )
}

#[test]
fn match_id_counts_from_one() {
    assert_eq!(match_id(1), 0);
    assert_eq!(match_id(5), 4);
    assert_eq!(match_id(1000), 999);
}

#[test]
fn catalog_getters_return_the_tables() {
    let c = catalog();
    assert_eq!(c.get_quantities().len(), 3);
    assert_eq!(c.get_quantities()[1].unit, "l");
    assert_eq!(c.get_res_types().len(), 2);
    assert_eq!(c.get_res_types()[1].name, "tool");
    assert_eq!(c.get_transform_types().len(), 2);
    assert_eq!(c.get_transform_types()[0].name, "transport");
}

#[test]
fn catalog_unit_zero_is_empty() {
    let c = catalog();
    assert_eq!(c.unit(0), "");
}

#[test]
fn catalog_unit_looks_up_by_id() {
    let c = catalog();
    assert_eq!(c.unit(1), "kg");
    assert_eq!(c.unit(2), "l");
    assert_eq!(c.unit(3), "pcs");
}

#[test]
fn catalog_type_names_look_up_by_id() {
    let c = catalog();
    assert_eq!(c.res_type_name(1), "food");
    assert_eq!(c.res_type_name(2), "tool");
    assert_eq!(c.transform_type_name(1), "transport");
    assert_eq!(c.transform_type_name(2), "production");
}

#[test]
fn catalog_lookup_finds_row_with_that_id() {
    // Rows numbered 1..n in order: the row found for an id carries that id.
    let c = catalog();
    for id in 1..=3u64 {
        let q = &c.get_quantities()[match_id(id)];
        assert_eq!(q.id, id);
        assert_eq!(c.unit(id), q.unit);
    }
}

#[test]
fn row_collector_keeps_all_rows_in_order() {
    let mut c: RowCollector<u64> = RowCollector::new();
    assert!(!c.accept(Ok(7)));
    assert!(!c.accept(Ok(8)));
    assert!(!c.accept(Ok(9)));
    assert_eq!(c.finish(), Ok(vec![7, 8, 9]));
}

#[test]
fn row_collector_empty_is_ok() {
    let c: RowCollector<u64> = RowCollector::new();
    assert_eq!(c.finish(), Ok(vec![]));
}

#[test]
fn row_collector_stops_at_first_error() {
    let mut c: RowCollector<u64> = RowCollector::new();
    assert!(!c.accept(Ok(1)));
    assert!(c.accept(Err("first".to_string())));
    assert!(c.accept(Ok(2)));
    assert!(c.accept(Err("second".to_string())));
    assert_eq!(c.finish(), Err("first".to_string()));
}

#[test]
fn value_from_columns_number() {
    let v: Value<f64> = Value::from_columns(Some(2.5), None, None);
    assert!(matches!(v, Value::Number(x) if x == 2.5));
}

#[test]
fn value_from_columns_text() {
    let v: Value<f64> = Value::from_columns(None, Some("red".to_string()), None);
    assert!(matches!(v, Value::Text(ref t) if t == "red"));
}

#[test]
fn value_from_columns_resource() {
    let v: Value<f64> = Value::from_columns(Some(3.0), None, Some("flour".to_string()));
    assert!(matches!(v, Value::Resource(x, ref r) if x == 3.0 && r == "flour"));
}

#[test]
fn value_from_columns_other_combinations_are_empty() {
    let v: Value<f64> = Value::from_columns(None, None, None);
    assert!(matches!(v, Value::Empty));
    let v: Value<f64> = Value::from_columns(Some(1.0), Some("x".to_string()), None);
    assert!(matches!(v, Value::Empty));
    let v: Value<f64> = Value::from_columns(None, Some("x".to_string()), Some("y".to_string()));
    assert!(matches!(v, Value::Empty));
    let v: Value<f64> = Value::from_columns(None, None, Some("y".to_string()));
    assert!(matches!(v, Value::Empty));
    let v: Value<f64> =
        Value::from_columns(Some(1.0), Some("x".to_string()), Some("y".to_string()));
    assert!(matches!(v, Value::Empty));
}

#[test]
fn parameter3_reads_value_columns() {
    let p: Parameter3<f64> = Parameter3::new(
        4,
        "weight".to_string(),
        Some(1.5),
        None,
        None,
        Some("kg".to_string()),
        true,
        9,
    );
    assert_eq!(p.id, 4);
    assert_eq!(p.name, "weight");
    assert!(matches!(p.value, Value::Number(x) if x == 1.5));
    assert_eq!(p.unit, Some("kg".to_string()));
    assert!(p.movable);
    assert_eq!(p.res_param_id, 9);
}

#[test]
fn parameter_new_keeps_fields() {
    let p = Parameter::new(3, "flour".to_string(), "weight".to_string());
    assert_eq!(p.id, 3);
    assert_eq!(p.name, "flour");
    assert_eq!(p.unit, "weight");
}

#[test]
fn parameter2_unit_resolved_from_cache() {
    let c = catalog();
    let mut p = Parameter2::new(1, "weight".to_string(), "number".to_string(), 1);
    assert_eq!(p.unit, "");
    p.set_unit_from_cache(&c);
    assert_eq!(p.unit, "kg");
    assert_eq!(p.id, 1);
    assert_eq!(p.name, "weight");
    assert_eq!(p.type_id, "number");
    assert_eq!(p.unit_id, 1);
    let mut q = Parameter2::new(2, "colour".to_string(), "text".to_string(), 0);
    q.set_unit_from_cache(&c);
    assert_eq!(q.unit, "");
}

#[test]
fn get_parameters_resolves_every_unit() {
    let c = catalog();
    let fetched = vec![
        Parameter2::new(1, "weight".to_string(), "number".to_string(), 1),
        Parameter2::new(2, "colour".to_string(), "text".to_string(), 0),
        Parameter2::new(3, "pieces".to_string(), "number".to_string(), 3),
    ];
    let ps = get_parameters(fetched, &c);
    assert_eq!(ps.len(), 3);
    assert_eq!(ps[0].unit, "kg");
    assert_eq!(ps[1].unit, "");
    assert_eq!(ps[2].unit, "pcs");
    assert_eq!(ps[2].name, "pieces");
}

#[test]
fn new_parameter_keeps_unit_only_for_numbers() {
    let p = new_parameter("weight".to_string(), PARAM_TYPE_NUMBER, 2);
    assert_eq!(p.name, "weight");
    assert_eq!(p.type_id, 1);
    assert_eq!(p.unit, 2);
    let p = new_parameter("colour".to_string(), 2, 2);
    assert_eq!(p.type_id, 2);
    assert_eq!(p.unit, 0);
    let p = new_parameter("made of".to_string(), PARAM_TYPE_RESOURCE, 5);
    assert_eq!(p.unit, 0);
}

#[test]
fn validate_movable_accepts_numeric_parameters() {
    assert_eq!(validate_movable(true, &vec![PARAM_TYPE_NUMBER]), Ok(()));
    assert_eq!(validate_movable(true, &vec![1, 3]), Ok(()));
}

#[test]
fn validate_movable_refuses_other_types() {
    assert_eq!(
        validate_movable(true, &vec![PARAM_TYPE_RESOURCE]),
        Err("Only numeric parameters are transportable.".to_string())
    );
    assert_eq!(
        validate_movable(true, &vec![2, 1]),
        Err("Only numeric parameters are transportable.".to_string())
    );
}

#[test]
fn validate_movable_ignores_type_when_not_movable() {
    assert_eq!(validate_movable(false, &vec![]), Ok(()));
    assert_eq!(validate_movable(false, &vec![1]), Ok(()));
}

#[test]
fn is_type_resource_reads_first_type() {
    assert!(is_type_resource(&vec![3]));
    assert!(!is_type_resource(&vec![1]));
    assert!(!is_type_resource(&vec![2, 3]));
}

#[test]
fn resource_type_name_from_cache() {
    let c = catalog();
    let mut r = Resource::new(7, "bread".to_string(), 1, "".to_string(), 999999, 999999);
    r.set_type_from_cache(&c);
    assert_eq!(r.kind_name, "food");
    assert_eq!(r.id, 7);
    assert_eq!(r.name, "bread");
    assert_eq!(r.type_id, 1);
    assert_eq!(r.locations, 999999);
    assert_eq!(r.parameters, 999999);
}
