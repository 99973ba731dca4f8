use isrbe::locations::transport::get_res_amount_at_location;
use isrbe::locations::{
    get_all_resource_locations, get_resource_location_info, Coordinates, ResLocationBasic,
    ResLocationResolved,
};
use isrbe::{Catalog, Quantity};

fn catalog() -> Catalog {
    Catalog::new(
        vec![
            Quantity::new(1, "mass".to_string(), "kg".to_string()),
            Quantity::new(2, "volume".to_string(), "l".to_string()),
        ],
        vec![],
        vec![],
    )
}

fn location(id: u64, unit_id: u64) -> ResLocationResolved<'static, f64> {
    ResLocationResolved::new(id, 10.0 * id as f64, 5, 50.1, 14.4, unit_id, format!("res{}", id))
}

#[test]
fn res_location_new_has_no_unit_text() {
    let l = location(3, 1);
    assert_eq!(l.id, 3);
    assert_eq!(l.amount, 30.0);
    assert_eq!(l.radius, 5);
    assert_eq!(l.lat, 50.1);
    assert_eq!(l.lon, 14.4);
    assert_eq!(l.unit_id, 1);
    assert_eq!(l.unit, "");
    assert_eq!(l.res_name, "res3");
}

#[test]
fn res_location_unit_from_cache() {
    let c = catalog();
    let mut l = location(1, 2);
    l.set_unit_from_cache(&c);
    assert_eq!(l.unit, "l");
    assert_eq!(l.id, 1);
    assert_eq!(l.amount, 10.0);
    let mut none = location(2, 0);
    none.set_unit_from_cache(&c);
    assert_eq!(none.unit, "");
}

#[test]
fn resource_location_info_takes_first_row() {
    let c = catalog();
    let l = get_resource_location_info(vec![location(4, 1), location(5, 2)], &c);
    assert_eq!(l.id, 4);
    assert_eq!(l.unit, "kg");
    assert_eq!(l.res_name, "res4");
}

#[test]
fn all_resource_locations_get_units() {
    let c = catalog();
    let ls = get_all_resource_locations(vec![location(1, 1), location(2, 0), location(3, 2)], &c);
    assert_eq!(ls.len(), 3);
    assert_eq!(ls[0].unit, "kg");
    assert_eq!(ls[1].unit, "");
    assert_eq!(ls[2].unit, "l");
    assert_eq!(ls[2].id, 3);
}

#[test]
fn res_location_basic_new_keeps_fields() {
    let l: ResLocationBasic<f64> = ResLocationBasic::new(2, 7.5, 3, 1.0, 2.0, "kg".to_string());
    assert_eq!(l.id, 2);
    assert_eq!(l.amount, 7.5);
    assert_eq!(l.radius, 3);
    assert_eq!(l.lat, 1.0);
    assert_eq!(l.lon, 2.0);
    assert_eq!(l.unit, "kg");
}

#[test]
fn res_amount_found() {
    assert_eq!(get_res_amount_at_location::<f64>(Ok(Some(4.5))), Ok(4.5));
}

#[test]
fn res_amount_missing_location() {
    assert_eq!(
        get_res_amount_at_location::<f64>(Ok(None)),
        Err("No such resource location.".to_string())
    );
}

#[test]
fn res_amount_lookup_error_passes_through() {
    assert_eq!(
        get_res_amount_at_location::<f64>(Err("connection lost".to_string())),
        Err("connection lost".to_string())
    );
}

#[test]
fn coordinates_new_keeps_fields() {
    let c: Coordinates<f64> = Coordinates::new(3, 50.08, 14.42);
    assert_eq!(c.id, 3);
    assert_eq!(c.lat, 50.08);
    assert_eq!(c.lon, 14.42);
}
