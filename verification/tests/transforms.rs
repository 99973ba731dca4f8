use isrbe::locations::ResLocationBasic;
use isrbe::transforms::{
    get_transform, get_transform_unresolved, PlaceOrder, Progress, Reply, Request,
    ResManufacture, ResMoveAuto, Transform, TransformLine, TransformResolved,
};
use isrbe::{Catalog, Quantity, TransformType};

fn catalog() -> Catalog {
    Catalog::new(
        vec![
            Quantity::new(1, "mass".to_string(), "kg".to_string()),
            Quantity::new(2, "volume".to_string(), "l".to_string()),
        ],
        vec![],
        vec![
            TransformType::new(1, "transport".to_string()),
            TransformType::new(2, "production".to_string()),
        ],
    )
}

fn available(ids: &[u64]) -> Reply<f64> {
    Reply::AvailableLocations(Ok(ids
        .iter()
        .map(|id| ResLocationBasic::new(*id, 100.0, 1, 0.0, 0.0, "kg".to_string()))
        .collect()))
}

fn line_ok() -> Reply<f64> {
    Reply::LineAdded(Ok(()))
}

fn is_add_line(r: &Request<f64>, t: u64, a: f64, w: bool, l: u64) -> bool {
    matches!(r, Request::AddLine { transform_id, amount, withdraw, location }
        if *transform_id == t && *amount == a && *withdraw == w && *location == l)
}

fn next_move(p: Progress<ResMoveAuto<f64>, Result<Option<u64>, String>>) -> ResMoveAuto<f64> {
    match p {
        Progress::Next(m) => m,
        Progress::Done(r) => panic!("move finished early: {:?}", r),
    }
}

fn next_make(p: Progress<ResManufacture<f64>, Result<(), String>>) -> ResManufacture<f64> {
    match p {
        Progress::Next(m) => m,
        Progress::Done(r) => panic!("manufacture finished early: {:?}", r),
    }
}

fn done_make(p: Progress<ResManufacture<f64>, Result<(), String>>) -> Result<(), String> {
    match p {
        Progress::Next(_) => panic!("manufacture not finished"),
        Progress::Done(r) => r,
    }
}

#[test]
fn transform_new_keeps_fields() {
    let t = Transform::new(1, "transport".to_string(), "order 7".to_string(), 3);
    assert_eq!(t.id, 1);
    assert_eq!(t.type_id, "transport");
    assert_eq!(t.refer, "order 7");
    assert_eq!(t.lines, 3);
}

#[test]
fn transform_line_new_builds_location() {
    let l: TransformLine<f64> =
        TransformLine::new(5, -2.0, 0, 0.0, 50.0, 14.0, 10, 1, "flour".to_string());
    assert_eq!(l.id, 5);
    assert_eq!(l.amount, -2.0);
    assert_eq!(l.location.id, 0);
    assert_eq!(l.location.amount, 0.0);
    assert_eq!(l.location.lat, 50.0);
    assert_eq!(l.location.lon, 14.0);
    assert_eq!(l.location.radius, 10);
    assert_eq!(l.location.unit_id, 1);
    assert_eq!(l.location.unit, "");
    assert_eq!(l.location.res_name, "flour");
}

#[test]
fn transform_resolved_new_is_empty() {
    let t: TransformResolved<f64> = TransformResolved::new(9, 2, "ref".to_string());
    assert_eq!(t.id, 9);
    assert_eq!(t.type_id, 2);
    assert_eq!(t.kind_name, "");
    assert_eq!(t.refer, "ref");
    assert!(t.lines.is_empty());
}

#[test]
fn transform_unresolved_gets_type_name() {
    let c = catalog();
    let t: TransformResolved<f64> = get_transform_unresolved(
        vec![TransformResolved::new(9, 2, "ref".to_string()), TransformResolved::new(10, 1, "x".to_string())],
        &c,
    );
    assert_eq!(t.id, 9);
    assert_eq!(t.kind_name, "production");
    assert_eq!(t.refer, "ref");
}

#[test]
fn transform_lines_get_units() {
    let c = catalog();
    let header = get_transform_unresolved(vec![TransformResolved::new(1, 1, "r".to_string())], &c);
    let lines = vec![
        TransformLine::new(1, -2.0, 0, 0.0, 0.0, 0.0, 1, 1, "flour".to_string()),
        TransformLine::new(2, 2.0, 0, 0.0, 0.0, 0.0, 1, 0, "flour".to_string()),
        TransformLine::new(3, 4.0, 0, 0.0, 0.0, 0.0, 1, 2, "milk".to_string()),
    ];
    let t = get_transform(header, lines, &c);
    assert_eq!(t.kind_name, "transport");
    assert_eq!(t.lines.len(), 3);
    assert_eq!(t.lines[0].location.unit, "kg");
    assert_eq!(t.lines[1].location.unit, "");
    assert_eq!(t.lines[2].location.unit, "l");
    assert_eq!(t.lines[2].amount, 4.0);
    assert_eq!(t.lines[2].id, 3);
}

#[test]
fn move_takes_from_first_location_then_gives() {
    let m = ResMoveAuto::new(4, 2.5, 30, 7);
    assert!(matches!(m.request(), Request::FetchAvailableLocations { res_id: 4, amount } if amount == 2.5));
    let m = next_move(m.step(available(&[11, 12])));
    assert!(is_add_line(&m.request(), 7, 2.5, true, 11));
    let m = next_move(m.step(line_ok()));
    assert!(is_add_line(&m.request(), 7, 2.5, false, 30));
    match m.step(line_ok()) {
        Progress::Done(r) => assert_eq!(r, Ok(Some(11))),
        Progress::Next(_) => panic!("move not finished"),
    }
}

#[test]
fn move_without_available_location_reports_none() {
    let m = ResMoveAuto::new(4, 2.5, 30, 7);
    match m.step(available(&[])) {
        Progress::Done(r) => assert_eq!(r, Ok(None)),
        Progress::Next(_) => panic!("move not finished"),
    }
}

#[test]
fn move_stops_at_first_error() {
    let m = ResMoveAuto::new(4, 2.5, 30, 7);
    match m.step(Reply::AvailableLocations(Err("db down".to_string()))) {
        Progress::Done(r) => assert_eq!(r, Err("db down".to_string())),
        Progress::Next(_) => panic!("move not finished"),
    }
    let m = next_move(ResMoveAuto::new(4, 2.5, 30, 7).step(available(&[11])));
    match m.step(Reply::LineAdded(Err("no such location".to_string()))) {
        Progress::Done(r) => assert_eq!(r, Err("no such location".to_string())),
        Progress::Next(_) => panic!("move not finished"),
    }
}

#[test]
fn move_ignores_reply_that_does_not_answer() {
    let m = ResMoveAuto::new(4, 2.5, 30, 7);
    let m = next_move(m.step(line_ok()));
    assert!(matches!(m.request(), Request::FetchAvailableLocations { res_id: 4, .. }));
}

#[test]
fn manufacture_without_dependencies_fails() {
    let m: ResManufacture<f64> = ResManufacture::new(1, 3.0, 30, 7);
    assert!(matches!(m.request(), Request::FetchDependencies { res_id: 1 }));
    assert_eq!(
        done_make(m.step(Reply::Dependencies(Ok(vec![])))),
        Err("Not enough resources.".to_string())
    );
}

#[test]
fn manufacture_dependency_error_passes_through() {
    let m: ResManufacture<f64> = ResManufacture::new(1, 3.0, 30, 7);
    assert_eq!(
        done_make(m.step(Reply::Dependencies(Err("db down".to_string())))),
        Err("db down".to_string())
    );
}

#[test]
fn manufacture_moves_each_dependency_in_order() {
    let m: ResManufacture<f64> = ResManufacture::new(1, 3.0, 30, 7);
    let m = next_make(m.step(Reply::Dependencies(Ok(vec![(2, 1.5), (3, 4.0)]))));
    assert!(matches!(m.request(), Request::FetchAvailableLocations { res_id: 2, amount } if amount == 1.5));
    let m = next_make(m.step(available(&[21])));
    assert!(is_add_line(&m.request(), 7, 1.5, true, 21));
    let m = next_make(m.step(line_ok()));
    assert!(is_add_line(&m.request(), 7, 1.5, false, 30));
    let m = next_make(m.step(line_ok()));
    // the moved dependency is used up at the destination, not taken from
    // its source again
    assert!(is_add_line(&m.request(), 7, 1.5, true, 30));
    let m = next_make(m.step(line_ok()));
    assert!(matches!(m.request(), Request::FetchAvailableLocations { res_id: 3, amount } if amount == 4.0));
    let m = next_make(m.step(available(&[31, 32])));
    assert!(is_add_line(&m.request(), 7, 4.0, true, 31));
    let m = next_make(m.step(line_ok()));
    assert!(is_add_line(&m.request(), 7, 4.0, false, 30));
    let m = next_make(m.step(line_ok()));
    assert!(is_add_line(&m.request(), 7, 4.0, true, 30));
    let m = next_make(m.step(line_ok()));
    // every dependency used up: the amount being made is added once
    assert!(is_add_line(&m.request(), 7, 3.0, false, 30));
    assert_eq!(done_make(m.step(line_ok())), Ok(()));
}

#[test]
fn manufacture_makes_missing_dependency_then_goes_on() {
    let m: ResManufacture<f64> = ResManufacture::new(1, 3.0, 30, 7);
    let m = next_make(m.step(Reply::Dependencies(Ok(vec![(2, 1.5), (3, 4.0)]))));
    let m = next_make(m.step(available(&[])));
    // no location holds enough of resource 2: it is manufactured itself
    assert!(matches!(m.request(), Request::FetchDependencies { res_id: 2 }));
    assert_eq!(m.frames.len(), 2);
    let m = next_make(m.step(Reply::Dependencies(Ok(vec![(5, 0.5)]))));
    assert!(matches!(m.request(), Request::FetchAvailableLocations { res_id: 5, amount } if amount == 0.5));
    let m = next_make(m.step(available(&[50])));
    assert!(is_add_line(&m.request(), 7, 0.5, true, 50));
    let m = next_make(m.step(line_ok()));
    assert!(is_add_line(&m.request(), 7, 0.5, false, 30));
    let m = next_make(m.step(line_ok()));
    assert!(is_add_line(&m.request(), 7, 0.5, true, 30));
    let m = next_make(m.step(line_ok()));
    // resource 2 is made at the destination
    assert!(is_add_line(&m.request(), 7, 1.5, false, 30));
    let m = next_make(m.step(line_ok()));
    // back to resource 1: resource 2 is used up, then resource 3 is resolved
    assert_eq!(m.frames.len(), 1);
    assert!(is_add_line(&m.request(), 7, 1.5, true, 30));
    let m = next_make(m.step(line_ok()));
    assert!(matches!(m.request(), Request::FetchAvailableLocations { res_id: 3, amount } if amount == 4.0));
    let m = next_make(m.step(available(&[31])));
    let m = next_make(m.step(line_ok()));
    let m = next_make(m.step(line_ok()));
    assert!(is_add_line(&m.request(), 7, 4.0, true, 30));
    let m = next_make(m.step(line_ok()));
    assert!(is_add_line(&m.request(), 7, 3.0, false, 30));
    assert_eq!(done_make(m.step(line_ok())), Ok(()));
}

#[test]
fn manufacture_of_missing_dependency_without_dependencies_fails() {
    let m: ResManufacture<f64> = ResManufacture::new(1, 3.0, 30, 7);
    let m = next_make(m.step(Reply::Dependencies(Ok(vec![(2, 1.5)]))));
    let m = next_make(m.step(available(&[])));
    assert_eq!(
        done_make(m.step(Reply::Dependencies(Ok(vec![])))),
        Err("Not enough resources.".to_string())
    );
}

#[test]
fn manufacture_stops_at_line_error() {
    let m: ResManufacture<f64> = ResManufacture::new(1, 3.0, 30, 7);
    let m = next_make(m.step(Reply::Dependencies(Ok(vec![(2, 1.5)]))));
    let m = next_make(m.step(available(&[21])));
    let m = next_make(m.step(line_ok()));
    let m = next_make(m.step(line_ok()));
    assert_eq!(
        done_make(m.step(Reply::LineAdded(Err("locked".to_string())))),
        Err("locked".to_string())
    );
}

fn next_order(p: Progress<PlaceOrder<f64>, Result<Option<u64>, String>>) -> PlaceOrder<f64> {
    match p {
        Progress::Next(o) => o,
        Progress::Done(r) => panic!("order finished early: {:?}", r.is_ok()),
    }
}

fn done_order(p: Progress<PlaceOrder<f64>, Result<Option<u64>, String>>) -> Result<Option<u64>, String> {
    match p {
        Progress::Next(_) => panic!("order not finished"),
        Progress::Done(r) => r,
    }
}

#[test]
fn order_moves_available_resource() {
    let o = PlaceOrder::new(4, 2.0, 30, 7);
    assert!(matches!(o.request(), Request::FetchAvailableLocations { res_id: 4, amount } if amount == 2.0));
    let o = next_order(o.step(available(&[11])));
    assert!(matches!(o.request(), Request::FetchAvailableLocations { res_id: 4, .. }));
    let o = next_order(o.step(available(&[12])));
    assert!(is_add_line(&o.request(), 7, 2.0, true, 12));
    let o = next_order(o.step(line_ok()));
    assert!(is_add_line(&o.request(), 7, 2.0, false, 30));
    assert_eq!(done_order(o.step(line_ok())), Ok(Some(12)));
}

#[test]
fn order_manufactures_then_moves_unavailable_resource() {
    let o = PlaceOrder::new(4, 2.0, 30, 7);
    let o = next_order(o.step(available(&[])));
    assert!(matches!(o.request(), Request::FetchDependencies { res_id: 4 }));
    let o = next_order(o.step(Reply::Dependencies(Ok(vec![(5, 1.0)]))));
    let o = next_order(o.step(available(&[50])));
    let o = next_order(o.step(line_ok()));
    let o = next_order(o.step(line_ok()));
    let o = next_order(o.step(line_ok()));
    assert!(is_add_line(&o.request(), 7, 2.0, false, 30));
    let o = next_order(o.step(line_ok()));
    assert!(matches!(o.request(), Request::FetchAvailableLocations { res_id: 4, amount } if amount == 2.0));
    let o = next_order(o.step(available(&[30])));
    assert!(is_add_line(&o.request(), 7, 2.0, true, 30));
    let o = next_order(o.step(line_ok()));
    assert!(is_add_line(&o.request(), 7, 2.0, false, 30));
    assert_eq!(done_order(o.step(line_ok())), Ok(Some(30)));
}

#[test]
fn order_fails_only_on_availability() {
    let o = PlaceOrder::new(4, 2.0, 30, 7);
    assert_eq!(
        done_order(o.step(Reply::AvailableLocations(Err("db down".to_string())))),
        Err("db down".to_string())
    );
    let o = next_order(PlaceOrder::new(4, 2.0, 30, 7).step(available(&[])));
    let o = next_order(o.step(Reply::Dependencies(Ok(vec![]))));
    assert!(matches!(o.request(), Request::FetchAvailableLocations { res_id: 4, .. }));
    assert_eq!(done_order(o.step(available(&[]))), Ok(None));
}

#[test]
fn order_delivered_after_failed_move() {
    let o = next_order(PlaceOrder::new(4, 2.0, 30, 7).step(available(&[12])));
    let o = next_order(o.step(available(&[12])));
    assert_eq!(
        done_order(o.step(Reply::LineAdded(Err("locked".to_string())))),
        Ok(None)
    );
}

#[test]
fn nested_manufacture_ends_within_budget() {
    // Resource 1 needs 2 and 3; 2 needs 3; 3 needs 4; 4 is held somewhere.
    // Ranks: 4 -> 0, 3 -> 1, 2 -> 2, 1 -> 3; at most two dependencies each.
    let deps = |id: u64| -> Vec<(u64, f64)> {
        match id {
            1 => vec![(2, 1.0), (3, 1.0)],
            2 => vec![(3, 1.0)],
            3 => vec![(4, 1.0)],
            _ => vec![],
        }
    };
    let budget = |r: i64| -> i64 {
        let mut b: i64 = 2 + 2 * 4;
        for _ in 0..r {
            b = 2 + 2 * (4 + b);
        }
        b
    };
    let mut m = ResManufacture::new(1, 1.0, 30, 7);
    let mut steps: i64 = 0;
    let result = loop {
        let reply = match m.request() {
            Request::FetchDependencies { res_id } => Reply::Dependencies(Ok(deps(res_id))),
            Request::FetchAvailableLocations { res_id, .. } => {
                if res_id == 4 { available(&[40]) } else { available(&[]) }
            }
            Request::AddLine { .. } => line_ok(),
        };
        steps += 1;
        match m.step(reply) {
            Progress::Next(next) => m = next,
            Progress::Done(r) => break r,
        }
    };
    assert_eq!(result, Ok(()));
    assert!(steps <= budget(3));
}
