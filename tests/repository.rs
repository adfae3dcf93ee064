use sqlx_utils::{
    And, Junction, Or, check_delete_filter, plan_save, save_route, Error, Filter, Model, NoOpFilter, Raw, SaveDispatch,
    SaveRoute, SqlFilter,
};

#[derive(Debug, Clone, PartialEq)]
struct User {
    id: Option<i64>,
    name: &'static str,
}

impl Model for User {
    type Id = i64;

    fn has_identity(&self) -> bool {
        self.id.is_some()
    }

    fn get_id(&self) -> Option<i64> {
        self.id
    }
}

fn user(id: Option<i64>, name: &'static str) -> User {
    User { id, name }
}

#[test]
fn save_routes_new_models_to_insert() {
    assert_eq!(save_route(&user(None, "a")), SaveRoute::Insert);
}

#[test]
fn save_routes_persisted_models_to_update() {
    assert_eq!(save_route(&user(Some(7), "a")), SaveRoute::Update);
}

#[test]
fn save_batch_partitions_by_identity() {
    let a = user(None, "A");
    let b = user(Some(5), "B");
    let c = user(None, "C");
    let plan = plan_save(vec![a.clone(), b.clone(), c.clone()]);
    assert_eq!(plan.inserts, vec![a, c]);
    assert_eq!(plan.updates, vec![b]);
    assert_eq!(plan.dispatch(), SaveDispatch::Both);
}

#[test]
fn save_batch_dispatches_only_what_is_there() {
    assert_eq!(plan_save(vec![user(None, "x")]).dispatch(), SaveDispatch::InsertOnly);
    assert_eq!(plan_save(vec![user(Some(1), "y")]).dispatch(), SaveDispatch::UpdateOnly);
    assert_eq!(plan_save(Vec::<User>::new()).dispatch(), SaveDispatch::Nothing);
}

#[test]
fn model_of_collections_and_wrappers() {
    let users = vec![user(Some(1), "a"), user(None, "b")];
    assert_eq!(users.get_id(), Some(vec![Some(1), None]));
    assert!(users.has_id());
    assert_eq!(Some(user(Some(3), "c")).get_id(), Some(3));
    assert_eq!(None::<User>.get_id(), None);
    let failed: Result<User, String> = Err("gone".to_string());
    assert!(!failed.has_id());
    let found: Result<User, String> = Ok(user(Some(4), "d"));
    assert_eq!(found.get_id(), Some(4));
}

#[test]
fn delete_by_filter_rejects_an_empty_filter() {
    assert_eq!(check_delete_filter(&NoOpFilter::new()), Err(Error::FilterRejected));
    assert_eq!(check_delete_filter(&Raw("")), Err(Error::FilterRejected));
    assert_eq!(
        check_delete_filter(&Filter::new(Raw("")).and(NoOpFilter::new())),
        Err(Error::FilterRejected)
    );
}

#[test]
fn delete_by_filter_accepts_a_filter_with_criteria() {
    assert_eq!(check_delete_filter(&Raw("id = 1")), Ok(()));
    assert_eq!(check_delete_filter(&Filter::new(Raw("")).or(Raw("age > 3"))), Ok(()));
}

#[test]
fn filter_combinators_apply_when_a_side_does() {
    assert!(Filter::new(Raw("a = 1")).and(NoOpFilter::new()).should_apply_filter());
    assert!(Filter::new(NoOpFilter::new()).or(Raw("b = 2")).should_apply_filter());
    assert!(!Filter::new(NoOpFilter::new()).or(NoOpFilter::new()).should_apply_filter());
    assert!(Filter::new(Raw("c = 3")).not().should_apply_filter());
    assert!(!Filter::new(Raw("")).not().should_apply_filter());
}

#[test]
fn errors_compare_by_variant() {
    assert_ne!(Error::ResourceState, Error::MutexLockError);
    assert_eq!(
        Error::Repository { message: "x".to_string() },
        Error::Repository { message: "x".to_string() }
    );
}

#[test]
fn junctions_render_only_the_sides_that_apply() {
    let both = And { left: Raw("a = 1"), right: Raw("b = 2") };
    assert_eq!(both.junction(), Junction::Both);
    let left = Or { left: Raw("a = 1"), right: NoOpFilter::new() };
    assert_eq!(left.junction(), Junction::LeftOnly);
    let right = And { left: Raw(""), right: Raw("b = 2") };
    assert_eq!(right.junction(), Junction::RightOnly);
    let neither = Or { left: NoOpFilter::new(), right: Raw("") };
    assert_eq!(neither.junction(), Junction::Neither);
}

#[test]
fn filter_hands_back_what_it_wraps() {
    let raw = Filter::new(Raw("x = 1")).into_inner();
    assert_eq!(raw.0, "x = 1");
    let combined = Filter::new(Raw("a")).and(Raw("b")).into_inner();
    assert_eq!(combined.left.0, "a");
    assert_eq!(combined.right.0, "b");
}
