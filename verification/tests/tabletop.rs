use rules_engine::common::Position;
use rules_engine::tabletop::Tabletop;

#[test]
fn tabletop_is_created_with_correct_dimensions() {
    let width = 5;
    let height = 7;

    let result = Tabletop::new(width, height);
    let tabletop = result.unwrap();

    assert_eq!(tabletop.width(), width);
    assert_eq!(tabletop.height(), height);
}

#[test]
fn tabletop_requires_positive_nonzero_dimensions() {
    assert!(Tabletop::new(-5, 5).is_err());
    assert!(Tabletop::new(5, -5).is_err());
    assert!(Tabletop::new(-5, -5).is_err());
    assert!(Tabletop::new(0, 5).is_err());
    assert!(Tabletop::new(5, 0).is_err());
    assert!(Tabletop::new(0, 0).is_err());
    assert!(Tabletop::new(0, -10).is_err());
    assert!(Tabletop::new(-10, 0).is_err());
}

#[test]
fn tabletop_can_only_place_within_its_dimensions() {
    let tabletop = Tabletop::new(5, 5).unwrap();

    // should succeed
    assert!(tabletop.request_place(&Position { x: 3, y: 3 }).is_ok());
    assert!(tabletop.request_place(&Position { x: 0, y: 3 }).is_ok());
    assert!(tabletop.request_place(&Position { x: 3, y: 0 }).is_ok());
    assert!(tabletop.request_place(&Position { x: 0, y: 0 }).is_ok());

    // should fail
    assert!(tabletop.request_place(&Position { x: -1, y: 3 }).is_err());
    assert!(tabletop.request_place(&Position { x: 1, y: -3 }).is_err());
    assert!(tabletop.request_place(&Position { x: -1, y: -3 }).is_err());
    assert!(tabletop.request_place(&Position { x: 5, y: 3 }).is_err());
    assert!(tabletop.request_place(&Position { x: 1, y: 5 }).is_err());
    assert!(tabletop.request_place(&Position { x: 5, y: 5 }).is_err());
    assert!(tabletop.request_place(&Position { x: 50, y: 5 }).is_err());
    assert!(tabletop.request_place(&Position { x: 5, y: 50 }).is_err());
    assert!(tabletop.request_place(&Position { x: 50, y: 50 }).is_err());
}

#[test]
fn tabletop_can_add_obstacles_correctly() {
    let mut tabletop = Tabletop::new(5, 5).unwrap();

    // should be ok
    assert!(tabletop.add_obstacle(1, 1).is_ok());
    assert!(tabletop.add_obstacle(4, 4).is_ok());

    assert_eq!(tabletop.obstacles().len(), 2);

    // should fail
    assert!(tabletop.add_obstacle(-1, 3).is_err());
    assert!(tabletop.add_obstacle(1, -1).is_err());
    assert!(tabletop.add_obstacle(-1, -3).is_err());

    assert!(tabletop.add_obstacle(6, 1).is_err());
    assert!(tabletop.add_obstacle(1, 6).is_err());
    assert!(tabletop.add_obstacle(6, 6).is_err());

    assert_eq!(tabletop.obstacles().len(), 2);
}

#[test]
fn tabletop_does_not_allow_movement_to_obstacles() {
    let mut tabletop = Tabletop::new(5, 5).unwrap();

    assert!(tabletop.add_obstacle(1, 1).is_ok());
    assert!(tabletop.add_obstacle(4, 4).is_ok());

    // should be ok
    assert!(tabletop.request_place(&Position { x: 0, y: 0 }).is_ok());
    assert!(tabletop.request_place(&Position { x: 3, y: 3 }).is_ok());

    // should fail
    assert!(tabletop.request_place(&Position { x: 1, y: 1 }).is_err());
    assert!(tabletop.request_place(&Position { x: 4, y: 4 }).is_err());
}
