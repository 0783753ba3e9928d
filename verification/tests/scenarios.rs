use rules_engine::common::{Orientation, Position};
use rules_engine::errors::{ConfigError, ParseError, PlacementError, RobotError};
use rules_engine::instruction::Instruction;
use rules_engine::robot::Robot;
use rules_engine::tabletop::Tabletop;

fn fresh_robot() -> Robot {
    let tabletop = Tabletop::new(5, 5).unwrap();
    Robot::create(&tabletop).unwrap()
}

#[test]
fn scenario_place_move_report() {
    let mut robot = fresh_robot();

    assert!(robot.evaluate_command("PLACE 0,0,NORTH").is_ok());
    assert!(robot.evaluate_command("MOVE").is_ok());

    let status = robot.evaluate_command("REPORT").unwrap().unwrap();
    assert_eq!(status, "0,1,NORTH");
}

#[test]
fn scenario_place_left_report() {
    let mut robot = fresh_robot();

    assert!(robot.evaluate_command("PLACE 0,0,NORTH").is_ok());
    assert!(robot.evaluate_command("LEFT").is_ok());

    let status = robot.evaluate_command("REPORT").unwrap().unwrap();
    assert_eq!(status, "0,0,WEST");
}

#[test]
fn scenario_place_and_wander() {
    let mut robot = fresh_robot();

    assert!(robot.evaluate_command("PLACE 1,2,EAST").is_ok());
    assert!(robot.evaluate_command("MOVE").is_ok());
    assert!(robot.evaluate_command("MOVE").is_ok());
    assert!(robot.evaluate_command("LEFT").is_ok());
    assert!(robot.evaluate_command("MOVE").is_ok());

    let status = robot.evaluate_command("REPORT").unwrap().unwrap();
    assert_eq!(status, "3,3,NORTH");
}

#[test]
fn scenario_move_off_the_edge_is_rejected() {
    let mut robot = fresh_robot();

    assert!(robot.evaluate_command("PLACE 4,4,NORTH").is_ok());
    assert_eq!(
        robot.evaluate_command("MOVE"),
        Err(RobotError::PlacementRejected(PlacementError::OutOfBounds))
    );

    let status = robot.evaluate_command("REPORT").unwrap().unwrap();
    assert_eq!(status, "4,4,NORTH");
}

#[test]
fn scenario_space_delimited_place_is_a_parse_error() {
    let mut robot = fresh_robot();

    assert_eq!(
        robot.evaluate_command("PLACE 2 10 WEST"),
        Err(RobotError::Parse(ParseError::IncompleteArguments))
    );
    assert!(!robot.is_placed());
    assert!(robot.position().is_none());
    assert!(robot.orientation().is_none());
}

#[test]
fn unplaced_robot_rejects_every_motion_and_report() {
    let mut robot = fresh_robot();

    assert_eq!(robot.evaluate_command("MOVE"), Err(RobotError::NotPlaced));
    assert_eq!(robot.evaluate_command("LEFT"), Err(RobotError::NotPlaced));
    assert_eq!(robot.evaluate_command("RIGHT"), Err(RobotError::NotPlaced));
    assert_eq!(robot.evaluate_command("REPORT"), Err(RobotError::NotPlaced));
    assert!(!robot.is_placed());
}

#[test]
fn rotating_four_times_returns_to_the_start() {
    for o in [
        Orientation::North,
        Orientation::East,
        Orientation::West,
        Orientation::South,
    ] {
        assert_eq!(
            o.rotate_left()
                .rotate_left()
                .rotate_left()
                .rotate_left(),
            o
        );
        assert_eq!(
            o.rotate_right()
                .rotate_right()
                .rotate_right()
                .rotate_right(),
            o
        );
    }
}

#[test]
fn every_free_square_in_bounds_can_be_placed() {
    let mut tabletop = Tabletop::new(3, 4).unwrap();
    assert!(tabletop.add_obstacle(1, 2).is_ok());

    for x in 0..3 {
        for y in 0..4 {
            let result = tabletop.request_place(&Position { x, y });
            if x == 1 && y == 2 {
                assert_eq!(result, Err(PlacementError::Blocked));
            } else {
                assert_eq!(result, Ok(()));
            }
        }
    }
}

#[test]
fn out_of_bounds_is_refused_whatever_the_obstacles() {
    let mut with_obstacles = Tabletop::new(2, 2).unwrap();
    assert!(with_obstacles.add_obstacle(0, 0).is_ok());
    let without_obstacles = Tabletop::new(2, 2).unwrap();

    for p in [
        Position { x: -1, y: 0 },
        Position { x: 0, y: -1 },
        Position { x: 2, y: 0 },
        Position { x: 0, y: 2 },
        Position { x: 100, y: 100 },
    ] {
        assert_eq!(
            with_obstacles.request_place(&p),
            Err(PlacementError::OutOfBounds)
        );
        assert_eq!(
            without_obstacles.request_place(&p),
            Err(PlacementError::OutOfBounds)
        );
    }
}

#[test]
fn adding_an_obstacle_twice_records_it_once() {
    let mut tabletop = Tabletop::new(5, 5).unwrap();

    assert!(tabletop.add_obstacle(2, 2).is_ok());
    assert!(tabletop.add_obstacle(2, 2).is_ok());

    assert_eq!(tabletop.obstacles().len(), 1);
    assert_eq!(tabletop.obstacles()[0], Position { x: 2, y: 2 });
}

#[test]
fn robot_keeps_its_tabletop_snapshot() {
    let mut tabletop = Tabletop::new(5, 5).unwrap();
    let mut robot = Robot::create(&tabletop).unwrap();

    // An obstacle added after the robot was created is invisible to it.
    assert!(tabletop.add_obstacle(0, 1).is_ok());

    assert!(robot.evaluate_command("PLACE 0,0,NORTH").is_ok());
    assert!(robot.evaluate_command("MOVE").is_ok());
    assert_eq!(robot.position().unwrap(), Position { x: 0, y: 1 });
}

#[test]
fn placing_on_an_obstacle_is_rejected_as_blocked() {
    let mut tabletop = Tabletop::new(5, 5).unwrap();
    assert!(tabletop.add_obstacle(3, 3).is_ok());
    let mut robot = Robot::create(&tabletop).unwrap();

    assert_eq!(
        robot.evaluate_command("PLACE 3,3,NORTH"),
        Err(RobotError::PlacementRejected(PlacementError::Blocked))
    );
    assert!(!robot.is_placed());

    // Moving onto the obstacle is rejected the same way.
    assert!(robot.evaluate_command("PLACE 3,2,NORTH").is_ok());
    assert_eq!(
        robot.evaluate_command("MOVE"),
        Err(RobotError::PlacementRejected(PlacementError::Blocked))
    );
    assert_eq!(robot.position().unwrap(), Position { x: 3, y: 2 });
}

#[test]
fn obstacle_command_is_not_the_robots_to_execute() {
    let mut robot = fresh_robot();

    assert_eq!(
        robot.evaluate_command("OBSTACLE 1,1"),
        Err(RobotError::UnsupportedInContext)
    );
    assert!(!robot.is_placed());
}

#[test]
fn blank_lines_are_malformed() {
    let mut robot = fresh_robot();

    assert_eq!(
        robot.evaluate_command(""),
        Err(RobotError::Parse(ParseError::MalformedCommand))
    );
    assert_eq!(
        robot.evaluate_command("   \t "),
        Err(RobotError::Parse(ParseError::MalformedCommand))
    );
}

#[test]
fn unknown_keywords_are_unrecognized() {
    assert_eq!(
        Instruction::parse("JUMP"),
        Err(ParseError::UnrecognizedCommand)
    );
    assert_eq!(
        Instruction::parse("PLACED 1,2,NORTH"),
        Err(ParseError::UnrecognizedCommand)
    );
}

#[test]
fn bad_fields_are_invalid_arguments() {
    assert_eq!(
        Instruction::parse("PLACE a,b,NORTH"),
        Err(ParseError::InvalidArguments)
    );
    assert_eq!(
        Instruction::parse("PLACE 1,2,NORTHWEST"),
        Err(ParseError::InvalidArguments)
    );
    assert_eq!(
        Instruction::parse("OBSTACLE one,2"),
        Err(ParseError::InvalidArguments)
    );
    assert_eq!(
        Instruction::parse("PLACE 1,,NORTH"),
        Err(ParseError::InvalidArguments)
    );
}

#[test]
fn integer_fields_respect_the_i32_range() {
    assert_eq!(
        Instruction::parse("PLACE 2147483647,0,NORTH"),
        Ok(Instruction::Place {
            x: 2147483647,
            y: 0,
            orientation: Orientation::North
        })
    );
    assert_eq!(
        Instruction::parse("PLACE -2147483648,0,NORTH"),
        Ok(Instruction::Place {
            x: -2147483648,
            y: 0,
            orientation: Orientation::North
        })
    );
    assert_eq!(
        Instruction::parse("PLACE 2147483648,0,NORTH"),
        Err(ParseError::InvalidArguments)
    );
    assert_eq!(
        Instruction::parse("PLACE -2147483649,0,NORTH"),
        Err(ParseError::InvalidArguments)
    );
    assert_eq!(
        Instruction::parse("PLACE +7,8,SOUTH"),
        Ok(Instruction::Place {
            x: 7,
            y: 8,
            orientation: Orientation::South
        })
    );
}

#[test]
fn orientation_names_parse_case_insensitively() {
    assert_eq!(Orientation::parse("NORTH"), Ok(Orientation::North));
    assert_eq!(Orientation::parse("north"), Ok(Orientation::North));
    assert_eq!(Orientation::parse("eAsT"), Ok(Orientation::East));
    assert_eq!(Orientation::parse("West"), Ok(Orientation::West));
    assert_eq!(Orientation::parse("south"), Ok(Orientation::South));
    assert_eq!(
        Orientation::parse("UP"),
        Err(ParseError::UnknownOrientation)
    );
    assert_eq!(Orientation::parse(""), Err(ParseError::UnknownOrientation));
}

#[test]
fn report_spells_multi_digit_coordinates() {
    let tabletop = Tabletop::new(15, 25).unwrap();
    let mut robot = Robot::create(&tabletop).unwrap();

    assert!(robot.evaluate_command("PLACE 10,20,EAST").is_ok());
    let status = robot.evaluate_command("REPORT").unwrap().unwrap();
    assert_eq!(status, "10,20,EAST");

    let direct = robot.report().unwrap();
    assert_eq!(direct, "10,20,EAST");
}

#[test]
fn invalid_dimensions_are_a_config_error() {
    assert_eq!(Tabletop::new(0, 5), Err(ConfigError::InvalidDimensions));
    assert_eq!(Tabletop::new(5, -1), Err(ConfigError::InvalidDimensions));
}

#[test]
fn successful_commands_answer_without_a_report() {
    let mut robot = fresh_robot();

    assert_eq!(robot.evaluate_command("PLACE 1,1,EAST"), Ok(None));
    assert_eq!(robot.evaluate_command("MOVE"), Ok(None));
    assert_eq!(robot.evaluate_command("LEFT"), Ok(None));
    assert_eq!(robot.evaluate_command("RIGHT"), Ok(None));
    assert_eq!(
        robot.evaluate_command("REPORT"),
        Ok(Some(String::from("2,1,EAST")))
    );
}
