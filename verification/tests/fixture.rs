//! The small program that builds are run on: its arithmetic, and the unit
//! test that a test build of it runs.

use escargot::error::{CargoError, ErrorKind};

/// The sum that the program prints.
pub fn add(a: i32, b: i32) -> i32 {
    a + b
}

#[test]
fn unit_works() {
    assert_eq!(self::add(2, 2), 4);
}

#[test]
fn failure_of_a_build_renders_its_kind() {
    let e = CargoError::new(ErrorKind::CommandFailed);
    assert_eq!(e.render(), "Cargo command failed: The cargo subcommand returned an error.\n");
}
