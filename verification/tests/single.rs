use kli::single::App;

#[test]
fn single_block_starts_at_the_origin() {
    let app = App::new();
    assert_eq!((app.x, app.y), (0, 0));
}

#[test]
fn single_block_moves_one_cell() {
    let mut app = App { x: 3, y: 4 };
    app.move_left();
    assert_eq!((app.x, app.y), (2, 4));
    app.move_up();
    assert_eq!((app.x, app.y), (2, 3));
    app.move_right(10);
    assert_eq!((app.x, app.y), (3, 3));
    app.move_down(10);
    assert_eq!((app.x, app.y), (3, 4));
}

#[test]
fn single_block_stops_at_the_borders() {
    let mut app = App::new();
    app.move_left();
    app.move_up();
    assert_eq!((app.x, app.y), (0, 0));
    let mut app = App { x: 7, y: 7 };
    app.move_right(10);
    app.move_down(10);
    assert_eq!((app.x, app.y), (8, 8));
    app.move_right(10);
    app.move_down(10);
    assert_eq!((app.x, app.y), (8, 8));
    app.move_right(0);
    app.move_down(1);
    assert_eq!((app.x, app.y), (8, 8));
    let mut app = App { x: 65535, y: 65534 };
    app.move_right(65535);
    app.move_down(65535);
    assert_eq!((app.x, app.y), (65535, 65534));
}
