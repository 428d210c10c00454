use atom_model::grid::{Grid, LineColor, Point, Segment, AXIS_REACH, UNIT};

fn grey(start: (i64, i64, i64), end: (i64, i64, i64)) -> Segment {
    Segment {
        start: Point { x: start.0, y: start.1, z: start.2 },
        end: Point { x: end.0, y: end.1, z: end.2 },
        color: LineColor::Grey,
    }
}

fn axes() -> Vec<Segment> {
    vec![
        Segment {
            start: Point { x: -100_000, y: 0, z: 0 },
            end: Point { x: 100_000, y: 0, z: 0 },
            color: LineColor::Red,
        },
        Segment {
            start: Point { x: 0, y: -100_000, z: 0 },
            end: Point { x: 0, y: 100_000, z: 0 },
            color: LineColor::Green,
        },
        Segment {
            start: Point { x: 0, y: 0, z: -100_000 },
            end: Point { x: 0, y: 0, z: 100_000 },
            color: LineColor::Blue,
        },
    ]
}

#[test]
fn new_grid_is_hidden() {
    let grid = Grid::new(10, 1000);
    assert_eq!(grid, Grid { enabled: false, size: 10, cell_size: 1000 });
    assert_eq!(grid.lines(), Vec::<Segment>::new());
}

#[test]
fn grid_constants() {
    assert_eq!(UNIT, 1000);
    assert_eq!(AXIS_REACH, 100_000);
}

#[test]
fn one_press_shows_the_grid_and_holding_does_not_toggle_again() {
    let mut grid = Grid::new(10, 1000);
    assert!(!grid.enabled);
    grid.toggle_on_press(true);
    assert!(grid.enabled);
    for _ in 0..5 {
        grid.toggle_on_press(false);
        assert!(grid.enabled);
    }
    assert_eq!(grid, Grid { enabled: true, size: 10, cell_size: 1000 });
}

#[test]
fn second_press_hides_the_grid_again() {
    let mut grid = Grid::new(3, 500);
    grid.toggle_on_press(true);
    grid.toggle_on_press(false);
    grid.toggle_on_press(true);
    assert_eq!(grid, Grid { enabled: false, size: 3, cell_size: 500 });
    grid.toggle_on_press(false);
    assert!(!grid.enabled);
}

#[test]
fn grid_of_size_one_draws_three_positions_and_the_axes() {
    let grid = Grid { enabled: true, size: 1, cell_size: 1000 };
    let mut expected = vec![
        grey((-1000, 0, -1000), (-1000, 0, 1000)),
        grey((-1000, 0, -1000), (1000, 0, -1000)),
        grey((0, 0, -1000), (0, 0, 1000)),
        grey((-1000, 0, 0), (1000, 0, 0)),
        grey((1000, 0, -1000), (1000, 0, 1000)),
        grey((-1000, 0, 1000), (1000, 0, 1000)),
    ];
    expected.extend(axes());
    assert_eq!(grid.lines(), expected);
}

#[test]
fn grid_of_size_ten_draws_forty_five_lines() {
    let mut grid = Grid::new(10, 1000);
    grid.toggle_on_press(true);
    let lines = grid.lines();
    assert_eq!(lines.len(), 45);
    assert_eq!(lines[0], grey((-10_000, 0, -10_000), (-10_000, 0, 10_000)));
    assert_eq!(lines[1], grey((-10_000, 0, -10_000), (10_000, 0, -10_000)));
    assert_eq!(lines[20], grey((0, 0, -10_000), (0, 0, 10_000)));
    assert_eq!(lines[21], grey((-10_000, 0, 0), (10_000, 0, 0)));
    assert_eq!(lines[41], grey((-10_000, 0, 10_000), (10_000, 0, 10_000)));
    assert_eq!(lines[42..].to_vec(), axes());
    for (k, line) in lines[..42].iter().enumerate() {
        let pos = (k as i64 / 2 - 10) * 1000;
        if k % 2 == 0 {
            assert_eq!(*line, grey((pos, 0, -10_000), (pos, 0, 10_000)));
        } else {
            assert_eq!(*line, grey((-10_000, 0, pos), (10_000, 0, pos)));
        }
    }
}

#[test]
fn cell_size_spaces_the_lines_within_the_square() {
    let grid = Grid { enabled: true, size: 2, cell_size: 250 };
    let lines = grid.lines();
    assert_eq!(lines.len(), 37);
    assert_eq!(lines[0], grey((-2000, 0, -2000), (-2000, 0, 2000)));
    assert_eq!(lines[1], grey((-2000, 0, -2000), (2000, 0, -2000)));
    assert_eq!(lines[2], grey((-1750, 0, -2000), (-1750, 0, 2000)));
    assert_eq!(lines[3], grey((-2000, 0, -1750), (2000, 0, -1750)));
    assert_eq!(lines[16], grey((0, 0, -2000), (0, 0, 2000)));
    assert_eq!(lines[17], grey((-2000, 0, 0), (2000, 0, 0)));
    assert_eq!(lines[32], grey((2000, 0, -2000), (2000, 0, 2000)));
    assert_eq!(lines[33], grey((-2000, 0, 2000), (2000, 0, 2000)));
    assert_eq!(lines[34..].to_vec(), axes());
}

#[test]
fn wider_cells_give_fewer_lines_in_the_same_square() {
    let grid = Grid { enabled: true, size: 1, cell_size: 2000 };
    let mut expected = vec![grey((0, 0, -1000), (0, 0, 1000)), grey((-1000, 0, 0), (1000, 0, 0))];
    expected.extend(axes());
    assert_eq!(grid.lines(), expected);

    let grid = Grid { enabled: true, size: 3, cell_size: 2000 };
    let mut expected = vec![
        grey((-2000, 0, -3000), (-2000, 0, 3000)),
        grey((-3000, 0, -2000), (3000, 0, -2000)),
        grey((0, 0, -3000), (0, 0, 3000)),
        grey((-3000, 0, 0), (3000, 0, 0)),
        grey((2000, 0, -3000), (2000, 0, 3000)),
        grey((-3000, 0, 2000), (3000, 0, 2000)),
    ];
    expected.extend(axes());
    assert_eq!(grid.lines(), expected);
}

#[test]
fn spacing_that_does_not_divide_the_reach_leaves_a_margin() {
    let grid = Grid { enabled: true, size: 1, cell_size: 300 };
    let lines = grid.lines();
    assert_eq!(lines.len(), 17);
    assert_eq!(lines[0], grey((-900, 0, -1000), (-900, 0, 1000)));
    assert_eq!(lines[1], grey((-1000, 0, -900), (1000, 0, -900)));
    assert_eq!(lines[12], grey((900, 0, -1000), (900, 0, 1000)));
    assert_eq!(lines[13], grey((-1000, 0, 900), (1000, 0, 900)));
}

#[test]
fn every_grid_line_spans_the_square_at_a_multiple_of_the_spacing() {
    for (size, cell) in [(10i32, 1000u32), (2, 250), (1, 300), (3, 2000), (7, 1), (5, 999)] {
        let reach = size as i64 * 1000;
        let lines = Grid { enabled: true, size, cell_size: cell }.lines();
        let grid_lines = &lines[..lines.len() - 3];
        let steps = reach / cell as i64;
        assert_eq!(grid_lines.len() as i64, 2 * (2 * steps + 1));
        for (k, line) in grid_lines.iter().enumerate() {
            let offset = (k as i64 / 2 - steps) * cell as i64;
            assert!(-reach <= offset && offset <= reach);
            if k % 2 == 0 {
                assert_eq!(*line, grey((offset, 0, -reach), (offset, 0, reach)));
            } else {
                assert_eq!(*line, grey((-reach, 0, offset), (reach, 0, offset)));
            }
        }
        assert!((steps + 1) * cell as i64 > reach);
    }
}

#[test]
fn zero_spacing_draws_only_the_lines_through_the_origin() {
    let grid = Grid { enabled: true, size: 4, cell_size: 0 };
    let mut expected = vec![grey((0, 0, -4000), (0, 0, 4000)), grey((-4000, 0, 0), (4000, 0, 0))];
    expected.extend(axes());
    assert_eq!(grid.lines(), expected);
}

#[test]
fn grid_of_size_zero_draws_one_position() {
    let grid = Grid { enabled: true, size: 0, cell_size: 1000 };
    let mut expected = vec![grey((0, 0, 0), (0, 0, 0)), grey((0, 0, 0), (0, 0, 0))];
    expected.extend(axes());
    assert_eq!(grid.lines(), expected);
}

#[test]
fn negative_size_draws_only_the_axes() {
    assert_eq!(Grid { enabled: true, size: -1, cell_size: 1000 }.lines(), axes());
    assert_eq!(Grid { enabled: true, size: i32::MIN, cell_size: 1000 }.lines(), axes());
}

#[test]
fn largest_cell_size_leaves_only_the_lines_through_the_origin() {
    let grid = Grid { enabled: true, size: 1, cell_size: u32::MAX };
    let mut expected = vec![grey((0, 0, -1000), (0, 0, 1000)), grey((-1000, 0, 0), (1000, 0, 0))];
    expected.extend(axes());
    assert_eq!(grid.lines(), expected);
}

#[test]
fn largest_size_reaches_without_overflow() {
    let grid = Grid { enabled: true, size: i32::MAX, cell_size: u32::MAX };
    let far = i32::MAX as i64 * 1000;
    let lines = grid.lines();
    assert_eq!(lines.len(), 2 * (2 * 499 + 1) + 3);
    let offset = 499 * u32::MAX as i64;
    assert_eq!(lines[0], grey((-offset, 0, -far), (-offset, 0, far)));
    assert_eq!(lines[1997], grey((-far, 0, offset), (far, 0, offset)));
}

#[test]
fn hidden_grid_draws_nothing() {
    let mut grid = Grid { enabled: true, size: 4, cell_size: 1000 };
    assert_eq!(grid.lines().len(), 21);
    grid.toggle_on_press(true);
    assert_eq!(grid.lines(), Vec::<Segment>::new());
}
