use shared_life::ApplyError;
use shared_life::Cell;
use shared_life::SeedPolicy;
use shared_life::Universe;

const D: Cell = Cell::Dead;
const A: Cell = Cell::Alive;

fn grid_of(width: u32, height: u32, live: &[(u32, u32)]) -> Universe {
    let mut grid = Universe::with_seed(width, height, SeedPolicy::Blank);
    for (row, col) in live {
        assert_eq!(grid.set_cell(*row, *col, true), Ok(()));
    }
    grid
}

#[test]
fn new_makes_a_square_grid() {
    let grid = Universe::new(4);
    assert_eq!(grid.width(), 4);
    assert_eq!(grid.height(), 4);
    assert_eq!(grid.cells().len(), 16);
}

#[test]
fn new_seeds_multiples_of_two_and_seven() {
    let grid = Universe::new(4);
    assert_eq!(grid.cells(), &[A, D, A, D, A, D, A, A, A, D, A, D, A, D, A, D][..]);
}

#[test]
fn new_of_size_zero_has_no_cells() {
    let grid = Universe::new(0);
    assert_eq!(grid.width(), 0);
    assert_eq!(grid.height(), 0);
    assert!(grid.cells().is_empty());
}

#[test]
fn with_seed_keeps_the_dimensions_apart() {
    let grid = Universe::with_seed(3, 2, SeedPolicy::Lattice);
    assert_eq!(grid.width(), 3);
    assert_eq!(grid.height(), 2);
    assert_eq!(grid.cells(), &[A, D, A, D, A, D][..]);
}

#[test]
fn with_seed_blank_is_all_dead() {
    let grid = Universe::with_seed(5, 4, SeedPolicy::Blank);
    assert_eq!(grid.cells().len(), 20);
    assert!(grid.cells().iter().all(|cell| *cell == D));
}

#[test]
fn get_index_is_row_major() {
    let grid = Universe::with_seed(5, 3, SeedPolicy::Blank);
    assert_eq!(grid.get_index(0, 0), 0);
    assert_eq!(grid.get_index(0, 4), 4);
    assert_eq!(grid.get_index(1, 0), 5);
    assert_eq!(grid.get_index(2, 3), 13);
    assert_eq!(grid.get_index(2, 4), 14);
}

#[test]
fn get_reads_the_cell_at_a_position() {
    let grid = grid_of(3, 2, &[(1, 2)]);
    assert_eq!(grid.get(1, 2), Ok(A));
    assert_eq!(grid.get(0, 2), Ok(D));
    assert_eq!(grid.get(1, 1), Ok(D));
    assert_eq!(grid.cells(), &[D, D, D, D, D, A][..]);
}

#[test]
fn get_refuses_a_row_at_the_height() {
    let grid = Universe::with_seed(3, 2, SeedPolicy::Lattice);
    assert_eq!(grid.get(2, 0), Err(ApplyError::OutOfBounds));
    assert_eq!(grid.get(u32::MAX, 0), Err(ApplyError::OutOfBounds));
}

#[test]
fn get_refuses_a_column_at_the_width() {
    let grid = Universe::with_seed(3, 2, SeedPolicy::Lattice);
    assert_eq!(grid.get(0, 3), Err(ApplyError::OutOfBounds));
    assert_eq!(grid.get(1, u32::MAX), Err(ApplyError::OutOfBounds));
}

#[test]
fn get_on_a_grid_without_cells_is_out_of_bounds() {
    let grid = Universe::new(0);
    assert_eq!(grid.get(0, 0), Err(ApplyError::OutOfBounds));
}

#[test]
fn neighbor_count_wraps_diagonally() {
    let grid = grid_of(3, 3, &[(2, 2)]);
    assert_eq!(grid.live_neighbor_count(0, 0), 1);
}

#[test]
fn neighbor_count_wraps_over_the_top_edge() {
    let grid = grid_of(3, 3, &[(2, 0)]);
    assert_eq!(grid.live_neighbor_count(0, 0), 1);
}

#[test]
fn neighbor_count_wraps_over_the_left_edge() {
    let grid = grid_of(3, 3, &[(0, 2)]);
    assert_eq!(grid.live_neighbor_count(0, 0), 1);
}

#[test]
fn neighbor_count_wraps_over_the_bottom_and_right_edges() {
    let grid = grid_of(4, 4, &[(0, 0)]);
    assert_eq!(grid.live_neighbor_count(3, 3), 1);
    assert_eq!(grid.live_neighbor_count(3, 0), 1);
    assert_eq!(grid.live_neighbor_count(0, 3), 1);
    assert_eq!(grid.live_neighbor_count(2, 2), 0);
}

#[test]
fn neighbor_count_leaves_the_cell_itself_out() {
    let grid = grid_of(3, 3, &[(1, 1)]);
    assert_eq!(grid.live_neighbor_count(1, 1), 0);
}

#[test]
fn neighbor_count_reaches_eight() {
    let grid = grid_of(
        3,
        3,
        &[(0, 0), (0, 1), (0, 2), (1, 0), (1, 1), (1, 2), (2, 0), (2, 1), (2, 2)],
    );
    for row in 0..3 {
        for col in 0..3 {
            assert_eq!(grid.live_neighbor_count(row, col), 8);
        }
    }
}

#[test]
fn neighbor_count_is_exact_in_the_middle() {
    let grid = grid_of(5, 5, &[(1, 1), (1, 3), (2, 2), (3, 2), (4, 4), (0, 0)]);
    assert_eq!(grid.live_neighbor_count(2, 2), 3);
    assert_eq!(grid.live_neighbor_count(2, 1), 3);
    assert_eq!(grid.live_neighbor_count(0, 4), 3);
    assert_eq!(grid.live_neighbor_count(4, 0), 2);
}

#[test]
fn neighbor_count_of_a_position_beyond_the_grid_wraps() {
    let grid = grid_of(3, 3, &[(2, 2), (0, 1)]);
    for row in 0..3u32 {
        for col in 0..3u32 {
            let on_grid = grid.live_neighbor_count(row, col);
            assert_eq!(grid.live_neighbor_count(row + 3, col), on_grid);
            assert_eq!(grid.live_neighbor_count(row, col + 6), on_grid);
            assert_eq!(grid.live_neighbor_count(row + 9, col + 3), on_grid);
        }
    }
    assert_eq!(grid.live_neighbor_count(u32::MAX, u32::MAX), grid.live_neighbor_count(0, 0));
}

#[test]
fn neighbor_count_on_a_grid_without_cells_is_zero() {
    assert_eq!(Universe::new(0).live_neighbor_count(0, 0), 0);
    assert_eq!(Universe::with_seed(0, 3, SeedPolicy::Lattice).live_neighbor_count(1, 1), 0);
    assert_eq!(Universe::with_seed(3, 0, SeedPolicy::Lattice).live_neighbor_count(1, 1), 0);
}

#[test]
fn neighbor_count_on_a_single_cell_counts_it_eight_times() {
    let grid = grid_of(1, 1, &[(0, 0)]);
    assert_eq!(grid.live_neighbor_count(0, 0), 8);
    let blank = Universe::with_seed(1, 1, SeedPolicy::Blank);
    assert_eq!(blank.live_neighbor_count(0, 0), 0);
}

#[test]
fn neighbor_count_on_a_single_row_counts_each_offset() {
    let grid = grid_of(3, 1, &[(0, 0)]);
    assert_eq!(grid.live_neighbor_count(0, 0), 2);
    assert_eq!(grid.live_neighbor_count(0, 1), 3);
    assert_eq!(grid.live_neighbor_count(0, 2), 3);
}

#[test]
fn step_of_an_all_dead_grid_is_all_dead() {
    for (width, height) in [(1, 1), (3, 3), (4, 7), (8, 2), (0, 0), (0, 4)] {
        let grid = Universe::with_seed(width, height, SeedPolicy::Blank);
        let next = grid.step();
        assert_eq!(next.width(), width);
        assert_eq!(next.height(), height);
        assert!(next.cells().iter().all(|cell| *cell == D));
    }
}

#[test]
fn step_gives_life_to_a_dead_cell_with_three_live_neighbors() {
    let grid = grid_of(5, 5, &[(1, 1), (1, 3), (3, 2)]);
    assert_eq!(grid.get(2, 2), Ok(D));
    assert_eq!(grid.live_neighbor_count(2, 2), 3);
    assert_eq!(grid.step().get(2, 2), Ok(A));
}

#[test]
fn step_keeps_a_live_cell_with_three_live_neighbors() {
    let grid = grid_of(5, 5, &[(2, 2), (1, 1), (1, 3), (3, 2)]);
    assert_eq!(grid.get(2, 2), Ok(A));
    assert_eq!(grid.live_neighbor_count(2, 2), 3);
    assert_eq!(grid.step().get(2, 2), Ok(A));
}

#[test]
fn step_makes_every_cell_with_three_live_neighbors_alive() {
    let grid = Universe::new(6);
    let next = grid.step();
    let mut seen = 0;
    for row in 0..6 {
        for col in 0..6 {
            if grid.live_neighbor_count(row, col) == 3 {
                seen += 1;
                assert_eq!(next.get(row, col), Ok(A));
            }
        }
    }
    assert!(seen > 0);
}

#[test]
fn step_follows_the_rule_at_every_position() {
    let grid = Universe::with_seed(7, 5, SeedPolicy::Lattice);
    let next = grid.step();
    for row in 0..5 {
        for col in 0..7 {
            let cell = grid.get(row, col).unwrap();
            let count = grid.live_neighbor_count(row, col);
            assert_eq!(next.get(row, col), Ok(cell.evolve(count)));
        }
    }
}

#[test]
fn step_leaves_the_grid_it_reads_alone() {
    let grid = Universe::new(5);
    let before = grid.cells().to_vec();
    let _next = grid.step();
    assert_eq!(grid.cells(), &before[..]);
}

#[test]
fn step_kills_a_lone_cell() {
    let grid = grid_of(4, 4, &[(1, 1)]);
    assert!(grid.step().cells().iter().all(|cell| *cell == D));
}

#[test]
fn step_keeps_a_block_still() {
    let grid = grid_of(4, 4, &[(1, 1), (1, 2), (2, 1), (2, 2)]);
    let next = grid.step();
    assert_eq!(next.cells(), grid.cells());
}

#[test]
fn step_on_a_single_live_cell_kills_it() {
    let grid = grid_of(1, 1, &[(0, 0)]);
    assert_eq!(grid.step().cells(), &[D][..]);
}

#[test]
fn blinker_oscillates_with_period_two() {
    let horizontal = grid_of(5, 5, &[(2, 1), (2, 2), (2, 3)]);
    let vertical = grid_of(5, 5, &[(1, 2), (2, 2), (3, 2)]);
    let once = horizontal.step();
    assert_eq!(once.cells(), vertical.cells());
    let twice = once.step();
    assert_eq!(twice.cells(), horizontal.cells());
    assert_eq!(
        once.cells(),
        &[D, D, D, D, D, D, D, A, D, D, D, D, A, D, D, D, D, A, D, D, D, D, D, D, D][..]
    );
}

#[test]
fn blinker_oscillates_under_tick() {
    let mut grid = grid_of(5, 5, &[(2, 1), (2, 2), (2, 3)]);
    let horizontal = grid.cells().to_vec();
    grid.tick();
    assert_eq!(grid.get(1, 2), Ok(A));
    assert_eq!(grid.get(2, 2), Ok(A));
    assert_eq!(grid.get(3, 2), Ok(A));
    assert_eq!(grid.get(2, 1), Ok(D));
    assert_eq!(grid.get(2, 3), Ok(D));
    assert_eq!(grid.cells().iter().filter(|cell| **cell == A).count(), 3);
    grid.tick();
    assert_eq!(grid.cells(), &horizontal[..]);
}

#[test]
fn tick_replaces_the_cells_with_the_next_generation() {
    let mut grid = Universe::new(6);
    let expected = grid.step();
    grid.tick();
    assert_eq!(grid.cells(), expected.cells());
    assert_eq!(grid.width(), 6);
    assert_eq!(grid.height(), 6);
}

#[test]
fn tick_on_a_grid_without_cells_changes_nothing() {
    let mut grid = Universe::new(0);
    grid.tick();
    assert_eq!(grid.width(), 0);
    assert_eq!(grid.height(), 0);
    assert!(grid.cells().is_empty());
}

#[test]
fn toggle_cell_flips_one_cell() {
    let mut grid = Universe::with_seed(3, 2, SeedPolicy::Blank);
    assert_eq!(grid.toggle_cell(1, 0), Ok(()));
    assert_eq!(grid.cells(), &[D, D, D, A, D, D][..]);
    assert_eq!(grid.toggle_cell(0, 2), Ok(()));
    assert_eq!(grid.cells(), &[D, D, A, A, D, D][..]);
}

#[test]
fn toggle_cell_twice_restores_the_grid() {
    let mut grid = Universe::new(5);
    let before = grid.cells().to_vec();
    assert_eq!(grid.toggle_cell(3, 4), Ok(()));
    assert_ne!(grid.cells(), &before[..]);
    assert_eq!(grid.toggle_cell(3, 4), Ok(()));
    assert_eq!(grid.cells(), &before[..]);
}

#[test]
fn toggle_cell_at_the_height_is_out_of_bounds() {
    let (height, width) = (4, 6);
    let mut grid = Universe::with_seed(width, height, SeedPolicy::Lattice);
    let before = grid.cells().to_vec();
    assert_eq!(grid.toggle_cell(height, 0), Err(ApplyError::OutOfBounds));
    assert_eq!(grid.cells(), &before[..]);
    assert_eq!(grid.width(), width);
    assert_eq!(grid.height(), height);
}

#[test]
fn toggle_cell_at_the_width_is_out_of_bounds() {
    let mut grid = Universe::with_seed(6, 4, SeedPolicy::Lattice);
    let before = grid.cells().to_vec();
    assert_eq!(grid.toggle_cell(0, 6), Err(ApplyError::OutOfBounds));
    assert_eq!(grid.toggle_cell(3, 6), Err(ApplyError::OutOfBounds));
    assert_eq!(grid.cells(), &before[..]);
}

#[test]
fn toggle_cell_does_not_spill_into_the_next_row() {
    let mut grid = Universe::with_seed(3, 3, SeedPolicy::Blank);
    assert_eq!(grid.toggle_cell(0, 3), Err(ApplyError::OutOfBounds));
    assert_eq!(grid.get(1, 0), Ok(D));
    assert!(grid.cells().iter().all(|cell| *cell == D));
}

#[test]
fn set_cell_gives_an_absolute_state() {
    let mut grid = Universe::with_seed(2, 2, SeedPolicy::Blank);
    assert_eq!(grid.set_cell(1, 1, true), Ok(()));
    assert_eq!(grid.cells(), &[D, D, D, A][..]);
    assert_eq!(grid.set_cell(1, 1, false), Ok(()));
    assert_eq!(grid.cells(), &[D, D, D, D][..]);
}

#[test]
fn set_cell_twice_is_the_same_as_once() {
    let mut grid = Universe::new(4);
    assert_eq!(grid.set_cell(0, 1, true), Ok(()));
    let once = grid.cells().to_vec();
    assert_eq!(grid.set_cell(0, 1, true), Ok(()));
    assert_eq!(grid.cells(), &once[..]);
}

#[test]
fn set_cell_out_of_bounds_changes_nothing() {
    let mut grid = Universe::new(4);
    let before = grid.cells().to_vec();
    assert_eq!(grid.set_cell(4, 0, true), Err(ApplyError::OutOfBounds));
    assert_eq!(grid.set_cell(0, 4, false), Err(ApplyError::OutOfBounds));
    assert_eq!(grid.cells(), &before[..]);
}

#[test]
fn render_shows_one_line_for_each_row() {
    let grid = grid_of(2, 2, &[(0, 1), (1, 0)]);
    assert_eq!(grid.cells(), &[D, A, A, D][..]);
    assert_eq!(grid.render(), "\u{25FB}\u{25FC}\n\u{25FC}\u{25FB}\n");
    let text = grid.render();
    let lines: Vec<&str> = text.lines().collect();
    assert_eq!(lines, vec!["\u{25FB}\u{25FC}", "\u{25FC}\u{25FB}"]);
}

#[test]
fn render_of_a_wide_grid() {
    let grid = grid_of(3, 2, &[(0, 0), (1, 2)]);
    assert_eq!(
        grid.render(),
        "\u{25FC}\u{25FB}\u{25FB}\n\u{25FB}\u{25FB}\u{25FC}\n"
    );
}

#[test]
fn render_of_a_grid_without_cells_is_empty() {
    assert_eq!(Universe::new(0).render(), "");
    assert_eq!(Universe::with_seed(4, 0, SeedPolicy::Lattice).render(), "");
}

#[test]
fn render_of_rows_without_columns_is_empty_lines() {
    assert_eq!(Universe::with_seed(0, 2, SeedPolicy::Lattice).render(), "\n\n");
}

#[test]
fn render_is_a_function_of_the_grid_alone() {
    let grid = Universe::new(5);
    assert_eq!(grid.render(), grid.render());
    assert_eq!(grid.render().chars().count(), 5 * 6);
}

#[test]
fn cells_is_the_grid_as_it_is_now() {
    let mut grid = Universe::with_seed(2, 1, SeedPolicy::Blank);
    assert_eq!(grid.cells(), &[D, D][..]);
    assert_eq!(grid.toggle_cell(0, 1), Ok(()));
    assert_eq!(grid.cells(), &[D, A][..]);
}
