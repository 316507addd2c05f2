use snake::rng::random_position;

#[test]
fn random_position_is_inside_the_arena() {
    for _ in 0..10_000 {
        let cell = random_position();
        assert!(cell.is_in_arena());
        assert!(0 <= cell.x && cell.x < 30);
        assert!(0 <= cell.y && cell.y < 30);
    }
}

#[test]
fn random_position_reaches_every_column_and_row() {
    fastrand::seed(1);
    let mut columns = [false; 30];
    let mut rows = [false; 30];
    for _ in 0..10_000 {
        let cell = random_position();
        columns[cell.x as usize] = true;
        rows[cell.y as usize] = true;
    }
    assert!(columns.iter().all(|&seen| seen));
    assert!(rows.iter().all(|&seen| seen));
}
