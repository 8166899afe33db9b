use openstrike::draw_runs::{coalesce_runs, DrawRun};

fn run(batch: u16, first: u32, count: u32) -> DrawRun {
    DrawRun { batch, first, count }
}

#[test]
fn contiguous_runs_of_one_batch_become_one_draw() {
    let runs = [
        run(0, 0, 6),
        run(0, 6, 3),
        run(0, 12, 3),
        run(1, 15, 3),
        run(1, 18, 0),
        run(1, 18, 6),
        run(2, 24, 3),
        run(1, 27, 3),
    ];
    assert_eq!(
        coalesce_runs(&runs),
        vec![run(0, 0, 9), run(0, 12, 3), run(1, 15, 9), run(2, 24, 3), run(1, 27, 3)]
    );
    assert!(coalesce_runs(&[]).is_empty());
    assert!(coalesce_runs(&[run(3, 0, 0)]).is_empty());
    let drawn: u32 = coalesce_runs(&runs).iter().map(|r| r.count).sum();
    assert_eq!(drawn, runs.iter().map(|r| r.count).sum::<u32>());
}
