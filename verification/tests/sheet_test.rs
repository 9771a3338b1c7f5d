use webb_runner::runner::RunId;
use webb_runner::sheet::Sheet;

#[test]
fn fresh_sheet_is_empty() {
    let sheet = Sheet::new();
    assert_eq!(sheet.rows(), 0);
    assert_eq!(sheet.columns(), 1);
    assert_eq!(sheet.cell_at(0, 0), None);
}

#[test]
fn resize_populates_the_grid() {
    let mut sheet = Sheet::new();
    sheet.resize(2, 3);
    assert_eq!(sheet.rows(), 2);
    assert_eq!(sheet.columns(), 3);
    for row in 0..2 {
        for col in 0..3 {
            assert!(sheet.cell_at(row, col).is_some());
        }
    }
    assert_eq!(sheet.cell_at(0, 3), None);
    assert_eq!(sheet.cell_at(2, 0), None);

    // All six identities are distinct.
    let mut ids = Vec::new();
    for row in 0..2 {
        for col in 0..3 {
            ids.push(sheet.cell_at(row, col).unwrap());
        }
    }
    for i in 0..ids.len() {
        for j in 0..i {
            assert_ne!(ids[i], ids[j]);
        }
    }
}

#[test]
fn resize_keeps_retained_cells_and_allocates_fresh_ones() {
    let mut sheet = Sheet::new();
    sheet.resize(2, 2);
    let kept = [
        sheet.cell_at(0, 0).unwrap(),
        sheet.cell_at(0, 1).unwrap(),
        sheet.cell_at(1, 0).unwrap(),
        sheet.cell_at(1, 1).unwrap(),
    ];

    sheet.resize(3, 3);

    // Every position retained keeps its identity.
    assert_eq!(sheet.cell_at(0, 0), Some(kept[0]));
    assert_eq!(sheet.cell_at(0, 1), Some(kept[1]));
    assert_eq!(sheet.cell_at(1, 0), Some(kept[2]));
    assert_eq!(sheet.cell_at(1, 1), Some(kept[3]));

    // Newly created positions hold identities the sheet never handed out
    // before.
    for row in 0..3u32 {
        for col in 0..3u32 {
            if row < 2 && col < 2 {
                continue;
            }
            let id = sheet.cell_at(row, col).unwrap();
            assert!(!kept.contains(&id));
        }
    }

    // Shrinking keeps the top-left corner.
    sheet.resize(1, 1);
    assert_eq!(sheet.cell_at(0, 0), Some(kept[0]));
    assert_eq!(sheet.rows(), 1);
    assert_eq!(sheet.columns(), 1);

    // Growing again allocates fresh identities even for positions that once
    // existed: identities are never reused.
    sheet.resize(2, 2);
    assert_eq!(sheet.cell_at(0, 0), Some(kept[0]));
    assert_ne!(sheet.cell_at(0, 1), Some(kept[1]));
    assert_ne!(sheet.cell_at(1, 0), Some(kept[2]));
    assert_ne!(sheet.cell_at(1, 1), Some(kept[3]));
}

#[test]
fn a_requested_width_of_zero_becomes_one() {
    let mut sheet = Sheet::new();
    sheet.resize(2, 0);
    assert_eq!(sheet.columns(), 1);
    assert_eq!(sheet.rows(), 2);
}

#[test]
fn allocated_cells_stay_resolvable() {
    let mut sheet = Sheet::new();
    sheet.resize(1, 2);
    let id = sheet.cell_at(0, 1).unwrap();
    sheet.resize(1, 1);

    // The position is gone, but the cell itself is kept.
    let cell = sheet.get_cell(id).expect("the cell is still known");
    assert_eq!(cell.id, id);
    assert_eq!(cell.invocation, None);
}

#[test]
fn bind_run_attaches_a_run_to_a_cell() {
    let mut sheet = Sheet::new();
    sheet.resize(1, 1);
    let id = sheet.cell_at(0, 0).unwrap();
    let run = RunId::fresh();

    assert!(sheet.bind_run(id, Some(run)));
    assert_eq!(sheet.get_cell(id).unwrap().invocation, Some(run));

    assert!(sheet.bind_run(id, None));
    assert_eq!(sheet.get_cell(id).unwrap().invocation, None);
}
