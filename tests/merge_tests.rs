use workbook_overlay::{
    merge_sheet, merge_workbook, output_of_edit, output_of_source, CellCoordinate, CellValue,
    Changeset, Edit, MergeError, OutputCell, SourceCell, SourceSheet, DATE_TIME_FORMAT,
};

fn text(s: &str) -> SourceCell {
    SourceCell::String(s.to_string())
}

fn out_text(s: &str) -> Option<OutputCell> {
    Some(OutputCell::Text(s.to_string()))
}

fn edit(cs: &mut Changeset, sheet: &str, row: usize, col: usize, v: CellValue) {
    cs.insert(CellCoordinate::new(sheet.to_string(), row, col), Edit { new_value: v });
}

fn grid3x3() -> Vec<Vec<SourceCell>> {
    (0..3)
        .map(|r| (0..3).map(|c| SourceCell::Int((r * 3 + c) as i64)).collect())
        .collect()
}

#[test]
fn single_int_edit_overlays_one_cell() {
    let sheet = SourceSheet {
        name: "Sheet1".to_string(),
        rows: vec![
            vec![text("Alice"), SourceCell::Int(30), SourceCell::Bool(true)],
            vec![text("Bob"), SourceCell::Int(25), SourceCell::Empty],
        ],
    };
    let mut cs = Changeset::new();
    edit(&mut cs, "Sheet1", 0, 1, CellValue::Int(31));
    let out = merge_workbook(&vec![sheet], &cs).unwrap();
    assert_eq!(out.len(), 1);
    assert_eq!(out[0].name, "Sheet1");
    assert_eq!(
        out[0].rows,
        vec![
            vec![out_text("Alice"), Some(OutputCell::Integer(31)), Some(OutputCell::Boolean(true))],
            vec![out_text("Bob"), Some(OutputCell::Integer(25)), None],
        ]
    );
}

#[test]
fn edit_beyond_sheet_range_changes_nothing() {
    let sheet = SourceSheet { name: "Sheet1".to_string(), rows: grid3x3() };
    let mut cs = Changeset::new();
    edit(&mut cs, "Sheet1", 5, 5, CellValue::String("far".to_string()));
    let out = merge_sheet(&sheet, &cs).unwrap();
    assert_eq!(out.rows.len(), 3);
    for r in 0..3 {
        assert_eq!(out.rows[r].len(), 3);
        for c in 0..3 {
            assert_eq!(out.rows[r][c], Some(OutputCell::Integer((r * 3 + c) as i64)));
        }
    }
}

#[test]
fn edit_on_absent_sheet_changes_nothing() {
    let sheet = SourceSheet { name: "Data".to_string(), rows: grid3x3() };
    let mut cs = Changeset::new();
    edit(&mut cs, "Other", 0, 0, CellValue::Int(99));
    let with = merge_sheet(&sheet, &cs).unwrap();
    let without = merge_sheet(&sheet, &Changeset::new()).unwrap();
    assert_eq!(with, without);
}

#[test]
fn empty_edit_writes_empty_text() {
    let sheet = SourceSheet {
        name: "S".to_string(),
        rows: vec![vec![text("keep"), text("drop"), SourceCell::Empty]],
    };
    let mut cs = Changeset::new();
    edit(&mut cs, "S", 0, 1, CellValue::Empty);
    let out = merge_sheet(&sheet, &cs).unwrap();
    assert_eq!(out.rows[0], vec![out_text("keep"), out_text(""), None]);
    assert_ne!(out.rows[0][1], None);
}

#[test]
fn edit_wins_over_any_source_value() {
    let sheet = SourceSheet {
        name: "S".to_string(),
        rows: vec![vec![SourceCell::Empty, SourceCell::Float(2.5f64.to_bits())]],
    };
    let mut cs = Changeset::new();
    edit(&mut cs, "S", 0, 0, CellValue::Bool(false));
    edit(&mut cs, "S", 0, 1, CellValue::Error("#N/A".to_string()));
    let out = merge_sheet(&sheet, &cs).unwrap();
    assert_eq!(out.rows[0], vec![Some(OutputCell::Boolean(false)), out_text("#N/A")]);
}

#[test]
fn sheet_order_is_kept() {
    let names = ["Zeta", "Alpha", "Mid"];
    let sheets: Vec<SourceSheet> = names
        .iter()
        .map(|n| SourceSheet { name: n.to_string(), rows: vec![vec![text(n)]] })
        .collect();
    let mut cs = Changeset::new();
    edit(&mut cs, "Alpha", 0, 0, CellValue::Int(1));
    let out = merge_workbook(&sheets, &cs).unwrap();
    let got: Vec<&str> = out.iter().map(|s| s.name.as_str()).collect();
    assert_eq!(got, names.to_vec());
    assert_eq!(out[0].rows[0][0], out_text("Zeta"));
    assert_eq!(out[1].rows[0][0], Some(OutputCell::Integer(1)));
    assert_eq!(out[2].rows[0][0], out_text("Mid"));
}

#[test]
fn ragged_rows_keep_their_shape() {
    let sheet = SourceSheet {
        name: "S".to_string(),
        rows: vec![vec![], vec![SourceCell::Int(1), SourceCell::Int(2)], vec![SourceCell::Empty]],
    };
    let mut cs = Changeset::new();
    edit(&mut cs, "S", 0, 0, CellValue::Int(7));
    let out = merge_sheet(&sheet, &cs).unwrap();
    assert_eq!(
        out.rows,
        vec![vec![], vec![Some(OutputCell::Integer(1)), Some(OutputCell::Integer(2))], vec![None]]
    );
}

#[test]
fn source_cells_convert_by_kind() {
    let f = 3.25f64.to_bits();
    let d = 45000.5f64.to_bits();
    assert_eq!(output_of_source(&SourceCell::Empty), None);
    assert_eq!(output_of_source(&text("x")), out_text("x"));
    assert_eq!(output_of_source(&SourceCell::Int(-4)), Some(OutputCell::Integer(-4)));
    assert_eq!(output_of_source(&SourceCell::Float(f)), Some(OutputCell::Number(f)));
    assert_eq!(output_of_source(&SourceCell::Bool(true)), Some(OutputCell::Boolean(true)));
    assert_eq!(output_of_source(&SourceCell::Error("Div0".to_string())), out_text("Div0"));
    assert_eq!(output_of_source(&SourceCell::DateTime(d)), Some(OutputCell::DateTime(d)));
    assert_eq!(
        output_of_source(&SourceCell::DateTimeIso("2024-01-02T03:04:05".to_string())),
        out_text("2024-01-02T03:04:05")
    );
    assert_eq!(output_of_source(&SourceCell::DurationIso("PT1H".to_string())), out_text("PT1H"));
}

#[test]
fn edit_values_convert_by_kind() {
    let f = (-0.5f64).to_bits();
    let d = 1.0f64.to_bits();
    assert_eq!(output_of_edit(&CellValue::Empty), OutputCell::Text(String::new()));
    assert_eq!(output_of_edit(&CellValue::String("s".to_string())), OutputCell::Text("s".to_string()));
    assert_eq!(output_of_edit(&CellValue::Int(i64::MIN)), OutputCell::Integer(i64::MIN));
    assert_eq!(output_of_edit(&CellValue::Float(f)), OutputCell::Number(f));
    assert_eq!(output_of_edit(&CellValue::Bool(true)), OutputCell::Boolean(true));
    assert_eq!(output_of_edit(&CellValue::Error("#REF!".to_string())), OutputCell::Text("#REF!".to_string()));
    assert_eq!(output_of_edit(&CellValue::DateTime(d)), OutputCell::DateTime(d));
}

#[test]
fn date_time_format_is_iso_like() {
    assert_eq!(DATE_TIME_FORMAT, "yyyy-mm-dd hh:mm:ss");
}

#[test]
fn refused_sheet_names_fail_the_merge() {
    let bad = ["", "a/b", "what?", "[x]", "'quoted", "quoted'", "back\\slash", "star*", "c:d"];
    for name in bad {
        let sheet = SourceSheet { name: name.to_string(), rows: grid3x3() };
        assert_eq!(
            merge_sheet(&sheet, &Changeset::new()),
            Err(MergeError::InvalidSheetName(name.to_string())),
            "{name}"
        );
    }
    let long = "x".repeat(32);
    let sheet = SourceSheet { name: long.clone(), rows: vec![] };
    assert_eq!(merge_sheet(&sheet, &Changeset::new()), Err(MergeError::InvalidSheetName(long)));
}

#[test]
fn accepted_sheet_names_pass() {
    let longest = "x".repeat(31);
    let good = ["Sheet1", "it's", longest.as_str(), "Données 2024", "a-b_c.d"];
    for name in good {
        let sheet = SourceSheet { name: name.to_string(), rows: vec![vec![text("v")]] };
        let out = merge_sheet(&sheet, &Changeset::new()).unwrap();
        assert_eq!(out.name, name);
        assert_eq!(out.rows, vec![vec![out_text("v")]]);
    }
}

#[test]
fn first_refused_sheet_name_is_reported() {
    let sheets = vec![
        SourceSheet { name: "ok".to_string(), rows: vec![] },
        SourceSheet { name: "bad]".to_string(), rows: vec![] },
        SourceSheet { name: "worse/".to_string(), rows: vec![] },
    ];
    assert_eq!(
        merge_workbook(&sheets, &Changeset::new()),
        Err(MergeError::InvalidSheetName("bad]".to_string()))
    );
}

#[test]
fn empty_workbook_merges_to_empty() {
    assert_eq!(merge_workbook(&vec![], &Changeset::new()), Ok(vec![]));
}
