use rts_headless::ascii_visualizer::{
    compose_grid, faction_color, is_wide_building, render_frame, unit_change_text, unit_char,
    AsciiConfig,
    GridMark, BLUE, WHITE, YELLOW,
};

#[test]
fn test_unit_char() {
    assert_eq!(unit_char("infantry", "continuity"), 'i');
    assert_eq!(unit_char("infantry", "collegium"), 'I');
    assert_eq!(unit_char("ranger", "continuity"), 'r');
    assert_eq!(unit_char("ranger", "Collegium"), 'R');
}

#[test]
fn unit_char_covers_every_kind() {
    assert_eq!(unit_char("SCOUT", "collegium"), 'S');
    assert_eq!(unit_char("scout", "Continuity"), 's');
    assert_eq!(unit_char("depot", "continuity"), '#');
    assert_eq!(unit_char("turret", "collegium"), '^');
    assert_eq!(unit_char("tech_lab", "cont_b"), 'l');
    assert_eq!(unit_char("mystery", "collegium"), 'O');
    assert_eq!(unit_char("mystery", "continuity"), 'o');
}

#[test]
fn faction_colors() {
    assert_eq!(faction_color("Continuity"), BLUE);
    assert_eq!(faction_color("collegium"), YELLOW);
    assert_eq!(faction_color("COLL-2"), YELLOW);
    assert_eq!(faction_color("tinkers"), WHITE);
    assert_eq!(BLUE, "\x1b[34m");
}

#[test]
fn ascii_config_default() {
    let c = AsciiConfig::default();
    assert_eq!((c.width, c.height), (80, 24));
    assert!(c.show_health && c.show_legend && c.use_color);
}

#[test]
fn grid_places_marks_in_order() {
    // 10 x 8 viewport: map rows 0..4, columns clamp at 9, rows at 3.
    let marks = vec![
        GridMark { x: 2, y: 1, wide: true },
        GridMark { x: 3, y: 2, wide: false },
        GridMark { x: 50, y: 50, wide: false },
        GridMark { x: 8, y: 3, wide: true },
    ];
    let g = compose_grid(&marks, 10, 8);
    assert_eq!(g.len(), 8);
    assert!(g.iter().all(|row| row.len() == 10));
    assert_eq!(g[1][2], Some(0));
    assert_eq!(g[1][3], Some(0));
    assert_eq!(g[2][2], Some(0));
    // the unit drawn later covers the building's corner
    assert_eq!(g[2][3], Some(1));
    // far-away mark clamped to the last column and last map row
    assert_eq!(g[3][9], Some(2));
    // wide mark near the edge keeps off the last column and map rows
    assert_eq!(g[3][8], Some(3));
    assert_eq!(g[4][8], None);
    assert_eq!(g[0][0], None);
    let empty: Vec<GridMark> = Vec::new();
    assert!(compose_grid(&empty, 2, 5).iter().all(|row| row.iter().all(|c| c.is_none())));
}

#[test]
fn headquarters_are_wide() {
    assert!(is_wide_building("depot"));
    assert!(is_wide_building("supply_depot"));
    assert!(is_wide_building("command_center"));
    assert!(!is_wide_building("barracks"));
}

#[test]
fn unit_change_texts() {
    assert_eq!(unit_change_text(3, 7), "+4");
    assert_eq!(unit_change_text(12, 2), "-10");
    assert_eq!(unit_change_text(5, 5), "0");
}

#[test]
fn frame_without_legend_or_color() {
    let cells = vec![
        vec![('.', String::new()), ('i', "\x1b[34m".to_string())],
        vec![('#', String::new()), ('.', String::new())],
    ];
    let out = render_frame("g1", 42, "snapshot", &cells, 2, false, false, &Vec::new());
    assert_eq!(
        out,
        "╔══ Game: g1 │ Tick: 42 │ Trigger: snapshot ══╗\n║══║\n║.i║\n║#.║\n║══║\n╚══╝\n"
    );
}

#[test]
fn frame_with_colored_cells_and_legend() {
    let cells = vec![vec![('i', "\x1b[34m".to_string()), ('.', String::new())]];
    let counts = vec![("continuity".to_string(), 3, 1), ("collegium".to_string(), 2, 0)];
    let out = render_frame("g", 7, "first_contact", &cells, 10, true, true, &counts);
    let expected = format!(
        "{b}╔══ Game: g │ Tick: 7 │ Trigger: first_contact ══╗{r}\n║══════════║\n║{blue}i{r}.║\n║══════════║\n\
         ╠══ LEGEND ╣\n║ {blue}i{r}=Infantry {blue}r{r}=Ranger {blue}s{r}=Scout {y}I{r}=Infantry {y}R{r}=Ranger {b}#{r}=HQ║\n\
         ║ {blue}continuity{r}:3 units (1 damaged) {y}collegium{r}:2 units (0 damaged) {pad}║\n╚══════════╝\n",
        b = "\x1b[1m",
        r = "\x1b[0m",
        blue = "\x1b[34m",
        y = "\x1b[33m",
        pad = " ".repeat(20)
    );
    assert_eq!(out, expected);
}
