//! Terminal rendering of screenshots: viewport settings, the symbol drawn
//! for each entity kind and the color used for each faction, the layout of
//! entities on the character grid, and the text frame around it.

use crate::text::{
    contains_text, decimal, decimal_digits, has_infix, lowercase, signed_decimal, starts_with, text_eq,
    to_lowercase,
};
use vstd::prelude::*;
use vstd::string::StrSliceExecFns;
use vstd::string::StringExecFns;

verus! {

/// ASCII visualization configuration.
#[derive(Debug, Clone, Copy)]
pub struct AsciiConfig {
    /// Width of the ASCII viewport.
    pub width: usize,
    /// Height of the ASCII viewport.
    pub height: usize,
    /// Show health bars.
    pub show_health: bool,
    /// Show unit counts legend.
    pub show_legend: bool,
    /// Use colored output (ANSI).
    pub use_color: bool,
}

impl Default for AsciiConfig {
    fn default() -> (c: Self)
        ensures
            c.width == 80,
            c.height == 24,
            c.show_health,
            c.show_legend,
            c.use_color,
    {
        AsciiConfig { width: 80, height: 24, show_health: true, show_legend: true, use_color: true }
    }
}

/// Symbol for an entity kind (already lowercased), before faction casing.
pub open spec fn kind_symbol(kind: Seq<char>) -> char {
    if kind == "infantry"@ || kind == "unit"@ {
        'I'
    } else if kind == "scout"@ {
        's'
    } else if kind == "ranger"@ {
        'R'
    } else if kind == "tank"@ {
        'T'
    } else if kind == "harvester"@ {
        'H'
    } else if kind == "depot"@ || kind == "command_center"@ {
        '#'
    } else if kind == "barracks"@ {
        'B'
    } else if kind == "turret"@ {
        '^'
    } else if kind == "supply_depot"@ {
        'S'
    } else if kind == "tech_lab"@ {
        'L'
    } else {
        'o'
    }
}

/// The faction is drawn as Continuity: its lowercased name starts with
/// `cont`, or it is exactly `continuity`.
pub open spec fn drawn_as_continuity(faction: Seq<char>) -> bool {
    "cont"@.is_prefix_of(lowercase(faction)) || faction == "continuity"@
}

/// The faction is colored as Collegium (checked after Continuity).
pub open spec fn drawn_as_collegium(faction: Seq<char>) -> bool {
    "coll"@.is_prefix_of(lowercase(faction)) || faction == "collegium"@
}

/// Lowercase form of an ASCII letter; other characters are unchanged.
pub open spec fn ascii_lower(c: char) -> char {
    if 'A' <= c <= 'Z' {
        ((c as u32) + 32) as char
    } else {
        c
    }
}

/// Uppercase form of an ASCII letter; other characters are unchanged.
pub open spec fn ascii_upper(c: char) -> char {
    if 'a' <= c <= 'z' {
        ((c as u32) - 32) as char
    } else {
        c
    }
}

/// Symbol drawn for a `kind` entity of `faction`: Continuity in lowercase,
/// every other faction in uppercase.
pub open spec fn entity_symbol(kind: Seq<char>, faction: Seq<char>) -> char {
    let base = kind_symbol(lowercase(kind));
    if drawn_as_continuity(faction) {
        ascii_lower(base)
    } else {
        ascii_upper(base)
    }
}

fn symbol_for_kind(kind: &str) -> (c: char)
    ensures
        c == kind_symbol(kind@),
{
    if text_eq(kind, "infantry") || text_eq(kind, "unit") {
        'I'
    } else if text_eq(kind, "scout") {
        's'
    } else if text_eq(kind, "ranger") {
        'R'
    } else if text_eq(kind, "tank") {
        'T'
    } else if text_eq(kind, "harvester") {
        'H'
    } else if text_eq(kind, "depot") || text_eq(kind, "command_center") {
        '#'
    } else if text_eq(kind, "barracks") {
        'B'
    } else if text_eq(kind, "turret") {
        '^'
    } else if text_eq(kind, "supply_depot") {
        'S'
    } else if text_eq(kind, "tech_lab") {
        'L'
    } else {
        'o'
    }
}

fn is_continuity(faction: &str) -> (b: bool)
    ensures
        b == drawn_as_continuity(faction@),
{
    let lower = to_lowercase(faction);
    starts_with(lower.as_str(), "cont") || text_eq(faction, "continuity")
}

/// Character representation for entities.
pub fn unit_char(kind: &str, faction: &str) -> (c: char)
    ensures
        c == entity_symbol(kind@, faction@),
{
    let lower = to_lowercase(kind);
    let base = symbol_for_kind(lower.as_str());
    if is_continuity(faction) {
        match base {
            'I' => 'i',
            'R' => 'r',
            'T' => 't',
            'H' => 'h',
            'B' => 'b',
            'S' => 's',
            'L' => 'l',
            _ => base,
        }
    } else {
        match base {
            's' => 'S',
            'o' => 'O',
            _ => base,
        }
    }
}

/// ANSI blue.
pub const BLUE: &'static str = "\x1b[34m";

/// ANSI yellow.
pub const YELLOW: &'static str = "\x1b[33m";

/// ANSI white.
pub const WHITE: &'static str = "\x1b[37m";

/// ANSI bold.
pub const BOLD: &'static str = "\x1b[1m";

/// ANSI reset of color and weight.
pub const RESET: &'static str = "\x1b[0m";

/// The ANSI color of a faction's name: blue for Continuity, yellow for
/// Collegium, white otherwise.
pub open spec fn faction_color_text(faction: Seq<char>) -> Seq<char> {
    if drawn_as_continuity(faction) {
        BLUE@
    } else if drawn_as_collegium(faction) {
        YELLOW@
    } else {
        WHITE@
    }
}

/// ANSI color for a faction: blue for Continuity, yellow for Collegium,
/// white otherwise.
pub fn faction_color(faction: &str) -> (color: &'static str)
    ensures
        color@ == faction_color_text(faction@),
{
    if is_continuity(faction) {
        BLUE
    } else {
        let lower = to_lowercase(faction);
        if starts_with(lower.as_str(), "coll") || text_eq(faction, "collegium") {
            YELLOW
        } else {
            WHITE
        }
    }
}


/// A building drawn as a 2x2 block: its kind names a depot or a command
/// structure.
pub open spec fn drawn_wide(kind: Seq<char>) -> bool {
    has_infix(kind, "depot"@) || has_infix(kind, "command"@)
}

/// Whether a building of this kind is drawn as a 2x2 block.
pub fn is_wide_building(kind: &str) -> (b: bool)
    ensures
        b == drawn_wide(kind@),
{
    contains_text(kind, "depot") || contains_text(kind, "command")
}

/// An entity to draw on the map grid, at the cell its scaled map position
/// falls in (before clamping to the viewport).
#[derive(Debug, Clone, Copy)]
pub struct GridMark {
    /// Column of the scaled position.
    pub x: usize,
    /// Row of the scaled position.
    pub y: usize,
    /// Drawn as a 2x2 block (headquarters buildings).
    pub wide: bool,
}

/// Rows of the viewport that hold the map; the rest is frame and legend.
pub open spec fn map_rows(height: int) -> int {
    height - 4
}

/// Column a mark is drawn at: its own, clamped to the last column.
pub open spec fn mark_col(m: GridMark, width: int) -> int {
    if m.x < width - 1 {
        m.x as int
    } else {
        width - 1
    }
}

/// Row a mark is drawn at: its own, clamped to the last map row.
pub open spec fn mark_row(m: GridMark, height: int) -> int {
    if m.y < height - 5 {
        m.y as int
    } else {
        height - 5
    }
}

/// The mark covers grid cell (`r`, `c`): its own cell, or for a wide mark
/// the 2x2 block from there, as far as it stays inside the map rows and off
/// the last column.
pub open spec fn mark_covers(m: GridMark, width: int, height: int, r: int, c: int) -> bool {
    let (x, y) = (mark_col(m, width), mark_row(m, height));
    if m.wide {
        &&& x <= c < x + 2
        &&& y <= r < y + 2
        &&& r < map_rows(height)
        &&& c < width - 1
    } else {
        c == x && r == y
    }
}

/// Index of the mark drawn last (among the first `n`) over cell (`r`,
/// `c`): later marks are drawn over earlier ones.
pub open spec fn cell_owner(marks: Seq<GridMark>, width: int, height: int, r: int, c: int, n: int) -> Option<usize>
    decreases n,
{
    if n <= 0 {
        None
    } else if mark_covers(marks[n - 1], width, height, r, c) {
        Some((n - 1) as usize)
    } else {
        cell_owner(marks, width, height, r, c, n - 1)
    }
}

proof fn lemma_owner_in_range(marks: Seq<GridMark>, width: int, height: int, r: int, c: int, n: int)
    requires
        0 <= n <= usize::MAX,
    ensures
        cell_owner(marks, width, height, r, c, n) matches Some(k) ==> k < n,
    decreases n,
{
    if n > 0 {
        lemma_owner_in_range(marks, width, height, r, c, n - 1);
    }
}

fn covers(m: GridMark, width: usize, height: usize, r: usize, c: usize) -> (b: bool)
    requires
        width >= 2,
        height >= 5,
    ensures
        b == mark_covers(m, width as int, height as int, r as int, c as int),
{
    let x = if m.x < width - 1 {
        m.x
    } else {
        width - 1
    };
    let y = if m.y < height - 5 {
        m.y
    } else {
        height - 5
    };
    if m.wide {
        x <= c && c - x < 2 && y <= r && r - y < 2 && r < height - 4 && c < width - 1
    } else {
        c == x && r == y
    }
}

fn owner_at(marks: &Vec<GridMark>, width: usize, height: usize, r: usize, c: usize) -> (o: Option<usize>)
    requires
        width >= 2,
        height >= 5,
    ensures
        o == cell_owner(marks@, width as int, height as int, r as int, c as int, marks.len() as int),
{
    let mut k: usize = marks.len();
    while k > 0
        invariant
            k <= marks.len(),
            width >= 2,
            height >= 5,
            cell_owner(marks@, width as int, height as int, r as int, c as int, marks.len() as int)
                == cell_owner(marks@, width as int, height as int, r as int, c as int, k as int),
        decreases k,
    {
        if covers(marks[k - 1], width, height, r, c) {
            return Some(k - 1);
        }
        k = k - 1;
    }
    None
}

/// Lays the marks out on a `height` x `width` grid, in order: each cell
/// holds the index of the last mark drawn over it, or nothing (the empty
/// map background).
pub fn compose_grid(marks: &Vec<GridMark>, width: usize, height: usize) -> (g: Vec<Vec<Option<usize>>>)
    requires
        width >= 2,
        height >= 5,
    ensures
        g.len() == height,
        forall|r: int| 0 <= r < height ==> (#[trigger] g[r]).len() == width,
        forall|r: int, c: int|
            0 <= r < height && 0 <= c < width ==> #[trigger] g[r][c] == cell_owner(
                marks@,
                width as int,
                height as int,
                r,
                c,
                marks.len() as int,
            ),
        forall|r: int, c: int|
            0 <= r < height && 0 <= c < width ==> (#[trigger] g[r][c] matches Some(k) ==> k
                < marks.len()),
{
    let mut g: Vec<Vec<Option<usize>>> = Vec::new();
    let mut r: usize = 0;
    while r < height
        invariant
            width >= 2,
            height >= 5,
            r <= height,
            g.len() == r,
            forall|i: int| 0 <= i < r ==> (#[trigger] g[i]).len() == width,
            forall|i: int, c: int|
                0 <= i < r && 0 <= c < width ==> #[trigger] g[i][c] == cell_owner(
                    marks@,
                    width as int,
                    height as int,
                    i,
                    c,
                    marks.len() as int,
                ),
        decreases height - r,
    {
        let mut row: Vec<Option<usize>> = Vec::new();
        let mut c: usize = 0;
        while c < width
            invariant
                width >= 2,
                height >= 5,
                c <= width,
                row.len() == c,
                forall|j: int|
                    0 <= j < c ==> #[trigger] row[j] == cell_owner(
                        marks@,
                        width as int,
                        height as int,
                        r as int,
                        j,
                        marks.len() as int,
                    ),
            decreases width - c,
        {
            let o = owner_at(marks, width, height, r, c);
            row.push(o);
            c = c + 1;
        }
        g.push(row);
        r = r + 1;
    }
    assert forall|r: int, c: int| 0 <= r < height && 0 <= c < width implies (#[trigger] g[r][c] matches Some(
        k,
    ) ==> k < marks.len()) by {
        lemma_owner_in_range(marks@, width as int, height as int, r, c, marks.len() as int);
    }
    g
}

/// How a change in a faction's unit count is shown in the battle progress
/// table: a gain with a leading `+`, a loss with a leading `-`, no change
/// as `0`.
pub open spec fn change_text(before: int, after: int) -> Seq<char> {
    let change = after - before;
    if change > 0 {
        seq!['+'] + decimal_digits(change as nat)
    } else if change < 0 {
        seq!['-'] + decimal_digits((-change) as nat)
    } else {
        decimal_digits(0)
    }
}

/// Text of the change from `before` to `after` units.
pub fn unit_change_text(before: u32, after: u32) -> (s: String)
    ensures
        s@ == change_text(before as int, after as int),
{
    let change: i64 = after as i64 - before as i64;
    if change > 0 {
        proof {
            reveal_strlit("+");
        }
        let mut s = "+".to_string();
        s.append(signed_decimal(change).as_str());
        s
    } else {
        signed_decimal(change)
    }
}

/// Appends a character.
///
/// Trusted: calls std's `String::push`, which appends the character to the
/// end of the string.
#[verifier::external_body]
fn push_char(s: &mut String, c: char)
    ensures
        final(s)@ == old(s)@.push(c),
{
    s.push(c);
}

/// `n` copies of `c`.
pub open spec fn repeated(c: char, n: nat) -> Seq<char> {
    Seq::new(n, |i: int| c)
}

/// `code` when colors are on, nothing otherwise.
pub open spec fn color_on(use_color: bool, code: Seq<char>) -> Seq<char> {
    if use_color {
        code
    } else {
        seq![]
    }
}

/// A frame line: `left`, `n` double bars, `right` and a line break.
pub open spec fn bar_text(left: Seq<char>, n: nat, right: Seq<char>) -> Seq<char> {
    left + repeated('═', n) + right + "\n"@
}

/// The header line naming the game, the tick and the capture trigger.
pub open spec fn header_text(game_id: Seq<char>, tick: u64, trigger: Seq<char>, use_color: bool) -> Seq<char> {
    color_on(use_color, BOLD@) + "╔══ Game: "@ + game_id + " │ Tick: "@ + decimal_digits(tick as nat)
        + " │ Trigger: "@ + trigger + " ══╗"@ + color_on(use_color, RESET@) + "\n"@
}

/// One grid cell: its symbol, wrapped in its color when colors are on and
/// the cell has one.
pub open spec fn cell_text(cell: (char, String), use_color: bool) -> Seq<char> {
    if use_color && cell.1@.len() > 0 {
        cell.1@ + seq![cell.0] + RESET@
    } else {
        seq![cell.0]
    }
}

/// The first `n` cells of a row, in order.
pub open spec fn cells_text(row: Seq<(char, String)>, use_color: bool, n: int) -> Seq<char>
    decreases n,
{
    if n <= 0 {
        seq![]
    } else {
        cells_text(row, use_color, n - 1) + cell_text(row[n - 1], use_color)
    }
}

/// The first `n` grid rows, each framed by single bars.
pub open spec fn rows_text(cells: Seq<Vec<(char, String)>>, use_color: bool, n: int) -> Seq<char>
    decreases n,
{
    if n <= 0 {
        seq![]
    } else {
        rows_text(cells, use_color, n - 1) + "║"@ + cells_text(cells[n - 1]@, use_color, cells[n - 1]@.len() as int)
            + "║\n"@
    }
}

/// The symbol key of the legend.
pub open spec fn symbols_text(use_color: bool) -> Seq<char> {
    if use_color {
        BLUE@ + "i"@ + RESET@ + "=Infantry "@ + BLUE@ + "r"@ + RESET@ + "=Ranger "@ + BLUE@ + "s"@ + RESET@
            + "=Scout "@ + YELLOW@ + "I"@ + RESET@ + "=Infantry "@ + YELLOW@ + "R"@ + RESET@ + "=Ranger "@
            + BOLD@ + "#"@ + RESET@ + "=HQ"@
    } else {
        "i/I=Infantry r/R=Ranger s/S=Scout #=HQ (lower=Continuity UPPER=Collegium)"@
    }
}

/// One faction's entry in the legend: its name (in its color when colors
/// are on), its units and how many of them are damaged.
pub open spec fn count_text(entry: (String, u32, u32), use_color: bool) -> Seq<char> {
    color_on(use_color, faction_color_text(entry.0@)) + entry.0@ + color_on(use_color, RESET@) + ":"@
        + decimal_digits(entry.1 as nat) + " units ("@ + decimal_digits(entry.2 as nat) + " damaged) "@
}

/// The first `n` faction entries of the legend, in order.
pub open spec fn counts_text(counts: Seq<(String, u32, u32)>, use_color: bool, n: int) -> Seq<char>
    decreases n,
{
    if n <= 0 {
        seq![]
    } else {
        counts_text(counts, use_color, n - 1) + count_text(counts[n - 1], use_color)
    }
}

/// Spaces that pad the symbol key to the frame's width.
pub open spec fn key_padding(width: nat, use_color: bool) -> nat {
    let used: nat = if use_color {
        60
    } else {
        70
    };
    if width > used {
        (width - used) as nat
    } else {
        0
    }
}

/// The legend: its title bar, the symbol key and the faction counts.
pub open spec fn legend_text(width: nat, use_color: bool, counts: Seq<(String, u32, u32)>) -> Seq<char> {
    bar_text("╠══ LEGEND "@, (width - 10) as nat, "╣"@) + "║ "@ + symbols_text(use_color) + repeated(
        ' ',
        key_padding(width, use_color),
    ) + "║\n"@ + "║ "@ + counts_text(counts, use_color, counts.len() as int) + repeated(' ', 20) + "║\n"@
}

/// The whole ASCII frame: header, top bar, grid rows, bottom bar, the
/// legend when asked for, and the closing bar.
pub open spec fn frame_text(
    game_id: Seq<char>,
    tick: u64,
    trigger: Seq<char>,
    cells: Seq<Vec<(char, String)>>,
    width: nat,
    show_legend: bool,
    use_color: bool,
    counts: Seq<(String, u32, u32)>,
) -> Seq<char> {
    header_text(game_id, tick, trigger, use_color) + bar_text("║"@, width, "║"@) + rows_text(
        cells,
        use_color,
        cells.len() as int,
    ) + bar_text("║"@, width, "║"@) + (if show_legend {
        legend_text(width, use_color, counts)
    } else {
        seq![]
    }) + bar_text("╚"@, width, "╝"@)
}

fn push_repeated(s: &mut String, c: char, n: usize)
    ensures
        final(s)@ == old(s)@ + repeated(c, n as nat),
{
    let ghost start = s@;
    let mut k: usize = 0;
    while k < n
        invariant
            k <= n,
            s@ == start + repeated(c, k as nat),
        decreases n - k,
    {
        push_char(s, c);
        assert(start + repeated(c, (k + 1) as nat) =~= (start + repeated(c, k as nat)).push(c));
        k = k + 1;
    }
}

fn push_bar(s: &mut String, left: &str, n: usize, right: &str)
    ensures
        final(s)@ == old(s)@ + bar_text(left@, n as nat, right@),
{
    let ghost start = s@;
    s.append(left);
    push_repeated(s, '═', n);
    s.append(right);
    s.append("\n");
    assert(s@ =~= start + bar_text(left@, n as nat, right@));
}

fn push_color(s: &mut String, use_color: bool, code: &str)
    ensures
        final(s)@ == old(s)@ + color_on(use_color, code@),
{
    if use_color {
        s.append(code);
    } else {
        assert(s@ + color_on(use_color, code@) =~= s@);
    }
}

fn push_cell(s: &mut String, cell: &(char, String), use_color: bool)
    ensures
        final(s)@ == old(s)@ + cell_text(*cell, use_color),
{
    let ghost start = s@;
    if use_color && cell.1.as_str().unicode_len() > 0 {
        s.append(cell.1.as_str());
        push_char(s, cell.0);
        s.append(RESET);
        assert(s@ =~= start + cell_text(*cell, use_color));
    } else {
        push_char(s, cell.0);
        assert(s@ =~= start + cell_text(*cell, use_color));
    }
}

fn push_row(s: &mut String, row: &Vec<(char, String)>, use_color: bool)
    ensures
        final(s)@ == old(s)@ + "║"@ + cells_text(row@, use_color, row@.len() as int) + "║\n"@,
{
    let ghost start = s@;
    s.append("║");
    let mut k: usize = 0;
    while k < row.len()
        invariant
            k <= row@.len(),
            s@ == start + "║"@ + cells_text(row@, use_color, k as int),
        decreases row@.len() - k,
    {
        push_cell(s, &row[k], use_color);
        assert(s@ =~= start + "║"@ + cells_text(row@, use_color, k + 1));
        k = k + 1;
    }
    s.append("║\n");
}

#[verifier::rlimit(30)]
fn push_counts(s: &mut String, counts: &Vec<(String, u32, u32)>, use_color: bool)
    ensures
        final(s)@ == old(s)@ + counts_text(counts@, use_color, counts@.len() as int),
{
    let ghost start = s@;
    let mut k: usize = 0;
    while k < counts.len()
        invariant
            k <= counts@.len(),
            s@ == start + counts_text(counts@, use_color, k as int),
        decreases counts@.len() - k,
    {
        let entry = &counts[k];
        let ghost before = s@;
        if use_color {
            s.append(faction_color(entry.0.as_str()));
        }
        s.append(entry.0.as_str());
        push_color(s, use_color, RESET);
        s.append(":");
        s.append(decimal(entry.1 as u64).as_str());
        s.append(" units (");
        s.append(decimal(entry.2 as u64).as_str());
        s.append(" damaged) ");
        assert(s@ =~= before + count_text(*entry, use_color));
        assert(s@ =~= start + counts_text(counts@, use_color, k + 1));
        k = k + 1;
    }
}

fn push_key(s: &mut String, color: &str, symbol: &str, name: &str)
    ensures
        final(s)@ == old(s)@ + color@ + symbol@ + RESET@ + name@,
{
    let ghost start = s@;
    s.append(color);
    s.append(symbol);
    s.append(RESET);
    s.append(name);
    assert(s@ =~= start + color@ + symbol@ + RESET@ + name@);
}

#[verifier::rlimit(30)]
fn push_symbols(s: &mut String, use_color: bool)
    ensures
        final(s)@ == old(s)@ + symbols_text(use_color),
{
    let ghost start = s@;
    if use_color {
        push_key(s, BLUE, "i", "=Infantry ");
        push_key(s, BLUE, "r", "=Ranger ");
        push_key(s, BLUE, "s", "=Scout ");
        let ghost half = s@;
        assert(half =~= start + (BLUE@ + "i"@ + RESET@ + "=Infantry "@ + BLUE@ + "r"@ + RESET@ + "=Ranger "@
            + BLUE@ + "s"@ + RESET@ + "=Scout "@));
        push_key(s, YELLOW, "I", "=Infantry ");
        push_key(s, YELLOW, "R", "=Ranger ");
        push_key(s, BOLD, "#", "=HQ");
        assert(s@ =~= half + (YELLOW@ + "I"@ + RESET@ + "=Infantry "@ + YELLOW@ + "R"@ + RESET@ + "=Ranger "@
            + BOLD@ + "#"@ + RESET@ + "=HQ"@));
        assert(symbols_text(use_color) =~= (BLUE@ + "i"@ + RESET@ + "=Infantry "@ + BLUE@ + "r"@ + RESET@
            + "=Ranger "@ + BLUE@ + "s"@ + RESET@ + "=Scout "@) + (YELLOW@ + "I"@ + RESET@ + "=Infantry "@
            + YELLOW@ + "R"@ + RESET@ + "=Ranger "@ + BOLD@ + "#"@ + RESET@ + "=HQ"@));
    } else {
        s.append("i/I=Infantry r/R=Ranger s/S=Scout #=HQ (lower=Continuity UPPER=Collegium)");
    }
    assert(s@ =~= start + symbols_text(use_color));
}

#[verifier::rlimit(30)]
fn push_legend(s: &mut String, width: usize, use_color: bool, counts: &Vec<(String, u32, u32)>)
    requires
        width >= 10,
    ensures
        final(s)@ == old(s)@ + legend_text(width as nat, use_color, counts@),
{
    let ghost start = s@;
    push_bar(s, "╠══ LEGEND ", width - 10, "╣");
    s.append("║ ");
    push_symbols(s, use_color);
    let used: usize = if use_color {
        60
    } else {
        70
    };
    let pad: usize = if width > used {
        width - used
    } else {
        0
    };
    push_repeated(s, ' ', pad);
    s.append("║\n");
    let ghost mid = s@;
    assert(mid =~= start + bar_text("╠══ LEGEND "@, (width - 10) as nat, "╣"@) + "║ "@ + symbols_text(use_color)
        + repeated(' ', key_padding(width as nat, use_color)) + "║\n"@);
    s.append("║ ");
    push_counts(s, counts, use_color);
    push_repeated(s, ' ', 20);
    s.append("║\n");
    assert(s@ =~= mid + "║ "@ + counts_text(counts@, use_color, counts@.len() as int) + repeated(' ', 20) + "║\n"@);
    assert(s@ =~= start + legend_text(width as nat, use_color, counts@));
}

/// Renders the text frame of an ASCII screenshot: the header with game,
/// tick and trigger, the grid rows between two bars, the legend with the
/// given faction counts (in their given order) when asked for, and the
/// closing bar.
#[verifier::rlimit(30)]
pub fn render_frame(
    game_id: &str,
    tick: u64,
    trigger: &str,
    cells: &Vec<Vec<(char, String)>>,
    width: usize,
    show_legend: bool,
    use_color: bool,
    counts: &Vec<(String, u32, u32)>,
) -> (out: String)
    requires
        show_legend ==> width >= 10,
    ensures
        out@ == frame_text(game_id@, tick, trigger@, cells@, width as nat, show_legend, use_color, counts@),
{
    let mut out = String::new();
    push_color(&mut out, use_color, BOLD);
    out.append("╔══ Game: ");
    out.append(game_id);
    out.append(" │ Tick: ");
    out.append(decimal(tick).as_str());
    out.append(" │ Trigger: ");
    out.append(trigger);
    out.append(" ══╗");
    push_color(&mut out, use_color, RESET);
    out.append("\n");
    assert(out@ =~= header_text(game_id@, tick, trigger@, use_color));
    push_bar(&mut out, "║", width, "║");
    let ghost before_rows = out@;
    let mut r: usize = 0;
    while r < cells.len()
        invariant
            r <= cells@.len(),
            out@ == before_rows + rows_text(cells@, use_color, r as int),
        decreases cells@.len() - r,
    {
        push_row(&mut out, &cells[r], use_color);
        assert(out@ =~= before_rows + rows_text(cells@, use_color, r + 1));
        r = r + 1;
    }
    push_bar(&mut out, "║", width, "║");
    let ghost before_legend = out@;
    if show_legend {
        push_legend(&mut out, width, use_color, counts);
    }
    let ghost after_legend = out@;
    assert(after_legend =~= before_legend + (if show_legend {
        legend_text(width as nat, use_color, counts@)
    } else {
        seq![]
    }));
    push_bar(&mut out, "╚", width, "╝");
    assert(out@ =~= frame_text(game_id@, tick, trigger@, cells@, width as nat, show_legend, use_color, counts@));
    out
}

} // verus!
