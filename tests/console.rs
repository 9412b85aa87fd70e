use treasureos::vga::{clear_screen, make_cell, print, Console, BLANK, CELLS, HEIGHT, WIDTH};

fn text_at(con: &Console, row: usize, col: usize, len: usize) -> Vec<u8> {
    (0..len).map(|i| (con.cell(row, col + i) & 0xff) as u8).collect()
}

#[test]
fn clear_screen_blanks_every_cell() {
    let mut con = Console::new();
    print(&mut con, "some text\nmore");
    clear_screen(&mut con);
    for row in 0..HEIGHT {
        for col in 0..WIDTH {
            assert_eq!(con.cell(row, col), 0x0720);
        }
    }
    assert_eq!(con.cursor(), (0, 0));
    assert_eq!(BLANK, (0x07 << 8) | b' ' as u16);
    assert_eq!(CELLS, 2000);
}

#[test]
fn print_two_lines_scenario() {
    let mut con = Console::new();
    clear_screen(&mut con);
    print(&mut con, "AB\nC");
    assert_eq!(con.cell(0, 0), 0x0700 | b'A' as u16);
    assert_eq!(con.cell(0, 1), 0x0700 | b'B' as u16);
    assert_eq!(con.cell(1, 0), 0x0700 | b'C' as u16);
    assert_eq!(con.cell(0, 2), BLANK);
    assert_eq!(con.cursor(), (1, 1));
}

#[test]
fn print_carries_column_into_row() {
    let mut con = Console::new();
    let text = "x".repeat(85);
    print(&mut con, &text);
    assert_eq!(con.cursor(), (5, 1));
    for i in 0..85 {
        assert_eq!(con.cell(i / 80, i % 80), 0x0778);
    }
    assert_eq!(con.cell(1, 5), BLANK);
}

#[test]
fn print_from_mid_row_without_newline() {
    let mut con = Console::new();
    print(&mut con, "\n\n");
    print(&mut con, &"a".repeat(70));
    assert_eq!(con.cursor(), (70, 2));
    print(&mut con, "0123456789abcdef");
    // 70 + 16 = 86: column 6 of the next row.
    assert_eq!(con.cursor(), (6, 3));
    assert_eq!(text_at(&con, 2, 70, 10), b"0123456789".to_vec());
    assert_eq!(text_at(&con, 3, 0, 6), b"abcdef".to_vec());
}

#[test]
fn newline_on_last_row_wraps_to_first() {
    let mut con = Console::new();
    print(&mut con, &"\n".repeat(24));
    assert_eq!(con.cursor(), (0, 24));
    print(&mut con, "\n");
    assert_eq!(con.cursor(), (0, 0));
}

#[test]
fn last_cell_wraps_to_first_and_overwrites() {
    let mut con = Console::new();
    let mut text = "y".repeat(CELLS);
    text.push('z');
    print(&mut con, &text);
    assert_eq!(con.cursor(), (1, 0));
    assert_eq!(con.cell(0, 0), 0x0700 | b'z' as u16);
    assert_eq!(con.cell(24, 79), 0x0700 | b'y' as u16);
}

#[test]
fn newline_resets_column_only() {
    let mut con = Console::new();
    print(&mut con, "abc\n");
    assert_eq!(con.cursor(), (0, 1));
    assert_eq!(text_at(&con, 0, 0, 3), b"abc".to_vec());
}

#[test]
fn split_prints_match_one_print() {
    let mut one = Console::new();
    print(&mut one, "hello\nworld, again");
    let mut two = Console::new();
    print(&mut two, "hello\nwor");
    print(&mut two, "ld, again");
    assert_eq!(one.cursor(), two.cursor());
    for row in 0..HEIGHT {
        for col in 0..WIDTH {
            assert_eq!(one.cell(row, col), two.cell(row, col));
        }
    }
}

#[test]
fn non_ascii_bytes_written_verbatim() {
    let mut con = Console::new();
    print(&mut con, "\u{e9}");
    assert_eq!(con.cell(0, 0), 0x07C3);
    assert_eq!(con.cell(0, 1), 0x07A9);
    assert_eq!(con.cursor(), (2, 0));
}

#[test]
fn make_cell_packs_attribute_high() {
    assert_eq!(make_cell(b'A', 0x07), 0x0741);
    assert_eq!(make_cell(0xff, 0x1f), 0x1fff);
    assert_eq!(make_cell(0, 0), 0);
}
