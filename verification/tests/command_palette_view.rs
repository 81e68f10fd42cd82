use imbolc::command_palette::CommandPalettePane;
use imbolc::keymap::Keymap;

fn palette() -> CommandPalettePane {
    let mut p = CommandPalettePane::new(Keymap::new());
    p.open(vec![
        ("save".to_string(), "Save project".to_string(), "Ctrl-s".to_string()),
        ("save_as".to_string(), "Save project as".to_string(), "".to_string()),
        ("load".to_string(), "Load project".to_string(), "Ctrl-o".to_string()),
        ("switch:mixer".to_string(), "Go to MIXER".to_string(), "F4".to_string()),
    ]);
    p
}

fn text(v: &[char]) -> String {
    v.iter().collect()
}

#[test]
fn palette_rows_fit_the_width() {
    let p = palette();
    let f = p.render(100, 58, 9);
    assert_eq!((f.width, f.height), (60, 7));
    assert!(f.shown);
    assert_eq!(text(&f.before_cursor), "");
    assert_eq!(f.at_cursor, ' ');
    assert!(!f.no_matches);
    assert_eq!(f.rows.len(), 4);
    let r = &f.rows[0];
    assert_eq!(r.command, 0);
    assert!(r.selected);
    assert_eq!(text(&r.action), " save");
    assert_eq!(text(&r.description), "  Save project");
    assert_eq!(text(&r.keys), " Ctrl-s ");
    assert_eq!(r.padding, 31);
    assert!(!f.rows[1].selected);
    assert_eq!(text(&f.rows[1].keys), "  ");

    let narrow = p.render(20, 12, 9);
    assert_eq!(narrow.width, 16);
    let r = &narrow.rows[0];
    assert_eq!(text(&r.action), " sav");
    assert_eq!(text(&r.description), "");
    assert_eq!(r.padding, 0);
}

#[test]
fn palette_prompt_splits_at_the_cursor() {
    let mut p = palette();
    p.input = vec!['s', 'a', 'v', 'e'];
    p.cursor = 2;
    let f = p.render(100, 58, 4);
    assert_eq!(text(&f.before_cursor), "sa");
    assert_eq!(f.at_cursor, 'v');
    assert_eq!(text(&f.after_cursor), "e");
    assert_eq!(f.rows.len(), 2);
    let hidden = p.render(100, 58, 0);
    assert!(!hidden.shown);
    assert!(hidden.rows.is_empty());
}

#[test]
fn palette_without_matches() {
    let mut p = CommandPalettePane::new(Keymap::new());
    p.open(Vec::new());
    let f = p.render(100, 58, 3);
    assert_eq!(f.height, 5);
    assert!(f.no_matches);
    assert!(f.rows.is_empty());
    assert!(!p.render(100, 58, 2).no_matches);
}

#[test]
fn lowered_texts_match_by_contained_query() {
    let a: Vec<char> = "toggle_mute".chars().collect();
    let d: Vec<char> = "mute the track".chars().collect();
    let q: Vec<char> = "mute".chars().collect();
    let none: Vec<char> = Vec::new();
    assert!(imbolc::command_palette::matches_lowered(&a, &d, &q));
    assert!(imbolc::command_palette::matches_lowered(&none, &none, &none));
    let q2: Vec<char> = "the t".chars().collect();
    assert!(imbolc::command_palette::matches_lowered(&a, &d, &q2));
    let q3: Vec<char> = "solo".chars().collect();
    assert!(!imbolc::command_palette::matches_lowered(&a, &d, &q3));
}

#[test]
fn opening_lists_every_command_and_capitals_match() {
    let mut p = palette();
    assert_eq!(p.filtered, vec![0, 1, 2, 3]);
    p.filter_base = "MIXER".chars().collect();
    p.update_filter();
    assert_eq!(p.filtered, vec![3]);
}
