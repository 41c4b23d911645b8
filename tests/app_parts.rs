use rusty_csv_viewer::color::ColorF;
use rusty_csv_viewer::geometry::{Coord, Rect};
use rusty_csv_viewer::menu::{menu_resource_to_lc, strip_accelerators, BulkMenuBuilder, TMenu};
use rusty_csv_viewer::resource::{CMenuFile, LMENU_FILE};
use rusty_csv_viewer::settings::{AppSettings, AppSettingsError, CAppSettings, Settings};
use rusty_csv_viewer::shape::{Point, TranslateShape};
use rusty_csv_viewer::state::{AppState, OpenFileInfo};
use rusty_csv_viewer::table::reader::parse_values;

fn strings(items: &[&str]) -> Vec<String> {
    items.iter().map(|s| s.to_string()).collect()
}

#[test]
fn recent_file_moves_to_the_end() {
    let mut s = Settings::new();
    s.recent_files = strings(&["a.csv", "b.csv", "c.csv"]);
    let mut st = AppState::new(s);
    st.add_recent_file("a.csv");
    assert_eq!(st.recent_files(), strings(&["b.csv", "c.csv", "a.csv"]));
    st.add_recent_file("d.csv");
    assert_eq!(st.recent_files(), strings(&["b.csv", "c.csv", "a.csv", "d.csv"]));
}

#[test]
fn recent_file_left_out_when_full() {
    let mut st = AppState::new(Settings::new());
    st.set_max_recent_files(2);
    st.add_recent_file("a.csv");
    st.add_recent_file("b.csv");
    st.add_recent_file("c.csv");
    assert_eq!(st.recent_files(), strings(&["a.csv", "b.csv"]));
    st.add_recent_file("a.csv");
    assert_eq!(st.recent_files(), strings(&["b.csv", "a.csv"]));
}

#[test]
fn max_recent_files_truncates() {
    let mut s = Settings::new();
    s.recent_files = strings(&["a", "b", "c"]);
    let mut st = AppState::new(s);
    assert_eq!(st.max_recent_files(), 10);
    st.set_max_recent_files(1);
    assert_eq!(st.max_recent_files(), 1);
    assert_eq!(st.recent_files(), strings(&["a"]));
}

#[test]
fn window_position_ignores_negative() {
    let mut st = AppState::new(Settings::new());
    assert_eq!(st.window_pos(), (300, 300));
    assert_eq!(st.window_size(), (400, 300));
    st.set_window_pos((10, 20));
    assert_eq!(st.window_pos(), (10, 20));
    st.set_window_pos((-1, 50));
    assert_eq!(st.window_pos(), (10, 20));
    st.set_window_size((640, 480));
    assert_eq!(st.window_size(), (640, 480));
}

#[test]
fn load_and_unload_data() {
    let mut st = AppState::new(Settings::new());
    assert!(!st.is_data_loaded());
    assert!(st.file_data().is_none());
    let t = parse_values("a,b\n1,2\n", ',', true).unwrap();
    let prev = st.load_data(OpenFileInfo { name: String::from("x.csv"), data: t });
    assert!(prev.is_none());
    assert!(st.is_data_loaded());
    assert_eq!(st.file_data().unwrap().name, "x.csv");
    let t2 = parse_values("c\n", ',', false).unwrap();
    let prev = st.load_data(OpenFileInfo { name: String::from("y.csv"), data: t2 });
    assert_eq!(prev.unwrap().name, "x.csv");
    let gone = st.unload_data();
    assert_eq!(gone.unwrap().name, "y.csv");
    assert!(!st.is_data_loaded());
}

#[test]
fn verify_recent_files_keeps_flagged() {
    let mut files = strings(&["a", "b", "c", "d"]);
    Settings::verify_recent_files(&mut files, &vec![true, false, false, true]);
    assert_eq!(files, strings(&["a", "d"]));
}

#[test]
fn default_settings() {
    let s = Settings::new();
    assert_eq!(s.window_pos, Point { x: 300, y: 300 });
    assert_eq!(s.window_size, Point { x: 400, y: 300 });
    assert_eq!(s.max_recent_files, 10);
    let a = AppSettings::new(String::from("C:\\Docs"));
    assert_eq!(a.window_pos, CAppSettings::DEF_WINDOW_POS());
    assert_eq!(a.window_dims, Coord { x: 400, y: 300 });
    assert_eq!(a.last_seen_folder, "C:\\Docs");
    assert_eq!(CAppSettings::DEF_CFG_PATH, "settings.json");
}

#[test]
fn settings_error_messages() {
    assert_eq!(
        AppSettingsError::IOError(String::from("gone")).message(),
        "Unable to open settings or IO error. gone"
    );
    assert_eq!(
        AppSettingsError::SerializationError(String::from("x")).message(),
        "JSON serialization error writing settings. x"
    );
    assert_eq!(
        AppSettingsError::DeserializationError(String::from("y")).message(),
        "JSON deserialization error reading settings. y"
    );
}

#[test]
fn menu_label_to_key() {
    assert_eq!(menu_resource_to_lc("&Open File"), "open file");
    assert_eq!(menu_resource_to_lc("E&xit"), "exit");
    assert_eq!(menu_resource_to_lc(LMENU_FILE::NAME), "file");
    assert_eq!(menu_resource_to_lc(CMenuFile::CHILD[2]), "exit");
    assert_eq!(strip_accelerators("A&&B"), "AB");
}

#[test]
fn menu_template_text() {
    assert_eq!(TMenu::Menu(String::from("&File"), false).get_text(), "&File");
    assert_eq!(TMenu::MenuItem(String::from("&Open"), false, true).get_text(), "&Open");
    assert_eq!(TMenu::MenuSeparator(String::from("sep")).get_text(), "sep");
    assert_eq!(TMenu::ContextMenu(String::from("ctx"), true).get_text(), "ctx");
    assert_eq!(TMenu::NoMenu.get_text(), "");
}

#[test]
fn bulk_menu_builder_collects_items() {
    let b = BulkMenuBuilder::new()
        .add_menu(TMenu::Menu(String::from("&File"), false))
        .add_submenu_item(TMenu::MenuItem(String::from("&Open"), false, false))
        .add_submenu_item(TMenu::MenuSeparator(String::from("s")));
    assert_eq!(b.top().get_text(), "&File");
    assert_eq!(b.items().len(), 2);
    assert_eq!(b.items()[1].get_text(), "s");
}

#[test]
fn rect_setters_and_getters() {
    let mut r = Rect::new(1, 2, 3, 4);
    r.set_x(10);
    r.set_y(20);
    r.set_width(30);
    r.set_height(40);
    assert_eq!((*r.x(), *r.y(), *r.width(), *r.height()), (10, 20, 30, 40));
}

#[test]
fn translate_point_and_rect() {
    let mut p = Point { x: 1, y: 2 };
    let moved = p.translate(&Point { x: 5, y: -7 });
    assert_eq!(*moved, Point { x: 6, y: -5 });
    let mut r = rusty_csv_viewer::shape::Rect { x: 0, y: 0, width: 10, height: 20 };
    r.translate(&Point { x: 3, y: 4 });
    assert_eq!(r, rusty_csv_viewer::shape::Rect { x: 3, y: 4, width: 10, height: 20 });
}

#[test]
fn color_channels() {
    assert_eq!(ColorF(0x808080).channels(), (128, 128, 128));
    assert_eq!(ColorF(ColorF::BLACK).channels(), (0, 0, 0));
    assert_eq!(ColorF(ColorF::WHITE).channels(), (255, 255, 255));
    assert_eq!(ColorF(0x123456).channels(), (0x12, 0x34, 0x56));
}
