use gr2_viewer::app::{FileOpened, TemplateApp};
use gr2_viewer::element::{Element, ElementType, GrannyFile};
use gr2_viewer::menu::{file_filter, file_menu, Command, FileFilter, Menu, MenuButton, Platform};
use gr2_viewer::widget::Widget;

fn opened(file_name: &str, data: Vec<u8>) -> FileOpened {
    FileOpened { data, file_name: file_name.to_string() }
}

fn file_with(names: &[&str]) -> GrannyFile {
    let mut root_elements = Vec::new();
    for name in names {
        root_elements.push(Element {
            name: name.to_string(),
            element: ElementType::String("hello".to_string()),
        });
    }
    GrannyFile { root_elements }
}

fn no_file_panel() -> Vec<Widget> {
    vec![Widget::Label { text: "No file open".to_string() }]
}

fn heading_of(app: &TemplateApp) -> Option<String> {
    match app.side_panel().first() {
        Some(Widget::Heading { text }) => Some(text.clone()),
        _ => None,
    }
}

fn hello_section(title: &str) -> Widget {
    Widget::CollapsingHeader {
        title: title.to_string(),
        body: vec![Widget::Label { text: "hello".to_string() }],
    }
}

#[test]
fn new_shell_shows_no_file() {
    let mut app = TemplateApp::new();
    assert_eq!(app.side_panel(), no_file_panel());
    assert_eq!(app.try_recv(), None);
}

#[test]
fn default_shell_is_a_new_shell() {
    let mut app = TemplateApp::default();
    assert_eq!(app.side_panel(), no_file_panel());
    assert_eq!(app.try_recv(), None);
}

#[test]
fn loaded_file_shows_name_and_root_section() {
    let mut app = TemplateApp::new();
    app.open_file(Some(opened("model.gr2", vec![1, 2, 3])));
    let evt = app.try_recv().unwrap();
    assert!(app.install(evt, Some(file_with(&["Root"]))));
    assert_eq!(
        app.side_panel(),
        vec![
            Widget::Heading { text: "model.gr2".to_string() },
            Widget::ScrollArea { body: vec![hello_section("Root")] },
        ]
    );
}

#[test]
fn malformed_bytes_leave_no_file_open() {
    let mut app = TemplateApp::new();
    app.open_file(Some(opened("broken.gr2", vec![0x47, 0x52, 0x32, 0x00])));
    let evt = app.try_recv().unwrap();
    assert!(opengr2::GrannyFile::load_from_bytes(&evt.data).is_none());
    assert!(!app.install(evt, None));
    assert_eq!(app.side_panel(), no_file_panel());
    assert_eq!(app.try_recv(), None);
}

#[test]
fn bytes_without_signature_are_no_file() {
    let data = vec![0u8; 128];
    assert!(opengr2::GrannyFile::load_from_bytes(&data).is_none());
    assert!(opengr2::GrannyFile::load_from_bytes(&[]).is_none());
}

#[test]
fn failed_parse_keeps_the_resident_file() {
    let mut app = TemplateApp::new();
    assert!(app.install(opened("good.gr2", vec![]), Some(file_with(&["A", "B"]))));
    let before = app.side_panel();
    assert!(!app.install(opened("bad.gr2", vec![9, 9]), None));
    assert_eq!(app.side_panel(), before);
    assert_eq!(heading_of(&app), Some("good.gr2".to_string()));
}

#[test]
fn heading_follows_the_latest_file_that_parsed() {
    let mut app = TemplateApp::new();
    assert_eq!(heading_of(&app), None);
    assert!(app.install(opened("a.gr2", vec![]), Some(file_with(&["A"]))));
    assert_eq!(heading_of(&app), Some("a.gr2".to_string()));
    assert!(!app.install(opened("b.gr2", vec![]), None));
    assert_eq!(heading_of(&app), Some("a.gr2".to_string()));
    assert!(app.install(opened("c.gr2", vec![]), Some(file_with(&["C1", "C2"]))));
    assert_eq!(heading_of(&app), Some("c.gr2".to_string()));
    assert!(!app.install(opened("d.gr2", vec![]), None));
    assert_eq!(heading_of(&app), Some("c.gr2".to_string()));
    assert_eq!(
        app.side_panel(),
        vec![
            Widget::Heading { text: "c.gr2".to_string() },
            Widget::ScrollArea { body: vec![hello_section("C1"), hello_section("C2")] },
        ]
    );
}

#[test]
fn new_file_replaces_the_old_one_whole() {
    let mut app = TemplateApp::new();
    assert!(app.install(opened("old.gr2", vec![]), Some(file_with(&["A", "B", "C"]))));
    assert!(app.install(opened("new.gr2", vec![]), Some(file_with(&[]))));
    assert_eq!(
        app.side_panel(),
        vec![
            Widget::Heading { text: "new.gr2".to_string() },
            Widget::ScrollArea { body: vec![] },
        ]
    );
}

#[test]
fn cancelled_dialog_changes_nothing() {
    let mut app = TemplateApp::new();
    app.open_file(None);
    assert_eq!(app.side_panel(), no_file_panel());
    assert_eq!(app.try_recv(), None);

    assert!(app.install(opened("kept.gr2", vec![]), Some(file_with(&["Root"]))));
    let before = app.side_panel();
    app.open_file(None);
    assert_eq!(app.side_panel(), before);
    assert_eq!(app.try_recv(), None);
}

#[test]
fn opened_file_waits_until_a_frame_takes_it() {
    let mut app = TemplateApp::new();
    app.open_file(Some(opened("model.gr2", vec![7, 8, 9])));
    assert_eq!(app.side_panel(), no_file_panel());
    assert_eq!(app.try_recv(), Some(opened("model.gr2", vec![7, 8, 9])));
    assert_eq!(app.try_recv(), None);
    assert_eq!(app.side_panel(), no_file_panel());
}

#[test]
fn mailbox_hands_files_out_oldest_first() {
    let mut app = TemplateApp::new();
    app.open_file(Some(opened("first.gr2", vec![1])));
    app.open_file(None);
    app.open_file(Some(opened("second.gr2", vec![2])));
    app.open_file(Some(opened("third.gr2", vec![3])));
    assert_eq!(app.try_recv(), Some(opened("first.gr2", vec![1])));
    app.open_file(Some(opened("fourth.gr2", vec![4])));
    assert_eq!(app.try_recv(), Some(opened("second.gr2", vec![2])));
    assert_eq!(app.try_recv(), Some(opened("third.gr2", vec![3])));
    assert_eq!(app.try_recv(), Some(opened("fourth.gr2", vec![4])));
    assert_eq!(app.try_recv(), None);
}

#[test]
fn side_panel_has_one_section_per_root_in_order() {
    let names = ["ArtToolInfo", "ExporterInfo", "FromFileName", "Textures", "Materials", "Meshes"];
    let mut app = TemplateApp::new();
    assert!(app.install(opened("suzanne.gr2", vec![]), Some(file_with(&names))));
    let panel = app.side_panel();
    assert_eq!(panel.len(), 2);
    match &panel[1] {
        Widget::ScrollArea { body } => {
            assert_eq!(body.len(), names.len());
            for (i, name) in names.iter().enumerate() {
                assert_eq!(body[i], hello_section(name));
            }
        }
        other => panic!("expected a scroll area, found {:?}", other),
    }
}

#[test]
fn file_menu_on_the_desktop_has_open_and_quit() {
    assert_eq!(
        file_menu(Platform::Native),
        Menu {
            title: "File".to_string(),
            buttons: vec![
                MenuButton { text: "Open".to_string(), command: Command::Open },
                MenuButton { text: "Quit".to_string(), command: Command::Quit },
            ],
        }
    );
}

#[test]
fn file_menu_on_the_web_has_no_quit() {
    assert_eq!(
        file_menu(Platform::Web),
        Menu {
            title: "File".to_string(),
            buttons: vec![MenuButton { text: "Open".to_string(), command: Command::Open }],
        }
    );
}

#[test]
fn file_dialog_filters_by_the_gr2_extension() {
    assert_eq!(
        file_filter(),
        FileFilter { name: "Granny2 File".to_string(), extensions: vec!["gr2".to_string()] }
    );
}
