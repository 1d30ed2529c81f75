//! The menu bar: a single "File" menu, and the filter of the file dialog that
//! its "Open" button brings up.

use vstd::prelude::*;

verus! {

/// Where the shell runs.
#[derive(Debug, Clone, Copy, PartialEq, Eq, Structural)]
pub enum Platform {
    /// As a program on the desktop.
    Native,
    /// Inside a web page.
    Web,
}

/// What a menu button asks the shell to do.
#[derive(Debug, Clone, Copy, PartialEq, Eq, Structural)]
pub enum Command {
    /// Bring up the file dialog.
    Open,
    /// Close the window.
    Quit,
}

/// A button of a menu.
#[derive(Debug, PartialEq)]
pub struct MenuButton {
    pub text: String,
    pub command: Command,
}

/// A menu of the menu bar.
#[derive(Debug, PartialEq)]
pub struct Menu {
    pub title: String,
    pub buttons: Vec<MenuButton>,
}

/// The filter of a file dialog: a name and the file extensions it lets
/// through.
#[derive(Debug, PartialEq)]
pub struct FileFilter {
    pub name: String,
    pub extensions: Vec<String>,
}

/// What a [`MenuButton`] stands for.
#[verifier::ext_equal]
pub struct MenuButtonView {
    pub text: Seq<char>,
    pub command: Command,
}

/// What a [`Menu`] stands for.
#[verifier::ext_equal]
pub struct MenuView {
    pub title: Seq<char>,
    pub buttons: Seq<MenuButtonView>,
}

/// What a [`FileFilter`] stands for.
#[verifier::ext_equal]
pub struct FileFilterView {
    pub name: Seq<char>,
    pub extensions: Seq<Seq<char>>,
}

impl DeepView for MenuButton {
    type V = MenuButtonView;

    open spec fn deep_view(&self) -> MenuButtonView {
        MenuButtonView { text: self.text@, command: self.command }
    }
}

impl View for MenuButton {
    type V = MenuButtonView;

    open spec fn view(&self) -> MenuButtonView {
        self.deep_view()
    }
}

impl DeepView for Menu {
    type V = MenuView;

    open spec fn deep_view(&self) -> MenuView {
        MenuView { title: self.title@, buttons: self.buttons.deep_view() }
    }
}

impl View for Menu {
    type V = MenuView;

    open spec fn view(&self) -> MenuView {
        self.deep_view()
    }
}

impl DeepView for FileFilter {
    type V = FileFilterView;

    open spec fn deep_view(&self) -> FileFilterView {
        FileFilterView { name: self.name@, extensions: self.extensions.deep_view() }
    }
}

impl View for FileFilter {
    type V = FileFilterView;

    open spec fn view(&self) -> FileFilterView {
        self.deep_view()
    }
}

/// The "File" menu: "Open" on every platform, and "Quit" below it on the
/// desktop only (a web page has no window to close).
pub open spec fn file_menu_view(platform: Platform) -> MenuView {
    let open = MenuButtonView { text: "Open"@, command: Command::Open };
    let quit = MenuButtonView { text: "Quit"@, command: Command::Quit };
    MenuView {
        title: "File"@,
        buttons: if platform == Platform::Native {
            seq![open, quit]
        } else {
            seq![open]
        },
    }
}

/// The filter of the file dialog: Granny2 files, by the extension `gr2`.
pub open spec fn file_filter_view() -> FileFilterView {
    FileFilterView { name: "Granny2 File"@, extensions: seq!["gr2"@] }
}

/// The "File" menu of the menu bar.
pub fn file_menu(platform: Platform) -> (r: Menu)
    ensures
        r@ == file_menu_view(platform),
{
    let mut buttons = vec![MenuButton { text: String::from_str("Open"), command: Command::Open }];
    match platform {
        Platform::Native => {
            buttons.push(MenuButton { text: String::from_str("Quit"), command: Command::Quit });
        },
        Platform::Web => {},
    }
    let r = Menu { title: String::from_str("File"), buttons };
    assert(r@.buttons =~= file_menu_view(platform).buttons);
    r
}

/// The filter that the file dialog is opened with.
pub fn file_filter() -> (r: FileFilter)
    ensures
        r@ == file_filter_view(),
{
    let r = FileFilter {
        name: String::from_str("Granny2 File"),
        extensions: vec![String::from_str("gr2")],
    };
    assert(r@.extensions =~= file_filter_view().extensions);
    r
}

} // verus!
