//! The application shell: the resident file, the mailbox through which opened
//! files arrive, and what the side panel shows.

use crate::element::{GrannyFile, GrannyFileView};
use crate::element_ui::{element_list, section_of, sections_follow_elements, sections_of};
use crate::widget::{Widget, WidgetView};
use std::collections::VecDeque;
use vstd::prelude::*;

verus! {

/// What the file loader hands to the shell: the bytes of an opened file and
/// the name to show for it.
#[derive(Debug, PartialEq)]
pub struct FileOpened {
    pub data: Vec<u8>,
    pub file_name: String,
}

/// What a [`FileOpened`] stands for.
#[verifier::ext_equal]
pub struct FileOpenedView {
    pub data: Seq<u8>,
    pub file_name: Seq<char>,
}

impl DeepView for FileOpened {
    type V = FileOpenedView;

    open spec fn deep_view(&self) -> FileOpenedView {
        FileOpenedView { data: self.data@, file_name: self.file_name@ }
    }
}

impl View for FileOpened {
    type V = FileOpenedView;

    open spec fn view(&self) -> FileOpenedView {
        self.deep_view()
    }
}

/// The state of the shell.
///
/// At most one file is resident at a time. Opened files wait in the mailbox,
/// oldest first, until a frame takes them out.
pub struct TemplateApp {
    file: Option<GrannyFile>,
    file_name: String,
    inbox: VecDeque<FileOpened>,
}

/// What a [`TemplateApp`] stands for.
#[verifier::ext_equal]
pub struct TemplateAppView {
    /// The resident file, if any.
    pub file: Option<GrannyFileView>,
    /// The name shown for the resident file.
    pub file_name: Seq<char>,
    /// The opened files that no frame has taken yet, oldest first.
    pub inbox: Seq<FileOpenedView>,
}

/// One decoding outcome: the name of an opened file and the decoded file, or
/// `None` where its bytes could not be decoded.
pub struct Delivery {
    pub file_name: Seq<char>,
    pub parsed: Option<GrannyFileView>,
}

impl TemplateAppView {
    /// The state of a shell that has just started: no file, an empty name, an
    /// empty mailbox.
    pub open spec fn initial() -> TemplateAppView {
        TemplateAppView { file: None, file_name: Seq::empty(), inbox: Seq::empty() }
    }

    /// The state after the file dialog has closed: a picked file joins the
    /// mailbox behind those that wait, a cancelled dialog changes nothing.
    pub open spec fn sent(self, picked: Option<FileOpenedView>) -> TemplateAppView {
        match picked {
            Some(evt) => TemplateAppView { inbox: self.inbox.push(evt), ..self },
            None => self,
        }
    }

    /// The state after a frame has polled the mailbox: the oldest file, if
    /// any, has left it.
    pub open spec fn polled(self) -> TemplateAppView {
        if self.inbox.len() > 0 {
            TemplateAppView { inbox: self.inbox.drop_first(), ..self }
        } else {
            self
        }
    }

    /// The state after the bytes of a file named `file_name` were decoded with
    /// the outcome `parsed`: a decoded file takes the place of the resident
    /// one, together with its name; a failure changes nothing.
    pub open spec fn installed(
        self,
        file_name: Seq<char>,
        parsed: Option<GrannyFileView>,
    ) -> TemplateAppView {
        match parsed {
            Some(file) => TemplateAppView { file: Some(file), file_name: file_name, ..self },
            None => self,
        }
    }

    /// The state after a run of decoding outcomes, the oldest first.
    pub open spec fn installed_all(self, deliveries: Seq<Delivery>) -> TemplateAppView
        decreases deliveries.len(),
    {
        if deliveries.len() == 0 {
            self
        } else {
            self.installed_all(deliveries.drop_last()).installed(
                deliveries.last().file_name,
                deliveries.last().parsed,
            )
        }
    }

    /// What the side panel shows: the name of the resident file as a heading
    /// above a scroll area with one section for each root element, or a
    /// single label where no file is resident.
    pub open spec fn side_panel(self) -> Seq<WidgetView> {
        match self.file {
            Some(file) => seq![
                WidgetView::Heading { text: self.file_name },
                WidgetView::ScrollArea { body: sections_of(file.root_elements) },
            ],
            None => seq![WidgetView::Label { text: "No file open"@ }],
        }
    }
}

impl View for TemplateApp {
    type V = TemplateAppView;

    closed spec fn view(&self) -> TemplateAppView {
        TemplateAppView {
            file: self.file.deep_view(),
            file_name: self.file_name@,
            inbox: self.inbox.deep_view(),
        }
    }
}

impl Default for TemplateApp {
    fn default() -> (app: Self)
        ensures
            app@ == TemplateAppView::initial(),
    {
        let app = TemplateApp { file: None, file_name: String::new(), inbox: VecDeque::new() };
        assert(app.inbox.deep_view() =~= Seq::empty());
        app
    }
}

impl TemplateApp {
    /// A shell that has just started.
    pub fn new() -> (app: Self)
        ensures
            app@ == TemplateAppView::initial(),
    {
        Default::default()
    }

    /// Takes the outcome of the file dialog: a picked file is put into the
    /// mailbox, a cancelled dialog (`None`) leaves everything as it was.
    pub fn open_file(&mut self, picked: Option<FileOpened>)
        ensures
            final(self)@ == old(self)@.sent(picked.deep_view()),
    {
        match picked {
            Some(evt) => {
                self.inbox.push_back(evt);
                assert(self.inbox.deep_view() =~= old(self).inbox.deep_view().push(evt@));
            },
            None => {},
        }
    }

    /// Polls the mailbox without waiting: takes out the oldest opened file,
    /// if one waits.
    pub fn try_recv(&mut self) -> (evt: Option<FileOpened>)
        ensures
            final(self)@ == old(self)@.polled(),
            evt.deep_view() == if old(self)@.inbox.len() > 0 {
                Some(old(self)@.inbox[0])
            } else {
                None
            },
    {
        let evt = self.inbox.pop_front();
        assert(self.inbox.deep_view() =~= old(self)@.polled().inbox);
        evt
    }

    /// Takes the outcome of decoding the bytes of an opened file. A decoded
    /// file becomes the resident file and the name of `evt` the name shown for
    /// it; the file that was resident before is dropped. Where decoding failed
    /// (`None`) nothing changes. Returns whether a file was installed, so that
    /// the caller can report a failure.
    pub fn install(&mut self, evt: FileOpened, parsed: Option<GrannyFile>) -> (loaded: bool)
        ensures
            final(self)@ == old(self)@.installed(evt@.file_name, parsed.deep_view()),
            loaded == parsed.is_some(),
    {
        match parsed {
            Some(file) => {
                self.file = Some(file);
                self.file_name = evt.file_name;
                true
            },
            None => false,
        }
    }

    /// What the side panel shows.
    pub fn side_panel(&self) -> (r: Vec<Widget>)
        ensures
            r.deep_view() == self@.side_panel(),
    {
        let r = match &self.file {
            Some(file) => vec![
                Widget::heading(self.file_name.clone()),
                Widget::scroll_area(element_list(&file.root_elements)),
            ],
            None => vec![Widget::label(String::from_str("No file open"))],
        };
        assert(r.deep_view() =~= self@.side_panel());
        r
    }
}

/// After any run of decoding outcomes, the resident file and the heading of
/// the side panel are those of the latest outcome that decoded: no earlier
/// one and no failed one shows.
pub proof fn heading_follows_last_parsed(s: TemplateAppView, deliveries: Seq<Delivery>, k: int)
    requires
        0 <= k < deliveries.len(),
        deliveries[k].parsed is Some,
        forall|j: int| k < j < deliveries.len() ==> deliveries[j].parsed is None,
    ensures
        s.installed_all(deliveries).file == deliveries[k].parsed,
        s.installed_all(deliveries).file_name == deliveries[k].file_name,
        s.installed_all(deliveries).side_panel()[0] == (WidgetView::Heading {
            text: deliveries[k].file_name,
        }),
        s.installed_all(deliveries).inbox == s.inbox,
    decreases deliveries.len(),
{
    if k < deliveries.len() - 1 {
        heading_follows_last_parsed(s, deliveries.drop_last(), k);
    } else {
        lemma_installed_all_keeps_inbox(s, deliveries.drop_last());
    }
}

/// A run of decoding outcomes of which none decoded changes nothing.
pub proof fn failed_parses_change_nothing(s: TemplateAppView, deliveries: Seq<Delivery>)
    requires
        forall|j: int| 0 <= j < deliveries.len() ==> deliveries[j].parsed is None,
    ensures
        s.installed_all(deliveries) == s,
    decreases deliveries.len(),
{
    if deliveries.len() > 0 {
        failed_parses_change_nothing(s, deliveries.drop_last());
    }
}

/// Decoding outcomes never touch the mailbox.
proof fn lemma_installed_all_keeps_inbox(s: TemplateAppView, deliveries: Seq<Delivery>)
    ensures
        s.installed_all(deliveries).inbox == s.inbox,
    decreases deliveries.len(),
{
    if deliveries.len() > 0 {
        lemma_installed_all_keeps_inbox(s, deliveries.drop_last());
    }
}

/// A cancelled file dialog changes nothing; a picked file changes neither the
/// resident file nor its name, and waits behind the files opened before it.
pub proof fn dialog_keeps_resident_file(s: TemplateAppView, picked: Option<FileOpenedView>)
    ensures
        s.sent(None) == s,
        s.sent(picked).file == s.file,
        s.sent(picked).file_name == s.file_name,
        s.sent(picked).side_panel() == s.side_panel(),
        picked is Some ==> s.sent(picked).inbox == s.inbox.push(picked->0),
{
}

/// Polling the mailbox changes neither the resident file nor its name, and
/// files leave the mailbox in the order in which they were opened: the one
/// that waited longest leaves first, and one opened meanwhile goes to the end.
pub proof fn mailbox_keeps_order(s: TemplateAppView, evt: FileOpenedView)
    ensures
        s.polled().file == s.file,
        s.polled().file_name == s.file_name,
        s.polled().side_panel() == s.side_panel(),
        s.inbox.len() > 0 ==> s.sent(Some(evt)).inbox[0] == s.inbox[0],
        s.inbox.len() > 0 ==> s.sent(Some(evt)).polled() == s.polled().sent(Some(evt)),
        s.inbox.len() == 0 ==> s.sent(Some(evt)).inbox[0] == evt,
        s.inbox.len() == 0 ==> s.sent(Some(evt)).polled() == s,
{
    if s.inbox.len() > 0 {
        assert(s.sent(Some(evt)).polled().inbox =~= s.polled().sent(Some(evt)).inbox);
    } else {
        assert(s.sent(Some(evt)).polled().inbox =~= s.inbox);
    }
}

/// With a file of N root elements resident, the side panel shows the file's
/// name as a heading and, in a scroll area, exactly N collapsible sections,
/// in the order of the root elements and titled with their names.
pub proof fn side_panel_lists_roots(s: TemplateAppView)
    requires
        s.file is Some,
    ensures
        s.side_panel().len() == 2,
        s.side_panel()[0] == (WidgetView::Heading { text: s.file_name }),
        s.side_panel()[1] is ScrollArea,
        s.side_panel()[1]->ScrollArea_body.len() == s.file->0.root_elements.len(),
        forall|i: int|
            0 <= i < s.file->0.root_elements.len() ==> {
                &&& #[trigger] s.side_panel()[1]->ScrollArea_body[i] == section_of(
                    s.file->0.root_elements[i],
                )
                &&& s.side_panel()[1]->ScrollArea_body[i] is CollapsingHeader
                &&& s.side_panel()[1]->ScrollArea_body[i]->title == s.file->0.root_elements[i].name
            },
{
    sections_follow_elements(s.file->0.root_elements);
}

/// Where no file was resident, a failed decoding leaves the side panel at its
/// single label.
pub proof fn failed_parse_shows_no_file(s: TemplateAppView, file_name: Seq<char>)
    requires
        s.file is None,
    ensures
        s.installed(file_name, None) == s,
        s.installed(file_name, None).side_panel() == seq![
            WidgetView::Label { text: "No file open"@ },
        ],
{
}

} // verus!
