//! The state of the desktop front end's page for one format: an editor with
//! an error line under it, and a result view reached by submitting.
//! Each user action is a step from one state to the next; the widgets only
//! show the state.
use vstd::prelude::*;
use crate::convert::{Format, outcome_of};

verus! {

/// Which view of a format's page is shown.
#[derive(Clone, Copy, Debug, PartialEq, Eq, Structural)]
pub enum Screen {
    /// The editor, with the attach and submit buttons.
    Input,
    /// The translation, with the "another one" button.
    Result,
}

/// The state of the page of one format.
pub struct FormatPage {
    /// The format that the editor's text is read as.
    pub format: Format,
    /// The view shown.
    pub screen: Screen,
    /// The editor's text.
    pub input: String,
    /// The text of the result view.
    pub result: String,
    /// The text of the error line.
    pub error: String,
    /// Whether the error line is revealed.
    pub error_shown: bool,
}

/// A page's state as values.
pub struct PageModel {
    pub format: Format,
    pub screen: Screen,
    pub input: Seq<char>,
    pub result: Seq<char>,
    pub error: Seq<char>,
    pub error_shown: bool,
}

/// What the user does on a page.
pub enum PageAction {
    /// Changes the editor's text to the given one.
    Edit(Seq<char>),
    /// Clicks submit.
    Submit,
    /// Clicks "another one".
    AnotherOne,
    /// Attaches a file: its text, or why it could not be read.
    Attach(Result<Seq<char>, Seq<char>>),
}

impl View for FormatPage {
    type V = PageModel;

    open spec fn view(&self) -> PageModel {
        PageModel {
            format: self.format,
            screen: self.screen,
            input: self.input@,
            result: self.result@,
            error: self.error@,
            error_shown: self.error_shown,
        }
    }
}

/// A fresh page of `format`: the empty editor, no result, the error line hidden.
pub open spec fn initial_page(format: Format) -> PageModel {
    PageModel {
        format,
        screen: Screen::Input,
        input: Seq::empty(),
        result: Seq::empty(),
        error: Seq::empty(),
        error_shown: false,
    }
}

/// `m` with the editor's text replaced by `text`. The editor reports a
/// change, which hides the error line, unless both texts are empty.
pub open spec fn with_input(m: PageModel, text: Seq<char>) -> PageModel {
    PageModel {
        input: text,
        error_shown: m.error_shown && m.input.len() == 0 && text.len() == 0,
        ..m
    }
}

/// The page after one user action.
pub open spec fn page_step(m: PageModel, action: PageAction) -> PageModel {
    match action {
        PageAction::Edit(text) => PageModel { input: text, error_shown: false, ..m },
        PageAction::Submit => match outcome_of(m.format, m.input) {
            Ok(nix) => PageModel { screen: Screen::Result, result: nix, error_shown: false, ..m },
            Err(message) => PageModel { error: message, error_shown: true, ..m },
        },
        PageAction::AnotherOne => PageModel { screen: Screen::Input, ..with_input(m, Seq::empty()) },
        PageAction::Attach(loaded) => match loaded {
            Ok(text) => with_input(PageModel { error_shown: false, ..m }, text),
            Err(message) => PageModel { error: message, error_shown: true, ..m },
        },
    }
}

/// The page after a sequence of user actions, in order.
pub open spec fn page_run(m: PageModel, actions: Seq<PageAction>) -> PageModel
    decreases actions.len(),
{
    if actions.len() == 0 {
        m
    } else {
        page_step(page_run(m, actions.drop_last()), actions.last())
    }
}

/// Whether the `i`-th action is a submit whose translation succeeds, with no
/// "another one" after it.
pub open spec fn submitted_successfully_since(
    start: PageModel,
    actions: Seq<PageAction>,
    i: int,
) -> bool {
    &&& 0 <= i < actions.len()
    &&& actions[i] is Submit
    &&& outcome_of(start.format, page_run(start, actions.take(i)).input) is Ok
    &&& forall|j: int| i < j < actions.len() ==> !(#[trigger] actions[j] is AnotherOne)
}

/// A fresh page shows the empty editor with the error line hidden and no result.
pub proof fn law_fresh_page(format: Format)
    ensures
        initial_page(format).format == format,
        initial_page(format).screen == Screen::Input,
        initial_page(format).input.len() == 0,
        initial_page(format).result.len() == 0,
        !initial_page(format).error_shown,
{
}

/// The actions keep the page's format.
pub proof fn law_page_keeps_format(start: PageModel, actions: Seq<PageAction>)
    ensures
        page_run(start, actions).format == start.format,
    decreases actions.len(),
{
    if actions.len() > 0 {
        law_page_keeps_format(start, actions.drop_last());
    }
}

/// From the editor, the page shows a result exactly when some submit
/// translated the editor's text and no "another one" came after it: only a
/// successful submit leads to the result view, and only "another one" leads
/// back.
pub proof fn law_result_view_needs_successful_submit(
    start: PageModel,
    actions: Seq<PageAction>,
)
    requires
        start.screen == Screen::Input,
    ensures
        page_run(start, actions).screen == Screen::Result <==> exists|i: int|
            submitted_successfully_since(start, actions, i),
    decreases actions.len(),
{
    if actions.len() == 0 {
        assert forall|i: int| !submitted_successfully_since(start, actions, i) by {}
    } else {
        let prefix = actions.drop_last();
        let n = actions.len() - 1;
        let before = page_run(start, prefix);
        law_result_view_needs_successful_submit(start, prefix);
        law_page_keeps_format(start, prefix);
        assert(actions.take(n) =~= prefix);
        assert forall|i: int| 0 <= i < n implies #[trigger] actions.take(i) =~= prefix.take(i) by {}
        let last = actions.last();
        assert(last == actions[n]);
        if last is AnotherOne {
            assert forall|i: int| !submitted_successfully_since(start, actions, i) by {
                if 0 <= i < n {
                    assert(actions[n] is AnotherOne);
                }
            }
        } else {
            // With any other last action, a witness of the prefix is one of the whole.
            assert forall|i: int| #[trigger]
                submitted_successfully_since(start, prefix, i) implies submitted_successfully_since(
                start,
                actions,
                i,
            ) by {
                assert(actions.take(i) =~= prefix.take(i));
                assert forall|j: int| i < j < actions.len() implies !(
                #[trigger] actions[j] is AnotherOne) by {
                    if j < n {
                        assert(actions[j] == prefix[j]);
                    }
                }
            }
            assert forall|i: int|
                #[trigger] submitted_successfully_since(start, actions, i) && i < n
                    implies submitted_successfully_since(start, prefix, i) by {
                assert(actions.take(i) =~= prefix.take(i));
                assert(actions[i] == prefix[i]);
                assert forall|j: int| i < j < prefix.len() implies !(
                #[trigger] prefix[j] is AnotherOne) by {
                    assert(actions[j] == prefix[j]);
                }
            }
            if last is Submit && outcome_of(start.format, before.input) is Ok {
                assert(submitted_successfully_since(start, actions, n));
            } else {
                if submitted_successfully_since(start, actions, n) {
                    assert(false);
                }
                if exists|i: int| submitted_successfully_since(start, actions, i) {
                    let i = choose|i: int| submitted_successfully_since(start, actions, i);
                    assert(i < n);
                    assert(submitted_successfully_since(start, prefix, i));
                }
                if exists|i: int| submitted_successfully_since(start, prefix, i) {
                    let i = choose|i: int| submitted_successfully_since(start, prefix, i);
                    assert(submitted_successfully_since(start, actions, i));
                }
            }
        }
    }
}

/// A submit whose translation succeeds shows exactly that translation in the
/// result view, whatever the view showed before, and hides the error line.
pub proof fn law_submit_success_shows_translation(m: PageModel, nix: Seq<char>)
    requires
        outcome_of(m.format, m.input) == Ok::<Seq<char>, Seq<char>>(nix),
    ensures
        page_step(m, PageAction::Submit).screen == Screen::Result,
        page_step(m, PageAction::Submit).result == nix,
        !page_step(m, PageAction::Submit).error_shown,
        page_step(m, PageAction::Submit).input == m.input,
        page_step(m, PageAction::Submit).format == m.format,
{
}

/// A submit whose translation fails shows exactly the reader's message in the
/// error line and leaves the view, the editor and the result as they were.
pub proof fn law_submit_failure_shows_message(m: PageModel, message: Seq<char>)
    requires
        outcome_of(m.format, m.input) == Err::<Seq<char>, Seq<char>>(message),
    ensures
        page_step(m, PageAction::Submit).error == message,
        page_step(m, PageAction::Submit).error_shown,
        page_step(m, PageAction::Submit).screen == m.screen,
        page_step(m, PageAction::Submit).input == m.input,
        page_step(m, PageAction::Submit).result == m.result,
{
}

/// An attached file's text replaces the editor's text, whatever it was, and
/// hides the error line; a file that could not be read leaves the editor and
/// shows why in the error line. The view and the result stay.
pub proof fn law_attach_replaces_editor(m: PageModel, loaded: Result<Seq<char>, Seq<char>>)
    ensures
        page_step(m, PageAction::Attach(loaded)).screen == m.screen,
        page_step(m, PageAction::Attach(loaded)).result == m.result,
        match loaded {
            Ok(text) => {
                &&& page_step(m, PageAction::Attach(loaded)).input == text
                &&& !page_step(m, PageAction::Attach(loaded)).error_shown
            },
            Err(message) => {
                &&& page_step(m, PageAction::Attach(loaded)).input == m.input
                &&& page_step(m, PageAction::Attach(loaded)).error == message
                &&& page_step(m, PageAction::Attach(loaded)).error_shown
            },
        },
{
}

/// Editing sets the editor's text to exactly the new text and hides the error
/// line; the view and the result stay.
pub proof fn law_edit_sets_editor(m: PageModel, text: Seq<char>)
    ensures
        page_step(m, PageAction::Edit(text)).input == text,
        !page_step(m, PageAction::Edit(text)).error_shown,
        page_step(m, PageAction::Edit(text)).screen == m.screen,
        page_step(m, PageAction::Edit(text)).result == m.result,
{
}

/// From the editor, whenever the page shows a result, that result is the
/// translation of the editor's text at a submit that succeeded with no
/// "another one" after it.
pub proof fn law_result_view_shows_translation(start: PageModel, actions: Seq<PageAction>)
    requires
        start.screen == Screen::Input,
    ensures
        page_run(start, actions).screen == Screen::Result ==> exists|i: int|
            #![trigger submitted_successfully_since(start, actions, i)]
            submitted_successfully_since(start, actions, i) && outcome_of(
                start.format,
                page_run(start, actions.take(i)).input,
            ) == Ok::<Seq<char>, Seq<char>>(page_run(start, actions).result),
    decreases actions.len(),
{
    if actions.len() > 0 {
        let prefix = actions.drop_last();
        let n = actions.len() - 1;
        let before = page_run(start, prefix);
        law_result_view_shows_translation(start, prefix);
        law_page_keeps_format(start, prefix);
        assert(actions.take(n) =~= prefix);
        let last = actions.last();
        assert(last == actions[n]);
        let after = page_run(start, actions);
        if after.screen == Screen::Result {
            if last is Submit && outcome_of(start.format, before.input) is Ok {
                assert(submitted_successfully_since(start, actions, n));
            } else {
                assert(!(last is AnotherOne));
                assert(before.screen == Screen::Result);
                assert(after.result == before.result);
                let i = choose|i: int|
                    #![trigger submitted_successfully_since(start, prefix, i)]
                    submitted_successfully_since(start, prefix, i) && outcome_of(
                        start.format,
                        page_run(start, prefix.take(i)).input,
                    ) == Ok::<Seq<char>, Seq<char>>(before.result);
                assert(actions.take(i) =~= prefix.take(i));
                assert(actions[i] == prefix[i]);
                assert forall|j: int| i < j < actions.len() implies !(
                #[trigger] actions[j] is AnotherOne) by {
                    if j < n {
                        assert(actions[j] == prefix[j]);
                    }
                }
                assert(submitted_successfully_since(start, actions, i));
            }
        }
    }
}

/// Going back to the editor always empties it: after "another one" the page
/// shows the editor, with no text in it.
pub proof fn law_another_one_empties_editor(m: PageModel)
    ensures
        page_step(m, PageAction::AnotherOne).screen == Screen::Input,
        page_step(m, PageAction::AnotherOne).input.len() == 0,
{
}

/// The style scheme of the editors: dark where the desktop is dark.
pub fn style_scheme_id(dark: bool) -> (r: &'static str)
    ensures
        r@ == if dark {
            "Adwaita-dark"@
        } else {
            "Adwaita"@
        },
{
    if dark {
        "Adwaita-dark"
    } else {
        "Adwaita"
    }
}

impl FormatPage {
    /// A fresh page: the empty editor, no result, the error line hidden.
    pub fn new(format: Format) -> (r: FormatPage)
        ensures
            r@ == initial_page(format),
    {
        let r = FormatPage {
            format,
            screen: Screen::Input,
            input: String::new(),
            result: String::new(),
            error: String::new(),
            error_shown: false,
        };
        assert(r@.input =~= Seq::<char>::empty());
        r
    }

    /// The user changed the editor's text: the error line is hidden.
    pub fn edit(&mut self, text: String)
        ensures
            final(self)@ == page_step(old(self)@, PageAction::Edit(text@)),
    {
        self.input = text;
        self.error_shown = false;
    }

    /// The editor's text is replaced.
    fn replace_input(&mut self, text: String)
        ensures
            final(self)@ == with_input(old(self)@, text@),
    {
        if !self.input.as_str().is_empty() || !text.as_str().is_empty() {
            self.error_shown = false;
        }
        self.input = text;
    }

    /// The user submitted the editor's text. Where it translates, the error
    /// line is hidden and the result view shows the Nix text; else the error
    /// line shows the reader's message and the view stays.
    pub fn submit(&mut self)
        ensures
            final(self)@ == page_step(old(self)@, PageAction::Submit),
    {
        match self.format.to_nix(self.input.as_str()) {
            Ok(nix) => {
                self.error_shown = false;
                self.result = nix;
                self.screen = Screen::Result;
            },
            Err(e) => {
                self.error = e.to_string();
                self.error_shown = true;
            },
        }
    }

    /// The user asked for another conversion: the editor is emptied and shown.
    pub fn another_one(&mut self)
        ensures
            final(self)@ == page_step(old(self)@, PageAction::AnotherOne),
    {
        self.replace_input(String::new());
        self.screen = Screen::Input;
    }

    /// A file the user attached was read: its text, or why it could not be
    /// read (not found, not UTF-8). The text replaces the editor's, with the
    /// error line hidden; a failure is shown in the error line.
    pub fn attach(&mut self, loaded: Result<String, String>)
        ensures
            final(self)@ == page_step(
                old(self)@,
                PageAction::Attach(
                    match loaded {
                        Ok(text) => Ok(text@),
                        Err(message) => Err(message@),
                    },
                ),
            ),
    {
        match loaded {
            Ok(text) => {
                self.error_shown = false;
                self.replace_input(text);
            },
            Err(message) => {
                self.error = message;
                self.error_shown = true;
            },
        }
    }
}

} // verus!
