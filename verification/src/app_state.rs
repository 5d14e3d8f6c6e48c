use vstd::prelude::*;

use crate::query::Sort;

verus! {

/// The screen the program shows.
#[derive(Debug, Clone, Copy, PartialEq, Eq, Structural)]
pub enum Windows {
    /// The welcome screen with the city search and the menu.
    Main,
    /// The listings of the city searched for.
    Search,
    /// The data update screen.
    Update,
    /// The overview of all stored data.
    Data,
    /// The credits.
    Thanks,
}

/// How far the data update has come, as the update screen reports it.
#[derive(Debug, Clone, Copy, PartialEq, Eq, Structural)]
pub enum State {
    Yes,
    Stay,
    No,
}

/// What the user did in one frame.
#[derive(Debug, Clone, Copy, PartialEq, Eq, Structural)]
pub enum UiEvent {
    /// The window's close button.
    CloseRequested,
    /// "No" in the close confirmation dialog.
    KeepOpen,
    /// "Yes" in the close confirmation dialog.
    ConfirmClose,
    /// The search button of the welcome screen.
    Search,
    /// The data update button of the welcome screen.
    OpenUpdate,
    /// The data overview button of the welcome screen.
    OpenData,
    /// The credits button of the welcome screen.
    OpenThanks,
    /// The default order in the sort menu.
    SortDefault,
    /// An ascending order in the sort menu (a column of the sort order).
    SortAscending(Sort),
    /// A descending order in the sort menu.
    SortDescending(Sort),
    /// The close button of the listing screen.
    CloseSearch,
    /// The start button of the data update screen.
    StartUpdate,
    /// The back button of the update, overview and credits screens.
    Back,
}

/// What the program has to do in answer to an event.
#[derive(Debug)]
pub enum UiAction {
    Nothing,
    /// Keep the window open this time.
    CancelClose,
    /// Close the window.
    Close,
    /// Update the data of the city named by the text (in the background).
    RunUpdate(String),
}

/// An action as plain values.
pub enum UiActionView {
    Nothing,
    CancelClose,
    Close,
    RunUpdate(Seq<char>),
}

impl View for UiAction {
    type V = UiActionView;

    open spec fn view(&self) -> UiActionView {
        match self {
            UiAction::Nothing => UiActionView::Nothing,
            UiAction::CancelClose => UiActionView::CancelClose,
            UiAction::Close => UiActionView::Close,
            UiAction::RunUpdate(s) => UiActionView::RunUpdate(s@),
        }
    }
}

/// The state of the user interface.
pub struct MyApp {
    pub show_confirmation_dialog: bool,
    pub allowed_to_close: bool,
    /// The city name typed by the user.
    pub lbltext: String,
    pub position: String,
    pub selection: Windows,
    pub sort: Sort,
    pub state: State,
    /// 0 for ascending order, 1 for descending.
    pub u_d: u8,
}

/// The state of the user interface as plain values.
pub struct AppView {
    pub show_confirmation_dialog: bool,
    pub allowed_to_close: bool,
    pub lbltext: Seq<char>,
    pub position: Seq<char>,
    pub selection: Windows,
    pub sort: Sort,
    pub state: State,
    pub u_d: u8,
}

impl View for MyApp {
    type V = AppView;

    open spec fn view(&self) -> AppView {
        AppView {
            show_confirmation_dialog: self.show_confirmation_dialog,
            allowed_to_close: self.allowed_to_close,
            lbltext: self.lbltext@,
            position: self.position@,
            selection: self.selection,
            sort: self.sort,
            state: self.state,
            u_d: self.u_d,
        }
    }
}

/// The state the program starts in.
pub open spec fn initial_app() -> AppView {
    AppView {
        show_confirmation_dialog: false,
        allowed_to_close: false,
        lbltext: Seq::empty(),
        position: Seq::empty(),
        selection: Windows::Main,
        sort: Sort::Default,
        state: State::No,
        u_d: 0,
    }
}

/// The next state and the action for the event `e` in state `a`. Buttons only act where they
/// are shown: the dialog's while it is open, a screen's while it is the one shown.
pub open spec fn next(a: AppView, e: UiEvent) -> (AppView, UiActionView) {
    match e {
        UiEvent::CloseRequested => if a.allowed_to_close {
            (a, UiActionView::Nothing)
        } else {
            (AppView { show_confirmation_dialog: true, ..a }, UiActionView::CancelClose)
        },
        UiEvent::KeepOpen => if a.show_confirmation_dialog {
            (
                AppView { show_confirmation_dialog: false, allowed_to_close: false, ..a },
                UiActionView::Nothing,
            )
        } else {
            (a, UiActionView::Nothing)
        },
        UiEvent::ConfirmClose => if a.show_confirmation_dialog {
            (
                AppView { show_confirmation_dialog: false, allowed_to_close: true, ..a },
                UiActionView::Close,
            )
        } else {
            (a, UiActionView::Nothing)
        },
        UiEvent::Search => (
            if a.selection == Windows::Main {
                AppView { selection: Windows::Search, ..a }
            } else {
                a
            },
            UiActionView::Nothing,
        ),
        UiEvent::OpenUpdate => (
            if a.selection == Windows::Main {
                AppView { selection: Windows::Update, ..a }
            } else {
                a
            },
            UiActionView::Nothing,
        ),
        UiEvent::OpenData => (
            if a.selection == Windows::Main {
                AppView { selection: Windows::Data, ..a }
            } else {
                a
            },
            UiActionView::Nothing,
        ),
        UiEvent::OpenThanks => (
            if a.selection == Windows::Main {
                AppView { selection: Windows::Thanks, ..a }
            } else {
                a
            },
            UiActionView::Nothing,
        ),
        UiEvent::SortDefault => (
            if a.selection == Windows::Search {
                AppView { sort: Sort::Default, ..a }
            } else {
                a
            },
            UiActionView::Nothing,
        ),
        UiEvent::SortAscending(s) => (
            if a.selection == Windows::Search {
                AppView { sort: s, ..a }
            } else {
                a
            },
            UiActionView::Nothing,
        ),
        UiEvent::SortDescending(s) => (
            if a.selection == Windows::Search {
                AppView { sort: s, u_d: 1, ..a }
            } else {
                a
            },
            UiActionView::Nothing,
        ),
        UiEvent::CloseSearch => (
            if a.selection == Windows::Search {
                AppView { selection: Windows::Main, ..a }
            } else {
                a
            },
            UiActionView::Nothing,
        ),
        UiEvent::StartUpdate => if a.selection == Windows::Update {
            (AppView { state: State::Stay, ..a }, UiActionView::RunUpdate(a.lbltext))
        } else {
            (a, UiActionView::Nothing)
        },
        UiEvent::Back => (
            if a.selection == Windows::Update || a.selection == Windows::Data || a.selection
                == Windows::Thanks {
                AppView { selection: Windows::Main, ..a }
            } else {
                a
            },
            UiActionView::Nothing,
        ),
    }
}

impl MyApp {
    /// The state the program starts in.
    pub fn new() -> (app: MyApp)
        ensures
            app@ == initial_app(),
    {
        MyApp {
            show_confirmation_dialog: false,
            allowed_to_close: false,
            lbltext: String::new(),
            position: String::new(),
            selection: Windows::Main,
            sort: Sort::Default,
            state: State::No,
            u_d: 0,
        }
    }

    /// Applies the event `e` and tells what the program has to do.
    pub fn handle(&mut self, e: UiEvent) -> (act: UiAction)
        ensures
            (final(self)@, act@) == next(old(self)@, e),
    {
        match e {
            UiEvent::CloseRequested => {
                if self.allowed_to_close {
                    UiAction::Nothing
                } else {
                    self.show_confirmation_dialog = true;
                    UiAction::CancelClose
                }
            },
            UiEvent::KeepOpen => {
                if self.show_confirmation_dialog {
                    self.show_confirmation_dialog = false;
                    self.allowed_to_close = false;
                }
                UiAction::Nothing
            },
            UiEvent::ConfirmClose => {
                if self.show_confirmation_dialog {
                    self.show_confirmation_dialog = false;
                    self.allowed_to_close = true;
                    UiAction::Close
                } else {
                    UiAction::Nothing
                }
            },
            UiEvent::Search => {
                if self.selection == Windows::Main {
                    self.selection = Windows::Search;
                }
                UiAction::Nothing
            },
            UiEvent::OpenUpdate => {
                if self.selection == Windows::Main {
                    self.selection = Windows::Update;
                }
                UiAction::Nothing
            },
            UiEvent::OpenData => {
                if self.selection == Windows::Main {
                    self.selection = Windows::Data;
                }
                UiAction::Nothing
            },
            UiEvent::OpenThanks => {
                if self.selection == Windows::Main {
                    self.selection = Windows::Thanks;
                }
                UiAction::Nothing
            },
            UiEvent::SortDefault => {
                if self.selection == Windows::Search {
                    self.sort = Sort::Default;
                }
                UiAction::Nothing
            },
            UiEvent::SortAscending(s) => {
                if self.selection == Windows::Search {
                    self.sort = s;
                }
                UiAction::Nothing
            },
            UiEvent::SortDescending(s) => {
                if self.selection == Windows::Search {
                    self.u_d = 1;
                    self.sort = s;
                }
                UiAction::Nothing
            },
            UiEvent::CloseSearch => {
                if self.selection == Windows::Search {
                    self.selection = Windows::Main;
                }
                UiAction::Nothing
            },
            UiEvent::StartUpdate => {
                if self.selection == Windows::Update {
                    self.state = State::Stay;
                    UiAction::RunUpdate(self.lbltext.clone())
                } else {
                    UiAction::Nothing
                }
            },
            UiEvent::Back => {
                if self.selection == Windows::Update || self.selection == Windows::Data
                    || self.selection == Windows::Thanks {
                    self.selection = Windows::Main;
                }
                UiAction::Nothing
            },
        }
    }
}

/// What the update screen says of the update's progress.
pub open spec fn status_text(state: State) -> Seq<char> {
    match state {
        State::Yes => "update已完成"@,
        State::Stay => "正在update"@,
        State::No => "update未开始"@,
    }
}

/// What the update screen says of the update's progress.
pub fn update_status(state: State) -> (r: &'static str)
    ensures
        r@ == status_text(state),
{
    match state {
        State::Yes => "update已完成",
        State::Stay => "正在update",
        State::No => "update未开始",
    }
}

/// The heading of the listing screen for the city typed as `lbltext`.
pub fn search_heading(lbltext: &str) -> (r: String)
    ensures
        r@ == "您现在正在浏览"@ + lbltext@ + "的二手房："@,
{
    let mut s = String::from_str("您现在正在浏览");
    s.append(lbltext);
    s.append("的二手房：");
    s
}

// ---------------------------------------------------------------------------
// Laws of the user interface
// ---------------------------------------------------------------------------

/// The dialog asking whether to close is never open while closing is already allowed.
pub open spec fn dialog_consistent(a: AppView) -> bool {
    a.show_confirmation_dialog ==> !a.allowed_to_close
}

/// The program starts with the dialog closed and closing not allowed.
pub proof fn initial_dialog_consistent()
    ensures
        dialog_consistent(initial_app()),
        !initial_app().allowed_to_close,
{
}

/// Every event keeps the dialog consistent with the permission to close.
pub proof fn next_keeps_dialog_consistent(a: AppView, e: UiEvent)
    requires
        dialog_consistent(a),
    ensures
        dialog_consistent(next(a, e).0),
{
}

/// The window closes only when the user confirms in the open dialog, and is allowed to close
/// only that way.
pub proof fn close_needs_confirmation(a: AppView, e: UiEvent)
    ensures
        next(a, e).1 is Close ==> e == UiEvent::ConfirmClose && a.show_confirmation_dialog,
        next(a, e).0.allowed_to_close && !a.allowed_to_close ==> e == UiEvent::ConfirmClose
            && a.show_confirmation_dialog,
{
}

/// On the listing screen, a choice in the sort menu sets the column it names. A descending
/// choice sets the direction to descending; an ascending or the default choice leaves the
/// direction as it was, so once descending is chosen it stays descending.
pub proof fn sort_choice_effects(a: AppView, s: Sort)
    requires
        a.selection == Windows::Search,
    ensures
        next(a, UiEvent::SortAscending(s)).0.sort == s,
        next(a, UiEvent::SortAscending(s)).0.u_d == a.u_d,
        next(a, UiEvent::SortDescending(s)).0.sort == s,
        next(a, UiEvent::SortDescending(s)).0.u_d == 1,
        next(a, UiEvent::SortDefault).0.sort == Sort::Default,
        next(a, UiEvent::SortDefault).0.u_d == a.u_d,
{
}

/// The direction never goes back from descending to ascending.
pub proof fn descending_is_kept(a: AppView, e: UiEvent)
    requires
        a.u_d <= 1,
    ensures
        a.u_d <= next(a, e).0.u_d <= 1,
{
}

/// The typed city name is never changed by an event, and an update runs on the name typed.
pub proof fn update_uses_typed_name(a: AppView, e: UiEvent)
    ensures
        next(a, e).0.lbltext == a.lbltext,
        next(a, e).1 matches UiActionView::RunUpdate(name) ==> name == a.lbltext
            && a.selection == Windows::Update && next(a, e).0.state == State::Stay,
{
}

} // verus!
