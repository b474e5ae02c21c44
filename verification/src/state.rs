//! Application state for the presentation shell: the current screen, a
//! counter, a selectable item list and an input buffer, updated by messages.

use vstd::prelude::*;

verus! {

/// The screens the presentation shell can show.
#[derive(Debug, Clone, Copy, PartialEq, Eq, Structural)]
pub enum Screen {
    /// The landing screen.
    Home,
    /// The dashboard with its widgets.
    Dashboard,
    /// The interactive playground.
    Interactive,
    /// The settings screen.
    Settings,
}

/// The display name of each screen.
pub open spec fn screen_name(s: Screen) -> Seq<char> {
    match s {
        Screen::Home => "Home"@,
        Screen::Dashboard => "Dashboard"@,
        Screen::Interactive => "Interactive"@,
        Screen::Settings => "Settings"@,
    }
}

/// The screen after `s` in the fixed forward cycle.
pub open spec fn next_screen(s: Screen) -> Screen {
    match s {
        Screen::Home => Screen::Dashboard,
        Screen::Dashboard => Screen::Interactive,
        Screen::Interactive => Screen::Settings,
        Screen::Settings => Screen::Home,
    }
}

/// The screen before `s`: the inverse of the forward cycle.
pub open spec fn prev_screen(s: Screen) -> Screen {
    match s {
        Screen::Home => Screen::Settings,
        Screen::Dashboard => Screen::Home,
        Screen::Interactive => Screen::Dashboard,
        Screen::Settings => Screen::Interactive,
    }
}

impl Screen {
    /// The display name of the screen.
    pub fn name(&self) -> (name: &'static str)
        ensures
            name@ == screen_name(*self),
    {
        match self {
            Screen::Home => "Home",
            Screen::Dashboard => "Dashboard",
            Screen::Interactive => "Interactive",
            Screen::Settings => "Settings",
        }
    }
}

/// Mathematical image of a [`Message`].
pub ghost enum MessageView {
    Quit,
    Navigate(Screen),
    Increment,
    Decrement,
    SelectNext,
    SelectPrevious,
    AddItem(Seq<char>),
    RemoveItem,
    UpdateMetrics,
    SelectNextProcess,
    SelectPreviousProcess,
    RefreshDashboard,
    NextScreen,
    PrevScreen,
    Input(Seq<char>),
}

/// Every state change the shell can ask for.
#[derive(Debug, Clone)]
pub enum Message {
    /// Quit the application.
    Quit,
    /// Show a specific screen.
    Navigate(Screen),
    /// Increase the counter.
    Increment,
    /// Decrease the counter.
    Decrement,
    /// Select the next item, wrapping around.
    SelectNext,
    /// Select the previous item, wrapping around.
    SelectPrevious,
    /// Append an item to the list.
    AddItem(String),
    /// Remove the selected item.
    RemoveItem,
    /// Refresh the metrics feed (handled by the dashboard layer).
    UpdateMetrics,
    /// Select the next process row (handled by the dashboard layer).
    SelectNextProcess,
    /// Select the previous process row (handled by the dashboard layer).
    SelectPreviousProcess,
    /// Redraw the dashboard (handled by the dashboard layer).
    RefreshDashboard,
    /// Show the next screen in the cycle.
    NextScreen,
    /// Show the previous screen in the cycle.
    PrevScreen,
    /// Replace the input buffer.
    Input(String),
}

impl View for Message {
    type V = MessageView;

    open spec fn view(&self) -> MessageView {
        match self {
            Message::Quit => MessageView::Quit,
            Message::Navigate(screen) => MessageView::Navigate(*screen),
            Message::Increment => MessageView::Increment,
            Message::Decrement => MessageView::Decrement,
            Message::SelectNext => MessageView::SelectNext,
            Message::SelectPrevious => MessageView::SelectPrevious,
            Message::AddItem(item) => MessageView::AddItem(item@),
            Message::RemoveItem => MessageView::RemoveItem,
            Message::UpdateMetrics => MessageView::UpdateMetrics,
            Message::SelectNextProcess => MessageView::SelectNextProcess,
            Message::SelectPreviousProcess => MessageView::SelectPreviousProcess,
            Message::RefreshDashboard => MessageView::RefreshDashboard,
            Message::NextScreen => MessageView::NextScreen,
            Message::PrevScreen => MessageView::PrevScreen,
            Message::Input(text) => MessageView::Input(text@),
        }
    }
}

/// Mathematical image of an [`AppState`].
#[verifier::ext_equal]
pub ghost struct AppStateView {
    pub current_screen: Screen,
    pub title: Seq<char>,
    pub counter: int,
    pub items: Seq<Seq<char>>,
    pub selected_index: int,
    pub selected_process: int,
    pub should_quit: bool,
    pub input: Seq<char>,
}

/// The state shared by every screen of the presentation shell.
#[derive(Debug)]
pub struct AppState {
    /// The screen being displayed.
    pub current_screen: Screen,
    /// The application title.
    pub title: String,
    /// The demonstration counter.
    pub counter: i32,
    /// The demonstration item list.
    pub items: Vec<String>,
    /// The index of the selected item.
    pub selected_index: usize,
    /// The index of the selected process row on the dashboard.
    pub selected_process: usize,
    /// Whether the application should quit.
    pub should_quit: bool,
    /// The user's input buffer.
    pub input: String,
}

impl View for AppState {
    type V = AppStateView;

    open spec fn view(&self) -> AppStateView {
        AppStateView {
            current_screen: self.current_screen,
            title: self.title@,
            counter: self.counter as int,
            items: self.items.deep_view(),
            selected_index: self.selected_index as int,
            selected_process: self.selected_process as int,
            should_quit: self.should_quit,
            input: self.input@,
        }
    }
}

impl Default for AppState {
    /// The initial state: the home screen, a zero counter, three sample
    /// items with the first selected, and an empty input buffer.
    fn default() -> (s: Self)
        ensures
            s@.current_screen == Screen::Home,
            s@.title == "WebATUI Reference"@,
            s@.counter == 0,
            s@.items == seq!["Item 1"@, "Item 2"@, "Item 3"@],
            s@.selected_index == 0,
            s@.selected_process == 0,
            !s@.should_quit,
            s@.input == Seq::<char>::empty(),
    {
        let mut items: Vec<String> = Vec::new();
        items.push("Item 1".to_owned());
        items.push("Item 2".to_owned());
        items.push("Item 3".to_owned());
        let s = AppState {
            current_screen: Screen::Home,
            title: "WebATUI Reference".to_owned(),
            counter: 0,
            items,
            selected_index: 0,
            selected_process: 0,
            should_quit: false,
            input: String::new(),
        };
        proof {
            assert(s@.items =~~= seq!["Item 1"@, "Item 2"@, "Item 3"@]);
        }
        s
    }
}

/// What one message does to the state.  The metrics- and process-related
/// messages are routed to the dashboard layer and leave this state as it is.
pub open spec fn update_spec(s: AppStateView, m: MessageView) -> AppStateView {
    match m {
        MessageView::Quit => AppStateView { should_quit: true, ..s },
        MessageView::Navigate(screen) => AppStateView { current_screen: screen, ..s },
        MessageView::NextScreen => AppStateView { current_screen: next_screen(s.current_screen), ..s },
        MessageView::PrevScreen => AppStateView { current_screen: prev_screen(s.current_screen), ..s },
        MessageView::Increment => AppStateView { counter: s.counter + 1, ..s },
        MessageView::Decrement => AppStateView { counter: s.counter - 1, ..s },
        MessageView::SelectNext => {
            if s.items.len() > 0 {
                AppStateView { selected_index: (s.selected_index + 1) % s.items.len() as int, ..s }
            } else {
                s
            }
        },
        MessageView::SelectPrevious => {
            if s.items.len() > 0 {
                AppStateView {
                    selected_index: if s.selected_index == 0 {
                        s.items.len() - 1
                    } else {
                        s.selected_index - 1
                    },
                    ..s
                }
            } else {
                s
            }
        },
        MessageView::AddItem(item) => AppStateView { items: s.items.push(item), ..s },
        MessageView::RemoveItem => {
            if s.items.len() > 0 && s.selected_index < s.items.len() {
                let items = s.items.remove(s.selected_index);
                AppStateView {
                    items,
                    selected_index: if s.selected_index >= items.len() && items.len() > 0 {
                        items.len() - 1
                    } else {
                        s.selected_index
                    },
                    ..s
                }
            } else {
                s
            }
        },
        MessageView::UpdateMetrics => s,
        MessageView::SelectNextProcess => s,
        MessageView::SelectPreviousProcess => s,
        MessageView::RefreshDashboard => s,
        MessageView::Input(text) => AppStateView { input: text, ..s },
    }
}

/// The machine-width side conditions of [`AppState::update`]: the counter
/// and the selection index must not wrap.
pub open spec fn update_fits(s: AppStateView, m: MessageView) -> bool {
    &&& m is Increment ==> s.counter < i32::MAX
    &&& m is Decrement ==> s.counter > i32::MIN
    &&& m is SelectNext ==> s.selected_index < usize::MAX
}

impl AppState {
    /// Applies one message to the state.
    pub fn update(&mut self, msg: Message)
        requires
            update_fits(old(self)@, msg@),
        ensures
            final(self)@ == update_spec(old(self)@, msg@),
    {
        match msg {
            Message::Quit => {
                self.should_quit = true;
            },
            Message::Navigate(screen) => {
                self.current_screen = screen;
            },
            Message::NextScreen => {
                self.current_screen = match self.current_screen {
                    Screen::Home => Screen::Dashboard,
                    Screen::Dashboard => Screen::Interactive,
                    Screen::Interactive => Screen::Settings,
                    Screen::Settings => Screen::Home,
                };
            },
            Message::PrevScreen => {
                self.current_screen = match self.current_screen {
                    Screen::Home => Screen::Settings,
                    Screen::Dashboard => Screen::Home,
                    Screen::Interactive => Screen::Dashboard,
                    Screen::Settings => Screen::Interactive,
                };
            },
            Message::Increment => {
                self.counter = self.counter + 1;
            },
            Message::Decrement => {
                self.counter = self.counter - 1;
            },
            Message::SelectNext => {
                if self.items.len() > 0 {
                    self.selected_index = (self.selected_index + 1) % self.items.len();
                }
            },
            Message::SelectPrevious => {
                if self.items.len() > 0 {
                    self.selected_index = if self.selected_index == 0 {
                        self.items.len() - 1
                    } else {
                        self.selected_index - 1
                    };
                }
            },
            Message::AddItem(item) => {
                let ghost item_view = item@;
                self.items.push(item);
                proof {
                    assert(self.items.deep_view() =~~= old(self)@.items.push(item_view));
                }
            },
            Message::RemoveItem => {
                if self.items.len() > 0 && self.selected_index < self.items.len() {
                    self.items.remove(self.selected_index);
                    proof {
                        assert(self.items.deep_view() =~~= old(self)@.items.remove(
                            old(self)@.selected_index,
                        ));
                    }
                    if self.selected_index >= self.items.len() && self.items.len() > 0 {
                        self.selected_index = self.items.len() - 1;
                    }
                }
            },
            Message::UpdateMetrics => {},
            Message::SelectNextProcess => {},
            Message::SelectPreviousProcess => {},
            Message::RefreshDashboard => {},
            Message::Input(text) => {
                self.input = text;
            },
        }
        proof {
            assert(self@ =~~= update_spec(old(self)@, msg@));
        }
    }
}

} // verus!
