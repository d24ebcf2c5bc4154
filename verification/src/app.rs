//! The application around the two controllers: it starts up, shows one of
//! the two screens, hands each message to the controller it is meant for,
//! and winds down when the window is to close.

use crate::backlog;
use crate::board::{initial_state, step, BoardState, EffectModel};
use crate::lanes::names_model;
use crate::task;
use crate::task::TaskModel;
use crate::view_controller::ViewController;
use vstd::prelude::*;
use vstd::view::View as _;

verus! {

/// The lanes of a board that has no configuration of its own.
pub open spec fn default_lanes() -> Seq<Seq<char>> {
    seq!["To do"@, "In progress"@, "Done"@]
}

/// What the configuration file holds: the lane names, in board order.
#[derive(Debug, PartialEq, Eq)]
pub struct Config {
    pub lanes: Vec<String>,
}

impl vstd::view::View for Config {
    type V = Seq<Seq<char>>;

    open spec fn view(&self) -> Seq<Seq<char>> {
        names_model(self.lanes@)
    }
}

impl Default for Config {
    fn default() -> (res: Self)
        ensures
            res@ == default_lanes(),
    {
        let mut lanes: Vec<String> = Vec::new();
        lanes.push("To do".to_owned());
        lanes.push("In progress".to_owned());
        lanes.push("Done".to_owned());
        assert(names_model(lanes@) =~= default_lanes());
        Config { lanes }
    }
}

impl Clone for Config {
    fn clone(&self) -> (res: Self)
        ensures
            res@ == self@,
    {
        let mut lanes: Vec<String> = Vec::new();
        let mut i: usize = 0;
        while i < self.lanes.len()
            invariant
                i <= self.lanes.len(),
                lanes@.len() == i,
                forall|k: int| 0 <= k < i ==> (#[trigger] lanes@[k])@ == self.lanes@[k]@,
            decreases self.lanes.len() - i,
        {
            lanes.push(self.lanes[i].clone());
            i += 1;
        }
        assert(names_model(lanes@) =~= self@);
        Config { lanes }
    }
}

/// The configuration to start with, given what reading the file brought: a
/// file that could not be read or parsed gives way to the built-in lanes, so
/// a broken configuration never stops the application.
pub fn config_or_default(loaded: Result<Config, String>) -> (res: Config)
    ensures
        res@ == match loaded {
            Ok(config) => config@,
            Err(_) => default_lanes(),
        },
{
    match loaded {
        Ok(config) => config,
        Err(_) => Config::default(),
    }
}

/// Which of the two screens is shown.
#[derive(Clone, Copy, Debug, PartialEq, Eq)]
pub enum View {
    Backlog,
    Sprint,
}

/// What the window can report. Only a request to close it matters here.
#[derive(Clone, Copy, Debug, PartialEq, Eq)]
pub enum Event {
    CloseRequested,
    Other,
}

/// A message to the application.
#[derive(Debug, PartialEq, Eq)]
pub enum Message {
    /// Start-up is done: the backing store is ready and this configuration holds.
    Initialised(Config),
    BacklogMessage(backlog::Message),
    TaskMessage(task::Message),
    EventReceived(Event),
}

/// The value of a message to the application.
pub enum MessageModel {
    Initialised(Seq<Seq<char>>),
    BacklogMessage(backlog::MessageModel),
    TaskMessage(crate::board::MessageModel),
    EventReceived(Event),
}

impl vstd::view::View for Message {
    type V = MessageModel;

    open spec fn view(&self) -> MessageModel {
        match *self {
            Message::Initialised(config) => MessageModel::Initialised(config@),
            Message::BacklogMessage(msg) => MessageModel::BacklogMessage(msg@),
            Message::TaskMessage(msg) => MessageModel::TaskMessage(msg@),
            Message::EventReceived(event) => MessageModel::EventReceived(event),
        }
    }
}

impl Clone for Message {
    fn clone(&self) -> (res: Self)
        ensures
            res@ == self@,
    {
        match self {
            Message::Initialised(config) => Message::Initialised(config.clone()),
            Message::BacklogMessage(msg) => Message::BacklogMessage(msg.clone()),
            Message::TaskMessage(msg) => Message::TaskMessage(msg.clone()),
            Message::EventReceived(event) => Message::EventReceived(*event),
        }
    }
}

/// What the application asks its caller to do.
#[derive(Clone, Debug, PartialEq, Eq)]
pub enum Effect {
    /// Nothing to do.
    Nothing,
    /// Set up the backing store, read the configuration and answer with
    /// `Message::Initialised`.
    Initialise,
    /// Load the board's tasks and answer with the board's `TasksLoaded`.
    LoadTasks,
    /// Load the backlog's tasks and answer with the backlog's `TasksLoaded`.
    LoadBacklog,
    /// Perform this effect of the board and answer with a message to the board.
    Board(task::Effect),
    /// Write this configuration back, then close the window.
    SaveConfig(Config),
    /// Close the window.
    CloseWindow,
}

/// The value of an effect of the application.
#[verifier::ext_equal]
pub enum AppEffectModel {
    Nothing,
    Initialise,
    LoadTasks,
    LoadBacklog,
    Board(EffectModel),
    SaveConfig(Seq<Seq<char>>),
    CloseWindow,
}

impl vstd::view::View for Effect {
    type V = AppEffectModel;

    open spec fn view(&self) -> AppEffectModel {
        match *self {
            Effect::Nothing => AppEffectModel::Nothing,
            Effect::Initialise => AppEffectModel::Initialise,
            Effect::LoadTasks => AppEffectModel::LoadTasks,
            Effect::LoadBacklog => AppEffectModel::LoadBacklog,
            Effect::Board(effect) => AppEffectModel::Board(effect@),
            Effect::SaveConfig(config) => AppEffectModel::SaveConfig(config@),
            Effect::CloseWindow => AppEffectModel::CloseWindow,
        }
    }
}

/// The state of an application that has started.
#[verifier::ext_equal]
pub struct RunningModel {
    pub config: Seq<Seq<char>>,
    pub backlog: Seq<TaskModel>,
    pub board: BoardState,
    pub current_view: View,
}

/// The state of the application.
#[verifier::ext_equal]
pub enum AppModel {
    Initialising,
    Initialised(RunningModel),
}

/// What one message does to an application that is starting. The
/// configuration makes it run, on the board, with nothing loaded yet; a
/// request to close the window is followed at once.
pub open spec fn step_initialising(msg: MessageModel) -> (AppModel, AppEffectModel) {
    match msg {
        MessageModel::Initialised(lanes) => (
            AppModel::Initialised(
                RunningModel {
                    config: lanes,
                    backlog: Seq::empty(),
                    board: initial_state(lanes),
                    current_view: View::Sprint,
                },
            ),
            AppEffectModel::LoadTasks,
        ),
        MessageModel::EventReceived(Event::CloseRequested) => (
            AppModel::Initialising,
            AppEffectModel::CloseWindow,
        ),
        _ => (AppModel::Initialising, AppEffectModel::Nothing),
    }
}

/// What one message does to an application that runs. The two requests to
/// change screen are followed here; every other message of a controller goes
/// to that controller. A request to close the window has the configuration
/// written back first.
pub open spec fn step_initialised(app: RunningModel, msg: MessageModel) -> (
    RunningModel,
    AppEffectModel,
) {
    match msg {
        MessageModel::TaskMessage(crate::board::MessageModel::OpenBacklog) => (
            RunningModel { current_view: View::Backlog, ..app },
            AppEffectModel::LoadBacklog,
        ),
        MessageModel::TaskMessage(task_msg) => (
            RunningModel { board: step(app.board, task_msg).0, ..app },
            AppEffectModel::Board(step(app.board, task_msg).1),
        ),
        MessageModel::BacklogMessage(backlog::MessageModel::OpenSprint) => (
            RunningModel { current_view: View::Sprint, ..app },
            AppEffectModel::Nothing,
        ),
        MessageModel::BacklogMessage(backlog_msg) => (
            RunningModel { backlog: backlog::step(app.backlog, backlog_msg), ..app },
            AppEffectModel::Nothing,
        ),
        MessageModel::EventReceived(Event::CloseRequested) => (
            app,
            AppEffectModel::SaveConfig(app.config),
        ),
        MessageModel::EventReceived(Event::Other) => (app, AppEffectModel::Nothing),
        MessageModel::Initialised(_) => (app, AppEffectModel::Nothing),
    }
}

/// What one message does to the application, and the effect it asks for.
pub open spec fn app_step(s: AppModel, msg: MessageModel) -> (AppModel, AppEffectModel) {
    match s {
        AppModel::Initialising => step_initialising(msg),
        AppModel::Initialised(app) => (
            AppModel::Initialised(step_initialised(app, msg).0),
            step_initialised(app, msg).1,
        ),
    }
}

/// What is on the screen.
#[derive(Clone, Debug, PartialEq, Eq)]
pub enum Screen {
    /// The application is still starting.
    Loading,
    /// The backlog: the titles of its tasks.
    Backlog(Vec<String>),
    /// The board.
    Sprint(task::BoardView),
}

/// The value of what is on the screen.
#[verifier::ext_equal]
pub enum ScreenModel {
    Loading,
    Backlog(Seq<Seq<char>>),
    Sprint(crate::board::BoardViewModel),
}

impl vstd::view::View for Screen {
    type V = ScreenModel;

    open spec fn view(&self) -> ScreenModel {
        match *self {
            Screen::Loading => ScreenModel::Loading,
            Screen::Backlog(shown) => ScreenModel::Backlog(names_model(shown@)),
            Screen::Sprint(board) => ScreenModel::Sprint(board@),
        }
    }
}

/// What the application shows in the state `s`.
pub open spec fn app_view(s: AppModel) -> ScreenModel {
    match s {
        AppModel::Initialising => ScreenModel::Loading,
        AppModel::Initialised(app) => match app.current_view {
            View::Backlog => ScreenModel::Backlog(backlog::titles(app.backlog)),
            View::Sprint => ScreenModel::Sprint(crate::board::board_view(app.board)),
        },
    }
}

/// An application that has started: its configuration, its two controllers,
/// and the screen it shows.
pub struct Initialised {
    config: Config,
    backlog_controller: backlog::ViewController,
    tasks_controller: task::ViewController,
    current_view: View,
}

impl Initialised {
    /// The state that this value stands for.
    pub closed spec fn state(&self) -> RunningModel {
        RunningModel {
            config: self.config@,
            backlog: self.backlog_controller.tasks(),
            board: self.tasks_controller.state(),
            current_view: self.current_view,
        }
    }
}

/// The application: starting, or started.
pub enum App {
    Initialising,
    Initialised(Initialised),
}

impl App {
    /// The state that this value stands for.
    pub open spec fn state(&self) -> AppModel {
        match *self {
            App::Initialising => AppModel::Initialising,
            App::Initialised(app) => AppModel::Initialised(app.state()),
        }
    }

    /// An application that is starting, with the request to get it started.
    pub fn new() -> (res: (Self, Effect))
        ensures
            res.0.state() == AppModel::Initialising,
            res.1@ == AppEffectModel::Initialise,
    {
        (App::Initialising, Effect::Initialise)
    }

    /// Takes one message: changes the state at once and answers with the
    /// effect to perform.
    pub fn update(&mut self, msg: Message) -> (effect: Effect)
        ensures
            (final(self).state(), effect@) == app_step(old(self).state(), msg@),
    {
        match self {
            App::Initialising => self.update_initialising(msg),
            App::Initialised(app) => App::update_initialised(app, msg),
        }
    }

    /// Takes one message while the application is starting.
    fn update_initialising(&mut self, msg: Message) -> (effect: Effect)
        requires
            old(self).state() == AppModel::Initialising,
        ensures
            (final(self).state(), effect@) == step_initialising(msg@),
    {
        match msg {
            Message::Initialised(config) => {
                let tasks_controller = task::ViewController::new(config.clone().lanes);
                let backlog_controller = backlog::ViewController::new();
                *self = App::Initialised(
                    Initialised {
                        config,
                        backlog_controller,
                        tasks_controller,
                        current_view: View::Sprint,
                    },
                );
                Effect::LoadTasks
            },
            Message::EventReceived(Event::CloseRequested) => Effect::CloseWindow,
            _ => Effect::Nothing,
        }
    }

    /// Takes one message while the application runs.
    fn update_initialised(app: &mut Initialised, msg: Message) -> (effect: Effect)
        ensures
            (final(app).state(), effect@) == step_initialised(old(app).state(), msg@),
    {
        match msg {
            Message::TaskMessage(task::Message::OpenBacklog) => {
                app.current_view = View::Backlog;
                Effect::LoadBacklog
            },
            Message::TaskMessage(task_msg) => Effect::Board(app.tasks_controller.update(task_msg)),
            Message::BacklogMessage(backlog::Message::OpenSprint) => {
                app.current_view = View::Sprint;
                Effect::Nothing
            },
            Message::BacklogMessage(backlog_msg) => {
                app.backlog_controller.update(backlog_msg);
                Effect::Nothing
            },
            Message::EventReceived(event) => {
                match event {
                    Event::CloseRequested => Effect::SaveConfig(app.config.clone()),
                    Event::Other => Effect::Nothing,
                }
            },
            Message::Initialised(_) => Effect::Nothing,
        }
    }

    /// What is to be on the screen.
    pub fn view(&self) -> (res: Screen)
        ensures
            res@ == app_view(self.state()),
    {
        match self {
            App::Initialising => Screen::Loading,
            App::Initialised(app) => match app.current_view {
                View::Backlog => Screen::Backlog(app.backlog_controller.view()),
                View::Sprint => Screen::Sprint(app.tasks_controller.view()),
            },
        }
    }
}

} // verus!
