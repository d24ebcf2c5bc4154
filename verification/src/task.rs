//! The task entity and the board controller.

use crate::board::{
    advance_lane, board_view, closed, create_task, dialog_view, edit_task, initial_state,
    lane_view, lemma_task_position_is, lemma_task_position_none, lemma_task_position_some,
    load_tasks, move_to_lane, open_modal, remove_task, step, submit, task_position,
    tasks_in_lane, update_description, update_title, BoardState, BoardViewModel, DialogModel,
    Draft, EffectModel, LaneModel, MessageModel, ModalState,
};
use crate::lanes::{names_model, LaneRegistry};
use vstd::prelude::*;

verus! {

/// A task as the backing store holds it.
#[derive(Debug, PartialEq, Eq)]
pub struct Task {
    pub id: i64,
    pub title: String,
    pub description: Option<String>,
    pub lane: String,
}

/// The mathematical value of a [`Task`].
#[verifier::ext_equal]
pub struct TaskModel {
    pub id: i64,
    pub title: Seq<char>,
    pub description: Option<Seq<char>>,
    pub lane: Seq<char>,
}

/// The value of an optional string.
pub open spec fn text_model(text: Option<String>) -> Option<Seq<char>> {
    match text {
        Some(s) => Some(s@),
        None => None,
    }
}

impl View for Task {
    type V = TaskModel;

    open spec fn view(&self) -> TaskModel {
        TaskModel {
            id: self.id,
            title: self.title@,
            description: text_model(self.description),
            lane: self.lane@,
        }
    }
}

/// Copies an optional string.
pub fn clone_text(text: &Option<String>) -> (res: Option<String>)
    ensures
        res == *text,
{
    match text {
        Some(s) => Some(s.clone()),
        None => None,
    }
}

impl Clone for Task {
    fn clone(&self) -> (res: Self)
        ensures
            res == *self,
    {
        Task {
            id: self.id,
            title: self.title.clone(),
            description: clone_text(&self.description),
            lane: self.lane.clone(),
        }
    }
}

/// A task that the backing store has not seen yet: it has no id.
#[derive(Debug, PartialEq, Eq)]
pub struct NewTask {
    pub title: String,
    pub description: Option<String>,
    pub lane: String,
}

/// The mathematical value of a [`NewTask`].
#[verifier::ext_equal]
pub struct NewTaskModel {
    pub title: Seq<char>,
    pub description: Option<Seq<char>>,
    pub lane: Seq<char>,
}

impl View for NewTask {
    type V = NewTaskModel;

    open spec fn view(&self) -> NewTaskModel {
        NewTaskModel {
            title: self.title@,
            description: text_model(self.description),
            lane: self.lane@,
        }
    }
}

/// The dialog that a request asks to open.
#[derive(Clone, Copy, Debug, PartialEq, Eq)]
pub enum Modal {
    NewTask,
    ViewTask(i64),
    EditTask(i64),
}

impl Default for Task {
    fn default() -> (res: Self)
        ensures
            res@ == (TaskModel {
                id: 0,
                title: Seq::empty(),
                description: None,
                lane: Seq::empty(),
            }),
    {
        Task { id: 0, title: String::new(), description: None, lane: String::new() }
    }
}

impl Clone for NewTask {
    fn clone(&self) -> (res: Self)
        ensures
            res == *self,
    {
        NewTask {
            title: self.title.clone(),
            description: clone_text(&self.description),
            lane: self.lane.clone(),
        }
    }
}

impl Default for NewTask {
    fn default() -> (res: Self)
        ensures
            res@ == (NewTaskModel { title: Seq::empty(), description: None, lane: Seq::empty() }),
    {
        NewTask { title: String::new(), description: None, lane: String::new() }
    }
}

impl NewTask {
    /// A task to be, with these fields.
    pub fn new(title: String, description: Option<String>, lane: String) -> (res: Self)
        ensures
            res.title == title,
            res.description == description,
            res.lane == lane,
    {
        NewTask { title, description, lane }
    }
}

/// The values of a sequence of tasks, in order.
pub open spec fn task_models(tasks: Seq<Task>) -> Seq<TaskModel> {
    Seq::new(tasks.len(), |i: int| tasks[i]@)
}

/// The value of what a load brought: the tasks, or the reason it failed.
pub open spec fn loaded_model(loaded: Result<Vec<Task>, String>) -> Result<
    Seq<TaskModel>,
    Seq<char>,
> {
    match loaded {
        Ok(tasks) => Ok(task_models(tasks@)),
        Err(reason) => Err(reason@),
    }
}

/// The value of what a write to the backing store answered.
pub open spec fn stored_model(stored: Result<(), String>) -> Result<(), Seq<char>> {
    match stored {
        Ok(_) => Ok(()),
        Err(reason) => Err(reason@),
    }
}

/// A message to the board controller: a command from the presentation
/// layer, or the answer of the backing store to an earlier effect.
#[derive(Debug, PartialEq, Eq)]
pub enum Message {
    /// The backing store answered a load.
    TasksLoaded(Result<Vec<Task>, String>),
    /// Create a task with this title and description.
    CreateTask(String, Option<String>),
    /// Give the task with this id this title and description.
    EditTask(i64, String, Option<String>),
    /// Remove the task with this id.
    RemoveTask(i64),
    /// Move the task with this id one lane forward.
    AdvanceLane(i64),
    /// Move the task with this id into this lane.
    MoveToLane(String, i64),
    /// Open this dialog.
    OpenModal(Modal),
    /// Close the dialog, whichever it is.
    CloseModal,
    /// The title field of the open dialog now reads this.
    TaskTitleUpdated(String),
    /// The description field of the open dialog now reads this.
    TaskDescUpdated(String),
    /// Commit the draft of the open dialog.
    Submit,
    /// The backing store answered an insert.
    TaskInserted(Result<(), String>),
    /// The backing store answered a delete.
    TaskRemoved(Result<(), String>),
    /// The backing store answered an update.
    TaskSaved(Result<(), String>),
    /// Show the backlog. The board itself has nothing to do for it.
    OpenBacklog,
    NoOp,
}

impl View for Message {
    type V = MessageModel;

    open spec fn view(&self) -> MessageModel {
        match *self {
            Message::TasksLoaded(loaded) => MessageModel::TasksLoaded(loaded_model(loaded)),
            Message::CreateTask(title, description) => MessageModel::CreateTask(
                title@,
                text_model(description),
            ),
            Message::EditTask(id, title, description) => MessageModel::EditTask(
                id,
                title@,
                text_model(description),
            ),
            Message::RemoveTask(id) => MessageModel::RemoveTask(id),
            Message::AdvanceLane(id) => MessageModel::AdvanceLane(id),
            Message::MoveToLane(lane, id) => MessageModel::MoveToLane(lane@, id),
            Message::OpenModal(modal) => MessageModel::OpenModal(modal),
            Message::CloseModal => MessageModel::CloseModal,
            Message::TaskTitleUpdated(title) => MessageModel::TaskTitleUpdated(title@),
            Message::TaskDescUpdated(description) => MessageModel::TaskDescUpdated(description@),
            Message::Submit => MessageModel::Submit,
            Message::TaskInserted(stored) => MessageModel::TaskInserted(stored_model(stored)),
            Message::TaskRemoved(stored) => MessageModel::TaskRemoved(stored_model(stored)),
            Message::TaskSaved(stored) => MessageModel::TaskSaved(stored_model(stored)),
            Message::OpenBacklog => MessageModel::OpenBacklog,
            Message::NoOp => MessageModel::NoOp,
        }
    }
}

/// Copies a sequence of tasks.
pub fn clone_tasks(tasks: &Vec<Task>) -> (res: Vec<Task>)
    ensures
        res@ == tasks@,
{
    let mut copy: Vec<Task> = Vec::new();
    let mut i: usize = 0;
    while i < tasks.len()
        invariant
            i <= tasks.len(),
            copy@ == tasks@.take(i as int),
        decreases tasks.len() - i,
    {
        copy.push(tasks[i].clone());
        assert(tasks@.take(i + 1) =~= tasks@.take(i as int).push(tasks@[i as int]));
        i += 1;
    }
    assert(tasks@.take(i as int) =~= tasks@);
    copy
}

/// Copies what a load brought.
pub fn clone_loaded(loaded: &Result<Vec<Task>, String>) -> (res: Result<Vec<Task>, String>)
    ensures
        loaded_model(res) == loaded_model(*loaded),
{
    match loaded {
        Ok(tasks) => Ok(clone_tasks(tasks)),
        Err(reason) => Err(reason.clone()),
    }
}

/// Copies what a write to the backing store answered.
pub fn clone_stored(stored: &Result<(), String>) -> (res: Result<(), String>)
    ensures
        stored_model(res) == stored_model(*stored),
{
    match stored {
        Ok(_) => Ok(()),
        Err(reason) => Err(reason.clone()),
    }
}

impl Clone for Message {
    fn clone(&self) -> (res: Self)
        ensures
            res@ == self@,
    {
        match self {
            Message::TasksLoaded(loaded) => Message::TasksLoaded(clone_loaded(loaded)),
            Message::CreateTask(title, description) => Message::CreateTask(
                title.clone(),
                clone_text(description),
            ),
            Message::EditTask(id, title, description) => Message::EditTask(
                *id,
                title.clone(),
                clone_text(description),
            ),
            Message::RemoveTask(id) => Message::RemoveTask(*id),
            Message::AdvanceLane(id) => Message::AdvanceLane(*id),
            Message::MoveToLane(lane, id) => Message::MoveToLane(lane.clone(), *id),
            Message::OpenModal(modal) => Message::OpenModal(*modal),
            Message::CloseModal => Message::CloseModal,
            Message::TaskTitleUpdated(title) => Message::TaskTitleUpdated(title.clone()),
            Message::TaskDescUpdated(description) => Message::TaskDescUpdated(description.clone()),
            Message::Submit => Message::Submit,
            Message::TaskInserted(stored) => Message::TaskInserted(clone_stored(stored)),
            Message::TaskRemoved(stored) => Message::TaskRemoved(clone_stored(stored)),
            Message::TaskSaved(stored) => Message::TaskSaved(clone_stored(stored)),
            Message::OpenBacklog => Message::OpenBacklog,
            Message::NoOp => Message::NoOp,
        }
    }
}

/// What the controller asks its caller to do against the backing store. The
/// caller performs it without waiting and hands the answer back as a message.
#[derive(Clone, Debug, PartialEq, Eq)]
pub enum Effect {
    /// Nothing to do.
    Nothing,
    /// Insert the task it holds; the backing store gives it its id.
    InsertTask(NewTask),
    /// Store the task it holds, whole.
    UpdateTask(Task),
    /// Delete the task with this id.
    DeleteTask(i64),
    /// Load all tasks anew.
    LoadTasks,
}

impl View for Effect {
    type V = EffectModel;

    open spec fn view(&self) -> EffectModel {
        match *self {
            Effect::Nothing => EffectModel::Nothing,
            Effect::InsertTask(task) => EffectModel::InsertTask(task@),
            Effect::UpdateTask(task) => EffectModel::UpdateTask(task@),
            Effect::DeleteTask(id) => EffectModel::DeleteTask(id),
            Effect::LoadTasks => EffectModel::LoadTasks,
        }
    }
}

/// The board controller. It alone owns the tasks and the state of the
/// dialog; the lane registry is fixed when it is made.
pub struct ViewController {
    modal: Option<Modal>,
    lanes: LaneRegistry,
    tasks: Vec<Task>,
    new_task_title: String,
    new_task_description: Option<String>,
}

impl ViewController {
    /// The draft as the two fields hold it.
    spec fn draft(&self) -> Draft {
        Draft {
            title: self.new_task_title@,
            description: text_model(self.new_task_description),
        }
    }

    /// The state of the board that this controller stands for.
    pub closed spec fn state(&self) -> BoardState {
        BoardState {
            lanes: self.lanes@,
            tasks: task_models(self.tasks@),
            modal: match self.modal {
                None => ModalState::Closed,
                Some(Modal::NewTask) => ModalState::Creating { draft: self.draft() },
                Some(Modal::ViewTask(task_id)) => ModalState::Viewing { task_id },
                Some(Modal::EditTask(task_id)) => ModalState::Editing {
                    task_id,
                    draft: self.draft(),
                },
            },
        }
    }

    /// A controller for a board of the given lanes, with no task and no dialog.
    pub fn new(lanes: Vec<String>) -> (res: Self)
        ensures
            res.state() == initial_state(names_model(lanes@)),
    {
        ViewController {
            modal: None,
            lanes: LaneRegistry::new(lanes),
            tasks: Vec::new(),
            new_task_title: String::new(),
            new_task_description: None,
        }
    }

    /// The lane registry of this board.
    pub fn lanes(&self) -> (res: &LaneRegistry)
        ensures
            res@ == self.state().lanes,
    {
        &self.lanes
    }

    /// The tasks in memory, in the order of the last load.
    pub fn tasks(&self) -> (res: &Vec<Task>)
        ensures
            task_models(res@) == self.state().tasks,
    {
        &self.tasks
    }

    /// The dialog that is open, if any.
    pub fn modal(&self) -> (res: Option<Modal>)
        ensures
            res == match self.state().modal {
                ModalState::Closed => None,
                ModalState::Creating { .. } => Some(Modal::NewTask),
                ModalState::Viewing { task_id } => Some(Modal::ViewTask(task_id)),
                ModalState::Editing { task_id, .. } => Some(Modal::EditTask(task_id)),
            },
    {
        self.modal
    }

    /// The place of the task that `id` resolves to.
    fn position_of(&self, id: i64) -> (res: Option<usize>)
        ensures
            match res {
                Some(i) => i < self.tasks@.len() && task_position(self.state().tasks, id) == Some(
                    i as int,
                ),
                None => task_position(self.state().tasks, id) is None,
            },
    {
        let ghost tasks = self.state().tasks;
        let mut i: usize = 0;
        while i < self.tasks.len()
            invariant
                i <= self.tasks.len(),
                tasks == task_models(self.tasks@),
                forall|j: int| 0 <= j < i ==> tasks[j].id != id,
            decreases self.tasks.len() - i,
        {
            if self.tasks[i].id == id {
                proof {
                    lemma_task_position_is(tasks, id, i as int);
                }
                return Some(i);
            }
            i += 1;
        }
        proof {
            lemma_task_position_none(tasks, id);
        }
        None
    }

    /// The task that `id` resolves to: the first in memory with that id.
    pub fn find_task_by_id(&self, id: i64) -> (res: Option<&Task>)
        ensures
            match res {
                Some(task) => task_position(self.state().tasks, id) matches Some(i)
                    && self.state().tasks[i] == task@,
                None => task_position(self.state().tasks, id) is None,
            },
    {
        match self.position_of(id) {
            Some(i) => Some(&self.tasks[i]),
            None => None,
        }
    }

    /// Replaces the whole task set by what a load brought.
    pub fn load_tasks(&mut self, tasks: Vec<Task>)
        ensures
            final(self).state() == load_tasks(old(self).state(), task_models(tasks@)),
    {
        self.tasks = tasks;
    }

    /// Asks for a new task in the first lane. Nothing changes in memory: the
    /// task shows once the backing store has given it an id and a load has
    /// brought it.
    pub fn create_task(&self, title: String, description: Option<String>) -> (effect: Effect)
        ensures
            effect@ == create_task(self.state(), title@, text_model(description)).1,
    {
        match self.lanes.name_at(0) {
            Some(first) => Effect::InsertTask(NewTask::new(title, description, first.clone())),
            None => Effect::Nothing,
        }
    }

    /// Puts `task` at place `i` and asks for it to be stored.
    fn store_task(&mut self, i: usize, task: Task) -> (effect: Effect)
        requires
            i < old(self).state().tasks.len(),
        ensures
            (final(self).state(), effect@) == crate::board::store_task(
                old(self).state(),
                i as int,
                task@,
            ),
    {
        let snapshot = task.clone();
        self.tasks.set(i, task);
        assert(self.state().tasks =~= old(self).state().tasks.update(i as int, task@));
        Effect::UpdateTask(snapshot)
    }

    /// Gives the task that `id` resolves to a new title and description.
    pub fn edit_task(&mut self, id: i64, title: String, description: Option<String>) -> (effect:
        Effect)
        ensures
            (final(self).state(), effect@) == edit_task(
                old(self).state(),
                id,
                title@,
                text_model(description),
            ),
    {
        match self.position_of(id) {
            Some(i) => {
                let task = Task {
                    id: self.tasks[i].id,
                    title,
                    description,
                    lane: self.tasks[i].lane.clone(),
                };
                self.store_task(i, task)
            },
            None => Effect::Nothing,
        }
    }

    /// Asks for the task with the id `id` to be deleted.
    pub fn remove_task(&self, id: i64) -> (effect: Effect)
        ensures
            effect@ == remove_task(self.state(), id).1,
    {
        Effect::DeleteTask(id)
    }

    /// Moves the task that `id` resolves to into `lane`.
    pub fn move_to_lane(&mut self, id: i64, lane: String) -> (effect: Effect)
        ensures
            (final(self).state(), effect@) == move_to_lane(old(self).state(), id, lane@),
    {
        match self.position_of(id) {
            Some(i) => {
                if self.lanes.contains(&lane) {
                    let task = Task {
                        id: self.tasks[i].id,
                        title: self.tasks[i].title.clone(),
                        description: clone_text(&self.tasks[i].description),
                        lane,
                    };
                    self.store_task(i, task)
                } else {
                    Effect::Nothing
                }
            },
            None => Effect::Nothing,
        }
    }

    /// Moves the task that `id` resolves to one lane forward.
    pub fn advance_lane(&mut self, id: i64) -> (effect: Effect)
        ensures
            (final(self).state(), effect@) == advance_lane(old(self).state(), id),
    {
        match self.position_of(id) {
            Some(i) => {
                match self.lanes.next_lane_after(&self.tasks[i].lane) {
                    Some(lane) => {
                        let task = Task {
                            id: self.tasks[i].id,
                            title: self.tasks[i].title.clone(),
                            description: clone_text(&self.tasks[i].description),
                            lane,
                        };
                        self.store_task(i, task)
                    },
                    None => Effect::Nothing,
                }
            },
            None => Effect::Nothing,
        }
    }

    /// Closes the dialog, whichever it is, and discards its draft.
    pub fn hide_dialog(&mut self)
        ensures
            final(self).state() == closed(old(self).state()),
    {
        self.new_task_title = String::new();
        self.new_task_description = None;
        self.modal = None;
    }

    /// Opens a dialog, where the dialog that is open now allows it.
    pub fn open_modal(&mut self, modal: Modal)
        ensures
            final(self).state() == (BoardState {
                modal: open_modal(old(self).state(), modal),
                ..old(self).state()
            }),
    {
        match (self.modal, modal) {
            (None, Modal::NewTask) => {
                self.new_task_title = String::new();
                self.new_task_description = None;
                self.modal = Some(Modal::NewTask);
            },
            (None, Modal::ViewTask(id)) => {
                proof {
                    lemma_task_position_some(self.state().tasks, id);
                }
                if self.position_of(id).is_some() {
                    self.modal = Some(Modal::ViewTask(id));
                }
            },
            (Some(Modal::ViewTask(task_id)), Modal::EditTask(id)) => {
                if task_id == id {
                    match self.position_of(id) {
                        Some(i) => {
                            self.new_task_title = self.tasks[i].title.clone();
                            self.new_task_description = clone_text(&self.tasks[i].description);
                        },
                        None => {
                            self.new_task_title = String::new();
                            self.new_task_description = None;
                        },
                    }
                    self.modal = Some(Modal::EditTask(id));
                }
            },
            _ => {},
        }
    }

    /// Takes a new title into the draft of the open create or edit dialog.
    pub fn update_title(&mut self, title: String)
        ensures
            final(self).state() == (BoardState {
                modal: update_title(old(self).state().modal, title@),
                ..old(self).state()
            }),
    {
        match self.modal {
            Some(Modal::NewTask) | Some(Modal::EditTask(_)) => {
                self.new_task_title = title;
            },
            _ => {},
        }
    }

    /// Takes a new description into the draft of the open create or edit dialog.
    pub fn update_description(&mut self, description: String)
        ensures
            final(self).state() == (BoardState {
                modal: update_description(old(self).state().modal, description@),
                ..old(self).state()
            }),
    {
        match self.modal {
            Some(Modal::NewTask) | Some(Modal::EditTask(_)) => {
                self.new_task_description = Some(description);
            },
            _ => {},
        }
    }

    /// Commits the draft of the open create or edit dialog and closes it.
    pub fn submit(&mut self) -> (effect: Effect)
        ensures
            (final(self).state(), effect@) == submit(old(self).state()),
    {
        match self.modal {
            Some(Modal::NewTask) => {
                let title = self.new_task_title.clone();
                let description = clone_text(&self.new_task_description);
                let effect = self.create_task(title, description);
                self.hide_dialog();
                effect
            },
            Some(Modal::EditTask(id)) => {
                let title = self.new_task_title.clone();
                let description = clone_text(&self.new_task_description);
                let effect = self.edit_task(id, title, description);
                self.hide_dialog();
                effect
            },
            _ => Effect::Nothing,
        }
    }
}

impl crate::view_controller::ViewController for ViewController {
    type Message = Message;

    type Effect = Effect;

    type Projection = BoardView;

    /// Takes one message: changes the state in memory at once and answers
    /// with the effect to perform.
    fn update(&mut self, msg: Message) -> (effect: Effect)
        ensures
            (final(self).state(), effect@) == step(old(self).state(), msg@),
    {
        match msg {
            Message::TasksLoaded(loaded) => {
                match loaded {
                    Ok(tasks) => {
                        self.load_tasks(tasks);
                    },
                    Err(_) => {},
                }
                Effect::Nothing
            },
            Message::CreateTask(title, description) => self.create_task(title, description),
            Message::EditTask(id, title, description) => self.edit_task(id, title, description),
            Message::RemoveTask(id) => self.remove_task(id),
            Message::AdvanceLane(id) => self.advance_lane(id),
            Message::MoveToLane(lane, id) => self.move_to_lane(id, lane),
            Message::OpenModal(modal) => {
                self.open_modal(modal);
                Effect::Nothing
            },
            Message::CloseModal => {
                self.hide_dialog();
                Effect::Nothing
            },
            Message::TaskTitleUpdated(title) => {
                self.update_title(title);
                Effect::Nothing
            },
            Message::TaskDescUpdated(description) => {
                self.update_description(description);
                Effect::Nothing
            },
            Message::Submit => self.submit(),
            Message::TaskInserted(stored) => match stored {
                Ok(_) => Effect::LoadTasks,
                Err(_) => Effect::Nothing,
            },
            Message::TaskRemoved(_) => Effect::LoadTasks,
            Message::TaskSaved(_) => Effect::Nothing,
            Message::OpenBacklog => Effect::Nothing,
            Message::NoOp => Effect::Nothing,
        }
    }

    /// The board as it is to be shown.
    fn view(&self) -> (res: BoardView)
        ensures
            res@ == board_view(self.state()),
    {
        let ghost s = self.state();
        let mut columns: Vec<LaneView> = Vec::new();
        let mut i: usize = 0;
        let names = self.lanes.lane_names();
        while i < names.len()
            invariant
                i <= names@.len(),
                s == self.state(),
                names_model(names@) == s.lanes,
                columns@.len() == i,
                forall|k: int| 0 <= k < i ==> (#[trigger] columns@[k])@ == lane_view(s, k),
            decreases names@.len() - i,
        {
            let column = self.lane(i, &names[i]);
            columns.push(column);
            i += 1;
        }
        assert(lane_models(columns@) =~= board_view(s).lanes);
        BoardView { lanes: columns, dialog: self.modal_view() }
    }
}

/// One column of the board as it is shown.
#[derive(Clone, Debug, PartialEq, Eq)]
pub struct LaneView {
    pub name: String,
    pub count: usize,
    pub tasks: Vec<Task>,
    pub next: Option<String>,
}

impl View for LaneView {
    type V = LaneModel;

    open spec fn view(&self) -> LaneModel {
        LaneModel {
            name: self.name@,
            count: self.count as nat,
            tasks: task_models(self.tasks@),
            next: text_model(self.next),
        }
    }
}

/// The values of a sequence of columns, in order.
pub open spec fn lane_models(columns: Seq<LaneView>) -> Seq<LaneModel> {
    Seq::new(columns.len(), |i: int| columns[i]@)
}

/// The dialog that is shown, with what it shows.
#[derive(Clone, Debug, PartialEq, Eq)]
pub enum Dialog {
    NewTask { title: String, description: Option<String> },
    ViewTask { task: Task },
    EditTask { task_id: i64, title: String, description: Option<String> },
}

impl View for Dialog {
    type V = DialogModel;

    open spec fn view(&self) -> DialogModel {
        match *self {
            Dialog::NewTask { title, description } => DialogModel::NewTask {
                draft: Draft { title: title@, description: text_model(description) },
            },
            Dialog::ViewTask { task } => DialogModel::ViewTask { task: task@ },
            Dialog::EditTask { task_id, title, description } => DialogModel::EditTask {
                task_id,
                draft: Draft { title: title@, description: text_model(description) },
            },
        }
    }
}

/// The value of an optional dialog.
pub open spec fn dialog_model(dialog: Option<Dialog>) -> Option<DialogModel> {
    match dialog {
        Some(d) => Some(d@),
        None => None,
    }
}

/// The board as it is shown: its columns in registry order, and the dialog
/// over them if one is open.
#[derive(Clone, Debug, PartialEq, Eq)]
pub struct BoardView {
    pub lanes: Vec<LaneView>,
    pub dialog: Option<Dialog>,
}

impl View for BoardView {
    type V = BoardViewModel;

    open spec fn view(&self) -> BoardViewModel {
        BoardViewModel { lanes: lane_models(self.lanes@), dialog: dialog_model(self.dialog) }
    }
}

impl ViewController {
    /// The dialog to show over the board, if any.
    pub fn modal_view(&self) -> (res: Option<Dialog>)
        ensures
            dialog_model(res) == dialog_view(self.state()),
    {
        match self.modal {
            Some(Modal::ViewTask(task_id)) => {
                match self.find_task_by_id(task_id) {
                    Some(task) => Some(Dialog::ViewTask { task: task.clone() }),
                    None => None,
                }
            },
            Some(Modal::NewTask) => Some(
                Dialog::NewTask {
                    title: self.new_task_title.clone(),
                    description: clone_text(&self.new_task_description),
                },
            ),
            Some(Modal::EditTask(task_id)) => Some(
                Dialog::EditTask {
                    task_id,
                    title: self.new_task_title.clone(),
                    description: clone_text(&self.new_task_description),
                },
            ),
            None => None,
        }
    }

    /// The tasks in `lane`, in the order of the last load.
    pub fn tasks_in_lane(&self, lane: &String) -> (res: Vec<Task>)
        ensures
            task_models(res@) == tasks_in_lane(self.state().tasks, lane@),
    {
        let ghost all = self.state().tasks;
        let mut found: Vec<Task> = Vec::new();
        let mut j: usize = 0;
        proof {
            reveal(Seq::filter);
            assert(all.take(0) =~= Seq::empty());
        }
        while j < self.tasks.len()
            invariant
                j <= self.tasks.len(),
                all == task_models(self.tasks@),
                task_models(found@) =~= tasks_in_lane(all.take(j as int), lane@),
            decreases self.tasks.len() - j,
        {
            proof {
                reveal(Seq::filter);
                assert(all.take(j + 1).drop_last() =~= all.take(j as int));
                assert(all.take(j + 1).last() == all[j as int]);
            }
            if self.tasks[j].lane == *lane {
                found.push(self.tasks[j].clone());
            }
            j += 1;
        }
        proof {
            assert(all.take(j as int) =~= all);
        }
        found
    }

    /// The column of the lane that stands at place `i` under the name `name`.
    fn lane(&self, i: usize, name: &String) -> (res: LaneView)
        requires
            i < self.state().lanes.len(),
            name@ == self.state().lanes[i as int],
        ensures
            res@ == lane_view(self.state(), i as int),
    {
        let name = name.clone();
        let tasks = match self.lanes.position(&name) {
            Some(first) => if first == i {
                self.tasks_in_lane(&name)
            } else {
                Vec::new()
            },
            None => Vec::new(),
        };
        let next = self.lanes.next_lane_after(&name);
        LaneView { name, count: tasks.len(), tasks, next }
    }
}

} // verus!
