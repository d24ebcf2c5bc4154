//! The board as a mathematical state machine: its state, the messages it
//! takes, the effects it asks for, and what each message does. The
//! controller in `task` is proved to follow this machine step by step.

use crate::lanes::{lane_position, next_lane_after};
use crate::task::{Modal, NewTaskModel, TaskModel};
use vstd::prelude::*;

verus! {

/// The working copy that a dialog edits before anything is committed to a
/// task. Like a task, it may have no description at all.
#[verifier::ext_equal]
pub struct Draft {
    pub title: Seq<char>,
    pub description: Option<Seq<char>>,
}

/// Which dialog is open, and on what. Only `Creating` and `Editing` hold a draft.
#[verifier::ext_equal]
pub enum ModalState {
    Closed,
    Creating { draft: Draft },
    Viewing { task_id: i64 },
    Editing { task_id: i64, draft: Draft },
}

/// All that the board controller owns.
#[verifier::ext_equal]
pub struct BoardState {
    pub lanes: Seq<Seq<char>>,
    pub tasks: Seq<TaskModel>,
    pub modal: ModalState,
}

/// What the controller asks its caller to do against the backing store.
#[verifier::ext_equal]
pub enum EffectModel {
    Nothing,
    InsertTask(NewTaskModel),
    UpdateTask(TaskModel),
    DeleteTask(i64),
    LoadTasks,
}

/// The value of a message to the board controller.
pub enum MessageModel {
    TasksLoaded(Result<Seq<TaskModel>, Seq<char>>),
    CreateTask(Seq<char>, Option<Seq<char>>),
    EditTask(i64, Seq<char>, Option<Seq<char>>),
    RemoveTask(i64),
    AdvanceLane(i64),
    MoveToLane(Seq<char>, i64),
    OpenModal(Modal),
    CloseModal,
    TaskTitleUpdated(Seq<char>),
    TaskDescUpdated(Seq<char>),
    Submit,
    TaskInserted(Result<(), Seq<char>>),
    TaskRemoved(Result<(), Seq<char>>),
    TaskSaved(Result<(), Seq<char>>),
    OpenBacklog,
    NoOp,
}

/// The draft of a dialog that has just been opened on nothing: an empty
/// title and no description.
pub open spec fn empty_draft() -> Draft {
    Draft { title: Seq::empty(), description: None }
}

/// The state of a controller that has just been made for `lanes`.
pub open spec fn initial_state(lanes: Seq<Seq<char>>) -> BoardState {
    BoardState { lanes, tasks: Seq::empty(), modal: ModalState::Closed }
}

/// `i` is the first place in `tasks` of a task with the id `id`.
pub open spec fn is_task_position(tasks: Seq<TaskModel>, id: i64, i: int) -> bool {
    &&& 0 <= i < tasks.len()
    &&& tasks[i].id == id
    &&& forall|j: int| 0 <= j < i ==> tasks[j].id != id
}

/// The place of the task that `id` resolves to: the first with that id.
pub open spec fn task_position(tasks: Seq<TaskModel>, id: i64) -> Option<int> {
    if exists|i: int| is_task_position(tasks, id, i) {
        Some(choose|i: int| is_task_position(tasks, id, i))
    } else {
        None
    }
}

/// Some task in `tasks` has the id `id`.
pub open spec fn has_task(tasks: Seq<TaskModel>, id: i64) -> bool {
    exists|i: int| 0 <= i < tasks.len() && tasks[i].id == id
}

/// The state after a load: the task set is replaced whole.
pub open spec fn load_tasks(s: BoardState, tasks: Seq<TaskModel>) -> BoardState {
    BoardState { tasks, ..s }
}

/// Creating a task changes nothing in memory. It asks for an insert into the
/// registry's first lane; with no lane there is nothing to ask for.
pub open spec fn create_task(s: BoardState, title: Seq<char>, description: Option<Seq<char>>) -> (
    BoardState,
    EffectModel,
) {
    if s.lanes.len() > 0 {
        (s, EffectModel::InsertTask(NewTaskModel { title, description, lane: s.lanes[0] }))
    } else {
        (s, EffectModel::Nothing)
    }
}

/// The state in which the task at place `i` is `task`, with the request to
/// store that task.
pub open spec fn store_task(s: BoardState, i: int, task: TaskModel) -> (BoardState, EffectModel) {
    (BoardState { tasks: s.tasks.update(i, task), ..s }, EffectModel::UpdateTask(task))
}

/// Editing writes title and description into the task that `id` resolves
/// to, at once, and asks for the whole task to be stored. An unknown id
/// changes nothing.
pub open spec fn edit_task(
    s: BoardState,
    id: i64,
    title: Seq<char>,
    description: Option<Seq<char>>,
) -> (BoardState, EffectModel) {
    match task_position(s.tasks, id) {
        Some(i) => store_task(s, i, TaskModel { title, description, ..s.tasks[i] }),
        None => (s, EffectModel::Nothing),
    }
}

/// Removing changes nothing in memory: it asks for the delete, whether or
/// not the id is known here.
pub open spec fn remove_task(s: BoardState, id: i64) -> (BoardState, EffectModel) {
    (s, EffectModel::DeleteTask(id))
}

/// Moving writes `lane` into the task that `id` resolves to, at once, and
/// asks for the whole task to be stored. An unknown id, or a lane that the
/// registry does not hold, changes nothing.
pub open spec fn move_to_lane(s: BoardState, id: i64, lane: Seq<char>) -> (BoardState, EffectModel) {
    match task_position(s.tasks, id) {
        Some(i) => if s.lanes.contains(lane) {
            store_task(s, i, TaskModel { lane, ..s.tasks[i] })
        } else {
            (s, EffectModel::Nothing)
        },
        None => (s, EffectModel::Nothing),
    }
}

/// Advancing moves the task that `id` resolves to into the lane after its
/// own. In the last lane, in a lane that the registry does not hold, or for
/// an unknown id it changes nothing.
pub open spec fn advance_lane(s: BoardState, id: i64) -> (BoardState, EffectModel) {
    match task_position(s.tasks, id) {
        Some(i) => match next_lane_after(s.lanes, s.tasks[i].lane) {
            Some(lane) => store_task(s, i, TaskModel { lane, ..s.tasks[i] }),
            None => (s, EffectModel::Nothing),
        },
        None => (s, EffectModel::Nothing),
    }
}

/// The draft that an edit dialog starts with: a copy of the title and the
/// description of the task as it is now, a missing description staying
/// missing. For a task that is no longer there it is the empty draft.
pub open spec fn seed_draft(tasks: Seq<TaskModel>, id: i64) -> Draft {
    match task_position(tasks, id) {
        Some(i) => Draft { title: tasks[i].title, description: tasks[i].description },
        None => empty_draft(),
    }
}

/// Opening a dialog. A create dialog opens from `Closed`, with an empty
/// draft. A view dialog opens from `Closed`, on a task that is there. An edit
/// dialog opens from the view dialog of the same task. Every other request
/// leaves the dialog as it is.
pub open spec fn open_modal(s: BoardState, modal: Modal) -> ModalState {
    match (s.modal, modal) {
        (ModalState::Closed, Modal::NewTask) => ModalState::Creating { draft: empty_draft() },
        (ModalState::Closed, Modal::ViewTask(id)) => if has_task(s.tasks, id) {
            ModalState::Viewing { task_id: id }
        } else {
            ModalState::Closed
        },
        (ModalState::Viewing { task_id }, Modal::EditTask(id)) => if task_id == id {
            ModalState::Editing { task_id, draft: seed_draft(s.tasks, id) }
        } else {
            s.modal
        },
        _ => s.modal,
    }
}

/// A new title reaches the draft of an open create or edit dialog, and
/// nothing else.
pub open spec fn update_title(modal: ModalState, title: Seq<char>) -> ModalState {
    match modal {
        ModalState::Creating { draft } => ModalState::Creating { draft: Draft { title, ..draft } },
        ModalState::Editing { task_id, draft } => ModalState::Editing {
            task_id,
            draft: Draft { title, ..draft },
        },
        _ => modal,
    }
}

/// A new description reaches the draft of an open create or edit dialog, and
/// nothing else. From then on the draft has a description, be it empty text.
pub open spec fn update_description(modal: ModalState, description: Seq<char>) -> ModalState {
    match modal {
        ModalState::Creating { draft } => ModalState::Creating {
            draft: Draft { description: Some(description), ..draft },
        },
        ModalState::Editing { task_id, draft } => ModalState::Editing {
            task_id,
            draft: Draft { description: Some(description), ..draft },
        },
        _ => modal,
    }
}

/// The state with its dialog closed.
pub open spec fn closed(s: BoardState) -> BoardState {
    BoardState { modal: ModalState::Closed, ..s }
}

/// Submitting commits the draft of a create dialog as a new task, that of an
/// edit dialog as an edit of its task, and closes the dialog. Title and
/// description go on as the draft holds them. Without such a dialog it
/// changes nothing.
pub open spec fn submit(s: BoardState) -> (BoardState, EffectModel) {
    match s.modal {
        ModalState::Creating { draft } => {
            let (next, effect) = create_task(s, draft.title, draft.description);
            (closed(next), effect)
        },
        ModalState::Editing { task_id, draft } => {
            let (next, effect) = edit_task(s, task_id, draft.title, draft.description);
            (closed(next), effect)
        },
        _ => (s, EffectModel::Nothing),
    }
}

/// What one message does to the board, and the effect it asks for.
pub open spec fn step(s: BoardState, msg: MessageModel) -> (BoardState, EffectModel) {
    match msg {
        MessageModel::TasksLoaded(Ok(tasks)) => (load_tasks(s, tasks), EffectModel::Nothing),
        MessageModel::TasksLoaded(Err(_)) => (s, EffectModel::Nothing),
        MessageModel::CreateTask(title, description) => create_task(s, title, description),
        MessageModel::EditTask(id, title, description) => edit_task(s, id, title, description),
        MessageModel::RemoveTask(id) => remove_task(s, id),
        MessageModel::AdvanceLane(id) => advance_lane(s, id),
        MessageModel::MoveToLane(lane, id) => move_to_lane(s, id, lane),
        MessageModel::OpenModal(modal) => (
            BoardState { modal: open_modal(s, modal), ..s },
            EffectModel::Nothing,
        ),
        MessageModel::CloseModal => (closed(s), EffectModel::Nothing),
        MessageModel::TaskTitleUpdated(title) => (
            BoardState { modal: update_title(s.modal, title), ..s },
            EffectModel::Nothing,
        ),
        MessageModel::TaskDescUpdated(description) => (
            BoardState { modal: update_description(s.modal, description), ..s },
            EffectModel::Nothing,
        ),
        MessageModel::Submit => submit(s),
        MessageModel::TaskInserted(Ok(_)) => (s, EffectModel::LoadTasks),
        MessageModel::TaskInserted(Err(_)) => (s, EffectModel::Nothing),
        MessageModel::TaskRemoved(_) => (s, EffectModel::LoadTasks),
        MessageModel::TaskSaved(_) => (s, EffectModel::Nothing),
        MessageModel::OpenBacklog => (s, EffectModel::Nothing),
        MessageModel::NoOp => (s, EffectModel::Nothing),
    }
}

/// A first place of `id` is the place that `task_position` gives.
pub proof fn lemma_task_position_is(tasks: Seq<TaskModel>, id: i64, i: int)
    requires
        is_task_position(tasks, id, i),
    ensures
        task_position(tasks, id) == Some(i),
{
    let k = choose|k: int| is_task_position(tasks, id, k);
    assert(is_task_position(tasks, id, k));
    if k < i {
        assert(tasks[k].id != id);
    } else if i < k {
        assert(tasks[i].id != id);
    }
}

/// An id that no task has resolves to nothing.
pub proof fn lemma_task_position_none(tasks: Seq<TaskModel>, id: i64)
    requires
        !has_task(tasks, id),
    ensures
        task_position(tasks, id) is None,
{
    if exists|i: int| is_task_position(tasks, id, i) {
        let k = choose|k: int| is_task_position(tasks, id, k);
        assert(tasks[k].id == id);
    }
}

/// Below any task with the id `id` there is a first one.
proof fn lemma_first_task(tasks: Seq<TaskModel>, id: i64, k: int)
    requires
        0 <= k < tasks.len(),
        tasks[k].id == id,
    ensures
        exists|i: int| is_task_position(tasks, id, i),
    decreases k,
{
    if exists|j: int| 0 <= j < k && tasks[j].id == id {
        let j = choose|j: int| 0 <= j < k && tasks[j].id == id;
        lemma_first_task(tasks, id, j);
    } else {
        assert(is_task_position(tasks, id, k));
    }
}

/// An id resolves exactly when some task has it, and then to the first such task.
pub proof fn lemma_task_position_some(tasks: Seq<TaskModel>, id: i64)
    ensures
        task_position(tasks, id) is Some <==> has_task(tasks, id),
        task_position(tasks, id) matches Some(i) ==> is_task_position(tasks, id, i),
{
    if has_task(tasks, id) {
        let k = choose|k: int| 0 <= k < tasks.len() && tasks[k].id == id;
        lemma_first_task(tasks, id, k);
    } else {
        lemma_task_position_none(tasks, id);
    }
}

/// One column of the board as it is shown.
#[verifier::ext_equal]
pub struct LaneModel {
    pub name: Seq<char>,
    pub count: nat,
    pub tasks: Seq<TaskModel>,
    pub next: Option<Seq<char>>,
}

/// The dialog that is shown, with what it shows.
#[verifier::ext_equal]
pub enum DialogModel {
    NewTask { draft: Draft },
    ViewTask { task: TaskModel },
    EditTask { task_id: i64, draft: Draft },
}

/// The board as it is shown: its columns, and the dialog over them if one is open.
#[verifier::ext_equal]
pub struct BoardViewModel {
    pub lanes: Seq<LaneModel>,
    pub dialog: Option<DialogModel>,
}

/// The tasks whose lane is `lane`, in the order in which `tasks` holds them.
pub open spec fn tasks_in_lane(tasks: Seq<TaskModel>, lane: Seq<char>) -> Seq<TaskModel> {
    tasks.filter(|task: TaskModel| task.lane == lane)
}

/// The tasks shown in the column at place `i`. A lane name shows its tasks
/// in the first column that bears it; a column that repeats an earlier name
/// stays empty.
pub open spec fn tasks_shown(s: BoardState, i: int) -> Seq<TaskModel> {
    if lane_position(s.lanes, s.lanes[i]) == Some(i) {
        tasks_in_lane(s.tasks, s.lanes[i])
    } else {
        Seq::empty()
    }
}

/// The column at place `i`: the lane's name, its tasks and their number, and
/// the lane that its tasks advance to.
pub open spec fn lane_view(s: BoardState, i: int) -> LaneModel {
    LaneModel {
        name: s.lanes[i],
        count: tasks_shown(s, i).len(),
        tasks: tasks_shown(s, i),
        next: next_lane_after(s.lanes, s.lanes[i]),
    }
}

/// The dialog to show. A view dialog whose task is gone shows nothing.
pub open spec fn dialog_view(s: BoardState) -> Option<DialogModel> {
    match s.modal {
        ModalState::Closed => None,
        ModalState::Creating { draft } => Some(DialogModel::NewTask { draft }),
        ModalState::Viewing { task_id } => match task_position(s.tasks, task_id) {
            Some(i) => Some(DialogModel::ViewTask { task: s.tasks[i] }),
            None => None,
        },
        ModalState::Editing { task_id, draft } => Some(DialogModel::EditTask { task_id, draft }),
    }
}

/// The board as it is shown: one column for each lane, in registry order.
pub open spec fn board_view(s: BoardState) -> BoardViewModel {
    BoardViewModel {
        lanes: Seq::new(s.lanes.len(), |i: int| lane_view(s, i)),
        dialog: dialog_view(s),
    }
}

} // verus!
