//! What holds of the board whatever its state: statements about the state
//! machines of `board` and `app`, each proved from their definitions. Since
//! the controllers follow those machines step by step, they hold of the
//! controllers too.

use crate::app::{
    app_step, step_initialised, AppEffectModel, AppModel, Event, MessageModel as AppMessageModel,
    RunningModel, View,
};
use crate::board::{
    board_view, has_task, lemma_task_position_some, step, task_position, tasks_in_lane,
    BoardState, EffectModel, MessageModel, ModalState,
};
use crate::lanes::{
    distinct_lanes, lane_position, lemma_distinct_lane_position, lemma_lane_position_some,
};
use crate::task::{Modal, NewTaskModel, TaskModel};
use vstd::prelude::*;

verus! {

/// The board shows one column for each lane, in registry order. With no
/// lane name repeated, the column of a lane holds exactly the tasks whose
/// lane field names it, in the order of the task set, and its count is
/// their number.
pub proof fn lemma_view_groups_by_lane(s: BoardState, i: int)
    requires
        distinct_lanes(s.lanes),
        0 <= i < s.lanes.len(),
    ensures
        board_view(s).lanes.len() == s.lanes.len(),
        board_view(s).lanes[i].name == s.lanes[i],
        board_view(s).lanes[i].tasks == tasks_in_lane(s.tasks, s.lanes[i]),
        board_view(s).lanes[i].count == tasks_in_lane(s.tasks, s.lanes[i]).len(),
        forall|j: int|
            0 <= j < s.tasks.len() && s.tasks[j].lane == s.lanes[i]
                ==> board_view(s).lanes[i].tasks.contains(#[trigger] s.tasks[j]),
        forall|k: int|
            0 <= k < board_view(s).lanes[i].tasks.len() ==> {
                &&& (#[trigger] board_view(s).lanes[i].tasks[k]).lane == s.lanes[i]
                &&& s.tasks.contains(board_view(s).lanes[i].tasks[k])
            },
{
    lemma_distinct_lane_position(s.lanes, i);
    let in_lane = |task: TaskModel| task.lane == s.lanes[i];
    let shown = s.tasks.filter(in_lane);
    assert(board_view(s).lanes[i].tasks == shown);
    assert forall|j: int|
        0 <= j < s.tasks.len() && s.tasks[j].lane == s.lanes[i] implies shown.contains(
        #[trigger] s.tasks[j],
    ) by {
        s.tasks.lemma_filter_contains(in_lane, j);
    }
    assert forall|k: int| 0 <= k < shown.len() implies {
        &&& (#[trigger] shown[k]).lane == s.lanes[i]
        &&& s.tasks.contains(shown[k])
    } by {
        s.tasks.lemma_filter_pred(in_lane, k);
        assert(shown.contains(shown[k]));
        s.tasks.lemma_filter_contains_rev(in_lane, shown[k]);
    }
}

/// Whether or not lane names repeat: a task whose lane the registry holds
/// is shown in the first column that bears that name.
pub proof fn lemma_task_is_shown_in_its_lane(s: BoardState, j: int)
    requires
        0 <= j < s.tasks.len(),
        s.lanes.contains(s.tasks[j].lane),
    ensures
        lane_position(s.lanes, s.tasks[j].lane) matches Some(i) && {
            &&& 0 <= i < s.lanes.len()
            &&& board_view(s).lanes[i].name == s.tasks[j].lane
            &&& board_view(s).lanes[i].tasks.contains(s.tasks[j])
        },
{
    let lane = s.tasks[j].lane;
    lemma_lane_position_some(s.lanes, lane);
    let i = lane_position(s.lanes, lane).unwrap();
    let in_lane = |task: TaskModel| task.lane == s.lanes[i];
    s.tasks.lemma_filter_contains(in_lane, j);
}

/// A task is shown in no column that bears another name than its lane
/// field. So a task whose lane the registry does not hold is shown nowhere;
/// it stays in memory and shows again once it is moved into a lane that the
/// registry holds.
pub proof fn lemma_task_is_shown_in_no_other_lane(s: BoardState, j: int)
    requires
        0 <= j < s.tasks.len(),
    ensures
        forall|k: int|
            0 <= k < s.lanes.len() && s.lanes[k] != s.tasks[j].lane ==> !(
            #[trigger] board_view(s).lanes[k]).tasks.contains(s.tasks[j]),
        !s.lanes.contains(s.tasks[j].lane) ==> forall|k: int|
            0 <= k < s.lanes.len() ==> !(#[trigger] board_view(s).lanes[k]).tasks.contains(
                s.tasks[j],
            ),
{
    let lane = s.tasks[j].lane;
    assert forall|k: int| 0 <= k < s.lanes.len() && s.lanes[k] != lane implies !(
    #[trigger] board_view(s).lanes[k]).tasks.contains(s.tasks[j]) by {
        let other = |task: TaskModel| task.lane == s.lanes[k];
        let shown = board_view(s).lanes[k].tasks;
        if shown.contains(s.tasks[j]) {
            assert(shown == s.tasks.filter(other));
            let at = choose|at: int| 0 <= at < shown.len() && shown[at] == s.tasks[j];
            s.tasks.lemma_filter_pred(other, at);
        }
    }
    if !s.lanes.contains(lane) {
        assert forall|k: int| 0 <= k < s.lanes.len() implies s.lanes[k] != lane by {
            if s.lanes[k] == lane {
                assert(s.lanes.contains(lane));
            }
        }
    }
}

/// Advancing a task that stands in the last lane changes nothing and asks
/// for nothing.
pub proof fn lemma_advance_in_last_lane(s: BoardState, id: i64, i: int)
    requires
        distinct_lanes(s.lanes),
        s.lanes.len() > 0,
        task_position(s.tasks, id) == Some(i),
        0 <= i < s.tasks.len(),
        s.tasks[i].lane == s.lanes.last(),
    ensures
        step(s, MessageModel::AdvanceLane(id)) == (s, EffectModel::Nothing),
{
    lemma_distinct_lane_position(s.lanes, s.lanes.len() - 1);
}

/// Advancing a task whose lane the registry does not hold, or an id that no
/// task has, changes nothing and asks for nothing.
pub proof fn lemma_advance_without_next_lane(s: BoardState, id: i64)
    requires
        task_position(s.tasks, id) matches Some(i) ==> !s.lanes.contains(s.tasks[i].lane),
    ensures
        step(s, MessageModel::AdvanceLane(id)) == (s, EffectModel::Nothing),
{
    if let Some(i) = task_position(s.tasks, id) {
        lemma_lane_position_some(s.lanes, s.tasks[i].lane);
    }
}

/// Advancing a task that stands in a lane other than the last puts it, at
/// once, into the lane at the next place of the registry, and asks for the
/// task to be stored as it then stands.
pub proof fn lemma_advance_moves_one_lane(s: BoardState, id: i64, i: int, k: int)
    requires
        distinct_lanes(s.lanes),
        task_position(s.tasks, id) == Some(i),
        0 <= i < s.tasks.len(),
        0 <= k < s.lanes.len() - 1,
        s.tasks[i].lane == s.lanes[k],
    ensures
        ({
            let moved = TaskModel { lane: s.lanes[k + 1], ..s.tasks[i] };
            step(s, MessageModel::AdvanceLane(id)) == (
                BoardState { tasks: s.tasks.update(i, moved), ..s },
                EffectModel::UpdateTask(moved),
            )
        }),
{
    lemma_distinct_lane_position(s.lanes, k);
}

/// The board after the three messages that edit a title: open the edit
/// dialog, type the title, submit.
pub open spec fn after_title_edit(s: BoardState, id: i64, title: Seq<char>) -> (
    BoardState,
    EffectModel,
) {
    let opened = step(s, MessageModel::OpenModal(Modal::EditTask(id))).0;
    let typed = step(opened, MessageModel::TaskTitleUpdated(title)).0;
    step(typed, MessageModel::Submit)
}

/// From the view dialog of a task that is there: opening the edit dialog,
/// typing a title and submitting gives the task that title in memory at
/// once, before the backing store has answered anything. Nothing else of
/// the task changes, its description least of all; no other task changes,
/// the dialog is closed, and the effect asks for the task to be stored as it
/// now stands.
pub proof fn lemma_submitted_title_shows_at_once(s: BoardState, id: i64, title: Seq<char>, i: int)
    requires
        s.modal == (ModalState::Viewing { task_id: id }),
        task_position(s.tasks, id) == Some(i),
        0 <= i < s.tasks.len(),
    ensures
        ({
            let (after, effect) = after_title_edit(s, id, title);
            &&& after.modal == ModalState::Closed
            &&& after.lanes == s.lanes
            &&& after.tasks == s.tasks.update(i, TaskModel { title, ..s.tasks[i] })
            &&& after.tasks[i].title == title
            &&& effect == EffectModel::UpdateTask(after.tasks[i])
        }),
{
    lemma_task_position_some(s.tasks, id);
}

/// From the view dialog of a task that is there: opening the edit dialog
/// and submitting it untouched changes no task. The draft was a copy of
/// title and description, so the task is as it was, a missing description
/// still missing; the dialog is closed, and the effect asks for the task to
/// be stored as it stood.
pub proof fn lemma_untouched_edit_changes_nothing(s: BoardState, id: i64, i: int)
    requires
        s.modal == (ModalState::Viewing { task_id: id }),
        task_position(s.tasks, id) == Some(i),
        0 <= i < s.tasks.len(),
    ensures
        ({
            let opened = step(s, MessageModel::OpenModal(Modal::EditTask(id))).0;
            let (after, effect) = step(opened, MessageModel::Submit);
            &&& after.tasks == s.tasks
            &&& after == (BoardState { modal: ModalState::Closed, ..s })
            &&& effect == EffectModel::UpdateTask(s.tasks[i])
        }),
{
    lemma_task_position_some(s.tasks, id);
    assert(s.tasks.update(i, s.tasks[i]) =~= s.tasks);
}

/// What is typed into a dialog is what is committed: after a title and a
/// description have been typed into an edit dialog, submitting gives the
/// task exactly those two, and after they have been typed into a create
/// dialog, submitting asks for an insert of exactly those two.
pub proof fn lemma_typed_draft_is_committed(
    s: BoardState,
    title: Seq<char>,
    description: Seq<char>,
)
    requires
        s.modal is Creating || s.modal is Editing,
    ensures
        ({
            let typed = step(
                step(s, MessageModel::TaskTitleUpdated(title)).0,
                MessageModel::TaskDescUpdated(description),
            ).0;
            step(typed, MessageModel::Submit) == match s.modal {
                ModalState::Editing { task_id, .. } => (
                    BoardState {
                        modal: ModalState::Closed,
                        ..step(s, MessageModel::EditTask(task_id, title, Some(description))).0
                    },
                    step(s, MessageModel::EditTask(task_id, title, Some(description))).1,
                ),
                _ => (
                    BoardState { modal: ModalState::Closed, ..s },
                    step(s, MessageModel::CreateTask(title, Some(description))).1,
                ),
            }
        }),
{
}

/// A create dialog that is opened and submitted untouched asks for a task
/// with an empty title and no description, in the registry's first lane.
pub proof fn lemma_untouched_create_has_no_description(s: BoardState)
    requires
        s.modal is Closed,
        s.lanes.len() > 0,
    ensures
        ({
            let opened = step(s, MessageModel::OpenModal(Modal::NewTask)).0;
            step(opened, MessageModel::Submit) == (
                s,
                EffectModel::InsertTask(
                    NewTaskModel { title: Seq::empty(), description: None, lane: s.lanes[0] },
                ),
            )
        }),
{
}

/// A request to view a task that is not there changes nothing: a closed
/// dialog stays closed.
pub proof fn lemma_view_of_missing_task(s: BoardState, id: i64)
    requires
        !has_task(s.tasks, id),
    ensures
        step(s, MessageModel::OpenModal(Modal::ViewTask(id))) == (s, EffectModel::Nothing),
{
}

/// Removing asks for the delete whether or not the id is known in memory,
/// and changes nothing in memory. When the backing store has answered the
/// delete, whatever it answered, the board asks for a reload.
pub proof fn lemma_remove_always_deletes_and_reloads(
    s: BoardState,
    id: i64,
    answer: Result<(), Seq<char>>,
)
    ensures
        step(s, MessageModel::RemoveTask(id)) == (s, EffectModel::DeleteTask(id)),
        step(s, MessageModel::TaskRemoved(answer)) == (s, EffectModel::LoadTasks),
{
}

/// An insert is followed by a reload when it succeeded, and by nothing when
/// it failed. Either way the state in memory stays as it was.
pub proof fn lemma_insert_reloads_on_success(s: BoardState, answer: Result<(), Seq<char>>)
    ensures
        step(s, MessageModel::TaskInserted(answer)).0 == s,
        step(s, MessageModel::TaskInserted(answer)).1 == if answer is Ok {
            EffectModel::LoadTasks
        } else {
            EffectModel::Nothing
        },
{
}

/// A failure of the backing store never changes the state in memory: a
/// failed load leaves the tasks that were there, and a failed update leaves
/// the change that was made ahead of it.
pub proof fn lemma_failure_changes_nothing(s: BoardState, reason: Seq<char>)
    ensures
        step(s, MessageModel::TasksLoaded(Err(reason))) == (s, EffectModel::Nothing),
        step(s, MessageModel::TaskInserted(Err(reason))) == (s, EffectModel::Nothing),
        step(s, MessageModel::TaskSaved(Err(reason))) == (s, EffectModel::Nothing),
        step(s, MessageModel::TaskRemoved(Err(reason))).0 == s,
{
}

/// A load replaces the whole task set and touches nothing else.
pub proof fn lemma_load_replaces_all(s: BoardState, tasks: Seq<TaskModel>)
    ensures
        step(s, MessageModel::TasksLoaded(Ok(tasks))) == (
            BoardState { tasks, ..s },
            EffectModel::Nothing,
        ),
{
}

/// No message changes the lane registry.
pub proof fn lemma_lanes_are_fixed(s: BoardState, msg: MessageModel)
    ensures
        step(s, msg).0.lanes == s.lanes,
{
}

/// Closing the dialog, and submitting a create or edit dialog, leave the
/// dialog closed: no draft outlives its dialog.
pub proof fn lemma_close_and_submit_close(s: BoardState)
    ensures
        step(s, MessageModel::CloseModal) == (
            BoardState { modal: ModalState::Closed, ..s },
            EffectModel::Nothing,
        ),
        s.modal is Creating || s.modal is Editing ==> step(s, MessageModel::Submit).0.modal
            == ModalState::Closed,
        s.modal is Closed || s.modal is Viewing ==> step(s, MessageModel::Submit) == (
            s,
            EffectModel::Nothing,
        ),
{
}

/// Only a load that succeeded adds or removes tasks in memory. Every other
/// message keeps the number of tasks, and each task keeps its place and its id.
pub proof fn lemma_only_a_load_changes_the_task_set(s: BoardState, msg: MessageModel)
    requires
        !(msg matches MessageModel::TasksLoaded(Ok(_))),
    ensures
        step(s, msg).0.tasks.len() == s.tasks.len(),
        forall|j: int|
            0 <= j < s.tasks.len() ==> (#[trigger] step(s, msg).0.tasks[j]).id == s.tasks[j].id,
{
    lemma_positions_are_in_range(s.tasks);
}

/// The place that an id resolves to lies within the task set, and the task
/// there has that id.
pub proof fn lemma_positions_are_in_range(tasks: Seq<TaskModel>)
    ensures
        forall|id: i64|
            (#[trigger] task_position(tasks, id)) matches Some(i) ==> 0 <= i < tasks.len()
                && tasks[i].id == id,
{
    assert forall|id: i64|
        ((#[trigger] task_position(tasks, id)) matches Some(i) ==> 0 <= i < tasks.len()
            && tasks[i].id == id) by {
        lemma_task_position_some(tasks, id);
    }
}

/// Whenever a message changes the lane of a task, the new lane is one that
/// the registry holds.
pub proof fn lemma_lanes_are_assigned_from_the_registry(s: BoardState, msg: MessageModel, j: int)
    requires
        !(msg matches MessageModel::TasksLoaded(Ok(_))),
        0 <= j < s.tasks.len(),
        step(s, msg).0.tasks[j].lane != s.tasks[j].lane,
    ensures
        s.lanes.contains(step(s, msg).0.tasks[j].lane),
{
    lemma_positions_are_in_range(s.tasks);
    match msg {
        MessageModel::AdvanceLane(id) => {
            let i = task_position(s.tasks, id).unwrap();
            lemma_lane_position_some(s.lanes, s.tasks[i].lane);
            let k = lane_position(s.lanes, s.tasks[i].lane).unwrap();
            assert(s.lanes.contains(s.lanes[k + 1]));
        },
        _ => {},
    }
}

/// A task that an effect asks to store is in memory already, as the effect
/// holds it: the change shows before the backing store is asked.
pub proof fn lemma_stored_task_is_in_memory(s: BoardState, msg: MessageModel)
    ensures
        step(s, msg).1 matches EffectModel::UpdateTask(task) ==> step(s, msg).0.tasks.contains(
            task,
        ),
{
    lemma_positions_are_in_range(s.tasks);
    if let EffectModel::UpdateTask(task) = step(s, msg).1 {
        let id = task.id;
        let after = step(s, msg).0.tasks;
        match msg {
            MessageModel::EditTask(id, _, _) => {
                let i = task_position(s.tasks, id).unwrap();
                assert(after[i] == task);
            },
            MessageModel::AdvanceLane(id) => {
                let i = task_position(s.tasks, id).unwrap();
                assert(after[i] == task);
            },
            MessageModel::MoveToLane(_, id) => {
                let i = task_position(s.tasks, id).unwrap();
                assert(after[i] == task);
            },
            MessageModel::Submit => {
                let id = s.modal->Editing_task_id;
                let i = task_position(s.tasks, id).unwrap();
                assert(after[i] == task);
            },
            _ => {},
        }
    }
}

/// An insert is asked for only by a request to create a task, or by
/// submitting a create dialog, and then into the registry's first lane: no
/// answer of the backing store ever leads to a second insert.
pub proof fn lemma_insert_only_on_request(s: BoardState, msg: MessageModel)
    requires
        step(s, msg).1 is InsertTask,
    ensures
        msg is CreateTask || (msg is Submit && s.modal is Creating),
        s.lanes.len() > 0,
        step(s, msg).1->InsertTask_0.lane == s.lanes[0],
        step(s, msg).0.tasks == s.tasks,
{
}

/// A request to create a task is taken with any title, the empty one too,
/// and always asks for an insert into the registry's first lane. The task to
/// insert carries no id: the backing store alone gives ids.
pub proof fn lemma_create_accepts_any_title(
    s: BoardState,
    title: Seq<char>,
    description: Option<Seq<char>>,
)
    requires
        s.lanes.len() > 0,
    ensures
        step(s, MessageModel::CreateTask(title, description)) == (
            s,
            EffectModel::InsertTask(NewTaskModel { title, description, lane: s.lanes[0] }),
        ),
{
}

/// From a request to create a task to the task on the board: the request
/// asks for an insert, the insert's success asks for a reload, and the
/// reload puts into memory exactly what the backing store holds, with the
/// ids that the backing store gave.
pub proof fn lemma_created_task_shows_after_reload(
    s: BoardState,
    title: Seq<char>,
    description: Option<Seq<char>>,
    stored: Seq<TaskModel>,
)
    requires
        s.lanes.len() > 0,
    ensures
        ({
            let (s1, insert) = step(s, MessageModel::CreateTask(title, description));
            let (s2, reload) = step(s1, MessageModel::TaskInserted(Ok(())));
            let (s3, last) = step(s2, MessageModel::TasksLoaded(Ok(stored)));
            &&& insert == EffectModel::InsertTask(
                NewTaskModel { title, description, lane: s.lanes[0] },
            )
            &&& s2 == s
            &&& reload == EffectModel::LoadTasks
            &&& s3 == (BoardState { tasks: stored, ..s })
            &&& last == EffectModel::Nothing
        }),
{
}

/// The board after a run of messages, taken one after the other.
pub open spec fn run(s: BoardState, msgs: Seq<MessageModel>) -> BoardState
    decreases msgs.len(),
{
    if msgs.len() == 0 {
        s
    } else {
        step(run(s, msgs.drop_last()), msgs.last()).0
    }
}

/// Whatever messages a controller takes in its lifetime, its lane registry
/// stays the one it was made with.
pub proof fn lemma_run_keeps_the_lanes(s: BoardState, msgs: Seq<MessageModel>)
    ensures
        run(s, msgs).lanes == s.lanes,
    decreases msgs.len(),
{
    if msgs.len() > 0 {
        lemma_run_keeps_the_lanes(s, msgs.drop_last());
    }
}

/// A run of messages without a load that succeeded leaves as many tasks as
/// there were, each at its place and with its id.
pub proof fn lemma_run_without_load_keeps_the_task_set(s: BoardState, msgs: Seq<MessageModel>)
    requires
        forall|k: int|
            0 <= k < msgs.len() ==> !(#[trigger] msgs[k] matches MessageModel::TasksLoaded(Ok(_))),
    ensures
        run(s, msgs).tasks.len() == s.tasks.len(),
        forall|j: int| 0 <= j < s.tasks.len() ==> (#[trigger] run(s, msgs).tasks[j]).id == s.tasks[j].id,
    decreases msgs.len(),
{
    if msgs.len() > 0 {
        let before = msgs.drop_last();
        assert forall|k: int| 0 <= k < before.len() implies !(
        #[trigger] before[k] matches MessageModel::TasksLoaded(Ok(_))) by {
            assert(before[k] == msgs[k]);
        }
        lemma_run_without_load_keeps_the_task_set(s, before);
        lemma_only_a_load_changes_the_task_set(run(s, before), msgs.last());
    }
}

/// A running application is consistent when its board has the lanes of its
/// configuration.
pub open spec fn consistent(app: RunningModel) -> bool {
    app.board.lanes == app.config
}

/// Start-up makes a consistent application: it shows the board, whose
/// lanes are those of the configuration, and asks for the tasks to be loaded.
pub proof fn lemma_start_is_consistent(lanes: Seq<Seq<char>>)
    ensures
        app_step(AppModel::Initialising, AppMessageModel::Initialised(lanes)).0 matches AppModel::Initialised(
            app,
        ) && consistent(app) && app.config == lanes && app.current_view == View::Sprint,
        app_step(AppModel::Initialising, AppMessageModel::Initialised(lanes)).1
            == AppEffectModel::LoadTasks,
{
}

/// No message changes the configuration of a running application or breaks
/// its consistency, and what is written back when the window closes is the
/// configuration that the application was started with.
pub proof fn lemma_config_is_kept(app: RunningModel, msg: AppMessageModel)
    requires
        consistent(app),
    ensures
        step_initialised(app, msg).0.config == app.config,
        consistent(step_initialised(app, msg).0),
        step_initialised(app, msg).1 matches AppEffectModel::SaveConfig(written) ==> written
            == app.config,
        msg == AppMessageModel::EventReceived(Event::CloseRequested) ==> step_initialised(
            app,
            msg,
        ) == (app, AppEffectModel::SaveConfig(app.config)),
{
}

/// Only the two requests to change screen change the screen: opening the
/// backlog shows the backlog and asks for its tasks, opening the sprint
/// shows the board, and every other message leaves the screen as it is.
pub proof fn lemma_screen_changes_on_request(app: RunningModel, msg: AppMessageModel)
    ensures
        step_initialised(app, msg).0.current_view == match msg {
            AppMessageModel::TaskMessage(MessageModel::OpenBacklog) => View::Backlog,
            AppMessageModel::BacklogMessage(crate::backlog::MessageModel::OpenSprint) => View::Sprint,
            _ => app.current_view,
        },
        msg == AppMessageModel::TaskMessage(MessageModel::OpenBacklog) ==> step_initialised(
            app,
            msg,
        ).1 == AppEffectModel::LoadBacklog,
{
}

} // verus!
