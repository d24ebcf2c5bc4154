use todo_board::task::{
    BoardView, Dialog, Effect, LaneView, Message, Modal, NewTask, Task, ViewController,
};
use todo_board::view_controller::ViewController as VC;

fn lanes() -> Vec<String> {
    vec!["To do".to_string(), "In progress".to_string(), "Done".to_string()]
}

fn task(id: i64, title: &str, lane: &str) -> Task {
    Task { id, title: title.to_string(), description: None, lane: lane.to_string() }
}

fn board_with(tasks: Vec<Task>) -> ViewController {
    let mut board = ViewController::new(lanes());
    assert_eq!(board.update(Message::TasksLoaded(Ok(tasks))), Effect::Nothing);
    board
}

/// A backing store for the tests: it gives ids in order and keeps the rows.
struct Store {
    rows: Vec<Task>,
    next_id: i64,
}

impl Store {
    fn new(first_id: i64) -> Self {
        Store { rows: Vec::new(), next_id: first_id }
    }

    /// Performs the effect and gives the message that answers it.
    fn perform(&mut self, effect: Effect) -> Option<Message> {
        match effect {
            Effect::Nothing => None,
            Effect::InsertTask(new) => {
                self.rows.push(Task {
                    id: self.next_id,
                    title: new.title,
                    description: new.description,
                    lane: new.lane,
                });
                self.next_id += 1;
                Some(Message::TaskInserted(Ok(())))
            }
            Effect::UpdateTask(task) => {
                for row in self.rows.iter_mut() {
                    if row.id == task.id {
                        *row = task.clone();
                    }
                }
                Some(Message::TaskSaved(Ok(())))
            }
            Effect::DeleteTask(id) => {
                self.rows.retain(|row| row.id != id);
                Some(Message::TaskRemoved(Ok(())))
            }
            Effect::LoadTasks => Some(Message::TasksLoaded(Ok(self.rows.clone()))),
        }
    }

    /// Performs the effect and every effect that its answers lead to.
    fn settle(&mut self, board: &mut ViewController, effect: Effect) {
        let mut pending = self.perform(effect);
        while let Some(msg) = pending {
            let next = board.update(msg);
            pending = self.perform(next);
        }
    }
}

#[test]
fn new_task_keeps_its_fields() {
    let new = NewTask::new("A".to_string(), Some("text".to_string()), "To do".to_string());
    assert_eq!(new.title, "A");
    assert_eq!(new.description, Some("text".to_string()));
    assert_eq!(new.lane, "To do");
}

#[test]
fn default_task_is_empty() {
    assert_eq!(Task::default(), task(0, "", ""));
    assert_eq!(NewTask::default(), NewTask::new(String::new(), None, String::new()));
}

#[test]
fn new_board_is_empty_and_closed() {
    let board = ViewController::new(lanes());
    assert!(board.tasks().is_empty());
    assert_eq!(board.modal(), None);
    assert_eq!(board.modal_view(), None);
    assert_eq!(board.lanes().lane_names(), &lanes());
}

#[test]
fn view_groups_tasks_by_lane_in_registry_order() {
    let board = board_with(vec![
        task(1, "a", "Done"),
        task(2, "b", "To do"),
        task(3, "c", "Done"),
        task(4, "d", "To do"),
        task(5, "e", "Elsewhere"),
    ]);
    let shown = board.view();
    assert_eq!(
        shown,
        BoardView {
            lanes: vec![
                LaneView {
                    name: "To do".to_string(),
                    count: 2,
                    tasks: vec![task(2, "b", "To do"), task(4, "d", "To do")],
                    next: Some("In progress".to_string()),
                },
                LaneView {
                    name: "In progress".to_string(),
                    count: 0,
                    tasks: vec![],
                    next: Some("Done".to_string()),
                },
                LaneView {
                    name: "Done".to_string(),
                    count: 2,
                    tasks: vec![task(1, "a", "Done"), task(3, "c", "Done")],
                    next: None,
                },
            ],
            dialog: None,
        }
    );
}

#[test]
fn view_counts_match_the_tasks_of_each_lane() {
    let all = vec![
        task(1, "a", "In progress"),
        task(2, "b", "In progress"),
        task(3, "c", "In progress"),
        task(4, "d", "Done"),
    ];
    let board = board_with(all.clone());
    let shown = board.view();
    assert_eq!(shown.lanes.len(), 3);
    for (lane, name) in shown.lanes.iter().zip(lanes()) {
        assert_eq!(lane.name, name);
        assert_eq!(lane.count, lane.tasks.len());
        assert_eq!(lane.count, all.iter().filter(|t| t.lane == name).count());
    }
    assert_eq!(shown.lanes[0].count, 0);
    assert_eq!(shown.lanes[1].count, 3);
    assert_eq!(shown.lanes[2].count, 1);
}

#[test]
fn view_of_a_board_without_lanes_is_empty() {
    let mut board = ViewController::new(vec![]);
    board.update(Message::TasksLoaded(Ok(vec![task(1, "a", "To do")])));
    assert_eq!(board.view(), BoardView { lanes: vec![], dialog: None });
}

#[test]
fn repeated_lane_name_shows_its_tasks_in_the_first_column() {
    let names = vec!["A".to_string(), "B".to_string(), "A".to_string()];
    let mut board = ViewController::new(names);
    board.update(Message::TasksLoaded(Ok(vec![task(1, "x", "A"), task(2, "y", "B")])));
    let shown = board.view();
    assert_eq!(shown.lanes[0].tasks, vec![task(1, "x", "A")]);
    assert_eq!(shown.lanes[0].count, 1);
    assert_eq!(shown.lanes[0].next, Some("B".to_string()));
    assert_eq!(shown.lanes[1].tasks, vec![task(2, "y", "B")]);
    assert_eq!(shown.lanes[1].next, Some("A".to_string()));
    assert_eq!(shown.lanes[2].name, "A");
    assert_eq!(shown.lanes[2].tasks, vec![]);
    assert_eq!(shown.lanes[2].count, 0);
}

#[test]
fn tasks_in_lane_keeps_load_order() {
    let board = board_with(vec![task(9, "z", "Done"), task(3, "y", "To do"), task(5, "x", "Done")]);
    assert_eq!(
        board.tasks_in_lane(&"Done".to_string()),
        vec![task(9, "z", "Done"), task(5, "x", "Done")]
    );
    assert_eq!(board.tasks_in_lane(&"Nowhere".to_string()), vec![]);
}

#[test]
fn advance_moves_one_lane_forward_and_asks_for_an_update() {
    let mut board = board_with(vec![task(1, "a", "To do"), task(2, "b", "In progress")]);
    let effect = board.update(Message::AdvanceLane(1));
    assert_eq!(effect, Effect::UpdateTask(task(1, "a", "In progress")));
    assert_eq!(board.tasks(), &vec![task(1, "a", "In progress"), task(2, "b", "In progress")]);
    let effect = board.update(Message::AdvanceLane(2));
    assert_eq!(effect, Effect::UpdateTask(task(2, "b", "Done")));
    assert_eq!(board.tasks()[1].lane, "Done");
}

#[test]
fn advance_in_the_last_lane_is_a_no_op() {
    let mut board = board_with(vec![task(1, "a", "Done")]);
    let effect = board.update(Message::AdvanceLane(1));
    assert_eq!(effect, Effect::Nothing);
    assert_eq!(board.tasks(), &vec![task(1, "a", "Done")]);
}

#[test]
fn advance_of_an_unknown_id_or_lane_is_a_no_op() {
    let mut board = board_with(vec![task(1, "a", "Elsewhere")]);
    assert_eq!(board.update(Message::AdvanceLane(1)), Effect::Nothing);
    assert_eq!(board.update(Message::AdvanceLane(2)), Effect::Nothing);
    assert_eq!(board.tasks(), &vec![task(1, "a", "Elsewhere")]);
}

#[test]
fn move_to_lane_sets_the_lane_at_once() {
    let mut board = board_with(vec![task(1, "a", "Done"), task(2, "b", "Elsewhere")]);
    let effect = board.update(Message::MoveToLane("To do".to_string(), 1));
    assert_eq!(effect, Effect::UpdateTask(task(1, "a", "To do")));
    assert_eq!(board.tasks()[0].lane, "To do");
    let effect = board.update(Message::MoveToLane("In progress".to_string(), 2));
    assert_eq!(effect, Effect::UpdateTask(task(2, "b", "In progress")));
    assert_eq!(board.view().lanes[1].tasks, vec![task(2, "b", "In progress")]);
}

#[test]
fn move_to_an_unknown_lane_or_of_an_unknown_id_is_a_no_op() {
    let mut board = board_with(vec![task(1, "a", "Done")]);
    assert_eq!(board.update(Message::MoveToLane("Nowhere".to_string(), 1)), Effect::Nothing);
    assert_eq!(board.update(Message::MoveToLane("To do".to_string(), 7)), Effect::Nothing);
    assert_eq!(board.tasks(), &vec![task(1, "a", "Done")]);
}

#[test]
fn create_task_with_empty_title_lands_in_the_first_lane() {
    let mut board = ViewController::new(lanes());
    let mut store = Store::new(1);
    let effect = board.update(Message::CreateTask(String::new(), None));
    assert_eq!(
        effect,
        Effect::InsertTask(NewTask::new(String::new(), None, "To do".to_string()))
    );
    assert!(board.tasks().is_empty());
    store.settle(&mut board, effect);
    assert_eq!(board.tasks().len(), 1);
    assert_eq!(board.tasks()[0].title, "");
    assert_eq!(board.tasks()[0].description, None);
    assert_eq!(board.tasks()[0].lane, lanes()[0]);
}

#[test]
fn create_then_reload_shows_the_task_with_the_id_of_the_store() {
    let mut board = ViewController::new(lanes());
    let mut store = Store::new(41);
    let effect = board.update(Message::CreateTask("A".to_string(), None));
    let answer = store.perform(effect).unwrap();
    assert_eq!(answer, Message::TaskInserted(Ok(())));
    let reload = board.update(answer);
    assert_eq!(reload, Effect::LoadTasks);
    assert!(board.tasks().is_empty());
    let loaded = store.perform(reload).unwrap();
    assert_eq!(board.update(loaded), Effect::Nothing);
    assert_eq!(board.tasks(), &vec![task(41, "A", "To do")]);
    assert_eq!(board.view().lanes[0].tasks, vec![task(41, "A", "To do")]);
    assert_eq!(board.view().lanes[0].count, 1);
}

#[test]
fn create_task_without_lanes_asks_for_nothing() {
    let mut board = ViewController::new(vec![]);
    assert_eq!(board.update(Message::CreateTask("A".to_string(), None)), Effect::Nothing);
}

#[test]
fn failed_insert_is_not_followed_by_a_reload() {
    let mut board = board_with(vec![task(1, "a", "Done")]);
    let effect = board.update(Message::TaskInserted(Err("Error inserting task into db".to_string())));
    assert_eq!(effect, Effect::Nothing);
    assert_eq!(board.tasks(), &vec![task(1, "a", "Done")]);
}

#[test]
fn edit_task_changes_title_and_description_at_once() {
    let mut board = board_with(vec![task(1, "a", "Done"), task(2, "b", "To do")]);
    let effect =
        board.update(Message::EditTask(2, "new".to_string(), Some("words".to_string())));
    let edited = Task {
        id: 2,
        title: "new".to_string(),
        description: Some("words".to_string()),
        lane: "To do".to_string(),
    };
    assert_eq!(effect, Effect::UpdateTask(edited.clone()));
    assert_eq!(board.tasks(), &vec![task(1, "a", "Done"), edited]);
}

#[test]
fn edit_of_an_unknown_id_is_a_no_op() {
    let mut board = board_with(vec![task(1, "a", "Done")]);
    assert_eq!(board.update(Message::EditTask(5, "new".to_string(), None)), Effect::Nothing);
    assert_eq!(board.tasks(), &vec![task(1, "a", "Done")]);
}

#[test]
fn edit_resolves_an_id_to_the_first_task_that_has_it() {
    let mut board = board_with(vec![task(1, "a", "Done"), task(1, "b", "To do")]);
    board.update(Message::EditTask(1, "new".to_string(), None));
    assert_eq!(board.tasks(), &vec![task(1, "new", "Done"), task(1, "b", "To do")]);
    assert_eq!(board.find_task_by_id(1), Some(&task(1, "new", "Done")));
    assert_eq!(board.find_task_by_id(2), None);
}

#[test]
fn failed_update_leaves_the_change_in_memory() {
    let mut board = board_with(vec![task(1, "a", "To do")]);
    board.update(Message::AdvanceLane(1));
    let effect = board.update(Message::TaskSaved(Err("Error deleting task from db".to_string())));
    assert_eq!(effect, Effect::Nothing);
    assert_eq!(board.tasks(), &vec![task(1, "a", "In progress")]);
    assert_eq!(board.update(Message::TaskSaved(Ok(()))), Effect::Nothing);
}

#[test]
fn remove_of_an_unknown_id_still_deletes_and_reloads() {
    let mut board = board_with(vec![task(1, "a", "Done")]);
    assert_eq!(board.update(Message::RemoveTask(99)), Effect::DeleteTask(99));
    assert_eq!(board.tasks(), &vec![task(1, "a", "Done")]);
    assert_eq!(board.update(Message::TaskRemoved(Ok(()))), Effect::LoadTasks);
    assert_eq!(
        board.update(Message::TaskRemoved(Err("Error deleting task from db".to_string()))),
        Effect::LoadTasks
    );
}

#[test]
fn remove_shows_only_after_the_reload() {
    let mut board = ViewController::new(lanes());
    let mut store = Store::new(1);
    let create = board.update(Message::CreateTask("A".to_string(), None));
    store.settle(&mut board, create);
    let create = board.update(Message::CreateTask("B".to_string(), None));
    store.settle(&mut board, create);
    assert_eq!(board.tasks().len(), 2);
    let delete = board.update(Message::RemoveTask(1));
    assert_eq!(delete, Effect::DeleteTask(1));
    assert_eq!(board.tasks().len(), 2);
    store.settle(&mut board, delete);
    assert_eq!(board.tasks(), &vec![task(2, "B", "To do")]);
}

#[test]
fn failed_load_leaves_the_tasks_untouched() {
    let mut board = board_with(vec![task(1, "a", "Done")]);
    let effect = board.update(Message::TasksLoaded(Err("got db err: closed".to_string())));
    assert_eq!(effect, Effect::Nothing);
    assert_eq!(board.tasks(), &vec![task(1, "a", "Done")]);
}

#[test]
fn load_replaces_the_whole_task_set() {
    let mut board = board_with(vec![task(1, "a", "Done"), task(2, "b", "Done")]);
    board.update(Message::TasksLoaded(Ok(vec![task(3, "c", "To do")])));
    assert_eq!(board.tasks(), &vec![task(3, "c", "To do")]);
    board.update(Message::TasksLoaded(Ok(vec![])));
    assert!(board.tasks().is_empty());
}

#[test]
fn open_create_starts_with_an_empty_draft() {
    let mut board = ViewController::new(lanes());
    assert_eq!(board.update(Message::OpenModal(Modal::NewTask)), Effect::Nothing);
    assert_eq!(board.modal(), Some(Modal::NewTask));
    assert_eq!(
        board.modal_view(),
        Some(Dialog::NewTask { title: String::new(), description: None })
    );
}

#[test]
fn open_view_of_a_missing_task_stays_closed() {
    let mut board = board_with(vec![task(1, "a", "Done")]);
    assert_eq!(board.update(Message::OpenModal(Modal::ViewTask(2))), Effect::Nothing);
    assert_eq!(board.modal(), None);
    assert_eq!(board.modal_view(), None);
    assert_eq!(board.view().dialog, None);
}

#[test]
fn open_view_shows_the_task() {
    let mut board = board_with(vec![task(1, "a", "Done")]);
    board.update(Message::OpenModal(Modal::ViewTask(1)));
    assert_eq!(board.modal(), Some(Modal::ViewTask(1)));
    assert_eq!(board.modal_view(), Some(Dialog::ViewTask { task: task(1, "a", "Done") }));
    assert_eq!(board.view().dialog, Some(Dialog::ViewTask { task: task(1, "a", "Done") }));
}

#[test]
fn view_dialog_of_a_task_that_went_away_shows_nothing() {
    let mut board = board_with(vec![task(1, "a", "Done")]);
    board.update(Message::OpenModal(Modal::ViewTask(1)));
    board.update(Message::TasksLoaded(Ok(vec![])));
    assert_eq!(board.modal(), Some(Modal::ViewTask(1)));
    assert_eq!(board.modal_view(), None);
}

#[test]
fn open_edit_seeds_the_draft_from_the_task() {
    let with_text = Task {
        id: 1,
        title: "a".to_string(),
        description: Some("words".to_string()),
        lane: "Done".to_string(),
    };
    let mut board = board_with(vec![with_text, task(2, "b", "To do")]);
    board.update(Message::OpenModal(Modal::ViewTask(1)));
    board.update(Message::OpenModal(Modal::EditTask(1)));
    assert_eq!(
        board.modal_view(),
        Some(Dialog::EditTask {
            task_id: 1,
            title: "a".to_string(),
            description: Some("words".to_string())
        })
    );
    board.update(Message::CloseModal);
    board.update(Message::OpenModal(Modal::ViewTask(2)));
    board.update(Message::OpenModal(Modal::EditTask(2)));
    assert_eq!(
        board.modal_view(),
        Some(Dialog::EditTask { task_id: 2, title: "b".to_string(), description: None })
    );
}

#[test]
fn open_edit_needs_the_view_dialog_of_the_same_task() {
    let mut board = board_with(vec![task(1, "a", "Done"), task(2, "b", "To do")]);
    board.update(Message::OpenModal(Modal::EditTask(1)));
    assert_eq!(board.modal(), None);
    board.update(Message::OpenModal(Modal::ViewTask(1)));
    board.update(Message::OpenModal(Modal::EditTask(2)));
    assert_eq!(board.modal(), Some(Modal::ViewTask(1)));
    board.update(Message::OpenModal(Modal::NewTask));
    assert_eq!(board.modal(), Some(Modal::ViewTask(1)));
    board.update(Message::OpenModal(Modal::ViewTask(2)));
    assert_eq!(board.modal(), Some(Modal::ViewTask(1)));
}

#[test]
fn edit_title_and_submit_shows_at_once() {
    let mut board = board_with(vec![task(1, "a", "Done"), task(2, "b", "To do")]);
    board.update(Message::OpenModal(Modal::ViewTask(2)));
    board.update(Message::OpenModal(Modal::EditTask(2)));
    assert_eq!(board.update(Message::TaskTitleUpdated("new".to_string())), Effect::Nothing);
    let effect = board.update(Message::Submit);
    let edited = task(2, "new", "To do");
    assert_eq!(effect, Effect::UpdateTask(edited.clone()));
    assert_eq!(board.tasks(), &vec![task(1, "a", "Done"), edited.clone()]);
    assert_eq!(board.view().lanes[0].tasks, vec![edited]);
    assert_eq!(board.modal(), None);
}

#[test]
fn submit_of_a_create_dialog_asks_for_an_insert_and_closes() {
    let mut board = ViewController::new(lanes());
    board.update(Message::OpenModal(Modal::NewTask));
    board.update(Message::TaskTitleUpdated("A".to_string()));
    board.update(Message::TaskDescUpdated("words".to_string()));
    assert_eq!(
        board.modal_view(),
        Some(Dialog::NewTask {
            title: "A".to_string(),
            description: Some("words".to_string())
        })
    );
    let effect = board.update(Message::Submit);
    assert_eq!(
        effect,
        Effect::InsertTask(NewTask::new(
            "A".to_string(),
            Some("words".to_string()),
            "To do".to_string()
        ))
    );
    assert_eq!(board.modal(), None);
    assert!(board.tasks().is_empty());
}

#[test]
fn submit_for_a_task_that_went_away_only_closes() {
    let mut board = board_with(vec![task(1, "a", "Done")]);
    board.update(Message::OpenModal(Modal::ViewTask(1)));
    board.update(Message::OpenModal(Modal::EditTask(1)));
    board.update(Message::TaskTitleUpdated("new".to_string()));
    board.update(Message::TasksLoaded(Ok(vec![task(2, "b", "Done")])));
    assert_eq!(board.modal(), Some(Modal::EditTask(1)));
    assert_eq!(board.update(Message::Submit), Effect::Nothing);
    assert_eq!(board.modal(), None);
    assert_eq!(board.tasks(), &vec![task(2, "b", "Done")]);
}

#[test]
fn submit_without_a_draft_does_nothing() {
    let mut board = board_with(vec![task(1, "a", "Done")]);
    assert_eq!(board.update(Message::Submit), Effect::Nothing);
    board.update(Message::OpenModal(Modal::ViewTask(1)));
    assert_eq!(board.update(Message::Submit), Effect::Nothing);
    assert_eq!(board.modal(), Some(Modal::ViewTask(1)));
}

#[test]
fn close_discards_the_draft() {
    let mut board = ViewController::new(lanes());
    board.update(Message::OpenModal(Modal::NewTask));
    board.update(Message::TaskTitleUpdated("A".to_string()));
    board.update(Message::TaskDescUpdated("words".to_string()));
    assert_eq!(board.update(Message::CloseModal), Effect::Nothing);
    assert_eq!(board.modal(), None);
    board.update(Message::OpenModal(Modal::NewTask));
    assert_eq!(
        board.modal_view(),
        Some(Dialog::NewTask { title: String::new(), description: None })
    );
}

#[test]
fn typing_without_a_draft_is_ignored() {
    let mut board = board_with(vec![task(1, "a", "Done")]);
    board.update(Message::TaskTitleUpdated("A".to_string()));
    board.update(Message::TaskDescUpdated("words".to_string()));
    board.update(Message::OpenModal(Modal::NewTask));
    assert_eq!(
        board.modal_view(),
        Some(Dialog::NewTask { title: String::new(), description: None })
    );
    board.update(Message::CloseModal);
    board.update(Message::OpenModal(Modal::ViewTask(1)));
    board.update(Message::TaskTitleUpdated("A".to_string()));
    board.update(Message::OpenModal(Modal::EditTask(1)));
    assert_eq!(
        board.modal_view(),
        Some(Dialog::EditTask { task_id: 1, title: "a".to_string(), description: None })
    );
}

#[test]
fn no_message_changes_the_lanes() {
    let mut board = board_with(vec![task(1, "a", "To do")]);
    let msgs = vec![
        Message::CreateTask("A".to_string(), None),
        Message::AdvanceLane(1),
        Message::MoveToLane("Done".to_string(), 1),
        Message::RemoveTask(1),
        Message::OpenModal(Modal::NewTask),
        Message::Submit,
        Message::OpenBacklog,
        Message::NoOp,
        Message::TasksLoaded(Ok(vec![])),
    ];
    for msg in msgs {
        board.update(msg);
        assert_eq!(board.lanes().lane_names(), &lanes());
    }
}

#[test]
fn open_backlog_and_no_op_ask_for_nothing() {
    let mut board = board_with(vec![task(1, "a", "To do")]);
    assert_eq!(board.update(Message::OpenBacklog), Effect::Nothing);
    assert_eq!(board.update(Message::NoOp), Effect::Nothing);
    assert_eq!(board.tasks(), &vec![task(1, "a", "To do")]);
    assert_eq!(board.modal(), None);
}

#[test]
fn message_clone_is_equal() {
    let msgs = vec![
        Message::TasksLoaded(Ok(vec![task(1, "a", "To do")])),
        Message::TasksLoaded(Err("got db err".to_string())),
        Message::EditTask(3, "t".to_string(), Some("d".to_string())),
        Message::MoveToLane("Done".to_string(), 4),
        Message::TaskInserted(Err("no".to_string())),
        Message::Submit,
    ];
    for msg in msgs {
        assert_eq!(msg.clone(), msg);
    }
}

#[test]
fn untouched_edit_dialog_changes_nothing() {
    let with_text = Task {
        id: 2,
        title: "b".to_string(),
        description: Some("words".to_string()),
        lane: "To do".to_string(),
    };
    let all = vec![task(1, "a", "Done"), with_text.clone()];
    let mut board = board_with(all.clone());
    board.update(Message::OpenModal(Modal::ViewTask(1)));
    board.update(Message::OpenModal(Modal::EditTask(1)));
    assert_eq!(board.update(Message::Submit), Effect::UpdateTask(task(1, "a", "Done")));
    assert_eq!(board.tasks(), &all);
    assert_eq!(board.tasks()[0].description, None);
    assert_eq!(board.modal(), None);
    board.update(Message::OpenModal(Modal::ViewTask(2)));
    board.update(Message::OpenModal(Modal::EditTask(2)));
    assert_eq!(board.update(Message::Submit), Effect::UpdateTask(with_text));
    assert_eq!(board.tasks(), &all);
}

#[test]
fn untouched_create_dialog_asks_for_a_task_without_description() {
    let mut board = ViewController::new(lanes());
    board.update(Message::OpenModal(Modal::NewTask));
    assert_eq!(
        board.update(Message::Submit),
        Effect::InsertTask(NewTask::new(String::new(), None, "To do".to_string()))
    );
    assert_eq!(board.modal(), None);
}

#[test]
fn typed_description_replaces_a_missing_one() {
    let mut board = board_with(vec![task(1, "a", "Done")]);
    board.update(Message::OpenModal(Modal::ViewTask(1)));
    board.update(Message::OpenModal(Modal::EditTask(1)));
    board.update(Message::TaskDescUpdated(String::new()));
    assert_eq!(
        board.modal_view(),
        Some(Dialog::EditTask {
            task_id: 1,
            title: "a".to_string(),
            description: Some(String::new())
        })
    );
    board.update(Message::TaskDescUpdated("words".to_string()));
    let edited = Task {
        id: 1,
        title: "a".to_string(),
        description: Some("words".to_string()),
        lane: "Done".to_string(),
    };
    assert_eq!(board.update(Message::Submit), Effect::UpdateTask(edited.clone()));
    assert_eq!(board.tasks(), &vec![edited]);
}
